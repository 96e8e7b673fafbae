//! The whole description, and the rendering of its usage text.

use vstd::prelude::*;
use crate::laws::lemma_long_length_within_max;
use crate::model::{max_long_length, render_lines, spaces, ArgsView};
use crate::opt::Opt;
use crate::sink::tab;

verus! {

/// The options of a program in display order, its name, and every piece of
/// wording that the usage text is put together from.
#[allow(non_snake_case)]
pub struct Args<'o, 's, O> {
    pub opts: &'o [Opt<'s, O>],
    /// The program's name.
    pub prog: &'s str,
    /// The word that stands for any option in the synopsis.
    pub OPTION: &'s str,
    /// The word that opens the synopsis.
    pub Usage: &'s str,
    /// The sentence shown where some option has a mandatory argument.
    pub Mandatory_arguments_to_long_options_are_mandatory_for_short_options_too_: &'s str,
    pub newline: &'s str,
    /// What the program does, shown under the synopsis, or the empty string.
    pub Doc_: &'s str,
    /// The prefix of a short name. It should be normalized and made of
    /// graphemes one column wide.
    pub short_opt: &'s str,
    /// The prefix of a long name. It should be normalized and made of
    /// graphemes one column wide.
    pub long_opt: &'s str,
}

/// The usage text of a description, not yet written out.
pub struct ArgsUsage<'a, 'o, 's, O>(&'a Args<'o, 's, O>);

impl<'o, 's, O> View for Args<'o, 's, O> {
    type V = ArgsView;

    open spec fn view(&self) -> ArgsView {
        ArgsView {
            opts: self.opts@.map_values(|o: Opt<'s, O>| o@),
            prog: self.prog@,
            option_word: self.OPTION@,
            usage_word: self.Usage@,
            mandatory_notice:
                self.Mandatory_arguments_to_long_options_are_mandatory_for_short_options_too_@,
            newline: self.newline@,
            leading_doc: self.Doc_@,
            short_opt: self.short_opt@,
            long_opt: self.long_opt@,
        }
    }
}

impl<'a, 'o, 's, O> View for ArgsUsage<'a, 'o, 's, O> {
    type V = ArgsView;

    closed spec fn view(&self) -> ArgsView {
        self.0@
    }
}

impl<'o, 's, O> Args<'o, 's, O> {
    /// The usage text of this description.
    pub fn usage<'a>(&'a self) -> (u: ArgsUsage<'a, 'o, 's, O>)
        ensures
            u@ == self@,
    {
        ArgsUsage(self)
    }

    /// The greatest measured width of a long name with its argument, and 0
    /// where there is no option.
    pub fn column_width(&self) -> (w: usize)
        ensures
            w == self@.column_width(),
    {
        let mut w: usize = 0;
        let mut i: usize = 0;
        while i < self.opts.len()
            invariant
                i <= self.opts@.len(),
                w == max_long_length(self@.opts.take(i as int)),
            decreases self.opts@.len() - i,
        {
            let n: usize = self.opts[i].long_length();
            proof {
                assert(self@.opts.take(i + 1).drop_last() == self@.opts.take(i as int));
            }
            if w < n {
                w = n;
            }
            i = i + 1;
        }
        proof {
            assert(self@.opts.take(i as int) == self@.opts);
        }
        w
    }

    /// Whether some option has an argument that may not be left out.
    pub fn has_mandatory(&self) -> (b: bool)
        ensures
            b == self@.has_mandatory(),
    {
        let mut i: usize = 0;
        while i < self.opts.len()
            invariant
                i <= self.opts@.len(),
                forall|j: int|
                    0 <= j < i ==> !(#[trigger] self@.opts[j]).takes_mandatory_argument(),
            decreases self.opts@.len() - i,
        {
            match &self.opts[i].arg {
                Some(arg) => {
                    if !arg.optional {
                        assert(self@.opts[i as int].takes_mandatory_argument());
                        return true;
                    }
                },
                None => {},
            }
            i = i + 1;
        }
        false
    }
}

impl<'a, 'o, 's, O> ArgsUsage<'a, 'o, 's, O> {
    /// Appends the usage text to `f`.
    pub fn fmt(&self, f: &mut String)
        ensures
            final(f)@ == old(f)@ + self@.text(),
    {
        let args = self.0;
        let ghost v = args@;
        f.append(args.Usage);
        f.append(": ");
        f.append(args.prog);
        if !args.opts.is_empty() {
            f.append(" [");
            f.append(args.OPTION);
            f.append("]...");
        }
        if !args.Doc_.is_empty() {
            f.append(args.newline);
            f.append(args.Doc_);
        }
        f.append(args.newline);
        proof {
            reveal_strlit(": ");
            reveal_strlit(" [");
            reveal_strlit("]...");
            assert(f@ == old(f)@ + v.header());
        }
        if !args.opts.is_empty() {
            let long_len: usize = args.column_width();
            f.append(args.newline);
            if args.has_mandatory() {
                f.append(
                    args.Mandatory_arguments_to_long_options_are_mandatory_for_short_options_too_,
                );
                f.append(args.newline);
                f.append(args.newline);
            }
            let ghost base = f@;
            let mut i: usize = 0;
            while i < args.opts.len()
                invariant
                    i <= args.opts@.len(),
                    v == args@,
                    long_len == v.column_width(),
                    f@ == base + render_lines(
                        v.opts.take(i as int),
                        v.short_opt,
                        v.long_opt,
                        v.newline,
                        long_len as nat,
                    ),
                decreases args.opts@.len() - i,
            {
                let opt = &args.opts[i];
                let ghost before = f@;
                f.append("  ");
                opt.print_short(args.short_opt, f);
                let comma_printed = opt.print_comma_between_short_and_long(f);
                if !comma_printed && (!opt.long.is_empty() || !opt.doc.is_empty()) {
                    f.append("  ");
                }
                opt.print_long(args.long_opt, f);
                if !opt.doc.is_empty() {
                    let own: usize = opt.long_length();
                    proof {
                        lemma_long_length_within_max(v.opts, i as int);
                    }
                    tab(long_len - own, f);
                    f.push(' ');
                    f.append(opt.doc);
                }
                f.append(args.newline);
                proof {
                    reveal_strlit("  ");
                    assert("  "@ == spaces(2));
                    assert(v.opts.take(i + 1).drop_last() == v.opts.take(i as int));
                    assert(f@ == before + opt@.line(
                        v.short_opt,
                        v.long_opt,
                        v.newline,
                        long_len as nat,
                    ));
                }
                i = i + 1;
            }
            proof {
                assert(v.opts.take(i as int) == v.opts);
            }
        }
    }

    /// The usage text as a string of its own.
    pub fn to_string(&self) -> (s: String)
        ensures
            s@ == self@.text(),
    {
        let mut s = String::new();
        self.fmt(&mut s);
        s
    }
}

} // verus!
