//! The mathematical model: what a usage text is, as a function of the
//! description it is rendered from.
//!
//! Texts are sequences of `char`. Widths and columns are counted in
//! graphemes, each of which takes one column.

use vstd::prelude::*;
use crate::grapheme::{extends_grapheme, grapheme_count, is_whole};

verus! {

/// The widest a name is ever measured for alignment, in graphemes. A longer
/// name is still printed in full; it only counts as this wide.
pub const WIDTH_CAP: usize = 256;

/// A run of `n` spaces.
pub open spec fn spaces(n: nat) -> Seq<char> {
    Seq::new(n, |i: int| ' ')
}

/// The width at which `s` is measured for alignment: the number of its
/// graphemes, capped at `WIDTH_CAP`.
pub open spec fn measured_width(s: Seq<char>) -> nat {
    if grapheme_count(s) <= WIDTH_CAP {
        grapheme_count(s)
    } else {
        WIDTH_CAP as nat
    }
}

/// What rendering reads of an option's argument.
pub struct OptArgView {
    pub optional: bool,
    pub name: Seq<char>,
}

/// What rendering reads of an option. The caller's key is not part of it.
pub struct OptView {
    pub long: Seq<char>,
    pub short: Option<char>,
    pub arg: Option<OptArgView>,
    pub doc: Seq<char>,
}

/// What rendering reads of a whole description: the options in display order
/// and every piece of wording.
pub struct ArgsView {
    pub opts: Seq<OptView>,
    pub prog: Seq<char>,
    pub option_word: Seq<char>,
    pub usage_word: Seq<char>,
    pub mandatory_notice: Seq<char>,
    pub newline: Seq<char>,
    pub leading_doc: Seq<char>,
    pub short_opt: Seq<char>,
    pub long_opt: Seq<char>,
}

impl OptView {
    /// The measured width of the long form together with its argument: the
    /// long name, and `=` and the argument's name where there is an argument.
    pub open spec fn long_length(self) -> nat {
        measured_width(self.long) + match self.arg {
            Some(a) => 1 + measured_width(a.name),
            None => 0,
        }
    }

    /// The columns that the long name and the argument really take when
    /// printed.
    pub open spec fn printed_length(self) -> nat {
        grapheme_count(self.long) + match self.arg {
            Some(a) => 1 + grapheme_count(a.name),
            None => 0,
        }
    }

    /// No name of this option has more graphemes than the cap, so that it is
    /// measured as wide as it is printed.
    pub open spec fn within_cap(self) -> bool {
        &&& grapheme_count(self.long) <= WIDTH_CAP
        &&& self.arg matches Some(a) ==> grapheme_count(a.name) <= WIDTH_CAP
    }

    /// No text of this option begins in the middle of a grapheme, and the
    /// short name is a grapheme of its own.
    pub open spec fn well_formed(self) -> bool {
        &&& is_whole(self.long)
        &&& self.short matches Some(c) ==> !extends_grapheme(c)
        &&& self.arg matches Some(a) ==> is_whole(a.name)
    }

    /// The option has an argument that may not be left out.
    pub open spec fn takes_mandatory_argument(self) -> bool {
        self.arg matches Some(a) && !a.optional
    }

    /// The short form behind its prefix, or as many spaces as the two would
    /// take columns.
    pub open spec fn short_field(self, short_opt: Seq<char>) -> Seq<char> {
        match self.short {
            Some(c) => short_opt.push(c),
            None => spaces(grapheme_count(short_opt) + 1),
        }
    }

    /// A comma stands between the short and the long form: both are there.
    pub open spec fn comma_printed(self) -> bool {
        self.short is Some && self.long.len() > 0
    }

    /// What stands between the short and the long field: a comma and a space,
    /// or two spaces in their place where a long form or a documentation
    /// follows, or nothing.
    pub open spec fn connective(self) -> Seq<char> {
        if self.comma_printed() {
            seq![',', ' ']
        } else if self.long.len() > 0 || self.doc.len() > 0 {
            spaces(2)
        } else {
            Seq::empty()
        }
    }

    /// The long form behind its prefix, then `=` and the argument's name
    /// where there is an argument.
    pub open spec fn long_field(self, long_opt: Seq<char>) -> Seq<char> {
        long_opt + self.long + match self.arg {
            Some(a) => seq!['='] + a.name,
            None => Seq::empty(),
        }
    }

    /// The documentation, moved right to the column `column_width`, or
    /// nothing where there is no documentation.
    pub open spec fn doc_field(self, column_width: nat) -> Seq<char>
        recommends
            self.long_length() <= column_width,
    {
        if self.doc.len() > 0 {
            spaces((column_width - self.long_length()) as nat) + seq![' '] + self.doc
        } else {
            Seq::empty()
        }
    }

    /// The number of chars that stand before the documentation in the line
    /// of this option.
    pub open spec fn doc_start(
        self,
        short_opt: Seq<char>,
        long_opt: Seq<char>,
        column_width: nat,
    ) -> nat
        recommends
            self.long_length() <= column_width,
    {
        (2 + self.short_field(short_opt).len() + self.connective().len() + self.long_field(
            long_opt,
        ).len() + (column_width - self.long_length()) + 1) as nat
    }

    /// The whole line of this option, newline included.
    pub open spec fn line(
        self,
        short_opt: Seq<char>,
        long_opt: Seq<char>,
        newline: Seq<char>,
        column_width: nat,
    ) -> Seq<char>
        recommends
            self.long_length() <= column_width,
    {
        spaces(2) + self.short_field(short_opt) + self.connective() + self.long_field(long_opt)
            + self.doc_field(column_width) + newline
    }
}

/// The greatest `long_length` among `opts`, and 0 where there is none.
pub open spec fn max_long_length(opts: Seq<OptView>) -> nat
    decreases opts.len(),
{
    if opts.len() == 0 {
        0
    } else {
        let rest = max_long_length(opts.drop_last());
        let last = opts.last().long_length();
        if rest < last {
            last
        } else {
            rest
        }
    }
}

/// The lines of `opts`, one behind the other in the order of `opts`.
pub open spec fn render_lines(
    opts: Seq<OptView>,
    short_opt: Seq<char>,
    long_opt: Seq<char>,
    newline: Seq<char>,
    column_width: nat,
) -> Seq<char>
    decreases opts.len(),
{
    if opts.len() == 0 {
        Seq::empty()
    } else {
        render_lines(opts.drop_last(), short_opt, long_opt, newline, column_width)
            + opts.last().line(short_opt, long_opt, newline, column_width)
    }
}

impl ArgsView {
    /// The column at which every documentation starts, counted from the
    /// start of the long name.
    pub open spec fn column_width(self) -> nat {
        max_long_length(self.opts)
    }

    /// The column of its line at which the documentation of an option stands
    /// whose names are within the cap: behind the two leading spaces, the
    /// short field, the connective, the long prefix, the column width and one
    /// space.
    pub open spec fn doc_column(self) -> nat {
        2 + (grapheme_count(self.short_opt) + 1) + 2 + grapheme_count(self.long_opt)
            + self.column_width() + 1
    }

    /// Some option has an argument that may not be left out.
    pub open spec fn has_mandatory(self) -> bool {
        exists|i: int|
            0 <= i < self.opts.len() && #[trigger] self.opts[i].takes_mandatory_argument()
    }

    /// The synopsis, the leading documentation where there is one, and the
    /// newline that closes them.
    pub open spec fn header(self) -> Seq<char> {
        self.usage_word + seq![':', ' '] + self.prog + (if self.opts.len() > 0 {
            seq![' ', '['] + self.option_word + seq![']', '.', '.', '.']
        } else {
            Seq::empty()
        }) + (if self.leading_doc.len() > 0 {
            self.newline + self.leading_doc
        } else {
            Seq::empty()
        }) + self.newline
    }

    /// The notice on mandatory arguments with the empty line behind it, or
    /// nothing where no option has such an argument.
    pub open spec fn notice(self) -> Seq<char> {
        if self.has_mandatory() {
            self.mandatory_notice + self.newline + self.newline
        } else {
            Seq::empty()
        }
    }

    /// The lines of all options.
    pub open spec fn option_lines(self) -> Seq<char> {
        render_lines(self.opts, self.short_opt, self.long_opt, self.newline, self.column_width())
    }

    /// The whole usage text. Without options it is the header alone; else
    /// an empty line, the notice and the options' lines follow.
    pub open spec fn text(self) -> Seq<char> {
        if self.opts.len() == 0 {
            self.header()
        } else {
            self.header() + self.newline + self.notice() + self.option_lines()
        }
    }
}

} // verus!
