//! The description of one option, and the fields of its line.

use vstd::prelude::*;
use crate::grapheme::{count_graphemes, lemma_grapheme_count_positive};
use crate::model::{measured_width, OptArgView, OptView, WIDTH_CAP};
use crate::sink::tab;

verus! {

/// The argument that an option takes.
#[allow(non_snake_case)]
pub struct OptArg<'s> {
    /// The argument may be left out.
    pub optional: bool,
    /// The placeholder shown behind `=`. It should be normalized and made of
    /// graphemes one column wide; it is measured up to `WIDTH_CAP` graphemes.
    pub NAME: &'s str,
}

/// One option. `key` is the caller's own tag for it; rendering never reads it.
pub struct Opt<'s, O> {
    pub key: O,
    /// The long name, or the empty string where the option has none. It
    /// should be normalized and made of graphemes one column wide; it is
    /// measured up to `WIDTH_CAP` graphemes.
    pub long: &'s str,
    /// The short name, a `char` that is a grapheme of its own, one column
    /// wide.
    pub short: Option<char>,
    pub arg: Option<OptArg<'s>>,
    /// The description shown behind the names, or the empty string.
    pub doc: &'s str,
}

impl<'s> View for OptArg<'s> {
    type V = OptArgView;

    open spec fn view(&self) -> OptArgView {
        OptArgView { optional: self.optional, name: self.NAME@ }
    }
}

impl<'s, O> View for Opt<'s, O> {
    type V = OptView;

    open spec fn view(&self) -> OptView {
        OptView {
            long: self.long@,
            short: self.short,
            arg: match self.arg {
                Some(a) => Some(a@),
                None => None,
            },
            doc: self.doc@,
        }
    }
}

/// The width at which `s` is measured for alignment.
pub fn width_of(s: &str) -> (w: usize)
    ensures
        w == measured_width(s@),
{
    count_graphemes(s, WIDTH_CAP)
}

impl<'s, O> Opt<'s, O> {
    /// The measured width of the long name and the argument.
    pub fn long_length(&self) -> (n: usize)
        ensures
            n == self@.long_length(),
    {
        let long: usize = width_of(self.long);
        match &self.arg {
            Some(arg) => long + (1 + width_of(arg.NAME)),
            None => long,
        }
    }

    /// Appends the long field to `f`: `long_opt`, the long name, and `=` and
    /// the argument's name where there is an argument.
    pub fn print_long(&self, long_opt: &str, f: &mut String)
        ensures
            final(f)@ == old(f)@ + self@.long_field(long_opt@),
    {
        f.append(long_opt);
        f.append(self.long);
        match &self.arg {
            Some(arg) => {
                f.push('=');
                f.append(arg.NAME);
            },
            None => {},
        }
    }

    /// Appends the short field to `f`: `short_opt` and the short name, or as
    /// many spaces as the two would take columns.
    pub fn print_short(&self, short_opt: &str, f: &mut String)
        ensures
            final(f)@ == old(f)@ + self@.short_field(short_opt@),
    {
        match self.short {
            Some(short) => {
                f.append(short_opt);
                f.push(short);
            },
            None => {
                let chars: usize = short_opt.unicode_len();
                proof {
                    lemma_grapheme_count_positive(short_opt@);
                }
                tab(count_graphemes(short_opt, chars), f);
                f.push(' ');
            },
        }
    }

    /// Appends `", "` to `f` where the option has both a short and a long
    /// name, and says whether it did.
    pub fn print_comma_between_short_and_long(&self, f: &mut String) -> (printed: bool)
        ensures
            printed == self@.comma_printed(),
            printed ==> final(f)@ == old(f)@ + seq![',', ' '],
            !printed ==> final(f)@ == old(f)@,
    {
        if self.short.is_some() && !self.long.is_empty() {
            f.push(',');
            f.push(' ');
            true
        } else {
            false
        }
    }
}

} // verus!
