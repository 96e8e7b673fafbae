//! Writing into the text that is being built.

use vstd::prelude::*;
use crate::model::spaces;

verus! {

/// `String::push` appends the given `char` to the end of the string and
/// leaves what was there untouched. This is taken from its documentation and
/// not proved. Like vstd for `Vec::push` and for its own string functions,
/// it leaves running out of memory aside.
pub assume_specification[ String::push ](s: &mut String, ch: char)
    ensures
        final(s)@ == old(s)@.push(ch),
;

/// Appends `n` spaces to `f`.
pub fn tab(n: usize, f: &mut String)
    ensures
        final(f)@ == old(f)@ + spaces(n as nat),
{
    let mut i: usize = 0;
    while i < n
        invariant
            i <= n,
            f@ == old(f)@ + spaces(i as nat),
        decreases n - i,
    {
        f.push(' ');
        i = i + 1;
    }
}

} // verus!
