//! Graphemes: the units in which the width of a text is counted.
//!
//! A grapheme is one char together with the combining marks and joiners that
//! follow it: `g` followed by U+0308 is one grapheme, one column wide. Texts
//! should be normalized, and each grapheme of theirs one column wide.

use vstd::prelude::*;
use crate::marks::{is_mark, mark};

verus! {

/// `c` never starts a grapheme behind another char: it is a combining mark,
/// the zero width non-joiner or the zero width joiner.
pub open spec fn extends_grapheme(c: char) -> bool {
    is_mark(c as u32) || c == '\u{200C}' || c == '\u{200D}'
}

/// A grapheme starts at index `i` of `s`: at the first char of `s`, and at
/// every later char that does not extend the grapheme before it.
pub open spec fn starts_grapheme(s: Seq<char>, i: int) -> bool {
    i == 0 || !extends_grapheme(s[i])
}

/// The number of graphemes of `s`: the number of chars of `s` at which a
/// grapheme starts.
pub open spec fn grapheme_count(s: Seq<char>) -> nat
    decreases s.len(),
{
    if s.len() == 0 {
        0
    } else if starts_grapheme(s, s.len() - 1) {
        grapheme_count(s.drop_last()) + 1
    } else {
        grapheme_count(s.drop_last())
    }
}

/// `s` does not begin in the middle of a grapheme: it is empty, or its
/// first char is none that extends a grapheme.
pub open spec fn is_whole(s: Seq<char>) -> bool {
    s.len() > 0 ==> !extends_grapheme(s[0])
}

/// Tells whether `c` extends the grapheme before it.
pub fn extends(c: char) -> (b: bool)
    ensures
        b == extends_grapheme(c),
{
    mark(c as u32) || c == '\u{200C}' || c == '\u{200D}'
}

/// Counts the graphemes of `s` up to `cap`: the result is the number of
/// graphemes of `s`, or `cap` where `s` has more.
pub fn count_graphemes(s: &str, cap: usize) -> (n: usize)
    ensures
        n == if grapheme_count(s@) <= cap {
            grapheme_count(s@)
        } else {
            cap as nat
        },
{
    let mut n: usize = 0;
    let mut first = true;
    for c in it: s.chars()
        invariant
            it.seq() == s@,
            first == (it.index() == 0),
            n == if grapheme_count(s@.take(it.index())) <= cap {
                grapheme_count(s@.take(it.index()))
            } else {
                cap as nat
            },
    {
        proof {
            assert(s@.take(it.index() + 1).drop_last() == s@.take(it.index()));
        }
        if n < cap && (first || !extends(c)) {
            n = n + 1;
        }
        first = false;
    }
    proof {
        assert(s@.take(s@.len() as int) == s@);
    }
    n
}

/// A text without chars has no grapheme, and any other has one at least.
pub proof fn lemma_grapheme_count_positive(s: Seq<char>)
    ensures
        s.len() == 0 <==> grapheme_count(s) == 0,
        grapheme_count(s) <= s.len(),
    decreases s.len(),
{
    if s.len() > 0 {
        lemma_grapheme_count_positive(s.drop_last());
    }
}

/// The graphemes of two texts put together are those of the first and those
/// of the second, where the second is whole.
pub proof fn lemma_grapheme_count_concat(a: Seq<char>, b: Seq<char>)
    requires
        is_whole(b),
    ensures
        grapheme_count(a + b) == grapheme_count(a) + grapheme_count(b),
    decreases b.len(),
{
    if b.len() == 0 {
        assert(a + b == a);
    } else {
        assert((a + b).drop_last() == a + b.drop_last());
        if b.len() > 1 {
            lemma_grapheme_count_concat(a, b.drop_last());
        } else {
            assert(a + b.drop_last() == a);
            assert(grapheme_count(b.drop_last()) == 0);
        }
    }
}

/// A run of chars of which none extends a grapheme has one grapheme for each
/// char.
pub proof fn lemma_grapheme_count_plain(s: Seq<char>)
    requires
        forall|i: int| 0 <= i < s.len() ==> !extends_grapheme(#[trigger] s[i]),
    ensures
        grapheme_count(s) == s.len(),
    decreases s.len(),
{
    if s.len() > 0 {
        lemma_grapheme_count_plain(s.drop_last());
    }
}

} // verus!
