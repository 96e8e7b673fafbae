use gnu_usage::grapheme::{count_graphemes, extends};
use gnu_usage::marks::mark;

#[test]
fn plain_chars_start_graphemes() {
    let plain = [' ', '-', '=', ',', 'a', 'Z', '0', 'é', 'ß', '\u{2ff}', '\u{370}', '語', '\u{10FFFF}'];
    for c in plain {
        assert!(!extends(c));
    }
}

#[test]
fn marks_and_joiners_extend_graphemes() {
    for c in [
        '\u{300}', '\u{308}', '\u{36F}', '\u{483}', '\u{5B8}', '\u{64B}', '\u{93E}', '\u{E31}',
        '\u{1AB0}', '\u{1DC0}', '\u{200C}', '\u{200D}', '\u{20D0}', '\u{20E3}', '\u{3099}',
        '\u{FE00}', '\u{FE0F}', '\u{FE20}', '\u{1E94A}', '\u{E0100}', '\u{E01EF}',
    ] {
        assert!(extends(c));
    }
}

#[test]
fn joiners_are_no_marks() {
    assert!(!mark(0x200C));
    assert!(!mark(0x200D));
    assert!(!mark(0x200B));
    assert!(!extends('\u{200B}'));
    assert!(!extends('\u{200E}'));
}

#[test]
fn mark_table_edges() {
    assert!(!mark(0));
    assert!(!mark(0x2FF));
    assert!(mark(0x300));
    assert!(mark(0x36F));
    assert!(!mark(0x370));
    assert!(mark(0x9FE));
    assert!(!mark(0x9FF));
    assert!(mark(0xA01));
    assert!(!mark(0xE00FF));
    assert!(mark(0xE0100));
    assert!(mark(0xE01EF));
    assert!(!mark(0xE01F0));
    assert!(!mark(0x10FFFF));
    assert!(!mark(u32::MAX));
}

#[test]
fn mark_table_holds_every_mark() {
    let mut marks = 0;
    let mut n = 0u32;
    while n <= 0x10FFFF {
        if mark(n) {
            marks += 1;
        }
        n += 1;
    }
    assert_eq!(marks, 2408);
}

#[test]
fn count_graphemes_counts_starts() {
    assert_eq!(count_graphemes("", 10), 0);
    assert_eq!(count_graphemes("abc", 10), 3);
    assert_eq!(count_graphemes("g\u{308}", 10), 1);
    assert_eq!(count_graphemes("g\u{308}\u{301}h", 10), 2);
    assert_eq!(count_graphemes("\u{308}", 10), 1);
    assert_eq!(count_graphemes("\u{308}\u{308}g", 10), 2);
    assert_eq!(count_graphemes("a\u{200D}b", 10), 2);
    assert_eq!(count_graphemes("größe", 10), 5);
}

#[test]
fn count_graphemes_stops_at_the_cap() {
    assert_eq!(count_graphemes("abc", 0), 0);
    assert_eq!(count_graphemes("abc", 2), 2);
    assert_eq!(count_graphemes("abc", 3), 3);
    assert_eq!(count_graphemes("a\u{301}b\u{301}c\u{301}", 2), 2);
    assert_eq!(count_graphemes("a\u{301}b\u{301}c\u{301}", usize::MAX), 3);
}
