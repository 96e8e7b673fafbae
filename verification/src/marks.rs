//! The combining marks of Unicode 14.0: the code points of general category
//! M (nonspacing, spacing and enclosing marks; the variation selectors are
//! among them). The table is written out twice, once as what is meant and
//! once as what runs, and the two are proved to agree.

use vstd::prelude::*;

verus! {

/// `n` is the code point of a combining mark.
pub open spec fn is_mark(n: u32) -> bool {
    if n < 0x0300 {
        false
    } else if n < 0x0A00 {
        marks_from_0300(n)
    } else if n < 0x0C00 {
        marks_from_0a00(n)
    } else if n < 0x0E00 {
        marks_from_0c00(n)
    } else if n < 0x1300 {
        marks_from_0e00(n)
    } else if n < 0x1C00 {
        marks_from_1300(n)
    } else if n < 0xA900 {
        marks_from_1c00(n)
    } else if n < 0x10A00 {
        marks_from_a900(n)
    } else if n < 0x11200 {
        marks_from_10a00(n)
    } else if n < 0x11A00 {
        marks_from_11200(n)
    } else if n < 0x1BC00 {
        marks_from_11a00(n)
    } else if n < 0x1E900 {
        marks_from_1bc00(n)
    } else {
        marks_from_1e900(n)
    }
}

/// Tells whether `n` is the code point of a combining mark.
pub fn mark(n: u32) -> (b: bool)
    ensures
        b == is_mark(n),
{
    if n < 0x0300 {
        false
    } else if n < 0x0A00 {
        in_marks_from_0300(n)
    } else if n < 0x0C00 {
        in_marks_from_0a00(n)
    } else if n < 0x0E00 {
        in_marks_from_0c00(n)
    } else if n < 0x1300 {
        in_marks_from_0e00(n)
    } else if n < 0x1C00 {
        in_marks_from_1300(n)
    } else if n < 0xA900 {
        in_marks_from_1c00(n)
    } else if n < 0x10A00 {
        in_marks_from_a900(n)
    } else if n < 0x11200 {
        in_marks_from_10a00(n)
    } else if n < 0x11A00 {
        in_marks_from_11200(n)
    } else if n < 0x1BC00 {
        in_marks_from_11a00(n)
    } else if n < 0x1E900 {
        in_marks_from_1bc00(n)
    } else {
        in_marks_from_1e900(n)
    }
}

/// The marks from U+0300 below U+0A00.
pub open spec fn marks_from_0300(n: u32) -> bool {
    (0x0300 <= n && n <= 0x036F)
    || (0x0483 <= n && n <= 0x0489)
    || (0x0591 <= n && n <= 0x05BD)
    || n == 0x05BF
    || (0x05C1 <= n && n <= 0x05C2)
    || (0x05C4 <= n && n <= 0x05C5)
    || n == 0x05C7
    || (0x0610 <= n && n <= 0x061A)
    || (0x064B <= n && n <= 0x065F)
    || n == 0x0670
    || (0x06D6 <= n && n <= 0x06DC)
    || (0x06DF <= n && n <= 0x06E4)
    || (0x06E7 <= n && n <= 0x06E8)
    || (0x06EA <= n && n <= 0x06ED)
    || n == 0x0711
    || (0x0730 <= n && n <= 0x074A)
    || (0x07A6 <= n && n <= 0x07B0)
    || (0x07EB <= n && n <= 0x07F3)
    || n == 0x07FD
    || (0x0816 <= n && n <= 0x0819)
    || (0x081B <= n && n <= 0x0823)
    || (0x0825 <= n && n <= 0x0827)
    || (0x0829 <= n && n <= 0x082D)
    || (0x0859 <= n && n <= 0x085B)
    || (0x0898 <= n && n <= 0x089F)
    || (0x08CA <= n && n <= 0x08E1)
    || (0x08E3 <= n && n <= 0x0903)
    || (0x093A <= n && n <= 0x093C)
    || (0x093E <= n && n <= 0x094F)
    || (0x0951 <= n && n <= 0x0957)
    || (0x0962 <= n && n <= 0x0963)
    || (0x0981 <= n && n <= 0x0983)
    || n == 0x09BC
    || (0x09BE <= n && n <= 0x09C4)
    || (0x09C7 <= n && n <= 0x09C8)
    || (0x09CB <= n && n <= 0x09CD)
    || n == 0x09D7
    || (0x09E2 <= n && n <= 0x09E3)
    || n == 0x09FE
}

fn in_marks_from_0300(n: u32) -> (b: bool)
    ensures
        b == marks_from_0300(n),
{
    (0x0300 <= n && n <= 0x036F)
    || (0x0483 <= n && n <= 0x0489)
    || (0x0591 <= n && n <= 0x05BD)
    || n == 0x05BF
    || (0x05C1 <= n && n <= 0x05C2)
    || (0x05C4 <= n && n <= 0x05C5)
    || n == 0x05C7
    || (0x0610 <= n && n <= 0x061A)
    || (0x064B <= n && n <= 0x065F)
    || n == 0x0670
    || (0x06D6 <= n && n <= 0x06DC)
    || (0x06DF <= n && n <= 0x06E4)
    || (0x06E7 <= n && n <= 0x06E8)
    || (0x06EA <= n && n <= 0x06ED)
    || n == 0x0711
    || (0x0730 <= n && n <= 0x074A)
    || (0x07A6 <= n && n <= 0x07B0)
    || (0x07EB <= n && n <= 0x07F3)
    || n == 0x07FD
    || (0x0816 <= n && n <= 0x0819)
    || (0x081B <= n && n <= 0x0823)
    || (0x0825 <= n && n <= 0x0827)
    || (0x0829 <= n && n <= 0x082D)
    || (0x0859 <= n && n <= 0x085B)
    || (0x0898 <= n && n <= 0x089F)
    || (0x08CA <= n && n <= 0x08E1)
    || (0x08E3 <= n && n <= 0x0903)
    || (0x093A <= n && n <= 0x093C)
    || (0x093E <= n && n <= 0x094F)
    || (0x0951 <= n && n <= 0x0957)
    || (0x0962 <= n && n <= 0x0963)
    || (0x0981 <= n && n <= 0x0983)
    || n == 0x09BC
    || (0x09BE <= n && n <= 0x09C4)
    || (0x09C7 <= n && n <= 0x09C8)
    || (0x09CB <= n && n <= 0x09CD)
    || n == 0x09D7
    || (0x09E2 <= n && n <= 0x09E3)
    || n == 0x09FE
}

/// The marks from U+0A00 below U+0C00.
pub open spec fn marks_from_0a00(n: u32) -> bool {
    (0x0A01 <= n && n <= 0x0A03)
    || n == 0x0A3C
    || (0x0A3E <= n && n <= 0x0A42)
    || (0x0A47 <= n && n <= 0x0A48)
    || (0x0A4B <= n && n <= 0x0A4D)
    || n == 0x0A51
    || (0x0A70 <= n && n <= 0x0A71)
    || n == 0x0A75
    || (0x0A81 <= n && n <= 0x0A83)
    || n == 0x0ABC
    || (0x0ABE <= n && n <= 0x0AC5)
    || (0x0AC7 <= n && n <= 0x0AC9)
    || (0x0ACB <= n && n <= 0x0ACD)
    || (0x0AE2 <= n && n <= 0x0AE3)
    || (0x0AFA <= n && n <= 0x0AFF)
    || (0x0B01 <= n && n <= 0x0B03)
    || n == 0x0B3C
    || (0x0B3E <= n && n <= 0x0B44)
    || (0x0B47 <= n && n <= 0x0B48)
    || (0x0B4B <= n && n <= 0x0B4D)
    || (0x0B55 <= n && n <= 0x0B57)
    || (0x0B62 <= n && n <= 0x0B63)
    || n == 0x0B82
    || (0x0BBE <= n && n <= 0x0BC2)
    || (0x0BC6 <= n && n <= 0x0BC8)
    || (0x0BCA <= n && n <= 0x0BCD)
    || n == 0x0BD7
}

fn in_marks_from_0a00(n: u32) -> (b: bool)
    ensures
        b == marks_from_0a00(n),
{
    (0x0A01 <= n && n <= 0x0A03)
    || n == 0x0A3C
    || (0x0A3E <= n && n <= 0x0A42)
    || (0x0A47 <= n && n <= 0x0A48)
    || (0x0A4B <= n && n <= 0x0A4D)
    || n == 0x0A51
    || (0x0A70 <= n && n <= 0x0A71)
    || n == 0x0A75
    || (0x0A81 <= n && n <= 0x0A83)
    || n == 0x0ABC
    || (0x0ABE <= n && n <= 0x0AC5)
    || (0x0AC7 <= n && n <= 0x0AC9)
    || (0x0ACB <= n && n <= 0x0ACD)
    || (0x0AE2 <= n && n <= 0x0AE3)
    || (0x0AFA <= n && n <= 0x0AFF)
    || (0x0B01 <= n && n <= 0x0B03)
    || n == 0x0B3C
    || (0x0B3E <= n && n <= 0x0B44)
    || (0x0B47 <= n && n <= 0x0B48)
    || (0x0B4B <= n && n <= 0x0B4D)
    || (0x0B55 <= n && n <= 0x0B57)
    || (0x0B62 <= n && n <= 0x0B63)
    || n == 0x0B82
    || (0x0BBE <= n && n <= 0x0BC2)
    || (0x0BC6 <= n && n <= 0x0BC8)
    || (0x0BCA <= n && n <= 0x0BCD)
    || n == 0x0BD7
}

/// The marks from U+0C00 below U+0E00.
pub open spec fn marks_from_0c00(n: u32) -> bool {
    (0x0C00 <= n && n <= 0x0C04)
    || n == 0x0C3C
    || (0x0C3E <= n && n <= 0x0C44)
    || (0x0C46 <= n && n <= 0x0C48)
    || (0x0C4A <= n && n <= 0x0C4D)
    || (0x0C55 <= n && n <= 0x0C56)
    || (0x0C62 <= n && n <= 0x0C63)
    || (0x0C81 <= n && n <= 0x0C83)
    || n == 0x0CBC
    || (0x0CBE <= n && n <= 0x0CC4)
    || (0x0CC6 <= n && n <= 0x0CC8)
    || (0x0CCA <= n && n <= 0x0CCD)
    || (0x0CD5 <= n && n <= 0x0CD6)
    || (0x0CE2 <= n && n <= 0x0CE3)
    || (0x0D00 <= n && n <= 0x0D03)
    || (0x0D3B <= n && n <= 0x0D3C)
    || (0x0D3E <= n && n <= 0x0D44)
    || (0x0D46 <= n && n <= 0x0D48)
    || (0x0D4A <= n && n <= 0x0D4D)
    || n == 0x0D57
    || (0x0D62 <= n && n <= 0x0D63)
    || (0x0D81 <= n && n <= 0x0D83)
    || n == 0x0DCA
    || (0x0DCF <= n && n <= 0x0DD4)
    || n == 0x0DD6
    || (0x0DD8 <= n && n <= 0x0DDF)
    || (0x0DF2 <= n && n <= 0x0DF3)
}

fn in_marks_from_0c00(n: u32) -> (b: bool)
    ensures
        b == marks_from_0c00(n),
{
    (0x0C00 <= n && n <= 0x0C04)
    || n == 0x0C3C
    || (0x0C3E <= n && n <= 0x0C44)
    || (0x0C46 <= n && n <= 0x0C48)
    || (0x0C4A <= n && n <= 0x0C4D)
    || (0x0C55 <= n && n <= 0x0C56)
    || (0x0C62 <= n && n <= 0x0C63)
    || (0x0C81 <= n && n <= 0x0C83)
    || n == 0x0CBC
    || (0x0CBE <= n && n <= 0x0CC4)
    || (0x0CC6 <= n && n <= 0x0CC8)
    || (0x0CCA <= n && n <= 0x0CCD)
    || (0x0CD5 <= n && n <= 0x0CD6)
    || (0x0CE2 <= n && n <= 0x0CE3)
    || (0x0D00 <= n && n <= 0x0D03)
    || (0x0D3B <= n && n <= 0x0D3C)
    || (0x0D3E <= n && n <= 0x0D44)
    || (0x0D46 <= n && n <= 0x0D48)
    || (0x0D4A <= n && n <= 0x0D4D)
    || n == 0x0D57
    || (0x0D62 <= n && n <= 0x0D63)
    || (0x0D81 <= n && n <= 0x0D83)
    || n == 0x0DCA
    || (0x0DCF <= n && n <= 0x0DD4)
    || n == 0x0DD6
    || (0x0DD8 <= n && n <= 0x0DDF)
    || (0x0DF2 <= n && n <= 0x0DF3)
}

/// The marks from U+0E00 below U+1300.
pub open spec fn marks_from_0e00(n: u32) -> bool {
    n == 0x0E31
    || (0x0E34 <= n && n <= 0x0E3A)
    || (0x0E47 <= n && n <= 0x0E4E)
    || n == 0x0EB1
    || (0x0EB4 <= n && n <= 0x0EBC)
    || (0x0EC8 <= n && n <= 0x0ECD)
    || (0x0F18 <= n && n <= 0x0F19)
    || n == 0x0F35
    || n == 0x0F37
    || n == 0x0F39
    || (0x0F3E <= n && n <= 0x0F3F)
    || (0x0F71 <= n && n <= 0x0F84)
    || (0x0F86 <= n && n <= 0x0F87)
    || (0x0F8D <= n && n <= 0x0F97)
    || (0x0F99 <= n && n <= 0x0FBC)
    || n == 0x0FC6
    || (0x102B <= n && n <= 0x103E)
    || (0x1056 <= n && n <= 0x1059)
    || (0x105E <= n && n <= 0x1060)
    || (0x1062 <= n && n <= 0x1064)
    || (0x1067 <= n && n <= 0x106D)
    || (0x1071 <= n && n <= 0x1074)
    || (0x1082 <= n && n <= 0x108D)
    || n == 0x108F
    || (0x109A <= n && n <= 0x109D)
}

fn in_marks_from_0e00(n: u32) -> (b: bool)
    ensures
        b == marks_from_0e00(n),
{
    n == 0x0E31
    || (0x0E34 <= n && n <= 0x0E3A)
    || (0x0E47 <= n && n <= 0x0E4E)
    || n == 0x0EB1
    || (0x0EB4 <= n && n <= 0x0EBC)
    || (0x0EC8 <= n && n <= 0x0ECD)
    || (0x0F18 <= n && n <= 0x0F19)
    || n == 0x0F35
    || n == 0x0F37
    || n == 0x0F39
    || (0x0F3E <= n && n <= 0x0F3F)
    || (0x0F71 <= n && n <= 0x0F84)
    || (0x0F86 <= n && n <= 0x0F87)
    || (0x0F8D <= n && n <= 0x0F97)
    || (0x0F99 <= n && n <= 0x0FBC)
    || n == 0x0FC6
    || (0x102B <= n && n <= 0x103E)
    || (0x1056 <= n && n <= 0x1059)
    || (0x105E <= n && n <= 0x1060)
    || (0x1062 <= n && n <= 0x1064)
    || (0x1067 <= n && n <= 0x106D)
    || (0x1071 <= n && n <= 0x1074)
    || (0x1082 <= n && n <= 0x108D)
    || n == 0x108F
    || (0x109A <= n && n <= 0x109D)
}

/// The marks from U+1300 below U+1C00.
pub open spec fn marks_from_1300(n: u32) -> bool {
    (0x135D <= n && n <= 0x135F)
    || (0x1712 <= n && n <= 0x1715)
    || (0x1732 <= n && n <= 0x1734)
    || (0x1752 <= n && n <= 0x1753)
    || (0x1772 <= n && n <= 0x1773)
    || (0x17B4 <= n && n <= 0x17D3)
    || n == 0x17DD
    || (0x180B <= n && n <= 0x180D)
    || n == 0x180F
    || (0x1885 <= n && n <= 0x1886)
    || n == 0x18A9
    || (0x1920 <= n && n <= 0x192B)
    || (0x1930 <= n && n <= 0x193B)
    || (0x1A17 <= n && n <= 0x1A1B)
    || (0x1A55 <= n && n <= 0x1A5E)
    || (0x1A60 <= n && n <= 0x1A7C)
    || n == 0x1A7F
    || (0x1AB0 <= n && n <= 0x1ACE)
    || (0x1B00 <= n && n <= 0x1B04)
    || (0x1B34 <= n && n <= 0x1B44)
    || (0x1B6B <= n && n <= 0x1B73)
    || (0x1B80 <= n && n <= 0x1B82)
    || (0x1BA1 <= n && n <= 0x1BAD)
    || (0x1BE6 <= n && n <= 0x1BF3)
}

fn in_marks_from_1300(n: u32) -> (b: bool)
    ensures
        b == marks_from_1300(n),
{
    (0x135D <= n && n <= 0x135F)
    || (0x1712 <= n && n <= 0x1715)
    || (0x1732 <= n && n <= 0x1734)
    || (0x1752 <= n && n <= 0x1753)
    || (0x1772 <= n && n <= 0x1773)
    || (0x17B4 <= n && n <= 0x17D3)
    || n == 0x17DD
    || (0x180B <= n && n <= 0x180D)
    || n == 0x180F
    || (0x1885 <= n && n <= 0x1886)
    || n == 0x18A9
    || (0x1920 <= n && n <= 0x192B)
    || (0x1930 <= n && n <= 0x193B)
    || (0x1A17 <= n && n <= 0x1A1B)
    || (0x1A55 <= n && n <= 0x1A5E)
    || (0x1A60 <= n && n <= 0x1A7C)
    || n == 0x1A7F
    || (0x1AB0 <= n && n <= 0x1ACE)
    || (0x1B00 <= n && n <= 0x1B04)
    || (0x1B34 <= n && n <= 0x1B44)
    || (0x1B6B <= n && n <= 0x1B73)
    || (0x1B80 <= n && n <= 0x1B82)
    || (0x1BA1 <= n && n <= 0x1BAD)
    || (0x1BE6 <= n && n <= 0x1BF3)
}

/// The marks from U+1C00 below U+A900.
pub open spec fn marks_from_1c00(n: u32) -> bool {
    (0x1C24 <= n && n <= 0x1C37)
    || (0x1CD0 <= n && n <= 0x1CD2)
    || (0x1CD4 <= n && n <= 0x1CE8)
    || n == 0x1CED
    || n == 0x1CF4
    || (0x1CF7 <= n && n <= 0x1CF9)
    || (0x1DC0 <= n && n <= 0x1DFF)
    || (0x20D0 <= n && n <= 0x20F0)
    || (0x2CEF <= n && n <= 0x2CF1)
    || n == 0x2D7F
    || (0x2DE0 <= n && n <= 0x2DFF)
    || (0x302A <= n && n <= 0x302F)
    || (0x3099 <= n && n <= 0x309A)
    || (0xA66F <= n && n <= 0xA672)
    || (0xA674 <= n && n <= 0xA67D)
    || (0xA69E <= n && n <= 0xA69F)
    || (0xA6F0 <= n && n <= 0xA6F1)
    || n == 0xA802
    || n == 0xA806
    || n == 0xA80B
    || (0xA823 <= n && n <= 0xA827)
    || n == 0xA82C
    || (0xA880 <= n && n <= 0xA881)
    || (0xA8B4 <= n && n <= 0xA8C5)
    || (0xA8E0 <= n && n <= 0xA8F1)
    || n == 0xA8FF
}

fn in_marks_from_1c00(n: u32) -> (b: bool)
    ensures
        b == marks_from_1c00(n),
{
    (0x1C24 <= n && n <= 0x1C37)
    || (0x1CD0 <= n && n <= 0x1CD2)
    || (0x1CD4 <= n && n <= 0x1CE8)
    || n == 0x1CED
    || n == 0x1CF4
    || (0x1CF7 <= n && n <= 0x1CF9)
    || (0x1DC0 <= n && n <= 0x1DFF)
    || (0x20D0 <= n && n <= 0x20F0)
    || (0x2CEF <= n && n <= 0x2CF1)
    || n == 0x2D7F
    || (0x2DE0 <= n && n <= 0x2DFF)
    || (0x302A <= n && n <= 0x302F)
    || (0x3099 <= n && n <= 0x309A)
    || (0xA66F <= n && n <= 0xA672)
    || (0xA674 <= n && n <= 0xA67D)
    || (0xA69E <= n && n <= 0xA69F)
    || (0xA6F0 <= n && n <= 0xA6F1)
    || n == 0xA802
    || n == 0xA806
    || n == 0xA80B
    || (0xA823 <= n && n <= 0xA827)
    || n == 0xA82C
    || (0xA880 <= n && n <= 0xA881)
    || (0xA8B4 <= n && n <= 0xA8C5)
    || (0xA8E0 <= n && n <= 0xA8F1)
    || n == 0xA8FF
}

/// The marks from U+A900 below U+10A00.
pub open spec fn marks_from_a900(n: u32) -> bool {
    (0xA926 <= n && n <= 0xA92D)
    || (0xA947 <= n && n <= 0xA953)
    || (0xA980 <= n && n <= 0xA983)
    || (0xA9B3 <= n && n <= 0xA9C0)
    || n == 0xA9E5
    || (0xAA29 <= n && n <= 0xAA36)
    || n == 0xAA43
    || (0xAA4C <= n && n <= 0xAA4D)
    || (0xAA7B <= n && n <= 0xAA7D)
    || n == 0xAAB0
    || (0xAAB2 <= n && n <= 0xAAB4)
    || (0xAAB7 <= n && n <= 0xAAB8)
    || (0xAABE <= n && n <= 0xAABF)
    || n == 0xAAC1
    || (0xAAEB <= n && n <= 0xAAEF)
    || (0xAAF5 <= n && n <= 0xAAF6)
    || (0xABE3 <= n && n <= 0xABEA)
    || (0xABEC <= n && n <= 0xABED)
    || n == 0xFB1E
    || (0xFE00 <= n && n <= 0xFE0F)
    || (0xFE20 <= n && n <= 0xFE2F)
    || n == 0x101FD
    || n == 0x102E0
    || (0x10376 <= n && n <= 0x1037A)
}

fn in_marks_from_a900(n: u32) -> (b: bool)
    ensures
        b == marks_from_a900(n),
{
    (0xA926 <= n && n <= 0xA92D)
    || (0xA947 <= n && n <= 0xA953)
    || (0xA980 <= n && n <= 0xA983)
    || (0xA9B3 <= n && n <= 0xA9C0)
    || n == 0xA9E5
    || (0xAA29 <= n && n <= 0xAA36)
    || n == 0xAA43
    || (0xAA4C <= n && n <= 0xAA4D)
    || (0xAA7B <= n && n <= 0xAA7D)
    || n == 0xAAB0
    || (0xAAB2 <= n && n <= 0xAAB4)
    || (0xAAB7 <= n && n <= 0xAAB8)
    || (0xAABE <= n && n <= 0xAABF)
    || n == 0xAAC1
    || (0xAAEB <= n && n <= 0xAAEF)
    || (0xAAF5 <= n && n <= 0xAAF6)
    || (0xABE3 <= n && n <= 0xABEA)
    || (0xABEC <= n && n <= 0xABED)
    || n == 0xFB1E
    || (0xFE00 <= n && n <= 0xFE0F)
    || (0xFE20 <= n && n <= 0xFE2F)
    || n == 0x101FD
    || n == 0x102E0
    || (0x10376 <= n && n <= 0x1037A)
}

/// The marks from U+10A00 below U+11200.
pub open spec fn marks_from_10a00(n: u32) -> bool {
    (0x10A01 <= n && n <= 0x10A03)
    || (0x10A05 <= n && n <= 0x10A06)
    || (0x10A0C <= n && n <= 0x10A0F)
    || (0x10A38 <= n && n <= 0x10A3A)
    || n == 0x10A3F
    || (0x10AE5 <= n && n <= 0x10AE6)
    || (0x10D24 <= n && n <= 0x10D27)
    || (0x10EAB <= n && n <= 0x10EAC)
    || (0x10F46 <= n && n <= 0x10F50)
    || (0x10F82 <= n && n <= 0x10F85)
    || (0x11000 <= n && n <= 0x11002)
    || (0x11038 <= n && n <= 0x11046)
    || n == 0x11070
    || (0x11073 <= n && n <= 0x11074)
    || (0x1107F <= n && n <= 0x11082)
    || (0x110B0 <= n && n <= 0x110BA)
    || n == 0x110C2
    || (0x11100 <= n && n <= 0x11102)
    || (0x11127 <= n && n <= 0x11134)
    || (0x11145 <= n && n <= 0x11146)
    || n == 0x11173
    || (0x11180 <= n && n <= 0x11182)
    || (0x111B3 <= n && n <= 0x111C0)
    || (0x111C9 <= n && n <= 0x111CC)
    || (0x111CE <= n && n <= 0x111CF)
}

fn in_marks_from_10a00(n: u32) -> (b: bool)
    ensures
        b == marks_from_10a00(n),
{
    (0x10A01 <= n && n <= 0x10A03)
    || (0x10A05 <= n && n <= 0x10A06)
    || (0x10A0C <= n && n <= 0x10A0F)
    || (0x10A38 <= n && n <= 0x10A3A)
    || n == 0x10A3F
    || (0x10AE5 <= n && n <= 0x10AE6)
    || (0x10D24 <= n && n <= 0x10D27)
    || (0x10EAB <= n && n <= 0x10EAC)
    || (0x10F46 <= n && n <= 0x10F50)
    || (0x10F82 <= n && n <= 0x10F85)
    || (0x11000 <= n && n <= 0x11002)
    || (0x11038 <= n && n <= 0x11046)
    || n == 0x11070
    || (0x11073 <= n && n <= 0x11074)
    || (0x1107F <= n && n <= 0x11082)
    || (0x110B0 <= n && n <= 0x110BA)
    || n == 0x110C2
    || (0x11100 <= n && n <= 0x11102)
    || (0x11127 <= n && n <= 0x11134)
    || (0x11145 <= n && n <= 0x11146)
    || n == 0x11173
    || (0x11180 <= n && n <= 0x11182)
    || (0x111B3 <= n && n <= 0x111C0)
    || (0x111C9 <= n && n <= 0x111CC)
    || (0x111CE <= n && n <= 0x111CF)
}

/// The marks from U+11200 below U+11A00.
pub open spec fn marks_from_11200(n: u32) -> bool {
    (0x1122C <= n && n <= 0x11237)
    || n == 0x1123E
    || (0x112DF <= n && n <= 0x112EA)
    || (0x11300 <= n && n <= 0x11303)
    || (0x1133B <= n && n <= 0x1133C)
    || (0x1133E <= n && n <= 0x11344)
    || (0x11347 <= n && n <= 0x11348)
    || (0x1134B <= n && n <= 0x1134D)
    || n == 0x11357
    || (0x11362 <= n && n <= 0x11363)
    || (0x11366 <= n && n <= 0x1136C)
    || (0x11370 <= n && n <= 0x11374)
    || (0x11435 <= n && n <= 0x11446)
    || n == 0x1145E
    || (0x114B0 <= n && n <= 0x114C3)
    || (0x115AF <= n && n <= 0x115B5)
    || (0x115B8 <= n && n <= 0x115C0)
    || (0x115DC <= n && n <= 0x115DD)
    || (0x11630 <= n && n <= 0x11640)
    || (0x116AB <= n && n <= 0x116B7)
    || (0x1171D <= n && n <= 0x1172B)
    || (0x1182C <= n && n <= 0x1183A)
    || (0x11930 <= n && n <= 0x11935)
    || (0x11937 <= n && n <= 0x11938)
    || (0x1193B <= n && n <= 0x1193E)
    || n == 0x11940
    || (0x11942 <= n && n <= 0x11943)
    || (0x119D1 <= n && n <= 0x119D7)
    || (0x119DA <= n && n <= 0x119E0)
    || n == 0x119E4
}

fn in_marks_from_11200(n: u32) -> (b: bool)
    ensures
        b == marks_from_11200(n),
{
    (0x1122C <= n && n <= 0x11237)
    || n == 0x1123E
    || (0x112DF <= n && n <= 0x112EA)
    || (0x11300 <= n && n <= 0x11303)
    || (0x1133B <= n && n <= 0x1133C)
    || (0x1133E <= n && n <= 0x11344)
    || (0x11347 <= n && n <= 0x11348)
    || (0x1134B <= n && n <= 0x1134D)
    || n == 0x11357
    || (0x11362 <= n && n <= 0x11363)
    || (0x11366 <= n && n <= 0x1136C)
    || (0x11370 <= n && n <= 0x11374)
    || (0x11435 <= n && n <= 0x11446)
    || n == 0x1145E
    || (0x114B0 <= n && n <= 0x114C3)
    || (0x115AF <= n && n <= 0x115B5)
    || (0x115B8 <= n && n <= 0x115C0)
    || (0x115DC <= n && n <= 0x115DD)
    || (0x11630 <= n && n <= 0x11640)
    || (0x116AB <= n && n <= 0x116B7)
    || (0x1171D <= n && n <= 0x1172B)
    || (0x1182C <= n && n <= 0x1183A)
    || (0x11930 <= n && n <= 0x11935)
    || (0x11937 <= n && n <= 0x11938)
    || (0x1193B <= n && n <= 0x1193E)
    || n == 0x11940
    || (0x11942 <= n && n <= 0x11943)
    || (0x119D1 <= n && n <= 0x119D7)
    || (0x119DA <= n && n <= 0x119E0)
    || n == 0x119E4
}

/// The marks from U+11A00 below U+1BC00.
pub open spec fn marks_from_11a00(n: u32) -> bool {
    (0x11A01 <= n && n <= 0x11A0A)
    || (0x11A33 <= n && n <= 0x11A39)
    || (0x11A3B <= n && n <= 0x11A3E)
    || n == 0x11A47
    || (0x11A51 <= n && n <= 0x11A5B)
    || (0x11A8A <= n && n <= 0x11A99)
    || (0x11C2F <= n && n <= 0x11C36)
    || (0x11C38 <= n && n <= 0x11C3F)
    || (0x11C92 <= n && n <= 0x11CA7)
    || (0x11CA9 <= n && n <= 0x11CB6)
    || (0x11D31 <= n && n <= 0x11D36)
    || n == 0x11D3A
    || (0x11D3C <= n && n <= 0x11D3D)
    || (0x11D3F <= n && n <= 0x11D45)
    || n == 0x11D47
    || (0x11D8A <= n && n <= 0x11D8E)
    || (0x11D90 <= n && n <= 0x11D91)
    || (0x11D93 <= n && n <= 0x11D97)
    || (0x11EF3 <= n && n <= 0x11EF6)
    || (0x16AF0 <= n && n <= 0x16AF4)
    || (0x16B30 <= n && n <= 0x16B36)
    || n == 0x16F4F
    || (0x16F51 <= n && n <= 0x16F87)
    || (0x16F8F <= n && n <= 0x16F92)
    || n == 0x16FE4
    || (0x16FF0 <= n && n <= 0x16FF1)
}

fn in_marks_from_11a00(n: u32) -> (b: bool)
    ensures
        b == marks_from_11a00(n),
{
    (0x11A01 <= n && n <= 0x11A0A)
    || (0x11A33 <= n && n <= 0x11A39)
    || (0x11A3B <= n && n <= 0x11A3E)
    || n == 0x11A47
    || (0x11A51 <= n && n <= 0x11A5B)
    || (0x11A8A <= n && n <= 0x11A99)
    || (0x11C2F <= n && n <= 0x11C36)
    || (0x11C38 <= n && n <= 0x11C3F)
    || (0x11C92 <= n && n <= 0x11CA7)
    || (0x11CA9 <= n && n <= 0x11CB6)
    || (0x11D31 <= n && n <= 0x11D36)
    || n == 0x11D3A
    || (0x11D3C <= n && n <= 0x11D3D)
    || (0x11D3F <= n && n <= 0x11D45)
    || n == 0x11D47
    || (0x11D8A <= n && n <= 0x11D8E)
    || (0x11D90 <= n && n <= 0x11D91)
    || (0x11D93 <= n && n <= 0x11D97)
    || (0x11EF3 <= n && n <= 0x11EF6)
    || (0x16AF0 <= n && n <= 0x16AF4)
    || (0x16B30 <= n && n <= 0x16B36)
    || n == 0x16F4F
    || (0x16F51 <= n && n <= 0x16F87)
    || (0x16F8F <= n && n <= 0x16F92)
    || n == 0x16FE4
    || (0x16FF0 <= n && n <= 0x16FF1)
}

/// The marks from U+1BC00 below U+1E900.
pub open spec fn marks_from_1bc00(n: u32) -> bool {
    (0x1BC9D <= n && n <= 0x1BC9E)
    || (0x1CF00 <= n && n <= 0x1CF2D)
    || (0x1CF30 <= n && n <= 0x1CF46)
    || (0x1D165 <= n && n <= 0x1D169)
    || (0x1D16D <= n && n <= 0x1D172)
    || (0x1D17B <= n && n <= 0x1D182)
    || (0x1D185 <= n && n <= 0x1D18B)
    || (0x1D1AA <= n && n <= 0x1D1AD)
    || (0x1D242 <= n && n <= 0x1D244)
    || (0x1DA00 <= n && n <= 0x1DA36)
    || (0x1DA3B <= n && n <= 0x1DA6C)
    || n == 0x1DA75
    || n == 0x1DA84
    || (0x1DA9B <= n && n <= 0x1DA9F)
    || (0x1DAA1 <= n && n <= 0x1DAAF)
    || (0x1E000 <= n && n <= 0x1E006)
    || (0x1E008 <= n && n <= 0x1E018)
    || (0x1E01B <= n && n <= 0x1E021)
    || (0x1E023 <= n && n <= 0x1E024)
    || (0x1E026 <= n && n <= 0x1E02A)
    || (0x1E130 <= n && n <= 0x1E136)
    || n == 0x1E2AE
    || (0x1E2EC <= n && n <= 0x1E2EF)
    || (0x1E8D0 <= n && n <= 0x1E8D6)
}

fn in_marks_from_1bc00(n: u32) -> (b: bool)
    ensures
        b == marks_from_1bc00(n),
{
    (0x1BC9D <= n && n <= 0x1BC9E)
    || (0x1CF00 <= n && n <= 0x1CF2D)
    || (0x1CF30 <= n && n <= 0x1CF46)
    || (0x1D165 <= n && n <= 0x1D169)
    || (0x1D16D <= n && n <= 0x1D172)
    || (0x1D17B <= n && n <= 0x1D182)
    || (0x1D185 <= n && n <= 0x1D18B)
    || (0x1D1AA <= n && n <= 0x1D1AD)
    || (0x1D242 <= n && n <= 0x1D244)
    || (0x1DA00 <= n && n <= 0x1DA36)
    || (0x1DA3B <= n && n <= 0x1DA6C)
    || n == 0x1DA75
    || n == 0x1DA84
    || (0x1DA9B <= n && n <= 0x1DA9F)
    || (0x1DAA1 <= n && n <= 0x1DAAF)
    || (0x1E000 <= n && n <= 0x1E006)
    || (0x1E008 <= n && n <= 0x1E018)
    || (0x1E01B <= n && n <= 0x1E021)
    || (0x1E023 <= n && n <= 0x1E024)
    || (0x1E026 <= n && n <= 0x1E02A)
    || (0x1E130 <= n && n <= 0x1E136)
    || n == 0x1E2AE
    || (0x1E2EC <= n && n <= 0x1E2EF)
    || (0x1E8D0 <= n && n <= 0x1E8D6)
}

/// The marks from U+1E900 to the end.
pub open spec fn marks_from_1e900(n: u32) -> bool {
    (0x1E944 <= n && n <= 0x1E94A)
    || (0xE0100 <= n && n <= 0xE01EF)
}

fn in_marks_from_1e900(n: u32) -> (b: bool)
    ensures
        b == marks_from_1e900(n),
{
    (0x1E944 <= n && n <= 0x1E94A)
    || (0xE0100 <= n && n <= 0xE01EF)
}

} // verus!
