//! Characters: how many bytes each takes when encoded as UTF-8.

use vstd::prelude::*;

verus! {

/// The number of bytes the UTF-8 encoding of a scalar value takes:
/// one below U+0080, two below U+0800, three below U+10000, otherwise
/// four.
pub open spec fn utf8_width(c: char) -> usize {
    let u = c as u32;
    if u < 0x80 {
        1
    } else if u < 0x800 {
        2
    } else if u < 0x10000 {
        3
    } else {
        4
    }
}

/// One byte for ASCII, up to four for the highest scalar values.
pub fn len_utf8() {
    let a = 'x'.len_utf8();
    assert(a == 1);

    let b = '£'.len_utf8();
    assert(b == 2);

    let c = '中'.len_utf8();
    assert(c == 3);

    let d = '🔥'.len_utf8();
    assert(d == 4);
}

} // verus!
