//! Slices of strings and arrays, and finding the first word of a text.

use vstd::prelude::*;
use vstd::string::StrSliceExecFns;

verus! {

/// A string literal is a slice into the program's binary; a sub-slice of
/// it is another such view.
pub fn string_literal() {
    let s: &str = "rust";
    proof {
        reveal_strlit("rust");
        reveal_strlit("ru");
    }
    let from_slice: &str = s.substring_char(0, 2);
    assert(from_slice@ =~= "ru"@);
}

/// A slice of the whole input: the same view handed back.
pub fn string_slice_as_parameter(s: &str) -> (r: &str)
    ensures
        r@ == s@,
{
    s
}

/// The position of the first space character, or the length of the text
/// if it holds none. Positions count characters.
pub open spec fn first_space_at(s: Seq<char>) -> int
    decreases s.len(),
{
    if s.len() == 0 {
        0
    } else if s[0] == ' ' {
        0
    } else {
        1 + first_space_at(s.drop_first())
    }
}

/// Where the first space sits: within bounds, on a space, and after none.
pub proof fn lemma_first_space_at(s: Seq<char>)
    ensures
        0 <= first_space_at(s) <= s.len(),
        first_space_at(s) < s.len() ==> s[first_space_at(s)] == ' ',
        forall|k: int| 0 <= k < first_space_at(s) ==> s[k] != ' ',
    decreases s.len(),
{
    if s.len() > 0 && s[0] != ' ' {
        lemma_first_space_at(s.drop_first());
        assert forall|k: int| 0 <= k < first_space_at(s) implies s[k] != ' ' by {
            if k > 0 {
                assert(s.drop_first()[k - 1] == s[k]);
            }
        }
        if first_space_at(s) < s.len() {
            assert(s.drop_first()[first_space_at(s) - 1] == s[first_space_at(s)]);
        }
    }
}

/// The position of the first space byte in a UTF-8 encoding, or the byte
/// length when no space occurs.
pub open spec fn first_space_byte(bs: Seq<u8>) -> int
    decreases bs.len(),
{
    if bs.len() == 0 {
        0
    } else if bs[0] == 32 {
        0
    } else {
        1 + first_space_byte(bs.drop_first())
    }
}

/// Where the first space byte sits: within bounds, on a space, and after
/// none.
pub proof fn lemma_first_space_byte(bs: Seq<u8>)
    ensures
        0 <= first_space_byte(bs) <= bs.len(),
        first_space_byte(bs) < bs.len() ==> bs[first_space_byte(bs)] == 32,
        forall|k: int| 0 <= k < first_space_byte(bs) ==> bs[k] != 32,
    decreases bs.len(),
{
    if bs.len() > 0 && bs[0] != 32 {
        lemma_first_space_byte(bs.drop_first());
        assert forall|k: int| 0 <= k < first_space_byte(bs) implies bs[k] != 32 by {
            if k > 0 {
                assert(bs.drop_first()[k - 1] == bs[k]);
            }
        }
        if first_space_byte(bs) < bs.len() {
            assert(bs.drop_first()[first_space_byte(bs) - 1] == bs[first_space_byte(bs)]);
        }
    }
}

/// The byte index of the first space in the text's UTF-8 encoding, or the
/// byte length of a text without one.
pub fn first_word_index(s: &String) -> (n: usize)
    ensures
        n == first_space_byte(vstd::utf8::encode_utf8(s@)),
{
    let bytes: &[u8] = s.as_str().as_bytes();
    let ghost bs = vstd::utf8::encode_utf8(s@);
    proof {
        lemma_first_space_byte(bs);
    }
    let mut i: usize = 0;
    while i < bytes.len()
        invariant
            i <= bytes@.len(),
            bytes@ == bs,
            bs == vstd::utf8::encode_utf8(s@),
            0 <= first_space_byte(bs) <= bs.len(),
            first_space_byte(bs) < bs.len() ==> bs[first_space_byte(bs)] == 32,
            forall|k: int| 0 <= k < first_space_byte(bs) ==> bs[k] != 32,
            forall|k: int| 0 <= k < i ==> bs[k] != 32,
        decreases bytes@.len() - i,
    {
        if bytes[i] == 32u8 {
            proof {
                assert(first_space_byte(bs) == i);
            }
            return i;
        }
        i = i + 1;
    }
    proof {
        assert(first_space_byte(bs) == bs.len());
    }
    bytes.len()
}

/// The character position of the first space, found by scanning the
/// characters one by one.
fn first_space_char_index(t: &str) -> (n: usize)
    ensures
        n == first_space_at(t@),
{
    let len = t.unicode_len();
    proof {
        lemma_first_space_at(t@);
    }
    let mut i: usize = 0;
    while i < len
        invariant
            i <= len,
            len == t@.len(),
            0 <= first_space_at(t@) <= t@.len(),
            first_space_at(t@) < t@.len() ==> t@[first_space_at(t@)] == ' ',
            forall|k: int| 0 <= k < first_space_at(t@) ==> t@[k] != ' ',
            forall|k: int| 0 <= k < i ==> t@[k] != ' ',
        decreases len - i,
    {
        if t.get_char(i) == ' ' {
            proof {
                assert(first_space_at(t@) == i);
            }
            return i;
        }
        i = i + 1;
    }
    proof {
        assert(first_space_at(t@) == t@.len());
    }
    len
}

/// The first word of the text: everything before the first space, or the
/// whole text if it holds none.
pub fn first_word_slice(s: &String) -> (r: &str)
    ensures
        r@ == s@.subrange(0, first_space_at(s@)),
{
    let t = s.as_str();
    let n = first_space_char_index(t);
    proof {
        lemma_first_space_at(t@);
    }
    t.substring_char(0, n)
}

/// A slice of the first three elements of an array.
pub fn builder() {
    let array: [i8; 5] = [1, 2, 3, 4, 5];
    let slice: &[i8] = &array[0..3];
    assert(slice@ =~= seq![1i8, 2, 3]);
}

} // verus!
