//! Creating, growing, slicing and measuring strings.
//!
//! `str::len` counts bytes of the UTF-8 encoding, not characters; the
//! assertions here are proved against vstd's encoding model.

use vstd::prelude::*;
use vstd::string::StringExecFns;
use vstd::string::StringSliceAdditionalSpecFns;
use vstd::string::StrSliceExecFns;
use vstd::utf8::encode_scalar;
use vstd::utf8::encode_utf8;

verus! {

broadcast use vstd::string::group_string_axioms;

/// Encoding a non-empty character sequence takes as many bytes as its
/// first character plus the rest.
proof fn lemma_byte_len_cons(t: Seq<char>)
    requires
        t.len() > 0,
    ensures
        encode_utf8(t).len() == encode_scalar(t[0] as u32).len() + encode_utf8(
            t.drop_first(),
        ).len(),
{
}

/// A new `String` is empty: zero characters and zero bytes.
pub fn with_new() {
    let s: String = String::new();
    let n = s.as_str().len();
    assert(n == 0);

    let mut t: String = String::new();
    let m = t.as_str().len();
    assert(m == 0);
}

/// A `String` converted from a `&str` holds the same four bytes.
pub fn with_from() {
    let s: String = String::from("rust");
    let t = s.as_str();
    proof {
        reveal_strlit("rust");
        assert(vstd::string::is_ascii(t));
    }
    let n = t.len();
    assert(n == 4);
}

/// A `String` created with a capacity is still empty.
pub fn with_capacity() {
    let s: String = String::with_capacity(5);
    let n = s.as_str().len();
    assert(n == 0);
}

/// `to_string` on a string literal keeps its contents.
pub fn to_string() {
    let s: String = "rust".to_string();
    let t = s.as_str();
    proof {
        reveal_strlit("rust");
        assert(vstd::string::is_ascii(t));
    }
    let n = t.len();
    assert(n == 4);
}

/// Relies on the `format!` macro: interpolating three displayed string
/// slices with a dash between each pair concatenates them.
#[verifier::external_body]
fn format_dash_triple(a: &str, b: &str, c: &str) -> (r: String)
    ensures
        r@ == a@ + "-"@ + b@ + "-"@ + c@,
{
    format!("{}-{}-{}", a, b, c)
}

/// Interpolation with `format!` joins the pieces without moving them.
pub fn with_format_marco() {
    let s1: String = String::from("tic");
    let s2: String = String::from("tac");
    let s3: String = String::from("toe");
    let s = format_dash_triple(s1.as_str(), s2.as_str(), s3.as_str());
    proof {
        reveal_strlit("tic");
        reveal_strlit("tac");
        reveal_strlit("toe");
        reveal_strlit("-");
        reveal_strlit("tic-tac-toe");
        assert(s@ =~= "tic-tac-toe"@);
    }
}

/// Pushing a character appends it.
pub fn with_push() {
    let mut s: String = String::new();
    s.push('r');
    proof {
        reveal_strlit("r");
        assert(s@ =~= "r"@);
    }
}

/// A slice of the first two characters of a Cyrillic greeting.
pub fn with_range() {
    let hello: String = "Здравствуйте".to_string();
    proof {
        reveal_strlit("Здравствуйте");
        reveal_strlit("Зд");
    }
    let s: &str = hello.as_str().substring_char(0, 2);
    assert(s@ =~= "Зд"@);
}

/// Byte lengths: one for ASCII, three for a Chinese character, four for
/// an emoji, and sums thereof.
pub fn len() {
    let a = String::from("z");
    let ta = a.as_str();
    proof {
        reveal_strlit("z");
        assert(vstd::string::is_ascii(ta));
    }
    let na = ta.len();
    assert(na == 1);

    let b = String::from("中");
    proof {
        reveal_strlit("中");
        lemma_byte_len_cons(b@);
        assert(encode_utf8(b@.drop_first()).len() == 0);
    }
    let nb = b.as_str().len();
    assert(nb == 3);

    let c = String::from("🔥");
    proof {
        reveal_strlit("🔥");
        lemma_byte_len_cons(c@);
        assert(encode_utf8(c@.drop_first()).len() == 0);
    }
    let nc = c.as_str().len();
    assert(nc == 4);

    let d = String::from("z中🔥");
    proof {
        reveal_strlit("z中🔥");
        let t = d@;
        lemma_byte_len_cons(t);
        lemma_byte_len_cons(t.drop_first());
        lemma_byte_len_cons(t.drop_first().drop_first());
        assert(t.drop_first()[0] == '中');
        assert(t.drop_first().drop_first()[0] == '🔥');
        assert(encode_utf8(t.drop_first().drop_first().drop_first()).len() == 0);
    }
    let nd = d.as_str().len();
    assert(nd == 8);
}

} // verus!
