//! A local trait implemented on a type from the standard library: allowed
//! by the orphan rule because the trait is this crate's own.

use crate::summary::Summary;
use std::collections::HashMap;
use std::fmt::Display;
use vstd::prelude::*;
use vstd::string::StringExecFns;

verus! {

/// The texts of a pair sequence folded into one: each pair's first text
/// directly followed by its second, in order.
pub open spec fn concat_pair_texts(ps: Seq<(String, String)>) -> Seq<char>
    decreases ps.len(),
{
    if ps.len() == 0 {
        Seq::empty()
    } else {
        concat_pair_texts(ps.drop_last()) + ps.last().0@ + ps.last().1@
    }
}

/// Relies on `HashMap::iter` and `ToString::to_string`: hands out each
/// entry as a pair of displayed texts. The order depends on the map's
/// hasher, so nothing is stated of it.
#[verifier::external_body]
fn displayed_pairs<K: Display, V: Display>(map: &HashMap<K, V>) -> Vec<(String, String)> {
    let mut out: Vec<(String, String)> = Vec::new();
    for (k, v) in map.iter() {
        out.push((k.to_string(), v.to_string()));
    }
    out
}

/// Concatenates each pair's two texts, in order; an empty sequence of
/// pairs gives the empty string.
fn concat_pairs(pairs: &Vec<(String, String)>) -> (r: String)
    ensures
        r@ == concat_pair_texts(pairs@),
{
    let mut s = String::new();
    let mut i: usize = 0;
    proof {
        assert(pairs@.take(0) =~= Seq::<(String, String)>::empty());
    }
    while i < pairs.len()
        invariant
            i <= pairs@.len(),
            s@ == concat_pair_texts(pairs@.take(i as int)),
        decreases pairs@.len() - i,
    {
        s.append(pairs[i].0.as_str());
        s.append(pairs[i].1.as_str());
        proof {
            assert(pairs@.take(i + 1).drop_last() =~= pairs@.take(i as int));
            assert(pairs@.take(i + 1).last() == pairs@[i as int]);
        }
        i = i + 1;
    }
    proof {
        assert(pairs@.take(pairs@.len() as int) =~= pairs@);
    }
    s
}

impl<K: Display, V: Display> Summary for HashMap<K, V> {
    /// Every key directly followed by its value, in the order the map
    /// yields them: the concatenation of the displayed pairs. An empty
    /// map gives the empty string.
    fn summarize(&self) -> String {
        let pairs = displayed_pairs(self);
        concat_pairs(&pairs)
    }
}

} // verus!
