//! Finding the largest element of a slice.
//!
//! The concrete scanners `largest_i32` and `largest_char` and the generic
//! `largest` all walk the slice left to right, replacing the candidate only
//! on a strictly larger element, so ties keep the earliest maximum.

use vstd::prelude::*;
use vstd::std_specs::cmp::PartialOrdSpec;

verus! {

/// The value that a left-to-right scan with strict `>` replacement settles
/// on for a non-empty sequence of `i32`: the maximum of the sequence.
pub open spec fn seq_max_i32(s: Seq<i32>) -> i32
    recommends
        s.len() > 0,
    decreases s.len(),
{
    if s.len() <= 1 {
        s[0]
    } else {
        let prev = seq_max_i32(s.drop_last());
        if s.last() > prev {
            s.last()
        } else {
            prev
        }
    }
}

/// Same scan for sequences of characters, ordered by Unicode scalar value.
pub open spec fn seq_max_char(s: Seq<char>) -> char
    recommends
        s.len() > 0,
    decreases s.len(),
{
    if s.len() <= 1 {
        s[0]
    } else {
        let prev = seq_max_char(s.drop_last());
        if s.last() > prev {
            s.last()
        } else {
            prev
        }
    }
}

/// The maximum of a sequence is one of its elements and bounds all of them.
pub proof fn lemma_seq_max_i32_props(s: Seq<i32>)
    requires
        s.len() > 0,
    ensures
        s.contains(seq_max_i32(s)),
        forall|i: int| 0 <= i < s.len() ==> s[i] <= seq_max_i32(s),
    decreases s.len(),
{
    if s.len() > 1 {
        lemma_seq_max_i32_props(s.drop_last());
        assert forall|i: int| 0 <= i < s.len() implies s[i] <= seq_max_i32(s) by {
            if i < s.len() - 1 {
                assert(s.drop_last()[i] == s[i]);
            }
        }
        if seq_max_i32(s) == s.last() {
            assert(s[s.len() - 1] == seq_max_i32(s));
        } else {
            let j = choose|j: int|
                0 <= j < s.drop_last().len() && s.drop_last()[j] == seq_max_i32(s.drop_last());
            assert(s[j] == seq_max_i32(s));
        }
    }
}

/// As `lemma_seq_max_i32_props`, for characters.
pub proof fn lemma_seq_max_char_props(s: Seq<char>)
    requires
        s.len() > 0,
    ensures
        s.contains(seq_max_char(s)),
        forall|i: int| 0 <= i < s.len() ==> s[i] <= seq_max_char(s),
    decreases s.len(),
{
    if s.len() > 1 {
        lemma_seq_max_char_props(s.drop_last());
        assert forall|i: int| 0 <= i < s.len() implies s[i] <= seq_max_char(s) by {
            if i < s.len() - 1 {
                assert(s.drop_last()[i] == s[i]);
            }
        }
        if seq_max_char(s) == s.last() {
            assert(s[s.len() - 1] == seq_max_char(s));
        } else {
            let j = choose|j: int|
                0 <= j < s.drop_last().len() && s.drop_last()[j] == seq_max_char(s.drop_last());
            assert(s[j] == seq_max_char(s));
        }
    }
}

/// Returns a reference to the largest element of a non-empty `i32` slice.
pub fn largest_i32(list: &[i32]) -> (largest: &i32)
    requires
        list@.len() > 0,
    ensures
        *largest == seq_max_i32(list@),
        exists|i: int| 0 <= i < list@.len() && list@[i] == *largest,
{
    let mut mi: usize = 0;
    let mut i: usize = 1;
    while i < list.len()
        invariant
            0 <= mi < i <= list@.len(),
            list@.len() > 0,
            list@[mi as int] == seq_max_i32(list@.take(i as int)),
        decreases list@.len() - i,
    {
        if list[mi] < list[i] {
            mi = i;
        }
        proof {
            assert(list@.take(i + 1).drop_last() =~= list@.take(i as int));
            assert(list@.take(i + 1).last() == list@[i as int]);
        }
        i = i + 1;
    }
    proof {
        assert(list@.take(list@.len() as int) =~= list@);
    }
    &list[mi]
}

/// Returns a reference to the largest element of a non-empty `char` slice.
pub fn largest_char(list: &[char]) -> (largest: &char)
    requires
        list@.len() > 0,
    ensures
        *largest == seq_max_char(list@),
        exists|i: int| 0 <= i < list@.len() && list@[i] == *largest,
{
    let mut mi: usize = 0;
    let mut i: usize = 1;
    while i < list.len()
        invariant
            0 <= mi < i <= list@.len(),
            list@.len() > 0,
            list@[mi as int] == seq_max_char(list@.take(i as int)),
        decreases list@.len() - i,
    {
        if list[mi] < list[i] {
            mi = i;
        }
        proof {
            assert(list@.take(i + 1).drop_last() =~= list@.take(i as int));
            assert(list@.take(i + 1).last() == list@[i as int]);
        }
        i = i + 1;
    }
    proof {
        assert(list@.take(list@.len() as int) =~= list@);
    }
    &list[mi]
}

/// The element a left-to-right scan with `partial_cmp` settles on, for any
/// type with an order. Where the order is partial, incomparable elements
/// never replace the candidate, exactly as the strict `<` test behaves.
pub open spec fn largest_scan<T: PartialOrd>(s: Seq<T>) -> T
    recommends
        s.len() > 0,
    decreases s.len(),
{
    if s.len() <= 1 {
        s[0]
    } else {
        let prev = largest_scan(s.drop_last());
        if prev.partial_cmp_spec(&s.last()) == Some(core::cmp::Ordering::Less) {
            s.last()
        } else {
            prev
        }
    }
}

/// Returns a reference to the element of a non-empty slice that the
/// left-to-right scan selects. The result is always an element of the
/// slice; where the type's comparison follows its specification, it is
/// exactly `largest_scan` of the slice's contents.
pub fn largest<T: PartialOrd>(list: &[T]) -> (largest: &T)
    requires
        list@.len() > 0,
    ensures
        exists|i: int| 0 <= i < list@.len() && list@[i] == *largest,
        T::obeys_partial_cmp_spec() ==> *largest == largest_scan(list@),
{
    let mut mi: usize = 0;
    let mut i: usize = 1;
    while i < list.len()
        invariant
            0 <= mi < i <= list@.len(),
            list@.len() > 0,
            T::obeys_partial_cmp_spec() ==> list@[mi as int] == largest_scan(
                list@.take(i as int),
            ),
        decreases list@.len() - i,
    {
        if list[mi].lt(&list[i]) {
            mi = i;
        }
        proof {
            assert(list@.take(i + 1).drop_last() =~= list@.take(i as int));
            assert(list@.take(i + 1).last() == list@[i as int]);
        }
        i = i + 1;
    }
    proof {
        assert(list@.take(list@.len() as int) =~= list@);
    }
    &list[mi]
}

/// The extremum of a slice of integers: `None` exactly on empty input,
/// otherwise the maximum value.
pub fn extremum(list: &[i32]) -> (r: Option<i32>)
    ensures
        match r {
            Some(m) => list@.len() > 0 && m == seq_max_i32(list@),
            None => list@.len() == 0,
        },
{
    if list.len() == 0 {
        None
    } else {
        Some(*largest_i32(list))
    }
}

/// A sequence of `i32` arranged in non-decreasing order.
pub open spec fn sorted_i32(s: Seq<i32>) -> bool {
    forall|i: int, j: int| 0 <= i <= j < s.len() ==> s[i] <= s[j]
}

/// A sequence of characters arranged in non-decreasing order.
pub open spec fn sorted_char(s: Seq<char>) -> bool {
    forall|i: int, j: int| 0 <= i <= j < s.len() ==> s[i] <= s[j]
}

/// For every non-empty sequence of integers, the scan maximum agrees with a
/// reference sort: any sorted rearrangement of the sequence ends with it.
pub proof fn lemma_extremum_is_sort_maximum(s: Seq<i32>, t: Seq<i32>)
    requires
        s.len() > 0,
        t.to_multiset() == s.to_multiset(),
        sorted_i32(t),
    ensures
        t.len() > 0,
        t.last() == seq_max_i32(s),
{
    broadcast use vstd::seq_lib::group_to_multiset_ensures;

    lemma_seq_max_i32_props(s);
    vstd::seq_lib::to_multiset_len(t);
    vstd::seq_lib::to_multiset_len(s);
    assert(t.len() == s.len());
    let m = seq_max_i32(s);
    assert(s.to_multiset().count(m) > 0);
    assert(t.contains(m));
    let k = choose|k: int| 0 <= k < t.len() && t[k] == m;
    assert(t[k] <= t.last());
    assert(t.contains(t.last()));
    assert(t.to_multiset().count(t.last()) > 0);
    assert(s.to_multiset().count(t.last()) > 0);
    assert(s.contains(t.last()));
    let j = choose|j: int| 0 <= j < s.len() && s[j] == t.last();
    assert(s[j] <= m);
}

/// The same agreement with a reference sort, for sequences of characters.
pub proof fn lemma_extremum_chars_is_sort_maximum(s: Seq<char>, t: Seq<char>)
    requires
        s.len() > 0,
        t.to_multiset() == s.to_multiset(),
        sorted_char(t),
    ensures
        t.len() > 0,
        t.last() == seq_max_char(s),
{
    broadcast use vstd::seq_lib::group_to_multiset_ensures;

    lemma_seq_max_char_props(s);
    vstd::seq_lib::to_multiset_len(t);
    vstd::seq_lib::to_multiset_len(s);
    assert(t.len() == s.len());
    let m = seq_max_char(s);
    assert(s.to_multiset().count(m) > 0);
    assert(t.contains(m));
    let k = choose|k: int| 0 <= k < t.len() && t[k] == m;
    assert(t[k] <= t.last());
    assert(t.contains(t.last()));
    assert(t.to_multiset().count(t.last()) > 0);
    assert(s.to_multiset().count(t.last()) > 0);
    assert(s.contains(t.last()));
    let j = choose|j: int| 0 <= j < s.len() && s[j] == t.last();
    assert(s[j] <= m);
}

} // verus!
