//! Counting word frequencies in a text.
//!
//! A text is split into tokens on runs of Unicode whitespace; each token's
//! number of occurrences is recorded in a [`FrequencyMap`]. The map is
//! modelled as a `Map<Seq<char>, nat>` from token contents to counts, and
//! `word_frequencies` is proved to return exactly [`freq_map`] of its input,
//! so its result is a function of the text alone.

use vstd::prelude::*;
use vstd::string::StringSliceAdditionalSpecFns;

verus! {

/// The characters with the Unicode `White_Space` property, the ones
/// `str::split_whitespace` separates tokens on.
pub open spec fn is_ws(c: char) -> bool {
    let u = c as u32;
    (0x9 <= u && u <= 0xD) || u == 0x20 || u == 0x85 || u == 0xA0 || u == 0x1680 || (0x2000 <= u
        && u <= 0x200A) || u == 0x2028 || u == 0x2029 || u == 0x202F || u == 0x205F || u == 0x3000
}

/// Whether `c` has the Unicode `White_Space` property.
pub fn is_whitespace_char(c: char) -> (r: bool)
    ensures
        r == is_ws(c),
{
    let u = c as u32;
    (0x9 <= u && u <= 0xD) || u == 0x20 || u == 0x85 || u == 0xA0 || u == 0x1680 || (0x2000 <= u
        && u <= 0x200A) || u == 0x2028 || u == 0x2029 || u == 0x202F || u == 0x205F || u == 0x3000
}

/// The tokens of `s` prefixed by a partially assembled token `cur`:
/// characters are consumed left to right, whitespace finishes the current
/// token, and anything else extends it.
pub open spec fn split_ws_rec(s: Seq<char>, cur: Seq<char>) -> Seq<Seq<char>>
    decreases s.len(),
{
    if s.len() == 0 {
        if cur.len() == 0 {
            Seq::empty()
        } else {
            seq![cur]
        }
    } else if is_ws(s[0]) {
        if cur.len() == 0 {
            split_ws_rec(s.drop_first(), Seq::empty())
        } else {
            seq![cur] + split_ws_rec(s.drop_first(), Seq::empty())
        }
    } else {
        split_ws_rec(s.drop_first(), cur.push(s[0]))
    }
}

/// The whitespace-separated tokens of a text, in order.
pub open spec fn split_ws(s: Seq<char>) -> Seq<Seq<char>> {
    split_ws_rec(s, Seq::empty())
}

/// How many tokens of `ts` equal `w`.
pub open spec fn count_matches(ts: Seq<Seq<char>>, w: Seq<char>) -> nat
    decreases ts.len(),
{
    if ts.len() == 0 {
        0
    } else {
        count_matches(ts.drop_last(), w) + if ts.last() == w {
            1nat
        } else {
            0nat
        }
    }
}

/// The frequency map of a token sequence: each token that occurs maps to
/// its number of occurrences.
pub open spec fn token_counts(ts: Seq<Seq<char>>) -> Map<Seq<char>, nat> {
    Map::new(|w: Seq<char>| ts.contains(w), |w: Seq<char>| count_matches(ts, w))
}

/// The frequency map of a text: the counts of its whitespace-separated
/// tokens.
pub open spec fn freq_map(s: Seq<char>) -> Map<Seq<char>, nat> {
    token_counts(split_ws(s))
}

/// A token occurs in `ts` exactly when its count is positive.
pub proof fn lemma_count_zero_iff(ts: Seq<Seq<char>>, w: Seq<char>)
    ensures
        count_matches(ts, w) == 0 <==> !ts.contains(w),
    decreases ts.len(),
{
    if ts.len() > 0 {
        lemma_count_zero_iff(ts.drop_last(), w);
        if ts.contains(w) {
            let i = choose|i: int| 0 <= i < ts.len() && ts[i] == w;
            if i < ts.len() - 1 {
                assert(ts.drop_last()[i] == w);
            }
        } else {
            assert(forall|i: int| 0 <= i < ts.drop_last().len() ==> ts.drop_last()[i] == ts[i]);
        }
    }
}

/// A token's count never exceeds the number of tokens.
pub proof fn lemma_count_le_len(ts: Seq<Seq<char>>, w: Seq<char>)
    ensures
        count_matches(ts, w) <= ts.len(),
    decreases ts.len(),
{
    if ts.len() > 0 {
        lemma_count_le_len(ts.drop_last(), w);
    }
}

/// Appending one token to a sequence raises exactly that token's count
/// by one.
pub proof fn lemma_counts_push(ts: Seq<Seq<char>>, w: Seq<char>)
    ensures
        token_counts(ts.push(w)) == token_counts(ts).insert(
            w,
            (count_matches(ts, w) + 1) as nat,
        ),
{
    let ts2 = ts.push(w);
    assert(ts2.drop_last() =~= ts);
    assert forall|x: Seq<char>| true implies count_matches(ts2, x) == count_matches(ts, x) + (
    if x == w {
        1int
    } else {
        0int
    }) by {
        assert(ts2.last() == w);
    }
    assert forall|x: Seq<char>| #[trigger] ts2.contains(x) <==> (ts.contains(x) || x == w) by {
        if ts.contains(x) {
            let i = choose|i: int| 0 <= i < ts.len() && ts[i] == x;
            assert(ts2[i] == x);
        }
        if x == w {
            assert(ts2[ts.len() as int] == x);
        }
        if ts2.contains(x) {
            let i = choose|i: int| 0 <= i < ts2.len() && ts2[i] == x;
            if i < ts.len() {
                assert(ts[i] == x);
            }
        }
    }
    lemma_count_zero_iff(ts, w);
    assert(token_counts(ts2) =~= token_counts(ts).insert(w, (count_matches(ts, w) + 1) as nat));
}

/// No two entries of the list share a key.
pub open spec fn distinct_keys(es: Seq<(String, usize)>) -> bool {
    forall|i: int, j: int| 0 <= i < j < es.len() ==> es[i].0@ != es[j].0@
}

/// The mapping an association list denotes, later entries winning.
pub open spec fn entries_to_map(es: Seq<(String, usize)>) -> Map<Seq<char>, nat>
    decreases es.len(),
{
    if es.len() == 0 {
        Map::empty()
    } else {
        entries_to_map(es.drop_last()).insert(es.last().0@, es.last().1 as nat)
    }
}

proof fn lemma_e2m_contains(es: Seq<(String, usize)>, k: Seq<char>)
    ensures
        entries_to_map(es).contains_key(k) <==> exists|i: int|
            0 <= i < es.len() && es[i].0@ == k,
    decreases es.len(),
{
    if es.len() > 0 {
        lemma_e2m_contains(es.drop_last(), k);
        if es.last().0@ == k {
            assert(es[es.len() - 1].0@ == k);
        }
        if exists|i: int| 0 <= i < es.drop_last().len() && es.drop_last()[i].0@ == k {
            let i = choose|i: int| 0 <= i < es.drop_last().len() && es.drop_last()[i].0@ == k;
            assert(es[i].0@ == k);
        }
        if entries_to_map(es).contains_key(k) {
        } else {
            assert forall|i: int| 0 <= i < es.len() implies es[i].0@ != k by {
                if i < es.len() - 1 {
                    assert(es.drop_last()[i] == es[i]);
                }
            }
        }
    }
}

proof fn lemma_e2m_lookup(es: Seq<(String, usize)>, i: int)
    requires
        distinct_keys(es),
        0 <= i < es.len(),
    ensures
        entries_to_map(es).contains_key(es[i].0@),
        entries_to_map(es)[es[i].0@] == es[i].1 as nat,
    decreases es.len(),
{
    if i == es.len() - 1 {
    } else {
        assert(es.drop_last()[i] == es[i]);
        lemma_e2m_lookup(es.drop_last(), i);
        assert(es.last().0@ != es[i].0@);
    }
}

proof fn lemma_e2m_push(es: Seq<(String, usize)>, e: (String, usize))
    ensures
        entries_to_map(es.push(e)) == entries_to_map(es).insert(e.0@, e.1 as nat),
{
    assert(es.push(e).drop_last() =~= es);
    assert(es.push(e).last() == e);
}

proof fn lemma_e2m_update(es: Seq<(String, usize)>, i: int, e: (String, usize))
    requires
        distinct_keys(es),
        0 <= i < es.len(),
        e.0@ == es[i].0@,
    ensures
        entries_to_map(es.update(i, e)) == entries_to_map(es).insert(e.0@, e.1 as nat),
    decreases es.len(),
{
    let es2 = es.update(i, e);
    if i == es.len() - 1 {
        assert(es2.drop_last() =~= es.drop_last());
        assert(es2.last() == e);
        assert(entries_to_map(es).insert(e.0@, e.1 as nat) =~= entries_to_map(
            es.drop_last(),
        ).insert(es.last().0@, es.last().1 as nat).insert(e.0@, e.1 as nat));
        assert(entries_to_map(es2) =~= entries_to_map(es.drop_last()).insert(e.0@, e.1 as nat));
    } else {
        assert(es2.drop_last() =~= es.drop_last().update(i, e));
        assert(es2.last() == es.last());
        assert(forall|a: int, b: int|
            0 <= a < b < es.drop_last().len() ==> es.drop_last()[a] == es[a] && es.drop_last()[b]
                == es[b]);
        assert(distinct_keys(es.drop_last()));
        assert(es.drop_last()[i] == es[i]);
        lemma_e2m_update(es.drop_last(), i, e);
        assert(es.last().0@ != es[i].0@);
        assert(entries_to_map(es2) =~= entries_to_map(es).insert(e.0@, e.1 as nat));
    }
}

proof fn lemma_e2m_dom_len(es: Seq<(String, usize)>)
    requires
        distinct_keys(es),
    ensures
        entries_to_map(es).dom().finite(),
        entries_to_map(es).dom().len() == es.len(),
    decreases es.len(),
{
    if es.len() == 0 {
        assert(entries_to_map(es).dom() =~= Set::<Seq<char>>::empty());
    } else {
        assert(forall|a: int, b: int|
            0 <= a < b < es.drop_last().len() ==> es.drop_last()[a] == es[a] && es.drop_last()[b]
                == es[b]);
        assert(distinct_keys(es.drop_last()));
        lemma_e2m_dom_len(es.drop_last());
        lemma_e2m_contains(es.drop_last(), es.last().0@);
        assert forall|i: int| 0 <= i < es.drop_last().len() implies es.drop_last()[i].0@
            != es.last().0@ by {
            assert(es.drop_last()[i] == es[i]);
        }
        assert(!entries_to_map(es.drop_last()).contains_key(es.last().0@));
        assert(entries_to_map(es).dom() =~= entries_to_map(es.drop_last()).dom().insert(
            es.last().0@,
        ));
    }
}

/// A word-frequency table: a mapping from words to occurrence counts,
/// owned by the caller, with each word recorded once.
pub struct FrequencyMap {
    entries: Vec<(String, usize)>,
}

impl View for FrequencyMap {
    type V = Map<Seq<char>, nat>;

    closed spec fn view(&self) -> Map<Seq<char>, nat> {
        entries_to_map(self.entries@)
    }
}

impl FrequencyMap {
    /// Each word appears in at most one entry.
    pub closed spec fn wf(self) -> bool {
        distinct_keys(self.entries@)
    }

    /// Creates an empty table.
    pub fn new() -> (m: FrequencyMap)
        ensures
            m.wf(),
            m@ == Map::<Seq<char>, nat>::empty(),
    {
        FrequencyMap { entries: Vec::new() }
    }

    /// The number of distinct words recorded.
    pub fn len(&self) -> (n: usize)
        requires
            self.wf(),
        ensures
            n == self@.dom().len(),
    {
        proof {
            lemma_e2m_dom_len(self.entries@);
        }
        self.entries.len()
    }

    /// The count recorded for `w`, or `None` if `w` has not been seen.
    pub fn get(&self, w: &str) -> (r: Option<usize>)
        requires
            self.wf(),
        ensures
            match r {
                Some(c) => self@.contains_key(w@) && self@[w@] == c as nat,
                None => !self@.contains_key(w@),
            },
    {
        let mut i: usize = 0;
        while i < self.entries.len()
            invariant
                self.wf(),
                i <= self.entries@.len(),
                forall|k: int| 0 <= k < i ==> self.entries@[k].0@ != w@,
            decreases self.entries@.len() - i,
        {
            if str_eq(self.entries[i].0.as_str(), w) {
                proof {
                    lemma_e2m_lookup(self.entries@, i as int);
                }
                return Some(self.entries[i].1);
            }
            i = i + 1;
        }
        proof {
            lemma_e2m_contains(self.entries@, w@);
        }
        None
    }

    /// Records one more occurrence of `w`: its count rises by one, or is
    /// set to one on first sight. Every other word's count is unchanged.
    pub fn bump(&mut self, w: String)
        requires
            old(self).wf(),
            old(self)@.contains_key(w@) ==> old(self)@[w@] < usize::MAX,
        ensures
            final(self).wf(),
            old(self)@.contains_key(w@) ==> final(self)@ == old(self)@.insert(
                w@,
                (old(self)@[w@] + 1) as nat,
            ),
            !old(self)@.contains_key(w@) ==> final(self)@ == old(self)@.insert(w@, 1nat),
    {
        let mut i: usize = 0;
        while i < self.entries.len()
            invariant
                self.wf(),
                self == old(self),
                old(self)@.contains_key(w@) ==> old(self)@[w@] < usize::MAX,
                i <= self.entries@.len(),
                forall|k: int| 0 <= k < i ==> self.entries@[k].0@ != w@,
            decreases self.entries@.len() - i,
        {
            if str_eq(self.entries[i].0.as_str(), w.as_str()) {
                proof {
                    lemma_e2m_lookup(self.entries@, i as int);
                    assert(self@.contains_key(w@));
                    assert(self@[w@] < usize::MAX);
                }
                let c = self.entries[i].1;
                let ghost old_entries = self.entries@;
                self.entries[i] = (w, c + 1);
                proof {
                    lemma_e2m_update(old_entries, i as int, self.entries@[i as int]);
                    assert forall|a: int, b: int|
                        0 <= a < b < self.entries@.len() implies self.entries@[a].0@
                        != self.entries@[b].0@ by {
                        assert(old_entries[a].0@ != old_entries[b].0@);
                    }
                }
                return ;
            }
            i = i + 1;
        }
        proof {
            lemma_e2m_contains(self.entries@, w@);
            lemma_e2m_push(self.entries@, (w, 1usize));
        }
        let ghost old_entries = self.entries@;
        self.entries.push((w, 1));
        proof {
            assert forall|a: int, b: int|
                0 <= a < b < self.entries@.len() implies self.entries@[a].0@
                != self.entries@[b].0@ by {
                if b < old_entries.len() {
                    assert(old_entries[a].0@ != old_entries[b].0@);
                } else {
                    assert(old_entries[a].0@ != w@);
                }
            }
        }
    }
}

/// The characters of a string slice, in order.
fn chars_of(s: &str) -> (cs: Vec<char>)
    ensures
        cs@ == s@,
{
    let n = s.unicode_len();
    let mut cs: Vec<char> = Vec::new();
    let mut i: usize = 0;
    while i < n
        invariant
            i <= n,
            n == s@.len(),
            cs@ == s@.take(i as int),
        decreases n - i,
    {
        cs.push(s.get_char(i));
        proof {
            assert(cs@ =~= s@.take(i + 1));
        }
        i = i + 1;
    }
    proof {
        assert(s@.take(n as int) =~= s@);
    }
    cs
}

/// The whitespace-separated tokens of a text, in order of appearance.
fn tokenize(s: &str) -> (out: Vec<String>)
    ensures
        out@.map_values(|t: String| t@) == split_ws(s@),
{
    let cs = chars_of(s);
    let mut out: Vec<String> = Vec::new();
    let mut cur = String::new();
    let mut i: usize = 0;
    proof {
        assert(s@.skip(0) =~= s@);
        assert(out@.map_values(|t: String| t@) + split_ws_rec(s@, cur@) =~= split_ws_rec(
            s@,
            Seq::empty(),
        ));
    }
    while i < cs.len()
        invariant
            i <= cs@.len(),
            cs@ == s@,
            split_ws(s@) == out@.map_values(|t: String| t@) + split_ws_rec(
                s@.skip(i as int),
                cur@,
            ),
        decreases cs@.len() - i,
    {
        let ghost rem = s@.skip(i as int);
        proof {
            assert(rem.len() == s@.len() - i);
            assert(rem[0] == s@[i as int]);
            assert(rem.drop_first() =~= s@.skip(i + 1));
        }
        let c = cs[i];
        if is_whitespace_char(c) {
            if !cur.as_str().is_empty() {
                let ghost prev_out = out@;
                let ghost prev_cur = cur@;
                out.push(cur);
                cur = String::new();
                proof {
                    assert(split_ws_rec(rem, prev_cur) == seq![prev_cur] + split_ws_rec(
                        rem.drop_first(),
                        Seq::empty(),
                    ));
                    assert(out@.map_values(|t: String| t@) =~= prev_out.map_values(
                        |t: String| t@,
                    ).push(prev_cur));
                    assert(prev_out.map_values(|t: String| t@) + (seq![prev_cur] + split_ws_rec(
                        s@.skip(i + 1),
                        Seq::empty(),
                    )) =~= out@.map_values(|t: String| t@) + split_ws_rec(
                        s@.skip(i + 1),
                        Seq::empty(),
                    ));
                }
            } else {
                proof {
                    assert(cur@ =~= Seq::<char>::empty());
                    assert(split_ws_rec(rem, cur@) == split_ws_rec(
                        rem.drop_first(),
                        Seq::empty(),
                    ));
                }
            }
        } else {
            let ghost prev_cur = cur@;
            cur.push(c);
            proof {
                assert(split_ws_rec(rem, prev_cur) == split_ws_rec(
                    rem.drop_first(),
                    prev_cur.push(rem[0]),
                ));
                assert(cur@ == prev_cur.push(rem[0]));
            }
        }
        i = i + 1;
    }
    proof {
        assert(s@.skip(s@.len() as int) =~= Seq::<char>::empty());
    }
    if !cur.as_str().is_empty() {
        let ghost prev_out = out@;
        let ghost prev_cur = cur@;
        out.push(cur);
        proof {
            assert(out@.map_values(|t: String| t@) =~= prev_out.map_values(|t: String| t@).push(
                prev_cur,
            ));
            assert(prev_out.map_values(|t: String| t@) + seq![prev_cur] =~= out@.map_values(
                |t: String| t@,
            ));
        }
        out
    } else {
        proof {
            assert(out@.map_values(|t: String| t@) + Seq::<Seq<char>>::empty() =~= out@.map_values(
                |t: String| t@,
            ));
        }
        out
    }
}

/// Splits `text` on whitespace and returns how often each word occurs:
/// the result is exactly [`freq_map`] of the text. An empty text gives an
/// empty mapping.
pub fn word_frequencies(text: &str) -> (m: FrequencyMap)
    ensures
        m.wf(),
        m@ == freq_map(text@),
{
    let tokens = tokenize(text);
    let ghost words = split_ws(text@);
    let mut m = FrequencyMap::new();
    let mut j: usize = 0;
    proof {
        assert(words.take(0) =~= Seq::<Seq<char>>::empty());
        assert(m@ =~= token_counts(words.take(0)));
    }
    while j < tokens.len()
        invariant
            j <= tokens@.len(),
            tokens@.map_values(|t: String| t@) == words,
            m.wf(),
            m@ == token_counts(words.take(j as int)),
        decreases tokens@.len() - j,
    {
        let w = tokens[j].clone();
        proof {
            assert(w@ == words[j as int]);
            lemma_count_le_len(words.take(j as int), w@);
            assert(words.take(j + 1) =~= words.take(j as int).push(words[j as int]));
            lemma_counts_push(words.take(j as int), words[j as int]);
            lemma_count_zero_iff(words.take(j as int), w@);
        }
        m.bump(w);
        j = j + 1;
    }
    proof {
        assert(words.take(words.len() as int) =~= words);
    }
    m
}

/// A text read as a sequence of one-character tokens.
pub open spec fn char_tokens(s: Seq<char>) -> Seq<Seq<char>> {
    Seq::new(s.len(), |i: int| seq![s[i]])
}

/// The frequency map of a text's characters: each character that occurs,
/// as a one-character token, maps to its number of occurrences.
pub open spec fn char_freq_map(s: Seq<char>) -> Map<Seq<char>, nat> {
    token_counts(char_tokens(s))
}

/// Counts every character of `text`, whitespace included: the result is
/// exactly [`char_freq_map`] of the text.
pub fn char_frequencies(text: &str) -> (m: FrequencyMap)
    ensures
        m.wf(),
        m@ == char_freq_map(text@),
{
    let cs = chars_of(text);
    let ghost toks = char_tokens(text@);
    let mut m = FrequencyMap::new();
    let mut i: usize = 0;
    proof {
        assert(toks.take(0) =~= Seq::<Seq<char>>::empty());
        assert(m@ =~= token_counts(toks.take(0)));
    }
    while i < cs.len()
        invariant
            i <= cs@.len(),
            cs@ == text@,
            toks == char_tokens(text@),
            m.wf(),
            m@ == token_counts(toks.take(i as int)),
        decreases cs@.len() - i,
    {
        let mut w = String::new();
        w.push(cs[i]);
        proof {
            assert(w@ =~= seq![cs@[i as int]]);
            assert(w@ == toks[i as int]);
            lemma_count_le_len(toks.take(i as int), w@);
            assert(toks.take(i + 1) =~= toks.take(i as int).push(toks[i as int]));
            lemma_counts_push(toks.take(i as int), toks[i as int]);
            lemma_count_zero_iff(toks.take(i as int), w@);
        }
        m.bump(w);
        i = i + 1;
    }
    proof {
        assert(toks.take(toks.len() as int) =~= toks);
    }
    m
}

/// Counting is a function of the text alone: two runs of
/// `word_frequencies` on the same text yield equal mappings.
pub proof fn lemma_word_frequencies_idempotent(m1: FrequencyMap, m2: FrequencyMap, text: Seq<char>)
    requires
        m1@ == freq_map(text),
        m2@ == freq_map(text),
    ensures
        m1@ == m2@,
{
}

/// Whether two string slices hold the same characters.
pub fn str_eq(a: &str, b: &str) -> (r: bool)
    ensures
        r <==> a@ == b@,
{
    broadcast use vstd::utf8::encode_utf8_decode_utf8;

    let ab = a.as_bytes();
    let bb = b.as_bytes();
    if ab.len() != bb.len() {
        proof {
            assert(a.spec_bytes() != b.spec_bytes());
        }
        return false;
    }
    let mut i: usize = 0;
    while i < ab.len()
        invariant
            i <= ab@.len(),
            ab@.len() == bb@.len(),
            ab@ == a.spec_bytes(),
            bb@ == b.spec_bytes(),
            forall|k: int| 0 <= k < i ==> ab@[k] == bb@[k],
        decreases ab@.len() - i,
    {
        if ab[i] != bb[i] {
            proof {
                assert(a.spec_bytes() != b.spec_bytes());
            }
            return false;
        }
        i = i + 1;
    }
    proof {
        assert(a.spec_bytes() =~= b.spec_bytes());
        assert(vstd::utf8::decode_utf8(vstd::utf8::encode_utf8(a@)) == a@);
        assert(vstd::utf8::decode_utf8(vstd::utf8::encode_utf8(b@)) == b@);
    }
    true
}

} // verus!
