//! A map from strings to strings that keeps its entries ordered by key.
//!
//! Translations and UI strings are keyed by language code or string key, and
//! several places depend on walking them **in key order** (the first
//! translation is the last-resort fallback; placeholders are filled in key
//! order). The map therefore keeps its entries sorted and free of duplicate
//! keys at all times; that is its type invariant.

use vstd::prelude::*;

use crate::text::{chars_of, owned, seq_eq, starts_with, vec_starts_with};

verus! {

// ─────────────────────────────────────────────────────────────────────────────
// Key order
// ─────────────────────────────────────────────────────────────────────────────

pub open spec fn char_lt(a: char, b: char) -> bool {
    a < b
}

fn char_lt_exec(a: char, b: char) -> (r: bool)
    ensures
        r == char_lt(a, b),
{
    a < b
}

/// Lexicographic order on characters by code point, which is the order of
/// `String`'s `Ord` (UTF-8 preserves code point order byte by byte).
pub open spec fn lex_lt(a: Seq<char>, b: Seq<char>) -> bool
    decreases a.len(),
{
    if a.len() == 0 {
        b.len() > 0
    } else if b.len() == 0 {
        false
    } else if a[0] != b[0] {
        char_lt(a[0], b[0])
    } else {
        lex_lt(a.skip(1), b.skip(1))
    }
}

pub proof fn lemma_lex_irreflexive(a: Seq<char>)
    ensures
        !lex_lt(a, a),
    decreases a.len(),
{
    if a.len() > 0 {
        lemma_lex_irreflexive(a.skip(1));
    }
}

pub proof fn lemma_lex_total(a: Seq<char>, b: Seq<char>)
    ensures
        a == b || lex_lt(a, b) || lex_lt(b, a),
    decreases a.len(),
{
    if a.len() > 0 && b.len() > 0 && a[0] == b[0] {
        lemma_lex_total(a.skip(1), b.skip(1));
        if a.skip(1) == b.skip(1) {
            assert(a =~= seq![a[0]] + a.skip(1));
            assert(b =~= seq![b[0]] + b.skip(1));
        }
    } else if a.len() == 0 && b.len() == 0 {
        assert(a =~= b);
    }

}

pub proof fn lemma_lex_asymmetric(a: Seq<char>, b: Seq<char>)
    ensures
        !(lex_lt(a, b) && lex_lt(b, a)),
    decreases a.len(),
{
    if a.len() > 0 && b.len() > 0 && a[0] == b[0] {
        lemma_lex_asymmetric(a.skip(1), b.skip(1));
    }
}

pub proof fn lemma_lex_transitive(a: Seq<char>, b: Seq<char>, c: Seq<char>)
    requires
        lex_lt(a, b),
        lex_lt(b, c),
    ensures
        lex_lt(a, c),
    decreases a.len(),
{
    if a.len() > 0 && b.len() > 0 && c.len() > 0 && a[0] == b[0] && b[0] == c[0] {
        lemma_lex_transitive(a.skip(1), b.skip(1), c.skip(1));
    }
}

fn lex_less(a: &Vec<char>, b: &Vec<char>) -> (r: bool)
    ensures
        r == lex_lt(a@, b@),
{
    let mut i: usize = 0;
    assert(a@.skip(0) =~= a@);
    assert(b@.skip(0) =~= b@);
    while i < a.len() && i < b.len() && a[i] == b[i]
        invariant
            i <= a@.len(),
            i <= b@.len(),
            lex_lt(a@.skip(i as int), b@.skip(i as int)) == lex_lt(a@, b@),
        decreases a@.len() - i,
    {
        assert(a@.skip(i as int).skip(1) =~= a@.skip(i + 1));
        assert(b@.skip(i as int).skip(1) =~= b@.skip(i + 1));
        i = i + 1;
    }
    if i == a.len() {
        i < b.len()
    } else if i == b.len() {
        false
    } else {
        char_lt_exec(a[i], b[i])
    }
}

// ─────────────────────────────────────────────────────────────────────────────
// Entry sequences
// ─────────────────────────────────────────────────────────────────────────────

pub type Entries = Seq<(Seq<char>, Seq<char>)>;

/// Keys strictly increasing, so no key occurs twice.
pub open spec fn keys_sorted(s: Entries) -> bool {
    forall|i: int, j: int| 0 <= i < j < s.len() ==> lex_lt(#[trigger] s[i].0, #[trigger] s[j].0)
}

pub open spec fn has_key(s: Entries, k: Seq<char>) -> bool {
    exists|i: int| 0 <= i < s.len() && #[trigger] s[i].0 == k
}

/// The map the entries describe.
pub open spec fn map_of(s: Entries) -> Map<Seq<char>, Seq<char>> {
    Map::new(
        |k: Seq<char>| has_key(s, k),
        |k: Seq<char>| s[choose|i: int| 0 <= i < s.len() && #[trigger] s[i].0 == k].1,
    )
}

/// In sorted entries each key sits at exactly one index.
pub proof fn lemma_map_of_index(s: Entries, i: int)
    requires
        keys_sorted(s),
        0 <= i < s.len(),
    ensures
        map_of(s).contains_key(s[i].0),
        map_of(s)[s[i].0] == s[i].1,
{
    let k = s[i].0;
    assert(has_key(s, k));
    let j = choose|j: int| 0 <= j < s.len() && #[trigger] s[j].0 == k;
    lemma_lex_irreflexive(k);
    if j < i {
        assert(lex_lt(s[j].0, s[i].0));
    } else if j > i {
        assert(lex_lt(s[i].0, s[j].0));
    }
    assert(map_of(s)[k] == s[j].1);
}

/// Appending an entry with a new, larger key adds exactly that key.
pub proof fn lemma_map_of_push(s: Entries, e: (Seq<char>, Seq<char>))
    requires
        keys_sorted(s.push(e)),
    ensures
        keys_sorted(s),
        map_of(s.push(e)) == map_of(s).insert(e.0, e.1),
{
    let t = s.push(e);
    assert forall|i: int, j: int| 0 <= i < j < s.len() implies lex_lt(
        #[trigger] s[i].0,
        #[trigger] s[j].0,
    ) by {
        assert(t[i] == s[i] && t[j] == s[j]);
    }
    let target = map_of(s).insert(e.0, e.1);
    assert forall|q: Seq<char>| #[trigger] has_key(t, q) == target.contains_key(q) by {
        if has_key(t, q) && q != e.0 {
            let i = choose|i: int| 0 <= i < t.len() && #[trigger] t[i].0 == q;
            assert(s[i].0 == q);
        }
        if has_key(s, q) {
            let i = choose|i: int| 0 <= i < s.len() && #[trigger] s[i].0 == q;
            assert(t[i].0 == q);
        }
        if q == e.0 {
            assert(t[s.len() as int].0 == q);
        }
    }
    assert forall|q: Seq<char>| #[trigger] target.contains_key(q) implies map_of(t)[q]
        == target[q] by {
        assert(has_key(t, q));
        let i = choose|i: int| 0 <= i < t.len() && #[trigger] t[i].0 == q;
        lemma_map_of_index(t, i);
        if i < s.len() {
            assert(t[i] == s[i]);
            lemma_map_of_index(s, i);
            lemma_lex_irreflexive(q);
            assert(lex_lt(t[i].0, t[s.len() as int].0));
        }
    }
    assert(map_of(t) =~= target);
}

pub struct StrMap {
    entries: Vec<(String, String)>,
}

pub open spec fn entries_view(v: Seq<(String, String)>) -> Entries {
    v.map_values(|e: (String, String)| (e.0@, e.1@))
}

impl View for StrMap {
    type V = Entries;

    closed spec fn view(&self) -> Entries {
        entries_view(self.entries@)
    }
}

impl StrMap {
    #[verifier::type_invariant]
    closed spec fn sorted(self) -> bool {
        keys_sorted(entries_view(self.entries@))
    }

    /// The map the entries describe.
    pub open spec fn map(&self) -> Map<Seq<char>, Seq<char>> {
        map_of(self@)
    }

    /// An empty map.
    pub fn new() -> (r: StrMap)
        ensures
            r@.len() == 0,
            r.map() == Map::<Seq<char>, Seq<char>>::empty(),
    {
        let r = StrMap { entries: Vec::new() };
        assert(r.map() =~= Map::<Seq<char>, Seq<char>>::empty());
        r
    }

    /// A copy with the same entries.
    pub fn copy(&self) -> (r: StrMap)
        ensures
            r@ == self@,
    {
        proof {
            use_type_invariant(self);
        }
        let n = self.entries.len();
        let mut out: Vec<(String, String)> = Vec::new();
        let mut i: usize = 0;
        while i < n
            invariant
                n == self.entries@.len(),
                i <= n,
                entries_view(out@) == entries_view(self.entries@).take(i as int),
            decreases n - i,
        {
            let e = &self.entries[i];
            let ghost before = out@;
            out.push((owned(e.0.as_str()), owned(e.1.as_str())));
            assert(entries_view(out@) =~= entries_view(before).push((e.0@, e.1@)));
            assert(entries_view(self.entries@).take(i + 1) =~= entries_view(self.entries@).take(
                i as int,
            ).push((e.0@, e.1@)));
            i = i + 1;
        }
        assert(entries_view(self.entries@).take(n as int) =~= entries_view(self.entries@));
        StrMap { entries: out }
    }

    /// Entries are ordered by key, without repeats.
    pub fn len(&self) -> (r: usize)
        ensures
            r == self@.len(),
            keys_sorted(self@),
    {
        proof {
            use_type_invariant(self);
        }
        self.entries.len()
    }

    /// The `i`-th entry in key order.
    pub fn entry(&self, i: usize) -> (r: (&String, &String))
        requires
            i < self@.len(),
        ensures
            (r.0@, r.1@) == self@[i as int],
            keys_sorted(self@),
    {
        proof {
            use_type_invariant(self);
        }
        let e = &self.entries[i];
        (&e.0, &e.1)
    }

    /// The value stored under `key`.
    pub fn get(&self, key: &str) -> (r: Option<&String>)
        ensures
            r is Some == self.map().contains_key(key@),
            r matches Some(v) ==> v@ == self.map()[key@],
    {
        proof {
            use_type_invariant(self);
        }
        let k = chars_of(key);
        let n = self.entries.len();
        let mut i: usize = 0;
        while i < n
            invariant
                n == self@.len(),
                i <= n,
                k@ == key@,
                keys_sorted(self@),
                self@ == entries_view(self.entries@),
                forall|j: int| 0 <= j < i ==> self@[j].0 != key@,
            decreases n - i,
        {
            let ek = chars_of(self.entries[i].0.as_str());
            if seq_eq(&ek, &k) {
                proof {
                    lemma_map_of_index(self@, i as int);
                }
                return Some(&self.entries[i].1);
            }
            i = i + 1;
        }
        None
    }

    /// Sets `key` to `value`, replacing any value stored under it.
    pub fn insert(&mut self, key: String, value: String)
        ensures
            final(self).map() == old(self).map().insert(key@, value@),
    {
        proof {
            use_type_invariant(&*self);
        }
        let ghost old_view = self@;
        let k = chars_of(key.as_str());
        let mut entries: Vec<(String, String)> = Vec::new();
        std::mem::swap(&mut entries, &mut self.entries);
        assert(entries_view(entries@) == old_view);
        let n = entries.len();
        let mut p: usize = 0;
        while p < n
            invariant
                n == entries@.len(),
                p <= n,
                k@ == key@,
                entries_view(entries@) == old_view,
                keys_sorted(old_view),
                forall|j: int| 0 <= j < p ==> lex_lt(#[trigger] old_view[j].0, key@),
            ensures
                p <= n,
                forall|j: int| 0 <= j < p ==> lex_lt(#[trigger] old_view[j].0, key@),
                (p < n) ==> !lex_lt(old_view[p as int].0, key@),
            decreases n - p,
        {
            let ek = chars_of(entries[p].0.as_str());
            if !lex_less(&ek, &k) {
                break;
            }
            p = p + 1;
        }
        let mut replace = false;
        if p < n {
            let ek = chars_of(entries[p].0.as_str());
            replace = seq_eq(&ek, &k);
        }
        assert(replace == (n > p && old_view[p as int].0 == key@));
        let ghost kv = (key@, value@);
        if replace {
            entries.set(p, (key, value));
        } else {
            entries.insert(p, (key, value));
        }
        let ghost new_view = entries_view(entries@);
        proof {
            if p < n {
                lemma_lex_total(old_view[p as int].0, key@);
            }
            if replace {
                assert(new_view =~= old_view.update(p as int, kv));
            } else {
                assert(new_view =~= old_view.take(p as int).push(kv) + old_view.skip(p as int));
            }
            // Sortedness of the new entries.
            assert forall|i: int, j: int| 0 <= i < j < new_view.len() implies lex_lt(
                #[trigger] new_view[i].0,
                #[trigger] new_view[j].0,
            ) by {
                if replace {
                    if i == p {
                        assert(lex_lt(old_view[p as int].0, old_view[j].0));
                    } else if j == p {
                        assert(lex_lt(old_view[i].0, old_view[p as int].0));
                    }
                } else {
                    if i < p && j == p {
                    } else if i == p && j > p {
                        assert(new_view[j] == old_view[j - 1]);
                        if j - 1 > p {
                            lemma_lex_transitive(key@, old_view[p as int].0, old_view[j - 1].0);
                        }
                    } else if i < p && j > p {
                        assert(new_view[j] == old_view[j - 1]);
                    } else if i > p {
                        assert(new_view[i] == old_view[i - 1]);
                        assert(new_view[j] == old_view[j - 1]);
                    }
                }
            }
            // The map view.
            let target = map_of(old_view).insert(key@, value@);
            assert forall|q: Seq<char>| #[trigger] has_key(new_view, q) == target.contains_key(q) by {
                if has_key(new_view, q) {
                    let i = choose|i: int| 0 <= i < new_view.len() && #[trigger] new_view[i].0 == q;
                    if q != key@ {
                        if replace {
                            assert(old_view[i].0 == q);
                        } else if i < p {
                            assert(old_view[i].0 == q);
                        } else {
                            assert(old_view[i - 1].0 == q);
                        }
                    }
                }
                if target.contains_key(q) && q != key@ {
                    let i = choose|i: int| 0 <= i < old_view.len() && #[trigger] old_view[i].0 == q;
                    if replace {
                        assert(new_view[i].0 == q);
                    } else if i < p {
                        assert(new_view[i].0 == q);
                    } else {
                        assert(new_view[i + 1].0 == q);
                    }
                }
                if q == key@ {
                    assert(new_view[p as int].0 == q);
                }
            }
            assert forall|q: Seq<char>| #[trigger] target.contains_key(q) implies map_of(
                new_view,
            )[q] == target[q] by {
                assert(has_key(new_view, q));
                let i = choose|i: int| 0 <= i < new_view.len() && #[trigger] new_view[i].0 == q;
                lemma_map_of_index(new_view, i);
                if q == key@ {
                    assert(new_view[p as int] == kv);
                    lemma_map_of_index(new_view, p as int);
                } else if replace {
                    assert(new_view[i] == old_view[i]);
                    lemma_map_of_index(old_view, i);
                } else if i < p {
                    assert(new_view[i] == old_view[i]);
                    lemma_map_of_index(old_view, i);
                } else {
                    assert(new_view[i] == old_view[i - 1]);
                    lemma_map_of_index(old_view, i - 1);
                }
            }
            assert(map_of(new_view) =~= target);
        }
        self.entries = entries;
    }

    /// The first entry in key order (the smallest key), if any.
    pub fn first(&self) -> (r: Option<(&String, &String)>)
        ensures
            r is Some == (self@.len() > 0),
            r matches Some(e) ==> (e.0@, e.1@) == self@[0],
            keys_sorted(self@),
    {
        proof {
            use_type_invariant(self);
        }
        if self.entries.len() == 0 {
            None
        } else {
            let e = &self.entries[0];
            Some((&e.0, &e.1))
        }
    }

    /// Builds a map from pairs; a later pair overrides an earlier one with the same key.
    pub fn from_pairs(pairs: Vec<(String, String)>) -> (r: StrMap)
        ensures
            r.map() == pairs_map(entries_view(pairs@)),
    {
        let mut r = StrMap::new();
        let n = pairs.len();
        let mut i: usize = 0;
        while i < n
            invariant
                n == pairs@.len(),
                i <= n,
                r.map() == pairs_map(entries_view(pairs@).take(i as int)),
            decreases n - i,
        {
            let k = pairs[i].0.clone();
            let v = pairs[i].1.clone();
            r.insert(k, v);
            assert(entries_view(pairs@).take(i + 1).drop_last() =~= entries_view(pairs@).take(
                i as int,
            ));
            i = i + 1;
        }
        assert(entries_view(pairs@).take(n as int) =~= entries_view(pairs@));
        r
    }

    /// Adds every entry of `other`, overriding entries with the same key.
    pub fn extend(&mut self, other: &StrMap)
        ensures
            final(self).map() == old(self).map().union_prefer_right(other.map()),
    {
        let n = other.len();
        let mut i: usize = 0;
        while i < n
            invariant
                n == other@.len(),
                i <= n,
                keys_sorted(other@),
                self.map() == old(self).map().union_prefer_right(map_of(other@.take(i as int))),
            decreases n - i,
        {
            let (k, v) = other.entry(i);
            let k2 = k.clone();
            let v2 = v.clone();
            self.insert(k2, v2);
            proof {
                let t = other@.take(i + 1);
                assert(t =~= other@.take(i as int).push(other@[i as int]));
                lemma_map_of_push(other@.take(i as int), other@[i as int]);
                assert(self.map() =~= old(self).map().union_prefer_right(map_of(t)));
            }
            i = i + 1;
        }
        assert(other@.take(n as int) =~= other@);
    }

    /// The entries whose key starts with `prefix`.
    pub fn with_key_prefix(&self, prefix: &str) -> (r: StrMap)
        ensures
            r.map() == self.map().restrict(Set::new(|k: Seq<char>| starts_with(k, prefix@))),
    {
        let p = chars_of(prefix);
        let mut r = StrMap::new();
        let n = self.len();
        let mut i: usize = 0;
        let ghost keep = Set::new(|k: Seq<char>| starts_with(k, prefix@));
        while i < n
            invariant
                n == self@.len(),
                i <= n,
                p@ == prefix@,
                keys_sorted(self@),
                keep == Set::new(|k: Seq<char>| starts_with(k, prefix@)),
                r.map() == map_of(self@.take(i as int)).restrict(keep),
            decreases n - i,
        {
            let (k, v) = self.entry(i);
            let kc = chars_of(k.as_str());
            let ghost t = self@.take(i + 1);
            proof {
                assert(t =~= self@.take(i as int).push(self@[i as int]));
                lemma_map_of_push(self@.take(i as int), self@[i as int]);
            }
            if vec_starts_with(&kc, &p) {
                r.insert(k.clone(), v.clone());
                assert(r.map() =~= map_of(t).restrict(keep));
            } else {
                assert(r.map() =~= map_of(t).restrict(keep));
            }
            i = i + 1;
        }
        assert(self@.take(n as int) =~= self@);
        r
    }
}

/// The map that inserting the pairs one after another produces.
pub open spec fn pairs_map(s: Entries) -> Map<Seq<char>, Seq<char>>
    decreases s.len(),
{
    if s.len() == 0 {
        Map::empty()
    } else {
        pairs_map(s.drop_last()).insert(s.last().0, s.last().1)
    }
}

} // verus!
