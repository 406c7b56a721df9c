use vstd::prelude::*;

use crate::text::{char_seq_lt, lemma_lt_irreflexive, lemma_lt_total, lemma_lt_transitive, str_eq, str_lt};

verus! {

/// Whether the keys of an association list ascend strictly.
pub open spec fn keys_ascending<V>(s: Seq<(Seq<char>, V)>) -> bool {
    forall|i: int, j: int|
        0 <= i < j < s.len() ==> char_seq_lt(#[trigger] s[i].0, #[trigger] s[j].0)
}

/// The map that an association list stands for.
pub open spec fn assoc_map<V>(s: Seq<(Seq<char>, V)>) -> Map<Seq<char>, V>
    decreases s.len(),
{
    if s.len() == 0 {
        Map::empty()
    } else {
        assoc_map(s.drop_last()).insert(s.last().0, s.last().1)
    }
}

/// Whether `s` lists the entries of `m` in ascending order of key.
pub open spec fn lists_in_order<V>(s: Seq<(Seq<char>, V)>, m: Map<Seq<char>, V>) -> bool {
    &&& keys_ascending(s)
    &&& s.len() == m.dom().len()
    &&& m.dom().finite()
    &&& forall|i: int| 0 <= i < s.len() ==> #[trigger] m.contains_key(s[i].0) && m[s[i].0] == s[i].1
    &&& forall|k: Seq<char>| #[trigger] m.contains_key(k) ==> exists|i: int| 0 <= i < s.len() && s[i].0 == k
}

/// An association list with ascending keys lists exactly the entries of its map.
pub proof fn lemma_assoc_map<V>(s: Seq<(Seq<char>, V)>)
    requires
        keys_ascending(s),
    ensures
        lists_in_order(s, assoc_map(s)),
    decreases s.len(),
{
    if s.len() > 0 {
        let p = s.drop_last();
        assert(keys_ascending(p));
        lemma_assoc_map(p);
        let last = s.last();
        assert(!assoc_map(p).contains_key(last.0)) by {
            if assoc_map(p).contains_key(last.0) {
                let i = choose|i: int| 0 <= i < p.len() && p[i].0 == last.0;
                assert(char_seq_lt(s[i].0, s[s.len() - 1].0));
                lemma_lt_irreflexive(last.0);
            }
        }
        assert forall|i: int| 0 <= i < s.len() implies #[trigger] assoc_map(s).contains_key(s[i].0)
            && assoc_map(s)[s[i].0] == s[i].1 by {
            if i < s.len() - 1 {
                assert(p[i] == s[i]);
                assert(char_seq_lt(s[i].0, s[s.len() - 1].0));
                lemma_lt_irreflexive(s[i].0);
            }
        }
        assert forall|k: Seq<char>| #[trigger] assoc_map(s).contains_key(k) implies exists|i: int|
            0 <= i < s.len() && s[i].0 == k by {
            if k != last.0 {
                assert(assoc_map(p).contains_key(k));
                let i = choose|i: int| 0 <= i < p.len() && p[i].0 == k;
                assert(s[i].0 == k);
            } else {
                assert(s[s.len() - 1].0 == k);
            }
        }
    }
}

/// Two association lists with ascending keys and the same map are equal.
pub proof fn lemma_listing_unique<V>(s: Seq<(Seq<char>, V)>, t: Seq<(Seq<char>, V)>, m: Map<Seq<char>, V>)
    requires
        lists_in_order(s, m),
        lists_in_order(t, m),
    ensures
        s == t,
    decreases s.len(),
{
    if s.len() > 0 {
        // The first entry of each list carries the least key of the map.
        assert(m.contains_key(s[0].0));
        let j = choose|j: int| 0 <= j < t.len() && t[j].0 == s[0].0;
        assert(m.contains_key(t[0].0));
        let i = choose|i: int| 0 <= i < s.len() && s[i].0 == t[0].0;
        if j > 0 {
            assert(char_seq_lt(t[0].0, t[j].0));
            if i > 0 {
                assert(char_seq_lt(s[0].0, s[i].0));
                lemma_lt_total(s[0].0, t[0].0);
            } else {
                lemma_lt_irreflexive(s[0].0);
            }
        }
        assert(t[0] == s[0]);
        let m2 = m.remove(s[0].0);
        let s2 = s.drop_first();
        let t2 = t.drop_first();
        assert forall|a: int| 0 <= a < s2.len() implies #[trigger] m2.contains_key(s2[a].0)
            && m2[s2[a].0] == s2[a].1 by {
            assert(char_seq_lt(s[0].0, s[a + 1].0));
            lemma_lt_irreflexive(s[0].0);
        }
        assert forall|a: int| 0 <= a < t2.len() implies #[trigger] m2.contains_key(t2[a].0)
            && m2[t2[a].0] == t2[a].1 by {
            assert(char_seq_lt(t[0].0, t[a + 1].0));
            lemma_lt_irreflexive(t[0].0);
        }
        assert forall|k: Seq<char>| #[trigger] m2.contains_key(k) implies exists|a: int|
            0 <= a < s2.len() && s2[a].0 == k by {
            assert(m.contains_key(k));
            let a = choose|a: int| 0 <= a < s.len() && s[a].0 == k;
            assert(a > 0);
            assert(s2[a - 1].0 == k);
        }
        assert forall|k: Seq<char>| #[trigger] m2.contains_key(k) implies exists|a: int|
            0 <= a < t2.len() && t2[a].0 == k by {
            assert(m.contains_key(k));
            let a = choose|a: int| 0 <= a < t.len() && t[a].0 == k;
            assert(a > 0);
            assert(t2[a - 1].0 == k);
        }
        assert(keys_ascending(s2));
        assert(keys_ascending(t2));
        lemma_listing_unique(s2, t2, m2);
        assert(s =~= seq![s[0]] + s2);
        assert(t =~= seq![t[0]] + t2);
    } else {
        if t.len() > 0 {
            assert(m.contains_key(t[0].0));
        }
    }
}

/// A map that agrees with a listing of another map, entry by entry, is that map.
pub proof fn lemma_same_map<V>(s: Seq<(Seq<char>, V)>, m1: Map<Seq<char>, V>, m2: Map<Seq<char>, V>)
    requires
        lists_in_order(s, m1),
        forall|i: int| 0 <= i < s.len() ==> #[trigger] m2.contains_key(s[i].0) && m2[s[i].0] == s[i].1,
        forall|k: Seq<char>| #[trigger] m2.contains_key(k) ==> exists|i: int| 0 <= i < s.len() && s[i].0 == k,
    ensures
        m1 == m2,
{
    assert forall|k: Seq<char>| m1.contains_key(k) <==> m2.contains_key(k) by {
        if m1.contains_key(k) {
            let i = choose|i: int| 0 <= i < s.len() && s[i].0 == k;
            assert(m2.contains_key(s[i].0));
        }
        if m2.contains_key(k) {
            let i = choose|i: int| 0 <= i < s.len() && s[i].0 == k;
            assert(m1.contains_key(s[i].0));
        }
    }
    assert forall|k: Seq<char>| #[trigger] m1.contains_key(k) implies m1[k] == m2[k] by {
        let i = choose|i: int| 0 <= i < s.len() && s[i].0 == k;
        assert(m1.contains_key(s[i].0));
        assert(m2.contains_key(s[i].0));
    }
    assert(m1 =~= m2);
}

/// Values that can be copied into an equal value.
pub trait Duplicate: Sized {
    /// A value equal to this one.
    fn duplicate(&self) -> (r: Self)
        ensures
            r == *self,
    ;
}

/// A map from strings to values, kept in ascending order of key.
///
/// It stands where a `HashMap<String, V>` would: vstd gives `HashMap` a
/// key model only for integer and `bool` keys, so with a `String` key
/// what an insert does cannot be shown (a single insert into a
/// `HashMap<String, u8>` was tried: that the map then has one entry could
/// not be proved). The order of keys also gives the sorted listings.
#[derive(Debug)]
pub struct StrMap<V> {
    entries: Vec<(String, V)>,
}

impl<V> StrMap<V> {
    /// The entries, keys taken by their characters, in stored order.
    pub closed spec fn listing(self) -> Seq<(Seq<char>, V)> {
        self.entries@.map_values(|e: (String, V)| (e.0@, e.1))
    }

    #[verifier::type_invariant]
    closed spec fn ascending(self) -> bool {
        keys_ascending(self.listing())
    }

    /// The entries of the map in ascending order of key.
    pub closed spec fn in_order(self) -> Seq<(Seq<char>, V)> {
        if keys_ascending(self.listing()) {
            self.listing()
        } else {
            Seq::empty()
        }
    }

    /// The map held.
    pub closed spec fn view(self) -> Map<Seq<char>, V> {
        assoc_map(self.in_order())
    }

    /// `in_order` lists the map's entries in ascending order of key.
    pub proof fn lemma_in_order(&self)
        ensures
            lists_in_order(self.in_order(), self.view()),
    {
        lemma_assoc_map(self.in_order());
    }

    /// The empty map.
    pub fn new() -> (m: Self)
        ensures
            m.view() == Map::<Seq<char>, V>::empty(),
            m.in_order() == Seq::<(Seq<char>, V)>::empty(),
    {
        let m = StrMap { entries: Vec::new() };
        assert(m.listing() =~= Seq::<(Seq<char>, V)>::empty());
        m
    }

    /// Number of entries.
    pub fn len(&self) -> (n: usize)
        ensures
            n == self.in_order().len(),
    {
        proof {
            use_type_invariant(self);
        }
        self.entries.len()
    }

    /// The key and value of the `i`-th entry in ascending order of key.
    pub fn entry_at(&self, i: usize) -> (r: (&String, &V))
        requires
            i < self.in_order().len(),
        ensures
            r.0@ == self.in_order()[i as int].0,
            *r.1 == self.in_order()[i as int].1,
    {
        proof {
            use_type_invariant(self);
        }
        let e = &self.entries[i];
        (&e.0, &e.1)
    }

    /// A map with the same entries.
    pub fn duplicate(&self) -> (r: Self) where V: Duplicate
        ensures
            r@ == self@,
            r.in_order() == self.in_order(),
    {
        proof {
            use_type_invariant(self);
        }
        let mut entries: Vec<(String, V)> = Vec::new();
        let mut i: usize = 0;
        while i < self.entries.len()
            invariant
                i <= self.entries@.len(),
                entries@ == self.entries@.take(i as int),
            decreases self.entries.len() - i,
        {
            let e = &self.entries[i];
            entries.push((e.0.clone(), e.1.duplicate()));
            assert(entries@ =~= self.entries@.take(i + 1));
            i = i + 1;
        }
        assert(entries@ =~= self.entries@);
        StrMap { entries }
    }

    /// Inserts `value` under `key`, replacing the value that the key had.
    pub fn insert(&mut self, key: String, value: V)
        ensures
            final(self).view() == old(self).view().insert(key@, value),
    {
        proof {
            use_type_invariant(&*self);
        }
        let mut entries: Vec<(String, V)> = Vec::new();
        std::mem::swap(&mut entries, &mut self.entries);
        let ghost old_list = entries@.map_values(|e: (String, V)| (e.0@, e.1));
        assert(old_list == old(self).listing());
        let mut i: usize = 0;
        while i < entries.len()
            invariant
                i <= entries.len(),
                entries@.map_values(|e: (String, V)| (e.0@, e.1)) == old_list,
                keys_ascending(old_list),
                forall|j: int| 0 <= j < i ==> char_seq_lt(#[trigger] old_list[j].0, key@),
            ensures
                i <= entries.len(),
                entries@.map_values(|e: (String, V)| (e.0@, e.1)) == old_list,
                forall|j: int| 0 <= j < i ==> char_seq_lt(#[trigger] old_list[j].0, key@),
                i < entries.len() ==> !char_seq_lt(old_list[i as int].0, key@),
            decreases entries.len() - i,
        {
            if !str_lt(entries[i].0.as_str(), key.as_str()) {
                break;
            }
            i = i + 1;
        }
        let ghost k = key@;
        let ghost v = value;
        proof {
            lemma_assoc_map(old_list);
        }
        if i < entries.len() && str_eq(entries[i].0.as_str(), key.as_str()) {
            assert(old_list[i as int].0 == k);
            entries[i] = (key, value);
            let ghost new_list = entries@.map_values(|e: (String, V)| (e.0@, e.1));
            assert(new_list =~= old_list.update(i as int, (k, v)));
            assert(keys_ascending(new_list)) by {
                assert forall|a: int, b: int| 0 <= a < b < new_list.len() implies char_seq_lt(
                    #[trigger] new_list[a].0,
                    #[trigger] new_list[b].0,
                ) by {
                    assert(new_list[a].0 == old_list[a].0);
                    assert(new_list[b].0 == old_list[b].0);
                }
            }
            proof {
                lemma_assoc_map(new_list);
                let m = assoc_map(old_list).insert(k, v);
                assert forall|j: int| 0 <= j < new_list.len() implies #[trigger] m.contains_key(new_list[j].0)
                    && m[new_list[j].0] == new_list[j].1 by {
                    if j != i {
                        assert(new_list[j] == old_list[j]);
                        assert(assoc_map(old_list).contains_key(old_list[j].0));
                        if j < i {
                            assert(char_seq_lt(old_list[j].0, old_list[i as int].0));
                        } else {
                            assert(char_seq_lt(old_list[i as int].0, old_list[j].0));
                        }
                        lemma_lt_irreflexive(old_list[j].0);
                    } else {
                        assert(new_list[j] == (k, v));
                    }
                }
                assert forall|kk: Seq<char>| #[trigger] m.contains_key(kk) implies exists|a: int|
                    0 <= a < new_list.len() && new_list[a].0 == kk by {
                    if kk != k {
                        assert(assoc_map(old_list).contains_key(kk));
                        let a = choose|a: int| 0 <= a < old_list.len() && old_list[a].0 == kk;
                        assert(new_list[a].0 == kk);
                    } else {
                        assert(new_list[i as int].0 == kk);
                    }
                }
                lemma_same_map(new_list, assoc_map(new_list), m);
            }
            self.entries = entries;
        } else {
            let ghost new_list = old_list.insert(i as int, (k, v));
            proof {
                if i < entries.len() {
                    assert(old_list[i as int].0 == entries@[i as int].0@);
                    assert(old_list[i as int].0 != k);
                }
                if i < entries.len() {
                    lemma_lt_total(old_list[i as int].0, k);
                }
                assert forall|a: int, b: int| 0 <= a < b < new_list.len() implies char_seq_lt(
                    #[trigger] new_list[a].0,
                    #[trigger] new_list[b].0,
                ) by {
                    if b < i {
                    } else if b == i {
                    } else if a == i {
                        if b - 1 > i {
                            assert(char_seq_lt(old_list[i as int].0, old_list[b - 1].0));
                            lemma_lt_transitive(k, old_list[i as int].0, old_list[b - 1].0);
                        }
                    } else if a < i {
                        assert(char_seq_lt(old_list[a].0, k));
                        if b - 1 > i {
                            assert(char_seq_lt(old_list[i as int].0, old_list[b - 1].0));
                            lemma_lt_transitive(k, old_list[i as int].0, old_list[b - 1].0);
                        }
                        lemma_lt_transitive(old_list[a].0, k, old_list[b - 1].0);
                    } else {
                        assert(char_seq_lt(old_list[a - 1].0, old_list[b - 1].0));
                    }
                }
            }
            entries.insert(i, (key, value));
            assert(entries@.map_values(|e: (String, V)| (e.0@, e.1)) =~= new_list);
            proof {
                lemma_assoc_map(new_list);
                let m = assoc_map(old_list).insert(k, v);
                assert forall|j: int| 0 <= j < new_list.len() implies #[trigger] m.contains_key(new_list[j].0)
                    && m[new_list[j].0] == new_list[j].1 by {
                    if j != i {
                        lemma_lt_irreflexive(k);
                        if j < i {
                            assert(new_list[j] == old_list[j]);
                            assert(char_seq_lt(new_list[j].0, new_list[i as int].0));
                            assert(assoc_map(old_list).contains_key(old_list[j].0));
                        } else {
                            assert(new_list[j] == old_list[j - 1]);
                            assert(char_seq_lt(new_list[i as int].0, new_list[j].0));
                            assert(assoc_map(old_list).contains_key(old_list[j - 1].0));
                        }
                    } else {
                        assert(new_list[j] == (k, v));
                    }
                }
                assert forall|kk: Seq<char>| #[trigger] m.contains_key(kk) implies exists|a: int|
                    0 <= a < new_list.len() && new_list[a].0 == kk by {
                    if kk != k {
                        assert(assoc_map(old_list).contains_key(kk));
                        let a = choose|a: int| 0 <= a < old_list.len() && old_list[a].0 == kk;
                        if a < i {
                            assert(new_list[a].0 == kk);
                        } else {
                            assert(new_list[a + 1].0 == kk);
                        }
                    } else {
                        assert(new_list[i as int].0 == kk);
                    }
                }
                lemma_same_map(new_list, assoc_map(new_list), m);
            }
            self.entries = entries;
        }
    }
}

} // verus!
