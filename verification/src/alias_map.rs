//! A small map from alias text to a value, kept in insertion order.
//!
//! Condition expressions carry two such maps: from name aliases to attribute
//! names, and from value placeholders to values. Both are short, so the map is
//! a vector of entries in which no key occurs twice.

use vstd::prelude::*;
use vstd::string::*;

verus! {

/// The map that a sequence of entries builds when each entry is inserted in
/// turn: of two entries with one key, the later one stays.
pub open spec fn entry_map<T>(entries: Seq<(Seq<char>, T)>) -> Map<Seq<char>, T>
    decreases entries.len(),
{
    if entries.len() == 0 {
        Map::empty()
    } else {
        entry_map(entries.drop_last()).insert(entries.last().0, entries.last().1)
    }
}

/// No key occurs in two entries.
pub open spec fn distinct_keys<T>(entries: Seq<(Seq<char>, T)>) -> bool {
    forall|i: int, j: int|
        0 <= i < j < entries.len() ==> (#[trigger] entries[i]).0 != (#[trigger] entries[j]).0
}

/// The keys of `entry_map(entries)` are the keys of the entries, and they are
/// finitely many.
pub proof fn lemma_entry_map_keys<T>(entries: Seq<(Seq<char>, T)>)
    ensures
        entry_map(entries).dom().finite(),
        forall|k: Seq<char>|
            entry_map(entries).contains_key(k) <==> exists|i: int|
                0 <= i < entries.len() && (#[trigger] entries[i]).0 == k,
    decreases entries.len(),
{
    if entries.len() > 0 {
        let front = entries.drop_last();
        lemma_entry_map_keys(front);
        assert forall|k: Seq<char>|
            entry_map(entries).contains_key(k) <==> exists|i: int|
                0 <= i < entries.len() && (#[trigger] entries[i]).0 == k by {
            if entry_map(entries).contains_key(k) {
                if k == entries.last().0 {
                    assert(entries[entries.len() - 1].0 == k);
                } else {
                    assert(entry_map(front).contains_key(k));
                    let i = choose|i: int| 0 <= i < front.len() && (#[trigger] front[i]).0 == k;
                    assert(entries[i].0 == k);
                }
            }
            if exists|i: int| 0 <= i < entries.len() && (#[trigger] entries[i]).0 == k {
                let i = choose|i: int| 0 <= i < entries.len() && (#[trigger] entries[i]).0 == k;
                if i < entries.len() - 1 {
                    assert(front[i].0 == k);
                }
            }
        }
    }
}

/// Dropping the last entry keeps the keys distinct, and the key of the last
/// entry is none of the keys that stay.
pub proof fn lemma_distinct_front<T>(entries: Seq<(Seq<char>, T)>)
    requires
        distinct_keys(entries),
        entries.len() > 0,
    ensures
        distinct_keys(entries.drop_last()),
        !entry_map(entries.drop_last()).contains_key(entries.last().0),
{
    let front = entries.drop_last();
    assert forall|a: int, b: int| 0 <= a < b < front.len() implies (#[trigger] front[a]).0 != (
    #[trigger] front[b]).0 by {
        assert(entries[a].0 != entries[b].0);
    }
    lemma_entry_map_keys(front);
    if entry_map(front).contains_key(entries.last().0) {
        let i = choose|i: int| 0 <= i < front.len() && (#[trigger] front[i]).0 == entries.last().0;
        assert(entries[i].0 != entries[entries.len() - 1].0);
    }
}

/// Where no key occurs twice, each entry's key is mapped to that entry's value.
pub proof fn lemma_entry_map_value<T>(entries: Seq<(Seq<char>, T)>, i: int)
    requires
        distinct_keys(entries),
        0 <= i < entries.len(),
    ensures
        entry_map(entries).contains_key(entries[i].0),
        entry_map(entries)[entries[i].0] == entries[i].1,
    decreases entries.len(),
{
    if i < entries.len() - 1 {
        lemma_distinct_front(entries);
        lemma_entry_map_value(entries.drop_last(), i);
        assert(entries.drop_last()[i] == entries[i]);
        assert(entries[i].0 != entries[entries.len() - 1].0);
    }
}

/// Where no key occurs twice, the map has as many keys as there are entries.
pub proof fn lemma_entry_map_len<T>(entries: Seq<(Seq<char>, T)>)
    requires
        distinct_keys(entries),
    ensures
        entry_map(entries).dom().finite(),
        entry_map(entries).len() == entries.len(),
    decreases entries.len(),
{
    lemma_entry_map_keys(entries);
    if entries.len() > 0 {
        lemma_distinct_front(entries);
        lemma_entry_map_len(entries.drop_last());
    }
}

/// Inserting the entry at `i` after the entries before it were laid over
/// `base` is laying the entries up to and with `i` over `base`.
pub proof fn lemma_entry_map_step<T>(base: Map<Seq<char>, T>, entries: Seq<(Seq<char>, T)>, i: int)
    requires
        0 <= i < entries.len(),
    ensures
        base.union_prefer_right(entry_map(entries.take(i))).insert(entries[i].0, entries[i].1)
            == base.union_prefer_right(entry_map(entries.take(i + 1))),
{
    let upto = entries.take(i + 1);
    assert(upto.drop_last() =~= entries.take(i));
    assert(upto.last() == entries[i]);
    assert(base.union_prefer_right(entry_map(entries.take(i))).insert(entries[i].0, entries[i].1)
        =~= base.union_prefer_right(entry_map(upto)));
}

/// Each stored entry as its key's text and its value's view.
pub open spec fn entry_views<V: View>(stored: Seq<(String, V)>) -> Seq<(Seq<char>, V::V)> {
    stored.map_values(|e: (String, V)| (e.0@, e.1@))
}

/// A map from alias text to values of `V`.
pub struct AliasMap<V: View> {
    entries: Vec<(String, V)>,
}

impl<V: View> AliasMap<V> {
    /// The entries in insertion order, each as its key's text and its value's view.
    pub closed spec fn entries(&self) -> Seq<(Seq<char>, V::V)> {
        entry_views(self.entries@)
    }

    #[verifier::type_invariant]
    spec fn keys_are_distinct(&self) -> bool {
        distinct_keys(self.entries())
    }

    /// The empty map.
    pub fn new() -> (map: Self)
        ensures
            map@ == Map::<Seq<char>, V::V>::empty(),
            map.entries().len() == 0,
    {
        let map = AliasMap { entries: Vec::new() };
        assert(map.entries() =~= Seq::empty());
        map
    }

    /// The number of keys.
    pub fn len(&self) -> (n: usize)
        ensures
            n == self.entries().len(),
            n == self@.len(),
            self@.dom().finite(),
            distinct_keys(self.entries()),
    {
        proof {
            use_type_invariant(self);
            lemma_entry_map_len(self.entries());
        }
        self.entries.len()
    }

    /// The key of the entry at `index`.
    pub fn key_at(&self, index: usize) -> (key: &String)
        requires
            index < self.entries().len(),
        ensures
            key@ == self.entries()[index as int].0,
    {
        &self.entries[index].0
    }

    /// The value of the entry at `index`.
    pub fn value_at(&self, index: usize) -> (value: &V)
        requires
            index < self.entries().len(),
        ensures
            value@ == self.entries()[index as int].1,
    {
        &self.entries[index].1
    }

    /// The position of the entry with key `key`, if there is one.
    fn position(&self, key: &String) -> (found: Option<usize>)
        ensures
            match found {
                Some(i) => i < self.entries().len() && self.entries()[i as int].0 == key@,
                None => forall|i: int|
                    0 <= i < self.entries().len() ==> (#[trigger] self.entries()[i]).0 != key@,
            },
    {
        let mut i: usize = 0;
        while i < self.entries.len()
            invariant
                i <= self.entries.len(),
                self.entries().len() == self.entries.len(),
                forall|j: int| 0 <= j < i ==> (#[trigger] self.entries()[j]).0 != key@,
            decreases self.entries.len() - i,
        {
            if self.entries[i].0 == *key {
                return Some(i);
            }
            i += 1;
        }
        None
    }

    /// The value that `key` is mapped to, if any.
    pub fn get(&self, key: &str) -> (value: Option<&V>)
        ensures
            match value {
                Some(v) => self@.contains_key(key@) && self@[key@] == v@,
                None => !self@.contains_key(key@),
            },
    {
        let owned = String::from_str(key);
        proof {
            use_type_invariant(self);
            lemma_entry_map_keys(self.entries());
        }
        match self.position(&owned) {
            Some(i) => {
                proof {
                    lemma_entry_map_value(self.entries(), i as int);
                }
                Some(&self.entries[i].1)
            },
            None => None,
        }
    }

    /// Maps `key` to `value`; a value that `key` was mapped to before is replaced.
    pub fn insert(self, key: String, value: V) -> (map: Self)
        ensures
            map@ == self@.insert(key@, value@),
    {
        proof {
            use_type_invariant(&self);
        }
        let found = self.position(&key);
        let ghost before = self.entries();
        let mut entries = self.entries;
        match found {
            Some(i) => {
                entries.set(i, (key, value));
                proof {
                    let after = entry_views(entries@);
                    assert(after =~= before.update(i as int, (key@, value@)));
                    assert(distinct_keys(after)) by {
                        assert forall|a: int, b: int| 0 <= a < b < after.len() implies (
                        #[trigger] after[a]).0 != (#[trigger] after[b]).0 by {
                            assert(before[a].0 != before[b].0);
                        }
                    }
                    lemma_entry_map_keys(before);
                    lemma_entry_map_keys(after);
                    assert forall|q: Seq<char>|
                        entry_map(after).contains_key(q) <==> entry_map(before).insert(
                            key@,
                            value@,
                        ).contains_key(q) by {
                        if entry_map(after).contains_key(q) {
                            let j = choose|j: int| 0 <= j < after.len() && (#[trigger] after[j]).0 == q;
                            assert(before[j].0 == q);
                        }
                        if entry_map(before).contains_key(q) {
                            let j = choose|j: int|
                                0 <= j < before.len() && (#[trigger] before[j]).0 == q;
                            assert(after[j].0 == q);
                        }
                        if q == key@ {
                            assert(after[i as int].0 == q);
                        }
                    }
                    assert forall|q: Seq<char>| entry_map(after).contains_key(q) implies entry_map(
                        after,
                    )[q] == entry_map(before).insert(key@, value@)[q] by {
                        let j = choose|j: int| 0 <= j < after.len() && (#[trigger] after[j]).0 == q;
                        lemma_entry_map_value(after, j);
                        if j != i {
                            lemma_entry_map_value(before, j);
                            assert(before[j].0 != before[i as int].0);
                        }
                    }
                    assert(entry_map(after) =~= entry_map(before).insert(key@, value@));
                }
            },
            None => {
                entries.push((key, value));
                proof {
                    let after = entry_views(entries@);
                    assert(after =~= before.push((key@, value@)));
                    assert(after.drop_last() =~= before);
                    assert(distinct_keys(after)) by {
                        assert forall|a: int, b: int| 0 <= a < b < after.len() implies (
                        #[trigger] after[a]).0 != (#[trigger] after[b]).0 by {
                            if b < before.len() {
                                assert(before[a].0 != before[b].0);
                            } else {
                                assert(before[a].0 != key@);
                            }
                        }
                    }
                }
            },
        }
        AliasMap { entries }
    }

    /// Adds every entry of `other`; where both maps have a key, the value of
    /// `other` stays.
    pub fn extend(self, other: Self) -> (map: Self)
        ensures
            map@ == self@.union_prefer_right(other@),
    {
        proof {
            use_type_invariant(&other);
        }
        let ghost target = self@.union_prefer_right(other@);
        let mut rest = other.entries;
        let mut acc = self;
        while rest.len() > 0
            invariant
                distinct_keys(entry_views(rest@)),
                acc@.union_prefer_right(entry_map(entry_views(rest@))) == target,
            decreases rest.len(),
        {
            let ghost before = entry_views(rest@);
            let last = rest.pop().unwrap();
            proof {
                assert(entry_views(rest@) =~= before.drop_last());
                assert(before.last() == (last.0@, last.1@));
                lemma_distinct_front(before);
            }
            acc = acc.insert(last.0, last.1);
            assert(acc@.union_prefer_right(entry_map(entry_views(rest@))) =~= target);
        }
        assert(acc@ =~= target);
        acc
    }
}

impl<V: View> View for AliasMap<V> {
    type V = Map<Seq<char>, V::V>;

    open spec fn view(&self) -> Map<Seq<char>, V::V> {
        entry_map(self.entries())
    }
}

} // verus!
