//! A map keyed by strings, kept as a list of entries in which no key occurs twice.

use vstd::prelude::*;
use vstd::std_specs::cmp::PartialEqSpec;
use vstd::string::*;

verus! {

/// No key occurs twice among `entries`.
pub open spec fn unique_keys<V>(entries: Seq<(String, V)>) -> bool {
    forall|i: int, j: int| 0 <= i < j < entries.len() ==> entries[i].0@ != entries[j].0@
}

/// The map that `entries` stand for: each key with its value, a later entry
/// replacing an earlier one of the same key.
pub open spec fn entries_map<V>(entries: Seq<(String, V)>) -> Map<Seq<char>, V>
    decreases entries.len(),
{
    if entries.len() == 0 {
        Map::empty()
    } else {
        entries_map(entries.drop_last()).insert(entries.last().0@, entries.last().1)
    }
}

/// The keys of the map are the keys of the entries, and the map is finite.
pub proof fn lemma_entries_map_dom<V>(entries: Seq<(String, V)>)
    ensures
        entries_map(entries).dom().finite(),
        forall|k: Seq<char>|
            entries_map(entries).dom().contains(k) <==> exists|i: int|
                0 <= i < entries.len() && (#[trigger] entries[i]).0@ == k,
    decreases entries.len(),
{
    if entries.len() > 0 {
        let front = entries.drop_last();
        lemma_entries_map_dom(front);
        assert forall|k: Seq<char>|
            entries_map(entries).dom().contains(k) <==> exists|i: int|
                0 <= i < entries.len() && (#[trigger] entries[i]).0@ == k by {
            if entries_map(entries).dom().contains(k) {
                if k == entries.last().0@ {
                    assert(entries[entries.len() - 1].0@ == k);
                } else {
                    let i = choose|i: int| 0 <= i < front.len() && (#[trigger] front[i]).0@ == k;
                    assert(entries[i].0@ == k);
                }
            }
            if exists|i: int| 0 <= i < entries.len() && (#[trigger] entries[i]).0@ == k {
                let i = choose|i: int| 0 <= i < entries.len() && (#[trigger] entries[i]).0@ == k;
                if i < entries.len() - 1 {
                    assert(front[i].0@ == k);
                }
            }
        }
    }
}

/// Where no key occurs twice, the map holds the value of each entry under its key.
pub proof fn lemma_entries_map_at<V>(entries: Seq<(String, V)>, i: int)
    requires
        unique_keys(entries),
        0 <= i < entries.len(),
    ensures
        entries_map(entries).dom().contains(entries[i].0@),
        entries_map(entries)[entries[i].0@] == entries[i].1,
    decreases entries.len(),
{
    if i < entries.len() - 1 {
        let front = entries.drop_last();
        assert(unique_keys(front)) by {
            assert forall|a: int, b: int| 0 <= a < b < front.len() implies front[a].0@
                != front[b].0@ by {
                assert(entries[a].0@ != entries[b].0@);
            }
        }
        lemma_entries_map_at(front, i);
        assert(front[i] == entries[i]);
        assert(entries[i].0@ != entries[entries.len() - 1].0@);
    }
}

/// The number of keys is the number of entries where no key occurs twice.
pub proof fn lemma_entries_map_len<V>(entries: Seq<(String, V)>)
    requires
        unique_keys(entries),
    ensures
        entries_map(entries).dom().finite(),
        entries_map(entries).dom().len() == entries.len(),
    decreases entries.len(),
{
    lemma_entries_map_dom(entries);
    if entries.len() > 0 {
        let front = entries.drop_last();
        assert(unique_keys(front)) by {
            assert forall|a: int, b: int| 0 <= a < b < front.len() implies front[a].0@
                != front[b].0@ by {
                assert(entries[a].0@ != entries[b].0@);
            }
        }
        lemma_entries_map_len(front);
        lemma_entries_map_dom(front);
        let k = entries.last().0@;
        if entries_map(front).dom().contains(k) {
            let i = choose|i: int| 0 <= i < front.len() && (#[trigger] front[i]).0@ == k;
            assert(entries[i].0@ != entries[entries.len() - 1].0@);
        }
        assert(entries_map(entries).dom() =~= entries_map(front).dom().insert(k));
    }
}

/// Replacing the value of entry `i` is inserting under that entry's key.
pub proof fn lemma_entries_map_update<V>(entries: Seq<(String, V)>, i: int, key: String, value: V)
    requires
        unique_keys(entries),
        0 <= i < entries.len(),
        key@ == entries[i].0@,
    ensures
        unique_keys(entries.update(i, (key, value))),
        entries_map(entries.update(i, (key, value))) == entries_map(entries).insert(key@, value),
{
    let updated = entries.update(i, (key, value));
    assert(unique_keys(updated)) by {
        assert forall|a: int, b: int| 0 <= a < b < updated.len() implies updated[a].0@
            != updated[b].0@ by {
            assert(entries[a].0@ != entries[b].0@);
        }
    }
    lemma_entries_map_dom(entries);
    lemma_entries_map_dom(updated);
    let left = entries_map(updated);
    let right = entries_map(entries).insert(key@, value);
    assert forall|k: Seq<char>| left.dom().contains(k) <==> right.dom().contains(k) by {
        if left.dom().contains(k) {
            let j = choose|j: int| 0 <= j < updated.len() && (#[trigger] updated[j]).0@ == k;
            assert(entries[j].0@ == k);
        }
        if right.dom().contains(k) {
            if k == key@ {
                assert(updated[i].0@ == k);
            } else {
                let j = choose|j: int| 0 <= j < entries.len() && (#[trigger] entries[j]).0@ == k;
                assert(updated[j].0@ == k);
            }
        }
    }
    assert forall|k: Seq<char>| left.dom().contains(k) implies left[k] == right[k] by {
        let j = choose|j: int| 0 <= j < updated.len() && (#[trigger] updated[j]).0@ == k;
        lemma_entries_map_at(updated, j);
        if j != i {
            lemma_entries_map_at(entries, j);
            assert(entries[j].0@ != entries[i].0@);
        }
    }
    assert(left =~= right);
}

/// A map from strings to values of `V`. No key occurs twice; the order of the
/// entries carries no meaning, also not for `==`.
#[derive(Debug)]
pub struct StringMap<V> {
    entries: Vec<(String, V)>,
}

impl<V> View for StringMap<V> {
    type V = Map<Seq<char>, V>;

    closed spec fn view(&self) -> Map<Seq<char>, V> {
        entries_map(self.entries@)
    }
}

impl<V> StringMap<V> {
    #[verifier::type_invariant]
    spec fn well_formed(&self) -> bool {
        unique_keys(self.entries@)
    }

    /// Creates an empty map.
    pub fn new() -> (result: Self)
        ensures
            result@ == Map::<Seq<char>, V>::empty(),
    {
        StringMap { entries: Vec::new() }
    }

    /// The number of keys.
    pub fn len(&self) -> (result: usize)
        ensures
            self@.dom().finite(),
            result == self@.dom().len(),
    {
        proof {
            use_type_invariant(self);
            lemma_entries_map_len(self.entries@);
        }
        self.entries.len()
    }

    /// The position of the entry with the key `key`, if there is one.
    fn position(&self, key: &String) -> (result: Option<usize>)
        ensures
            match result {
                Some(i) => i < self.entries@.len() && self.entries@[i as int].0@ == key@,
                None => forall|j: int| 0 <= j < self.entries@.len() ==> self.entries@[j].0@ != key@,
            },
    {
        let mut i: usize = 0;
        while i < self.entries.len()
            invariant
                i <= self.entries@.len(),
                forall|j: int| 0 <= j < i ==> self.entries@[j].0@ != key@,
            decreases self.entries@.len() - i,
        {
            if self.entries[i].0 == *key {
                return Some(i);
            }
            i = i + 1;
        }
        None
    }

    /// Whether the map holds `key`.
    pub fn contains_key(&self, key: &str) -> (result: bool)
        ensures
            result == self@.dom().contains(key@),
    {
        let owned = String::from_str(key);
        let found = self.position(&owned);
        proof {
            lemma_entries_map_dom(self.entries@);
        }
        found.is_some()
    }

    /// The value under `key`, if the map holds the key.
    pub fn get(&self, key: &str) -> (result: Option<&V>)
        ensures
            match result {
                Some(value) => self@.dom().contains(key@) && *value == self@[key@],
                None => !self@.dom().contains(key@),
            },
    {
        let owned = String::from_str(key);
        let found = self.position(&owned);
        proof {
            use_type_invariant(self);
            lemma_entries_map_dom(self.entries@);
        }
        match found {
            Some(i) => {
                proof {
                    lemma_entries_map_at(self.entries@, i as int);
                }
                Some(&self.entries[i].1)
            },
            None => None,
        }
    }

    /// Puts `value` under `key`, in place of the value that was there, if any.
    pub fn insert(self, key: String, value: V) -> (result: Self)
        ensures
            result@ == self@.insert(key@, value),
    {
        proof {
            use_type_invariant(&self);
        }
        let found = self.position(&key);
        let mut entries = self.entries;
        match found {
            Some(i) => {
                proof {
                    lemma_entries_map_update(entries@, i as int, key, value);
                }
                entries.set(i, (key, value));
            },
            None => {
                let ghost before = entries@;
                entries.push((key, value));
                proof {
                    assert(entries@.drop_last() =~= before);
                }
            },
        }
        StringMap { entries }
    }

    /// Puts every entry of `other` into the map. Where both hold a key, the
    /// value of `other` replaces the one that was there.
    pub fn extend(self, other: Self) -> (result: Self)
        ensures
            result@ == self@.union_prefer_right(other@),
    {
        proof {
            use_type_invariant(&other);
        }
        let ghost added = other.entries@;
        let mut source = other.entries;
        let mut result = self;
        // The keys of `other` differ from one another, so the entries may be
        // taken in any order: here from the back.
        while source.len() > 0
            invariant
                source@.len() <= added.len(),
                source@ == added.take(source@.len() as int),
                unique_keys(added),
                result@ == self@.union_prefer_right(entries_map(added.skip(source@.len() as int))),
            decreases source@.len(),
        {
            let ghost n = source@.len() as int;
            let entry = source.pop().unwrap();
            let ghost before = result@;
            result = result.insert(entry.0, entry.1);
            proof {
                let rest = added.skip(n);
                let next = added.skip(n - 1);
                assert(entry == added[n - 1]);
                assert(source@ =~= added.take(n - 1));
                lemma_entries_map_dom(rest);
                lemma_entries_map_dom(next);
                assert(unique_keys(next)) by {
                    assert forall|a: int, b: int| 0 <= a < b < next.len() implies next[a].0@
                        != next[b].0@ by {
                        assert(added[n - 1 + a].0@ != added[n - 1 + b].0@);
                    }
                }
                assert(unique_keys(rest)) by {
                    assert forall|a: int, b: int| 0 <= a < b < rest.len() implies rest[a].0@
                        != rest[b].0@ by {
                        assert(added[n + a].0@ != added[n + b].0@);
                    }
                }
                let left = before.insert(entry.0@, entry.1);
                let right = self@.union_prefer_right(entries_map(next));
                assert forall|k: Seq<char>| left.dom().contains(k) <==> right.dom().contains(
                    k,
                ) by {
                    if entries_map(rest).dom().contains(k) {
                        let j = choose|j: int| 0 <= j < rest.len() && (#[trigger] rest[j]).0@ == k;
                        assert(next[j + 1].0@ == k);
                    }
                    if k == entry.0@ {
                        assert(next[0].0@ == k);
                    }
                    if entries_map(next).dom().contains(k) {
                        let j = choose|j: int| 0 <= j < next.len() && (#[trigger] next[j]).0@ == k;
                        if j > 0 {
                            assert(rest[j - 1].0@ == k);
                        }
                    }
                }
                assert forall|k: Seq<char>| left.dom().contains(k) implies left[k] == right[k] by {
                    if entries_map(next).dom().contains(k) {
                        let j = choose|j: int| 0 <= j < next.len() && (#[trigger] next[j]).0@ == k;
                        lemma_entries_map_at(next, j);
                        if j > 0 {
                            assert(rest[j - 1] == next[j]);
                            lemma_entries_map_at(rest, j - 1);
                            assert(next[0].0@ != next[j].0@);
                        }
                    } else {
                        if entries_map(rest).dom().contains(k) {
                            let j = choose|j: int|
                                0 <= j < rest.len() && (#[trigger] rest[j]).0@ == k;
                            assert(next[j + 1].0@ == k);
                        }
                        assert(k != entry.0@) by {
                            if k == entry.0@ {
                                assert(next[0].0@ == k);
                            }
                        }
                    }
                }
                assert(left =~= right);
            }
        }
        proof {
            assert(added.skip(0) =~= added);
        }
        result
    }

    /// The entries of the map, each key once, in no particular order.
    pub fn into_entries(self) -> (result: Vec<(String, V)>)
        ensures
            unique_keys(result@),
            entries_map(result@) == self@,
    {
        proof {
            use_type_invariant(&self);
        }
        self.entries
    }

    /// The map of the given entries; of two entries with one key the later wins.
    pub fn from_entries(entries: Vec<(String, V)>) -> (result: Self)
        ensures
            result@ == entries_map(entries@),
    {
        let ghost all = entries@;
        let mut source = entries;
        let mut taken: Vec<(String, V)> = Vec::new();
        while source.len() > 0
            invariant
                source@.len() + taken@.len() == all.len(),
                source@ == all.take(source@.len() as int),
                forall|j: int|
                    0 <= j < taken@.len() ==> taken@[j] == all[all.len() - 1 - j],
            decreases source@.len(),
        {
            let entry = source.pop().unwrap();
            taken.push(entry);
            proof {
                assert(source@ =~= all.take(source@.len() as int));
            }
        }
        let mut result: StringMap<V> = StringMap::new();
        while taken.len() > 0
            invariant
                taken@.len() <= all.len(),
                forall|j: int|
                    0 <= j < taken@.len() ==> taken@[j] == all[all.len() - 1 - j],
                result@ == entries_map(all.take(all.len() - taken@.len())),
            decreases taken@.len(),
        {
            let ghost n = all.len() - taken@.len();
            let entry = taken.pop().unwrap();
            result = result.insert(entry.0, entry.1);
            proof {
                assert(entry == all[n]);
                assert(all.take(n + 1).drop_last() =~= all.take(n));
                assert(all.take(n + 1).last() == all[n]);
            }
        }
        proof {
            assert(all.take(all.len() as int) =~= all);
        }
        result
    }
}

impl<V: Clone> Clone for StringMap<V> {
    /// A copy with the same keys, and under each key a clone of the value.
    fn clone(&self) -> (result: Self)
        ensures
            result@.dom() == self@.dom(),
            forall|k: Seq<char>| #[trigger]
                self@.dom().contains(k) ==> cloned::<V>(self@[k], result@[k]),
    {
        proof {
            use_type_invariant(self);
        }
        let mut entries: Vec<(String, V)> = Vec::new();
        let mut i: usize = 0;
        while i < self.entries.len()
            invariant
                i <= self.entries@.len(),
                entries@.len() == i,
                forall|j: int| 0 <= j < i ==> (#[trigger] entries@[j]).0@ == self.entries@[j].0@,
                forall|j: int|
                    0 <= j < i ==> cloned::<V>(self.entries@[j].1, (#[trigger] entries@[j]).1),
            decreases self.entries@.len() - i,
        {
            let key = self.entries[i].0.clone();
            let value = self.entries[i].1.clone();
            entries.push((key, value));
            i = i + 1;
        }
        proof {
            assert(unique_keys(entries@)) by {
                assert forall|a: int, b: int| 0 <= a < b < entries@.len() implies entries@[a].0@
                    != entries@[b].0@ by {
                    assert(self.entries@[a].0@ != self.entries@[b].0@);
                }
            }
            lemma_entries_map_dom(entries@);
            lemma_entries_map_dom(self.entries@);
            assert forall|k: Seq<char>|
                entries_map(entries@).dom().contains(k) <==> entries_map(
                    self.entries@,
                ).dom().contains(k) by {
                if entries_map(entries@).dom().contains(k) {
                    let j = choose|j: int| 0 <= j < entries@.len() && (#[trigger] entries@[j]).0@ == k;
                    assert(self.entries@[j].0@ == k);
                }
                if entries_map(self.entries@).dom().contains(k) {
                    let j = choose|j: int|
                        0 <= j < self.entries@.len() && (#[trigger] self.entries@[j]).0@ == k;
                    assert(entries@[j].0@ == k);
                }
            }
            assert(entries_map(entries@).dom() =~= entries_map(self.entries@).dom());
            assert forall|k: Seq<char>| #[trigger]
                entries_map(self.entries@).dom().contains(k) implies cloned::<V>(
                entries_map(self.entries@)[k],
                entries_map(entries@)[k],
            ) by {
                let j = choose|j: int|
                    0 <= j < self.entries@.len() && (#[trigger] self.entries@[j]).0@ == k;
                assert(entries@[j].0@ == k);
                lemma_entries_map_at(self.entries@, j);
                lemma_entries_map_at(entries@, j);
            }
        }
        StringMap { entries }
    }
}

impl<V: PartialEq> vstd::std_specs::cmp::PartialEqSpecImpl for StringMap<V> {
    open spec fn obeys_eq_spec() -> bool {
        V::obeys_eq_spec()
    }

    /// Two maps are equal where they hold the same keys and under each key
    /// values that are equal, whatever the order of their entries.
    open spec fn eq_spec(&self, other: &Self) -> bool {
        &&& self@.dom() == other@.dom()
        &&& forall|k: Seq<char>| #[trigger]
            self@.dom().contains(k) ==> self@[k].eq_spec(&other@[k])
    }
}

impl<V: PartialEq> PartialEq for StringMap<V> {
    fn eq(&self, other: &Self) -> (result: bool) {
        proof {
            use_type_invariant(self);
            use_type_invariant(other);
            lemma_entries_map_len(self.entries@);
            lemma_entries_map_len(other.entries@);
            lemma_entries_map_dom(self.entries@);
            lemma_entries_map_dom(other.entries@);
        }
        if self.entries.len() != other.entries.len() {
            return false;
        }
        let mut i: usize = 0;
        while i < self.entries.len()
            invariant
                i <= self.entries@.len(),
                unique_keys(self.entries@),
                unique_keys(other.entries@),
                forall|j: int|
                    0 <= j < i ==> other@.dom().contains((#[trigger] self.entries@[j]).0@),
                V::obeys_eq_spec() ==> forall|j: int|
                    0 <= j < i ==> (#[trigger] self.entries@[j]).1.eq_spec(
                        &other@[self.entries@[j].0@],
                    ),
            decreases self.entries@.len() - i,
        {
            match other.position(&self.entries[i].0) {
                Some(j) => {
                    proof {
                        lemma_entries_map_dom(other.entries@);
                        lemma_entries_map_at(other.entries@, j as int);
                        lemma_entries_map_at(self.entries@, i as int);
                        assert(other.entries@[j as int].0@ == self.entries@[i as int].0@);
                    }
                    if !(self.entries[i].1 == other.entries[j].1) {
                        proof {
                            let k = self.entries@[i as int].0@;
                            assert(self@.dom().contains(k));
                        }
                        return false;
                    }
                },
                None => {
                    proof {
                        lemma_entries_map_dom(other.entries@);
                        lemma_entries_map_at(self.entries@, i as int);
                        let k = self.entries@[i as int].0@;
                        assert(self@.dom().contains(k));
                        assert(!other@.dom().contains(k));
                    }
                    return false;
                },
            }
            i = i + 1;
        }
        proof {
            assert(self@.dom().subset_of(other@.dom())) by {
                assert forall|k: Seq<char>| self@.dom().contains(k) implies other@.dom().contains(
                    k,
                ) by {
                    let j = choose|j: int|
                        0 <= j < self.entries@.len() && (#[trigger] self.entries@[j]).0@ == k;
                    assert(other@.dom().contains(self.entries@[j].0@));
                }
            }
            vstd::set_lib::lemma_subset_equality(self@.dom(), other@.dom());
            if V::obeys_eq_spec() {
                assert forall|k: Seq<char>| #[trigger] self@.dom().contains(k) implies self@[k].eq_spec(
                    &other@[k],
                ) by {
                    let j = choose|j: int|
                        0 <= j < self.entries@.len() && (#[trigger] self.entries@[j]).0@ == k;
                    lemma_entries_map_at(self.entries@, j);
                    assert(self.entries@[j].1.eq_spec(&other@[self.entries@[j].0@]));
                }
            }
        }
        true
    }
}

} // verus!
