//! A map from text to text that keeps its entries in a vector.

use vstd::prelude::*;

verus! {

/// The entries of a map as texts.
pub open spec fn entry_views(entries: Seq<(String, String)>) -> Seq<(Seq<char>, Seq<char>)> {
    entries.map_values(|e: (String, String)| (e.0@, e.1@))
}

/// Whether no key occurs twice.
pub open spec fn unique_keys(entries: Seq<(Seq<char>, Seq<char>)>) -> bool {
    forall|i: int, j: int|
        0 <= i < entries.len() && 0 <= j < entries.len() && (#[trigger] entries[i]).0 == (
        #[trigger] entries[j]).0 ==> i == j
}

/// The entries of all other keys.
pub open spec fn without_key(entries: Seq<(Seq<char>, Seq<char>)>, key: Seq<char>) -> Seq<
    (Seq<char>, Seq<char>),
> {
    entries.filter(|e: (Seq<char>, Seq<char>)| e.0 != key)
}

/// The map that a list of entries stands for; of entries with one key the last counts.
pub open spec fn entries_map(entries: Seq<(Seq<char>, Seq<char>)>) -> Map<Seq<char>, Seq<char>>
    decreases entries.len(),
{
    if entries.len() == 0 {
        Map::empty()
    } else {
        entries_map(entries.drop_last()).insert(entries.last().0, entries.last().1)
    }
}

proof fn lemma_entries_map(entries: Seq<(Seq<char>, Seq<char>)>)
    requires
        unique_keys(entries),
    ensures
        forall|i: int|
            0 <= i < entries.len() ==> entries_map(entries).contains_key(
                (#[trigger] entries[i]).0,
            ) && entries_map(entries)[entries[i].0] == entries[i].1,
        forall|k: Seq<char>| #[trigger]
            entries_map(entries).contains_key(k) ==> exists|i: int|
                0 <= i < entries.len() && (#[trigger] entries[i]).0 == k,
    decreases entries.len(),
{
    if entries.len() > 0 {
        let rest = entries.drop_last();
        assert(unique_keys(rest)) by {
            assert forall|i: int, j: int|
                0 <= i < rest.len() && 0 <= j < rest.len() && (#[trigger] rest[i]).0 == (
                #[trigger] rest[j]).0 implies i == j by {
                assert(entries[i] == rest[i] && entries[j] == rest[j]);
            }
        }
        lemma_entries_map(rest);
        assert forall|i: int| 0 <= i < entries.len() implies entries_map(entries).contains_key(
            (#[trigger] entries[i]).0,
        ) && entries_map(entries)[entries[i].0] == entries[i].1 by {
            if i < rest.len() {
                assert(rest[i] == entries[i]);
                assert(entries[i].0 != entries.last().0) by {
                    assert(entries[entries.len() - 1] == entries.last());
                }
            }
        }
        assert forall|k: Seq<char>| #[trigger]
            entries_map(entries).contains_key(k) implies exists|i: int|
            0 <= i < entries.len() && (#[trigger] entries[i]).0 == k by {
            if k == entries.last().0 {
                assert(entries[entries.len() - 1].0 == k);
            } else {
                let i = choose|i: int| 0 <= i < rest.len() && (#[trigger] rest[i]).0 == k;
                assert(entries[i].0 == k);
            }
        }
    }
}

/// A map from text to text.
#[derive(Debug)]
pub struct StringMap {
    entries: Vec<(String, String)>,
}

impl View for StringMap {
    type V = Map<Seq<char>, Seq<char>>;

    closed spec fn view(&self) -> Map<Seq<char>, Seq<char>> {
        entries_map(entry_views(self.entries@))
    }
}

impl StringMap {
    #[verifier::type_invariant]
    spec fn keys_unique(self) -> bool {
        unique_keys(entry_views(self.entries@))
    }

    /// The map without entries.
    pub fn new() -> (r: StringMap)
        ensures
            r@ == Map::<Seq<char>, Seq<char>>::empty(),
    {
        StringMap { entries: Vec::new() }
    }

    /// The value of a key.
    pub fn get(&self, key: &str) -> (r: Option<&String>)
        ensures
            match r {
                Some(v) => self@.contains_key(key@) && self@[key@] == v@,
                None => !self@.contains_key(key@),
            },
    {
        proof {
            use_type_invariant(self);
            lemma_entries_map(entry_views(self.entries@));
        }
        let ghost views = entry_views(self.entries@);
        let mut i: usize = 0;
        while i < self.entries.len()
            invariant
                i <= self.entries@.len(),
                views == entry_views(self.entries@),
                forall|j: int| 0 <= j < i ==> (#[trigger] views[j]).0 != key@,
                forall|j: int|
                    0 <= j < views.len() ==> self@.contains_key((#[trigger] views[j]).0)
                        && self@[views[j].0] == views[j].1,
            decreases self.entries@.len() - i,
        {
            assert(views[i as int] == (self.entries@[i as int].0@, self.entries@[i as int].1@));
            if crate::text::str_eq(self.entries[i].0.as_str(), key) {
                return Some(&self.entries[i].1);
            }
            i = i + 1;
        }
        None
    }

    /// The map with one more entry, which replaces an entry of the same key.
    pub fn with(self, key: String, value: String) -> (r: StringMap)
        ensures
            r@ == self@.insert(key@, value@),
    {
        proof {
            use_type_invariant(&self);
            lemma_entries_map(entry_views(self.entries@));
        }
        let ghost before = entry_views(self.entries@);
        let mut kept: Vec<(String, String)> = Vec::new();
        let mut i: usize = 0;
        while i < self.entries.len()
            invariant
                i <= self.entries@.len(),
                before == entry_views(self.entries@),
                unique_keys(before),
                entry_views(kept@) == without_key(before.take(i as int), key@),
            decreases self.entries@.len() - i,
        {
            let ghost was = kept@;
            proof {
                assert(before.take(i + 1).drop_last() =~= before.take(i as int));
                assert(before.take(i + 1).last() == before[i as int]);
                assert(before[i as int] == (self.entries@[i as int].0@, self.entries@[i as int].1@));
                reveal(Seq::filter);
            }
            if !crate::text::str_eq(self.entries[i].0.as_str(), key.as_str()) {
                kept.push((self.entries[i].0.clone(), self.entries[i].1.clone()));
                assert(entry_views(kept@) =~= entry_views(was).push(before[i as int]));
            }
            i = i + 1;
        }
        let ghost rest = entry_views(kept@);
        proof {
            assert(before.take(before.len() as int) =~= before);
            lemma_filter_drops_key(before, key@);
        }
        kept.push((key, value));
        proof {
            let after = entry_views(kept@);
            assert(after =~= rest.push((key@, value@)));
            assert(after.drop_last() =~= rest);
            assert(unique_keys(after)) by {
                assert forall|a: int, b: int|
                    0 <= a < after.len() && 0 <= b < after.len() && (#[trigger] after[a]).0 == (
                    #[trigger] after[b]).0 implies a == b by {
                    if a < rest.len() {
                        assert(after[a] == rest[a]);
                    }
                    if b < rest.len() {
                        assert(after[b] == rest[b]);
                    }
                }
            }
            assert(entries_map(after) =~= entries_map(before).insert(key@, value@));
        }
        StringMap { entries: kept }
    }

    /// The entries, in no particular order.
    pub fn entries(&self) -> (r: &Vec<(String, String)>)
        ensures
            self@ == entries_map(entry_views(r@)),
            unique_keys(entry_views(r@)),
    {
        proof {
            use_type_invariant(self);
        }
        &self.entries
    }

    /// A copy of the map.
    pub fn copy(&self) -> (r: StringMap)
        ensures
            r@ == self@,
    {
        proof {
            use_type_invariant(self);
        }
        let mut entries: Vec<(String, String)> = Vec::new();
        let mut i: usize = 0;
        while i < self.entries.len()
            invariant
                i <= self.entries@.len(),
                entry_views(entries@) == entry_views(self.entries@).take(i as int),
            decreases self.entries@.len() - i,
        {
            let ghost was = entries@;
            entries.push((self.entries[i].0.clone(), self.entries[i].1.clone()));
            assert(entry_views(entries@) =~= entry_views(was).push(
                entry_views(self.entries@)[i as int],
            ));
            assert(entry_views(self.entries@).take(i + 1) =~= entry_views(self.entries@).take(
                i as int,
            ).push(entry_views(self.entries@)[i as int]));
            i = i + 1;
        }
        assert(entry_views(self.entries@).take(i as int) =~= entry_views(self.entries@));
        StringMap { entries }
    }
}

/// Dropping the entries of a key leaves the other keys as they are.
proof fn lemma_filter_drops_key(entries: Seq<(Seq<char>, Seq<char>)>, key: Seq<char>)
    requires
        unique_keys(entries),
    ensures
        ({
            let rest = without_key(entries, key);
            &&& unique_keys(rest)
            &&& entries_map(rest) == entries_map(entries).remove(key)
            &&& forall|i: int| 0 <= i < rest.len() ==> (#[trigger] rest[i]).0 != key
            &&& forall|i: int|
                0 <= i < rest.len() ==> exists|j: int|
                    0 <= j < entries.len() && entries[j] == #[trigger] rest[i]
        }),
    decreases entries.len(),
{
    reveal(Seq::filter);
    let rest = without_key(entries, key);
    if entries.len() > 0 {
        let shorter = entries.drop_last();
        assert(unique_keys(shorter)) by {
            assert forall|i: int, j: int|
                0 <= i < shorter.len() && 0 <= j < shorter.len() && (#[trigger] shorter[i]).0 == (
                #[trigger] shorter[j]).0 implies i == j by {
                assert(entries[i] == shorter[i] && entries[j] == shorter[j]);
            }
        }
        lemma_filter_drops_key(shorter, key);
        let sub = without_key(shorter, key);
        assert forall|i: int| 0 <= i < rest.len() implies exists|j: int|
            0 <= j < entries.len() && entries[j] == #[trigger] rest[i] by {
            if i < sub.len() {
                assert(rest[i] == sub[i]);
                let j = choose|j: int| 0 <= j < shorter.len() && shorter[j] == sub[i];
                assert(entries[j] == rest[i]);
            } else {
                assert(entries[entries.len() - 1] == rest[i]);
            }
        }
        if entries.last().0 != key {
            assert(rest == sub.push(entries.last()));
            assert(rest.drop_last() =~= sub);
            assert forall|i: int, j: int|
                0 <= i < rest.len() && 0 <= j < rest.len() && (#[trigger] rest[i]).0 == (
                #[trigger] rest[j]).0 implies i == j by {
                if i < sub.len() {
                    assert(rest[i] == sub[i]);
                    let a = choose|a: int| 0 <= a < shorter.len() && shorter[a] == sub[i];
                    assert(entries[a] == rest[i]);
                    assert(entries[entries.len() - 1] == entries.last());
                }
                if j < sub.len() {
                    assert(rest[j] == sub[j]);
                    let b = choose|b: int| 0 <= b < shorter.len() && shorter[b] == sub[j];
                    assert(entries[b] == rest[j]);
                    assert(entries[entries.len() - 1] == entries.last());
                }
            }
            assert(entries_map(rest) =~= entries_map(entries).remove(key));
        } else {
            assert(rest == sub);
            assert(entries_map(rest) =~= entries_map(entries).remove(key));
        }
    } else {
        assert(rest =~= Seq::empty());
        assert(entries_map(rest) =~= entries_map(entries).remove(key));
    }
}

} // verus!
