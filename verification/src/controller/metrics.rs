//! How many hosts run which version and are in which state.

use vstd::prelude::*;
use vstd::string::*;

use crate::models::node::crd::v2::{ShadowView, StatusView};
use crate::models::node::crd::BottlerocketShadow;
use crate::text::str_eq;
use crate::version::{semver_parts, Version};

verus! {

/// A count for each of some keys.
#[derive(Debug)]
pub struct Counter {
    entries: Vec<(String, u64)>,
}

impl View for Counter {
    type V = Map<Seq<char>, u64>;

    closed spec fn view(&self) -> Map<Seq<char>, u64> {
        Map::new(|k: Seq<char>| self.has(k), |k: Seq<char>| self.entries@[self.place(k)].1)
    }
}

impl Counter {
    spec fn has(&self, k: Seq<char>) -> bool {
        exists|i: int| 0 <= i < self.entries@.len() && (#[trigger] self.entries@[i]).0@ == k
    }

    spec fn place(&self, k: Seq<char>) -> int {
        choose|i: int| 0 <= i < self.entries@.len() && (#[trigger] self.entries@[i]).0@ == k
    }

    #[verifier::type_invariant]
    spec fn keys_unique(self) -> bool {
        forall|i: int, j: int|
            0 <= i < self.entries@.len() && 0 <= j < self.entries@.len() && (
            #[trigger] self.entries@[i]).0@ == (#[trigger] self.entries@[j]).0@ ==> i == j
    }

    /// The counter without keys.
    pub fn new() -> (r: Counter)
        ensures
            r@ == Map::<Seq<char>, u64>::empty(),
    {
        let r = Counter { entries: Vec::new() };
        assert(r@ =~= Map::<Seq<char>, u64>::empty());
        r
    }

    fn find(&self, key: &str) -> (r: Option<usize>)
        requires
            self.keys_unique(),
        ensures
            match r {
                Some(i) => i < self.entries@.len() && self.entries@[i as int].0@ == key@
                    && self@.contains_key(key@) && self@[key@] == self.entries@[i as int].1,
                None => !self@.contains_key(key@) && forall|i: int|
                    0 <= i < self.entries@.len() ==> (#[trigger] self.entries@[i]).0@ != key@,
            },
    {
        let mut i: usize = 0;
        while i < self.entries.len()
            invariant
                i <= self.entries@.len(),
                self.keys_unique(),
                forall|j: int| 0 <= j < i ==> (#[trigger] self.entries@[j]).0@ != key@,
            decreases self.entries@.len() - i,
        {
            if str_eq(self.entries[i].0.as_str(), key) {
                assert(self.place(key@) == i);
                return Some(i);
            }
            i = i + 1;
        }
        None
    }

    /// The count of a key.
    pub fn get(&self, key: &str) -> (r: Option<u64>)
        ensures
            match r {
                Some(n) => self@.contains_key(key@) && self@[key@] == n,
                None => !self@.contains_key(key@),
            },
    {
        proof {
            use_type_invariant(self);
        }
        match self.find(key) {
            Some(i) => Some(self.entries[i].1),
            None => None,
        }
    }

    /// The counter with a count for a key.
    pub fn with(self, key: &str, count: u64) -> (r: Counter)
        ensures
            r@ == self@.insert(key@, count),
    {
        proof {
            use_type_invariant(&self);
        }
        let found = self.find(key);
        let ghost before = self;
        let mut entries = self.entries;
        match found {
            Some(i) => {
                let entry: (String, u64) = (String::from_str(key), count);
                entries.set(i, entry);
            },
            None => {
                entries.push((String::from_str(key), count));
            },
        }
        let r = Counter { entries };
        proof {
            lemma_set(before, r, key@, count, found);
        }
        r
    }

    /// The keys and their counts, in no particular order.
    pub fn entries(&self) -> (r: &Vec<(String, u64)>)
        ensures
            forall|i: int|
                0 <= i < r@.len() ==> self@.contains_key((#[trigger] r@[i]).0@) && self@[r@[i].0@]
                    == r@[i].1,
            forall|k: Seq<char>| #[trigger]
                self@.contains_key(k) ==> exists|i: int|
                    0 <= i < r@.len() && (#[trigger] r@[i]).0@ == k,
            forall|i: int, j: int|
                0 <= i < r@.len() && 0 <= j < r@.len() && (#[trigger] r@[i]).0@ == (
                #[trigger] r@[j]).0@ ==> i == j,
    {
        proof {
            use_type_invariant(self);
            assert forall|i: int| 0 <= i < self.entries@.len() implies self@.contains_key(
                (#[trigger] self.entries@[i]).0@,
            ) && self@[self.entries@[i].0@] == self.entries@[i].1 by {
                assert(self.place(self.entries@[i].0@) == i);
            }
        }
        &self.entries
    }
}

proof fn lemma_set(before: Counter, after: Counter, key: Seq<char>, count: u64, found: Option<usize>)
    requires
        before.keys_unique(),
        match found {
            Some(i) => {
                &&& i < before.entries@.len()
                &&& before.entries@[i as int].0@ == key
                &&& after.entries@.len() == before.entries@.len()
                &&& after.entries@[i as int].0@ == key
                &&& after.entries@[i as int].1 == count
                &&& forall|j: int|
                    0 <= j < before.entries@.len() && j != i ==> #[trigger] after.entries@[j]
                        == before.entries@[j]
            },
            None => {
                &&& after.entries@.len() == before.entries@.len() + 1
                &&& after.entries@.last().0@ == key
                &&& after.entries@.last().1 == count
                &&& forall|j: int|
                    0 <= j < before.entries@.len() ==> #[trigger] after.entries@[j]
                        == before.entries@[j]
                &&& forall|j: int|
                    0 <= j < before.entries@.len() ==> (#[trigger] before.entries@[j]).0@ != key
            },
        },
    ensures
        after.keys_unique(),
        after@ == before@.insert(key, count),
{
    let p = match found {
        Some(i) => i as int,
        None => before.entries@.len() as int,
    };
    assert(after.entries@[p].0@ == key);
    assert forall|i: int, j: int|
        0 <= i < after.entries@.len() && 0 <= j < after.entries@.len() && (
        #[trigger] after.entries@[i]).0@ == (#[trigger] after.entries@[j]).0@ implies i == j by {
        if i != p && j != p {
            assert(after.entries@[i] == before.entries@[i]);
            assert(after.entries@[j] == before.entries@[j]);
        } else if i != p {
            assert(after.entries@[i] == before.entries@[i]);
            assert(before.entries@[i].0@ == key);
        } else if j != p {
            assert(after.entries@[j] == before.entries@[j]);
            assert(before.entries@[j].0@ == key);
        }
    }
    assert forall|k: Seq<char>| after@.contains_key(k) == before@.insert(key, count).contains_key(
        k,
    ) by {
        if after.has(k) && k != key {
            let i = choose|i: int|
                0 <= i < after.entries@.len() && (#[trigger] after.entries@[i]).0@ == k;
            assert(after.entries@[i] == before.entries@[i]);
            assert(before.has(k));
        }
        if before.has(k) {
            let i = choose|i: int|
                0 <= i < before.entries@.len() && (#[trigger] before.entries@[i]).0@ == k;
            assert(after.entries@[i].0@ == k);
        }
    }
    assert forall|k: Seq<char>| after@.contains_key(k) implies after@[k] == before@.insert(
        key,
        count,
    )[k] by {
        let i = after.place(k);
        assert(0 <= i < after.entries@.len() && after.entries@[i].0@ == k);
        if k == key {
            assert(i == p);
        } else {
            assert(after.entries@[i] == before.entries@[i]);
            assert(before.entries@[i].0@ == k);
            assert(before.place(k) == i);
        }
    }
    assert(after@ =~= before@.insert(key, count));
}

/// The number of hosts whose status has a key.
pub open spec fn host_count(
    brss: Seq<ShadowView>,
    key_of: spec_fn(StatusView) -> Seq<char>,
    k: Seq<char>,
) -> nat
    decreases brss.len(),
{
    if brss.len() == 0 {
        0
    } else {
        host_count(brss.drop_last(), key_of, k) + if brss.last().status is Some && key_of(
            brss.last().status->0,
        ) == k {
            1nat
        } else {
            0nat
        }
    }
}

/// Whether a map counts the hosts by a key: each key that occurs has its number, and no other
/// key is there.
pub open spec fn counts_hosts(
    m: Map<Seq<char>, u64>,
    brss: Seq<ShadowView>,
    key_of: spec_fn(StatusView) -> Seq<char>,
) -> bool {
    forall|k: Seq<char>|
        {
            &&& #[trigger] m.contains_key(k) <==> host_count(brss, key_of, k) > 0
            &&& m.contains_key(k) ==> m[k] == host_count(brss, key_of, k)
        }
}

/// The version that a host runs.
pub open spec fn version_key() -> spec_fn(StatusView) -> Seq<char> {
    |s: StatusView| s.current_version
}

/// The state that a host is in.
pub open spec fn state_key() -> spec_fn(StatusView) -> Seq<char> {
    |s: StatusView| s.current_state.name_text()
}

/// Objects as their contents.
pub open spec fn shadow_views(brss: Seq<BottlerocketShadow>) -> Seq<ShadowView> {
    brss.map_values(|b: BottlerocketShadow| b@)
}

/// Whether the versions that the hosts run can be read.
pub open spec fn versions_read(brss: Seq<ShadowView>) -> bool {
    forall|i: int|
        0 <= i < brss.len() && (#[trigger] brss[i]).status is Some ==> semver_parts(
            brss[i].status->0.current_version,
        ) is Some
}

proof fn lemma_host_count_bound(
    brss: Seq<ShadowView>,
    key_of: spec_fn(StatusView) -> Seq<char>,
    k: Seq<char>,
)
    ensures
        host_count(brss, key_of, k) <= brss.len(),
    decreases brss.len(),
{
    if brss.len() > 0 {
        lemma_host_count_bound(brss.drop_last(), key_of, k);
    }
}

/// Counts one more host.
fn count_one(counter: Counter, key: &str) -> (r: Counter)
    requires
        counter@.contains_key(key@) ==> counter@[key@] < u64::MAX,
    ensures
        r@ == counter@.insert(
            key@,
            (if counter@.contains_key(key@) {
                counter@[key@] + 1
            } else {
                1
            }) as u64,
        ),
{
    let n: u64 = match counter.get(key) {
        Some(n) => n + 1,
        None => 1,
    };
    counter.with(key, n)
}

/// The hosts of a cluster, counted.
#[derive(Debug)]
pub struct BrupopHostsData {
    pub hosts_version_count: Counter,
    pub hosts_state_count: Counter,
}

/// The contents of a `BrupopHostsData`.
pub struct HostsView {
    pub versions: Map<Seq<char>, u64>,
    pub states: Map<Seq<char>, u64>,
}

impl View for BrupopHostsData {
    type V = HostsView;

    open spec fn view(&self) -> HostsView {
        HostsView { versions: self.hosts_version_count@, states: self.hosts_state_count@ }
    }
}

impl Default for BrupopHostsData {
    fn default() -> (r: Self)
        ensures
            r@ == (HostsView { versions: Map::empty(), states: Map::empty() }),
    {
        BrupopHostsData { hosts_version_count: Counter::new(), hosts_state_count: Counter::new() }
    }
}

impl BrupopHostsData {
    /// Computes point-in-time metrics for the cluster's hosts based on a set of BottlerocketShadows.
    pub fn from_shadows(brss: &Vec<BottlerocketShadow>) -> (r: Self)
        requires
            versions_read(shadow_views(brss@)),
        ensures
            counts_hosts(r@.versions, shadow_views(brss@), version_key()),
            counts_hosts(r@.states, shadow_views(brss@), state_key()),
    {
        let mut hosts_version_count = Counter::new();
        let mut hosts_state_count = Counter::new();
        let ghost all = shadow_views(brss@);
        let mut i: usize = 0;
        while i < brss.len()
            invariant
                i <= brss@.len(),
                all == shadow_views(brss@),
                versions_read(all),
                counts_hosts(hosts_version_count@, all.take(i as int), version_key()),
                counts_hosts(hosts_state_count@, all.take(i as int), state_key()),
            decreases brss@.len() - i,
        {
            proof {
                assert(all.take(i + 1).drop_last() =~= all.take(i as int));
                assert(all.take(i + 1).last() == all[i as int]);
                assert(all[i as int] == brss@[i as int]@);
            }
            match &brss[i].status {
                None => {},
                Some(brs_status) => {
                    let host_version = brs_status.current_version().to_text();
                    let host_state = brs_status.current_state;
                    proof {
                        let was = all.take(i as int);
                        lemma_host_count_bound(was, version_key(), host_version@);
                        lemma_host_count_bound(was, state_key(), host_state.name_text());
                        assert(was.len() < u64::MAX);
                        assert(hosts_version_count@.contains_key(host_version@) ==> host_count(
                            was,
                            version_key(),
                            host_version@,
                        ) > 0);
                        assert(hosts_state_count@.contains_key(host_state.name_text())
                            ==> host_count(was, state_key(), host_state.name_text()) > 0);
                        assert(host_version@ == version_key()(all[i as int].status->0));
                    }
                    hosts_version_count = count_one(hosts_version_count, host_version.as_str());
                    hosts_state_count = count_one(hosts_state_count, host_state.name());
                },
            }
            i = i + 1;
        }
        assert(all.take(i as int) =~= all);
        BrupopHostsData { hosts_version_count, hosts_state_count }
    }

    /// Marks all current gauges at 0, then writes the new metrics into the store.
    pub fn update_counters(&mut self, other: &BrupopHostsData)
        ensures
            final(self)@ == (HostsView {
                versions: updated(old(self)@.versions, other@.versions),
                states: updated(old(self)@.states, other@.states),
            }),
    {
        update_counter(&mut self.hosts_version_count, &other.hosts_version_count);
        update_counter(&mut self.hosts_state_count, &other.hosts_state_count);
    }
}

/// A counter after an update: the new counts, and 0 for each key that has none any more.
pub open spec fn updated(base: Map<Seq<char>, u64>, other: Map<Seq<char>, u64>) -> Map<
    Seq<char>,
    u64,
> {
    Map::new(
        |k: Seq<char>| base.contains_key(k) || other.contains_key(k),
        |k: Seq<char>|
            if other.contains_key(k) {
                other[k]
            } else {
                0u64
            },
    )
}

/// Updates a population counter from a stateless input.
///
/// All current state in the counter is set to 0, then new counts are copied from the incoming state.
pub fn update_counter(base: &mut Counter, other: &Counter)
    ensures
        final(base)@ == updated(old(base)@, other@),
{
    let ghost start = base@;
    let mut result = Counter::new();
    let old_entries = base.entries();
    let mut i: usize = 0;
    while i < old_entries.len()
        invariant
            i <= old_entries@.len(),
            forall|k: Seq<char>| #[trigger]
                result@.contains_key(k) <==> exists|j: int|
                    0 <= j < i && (#[trigger] old_entries@[j]).0@ == k,
            forall|k: Seq<char>| #[trigger] result@.contains_key(k) ==> result@[k] == 0,
        decreases old_entries@.len() - i,
    {
        let ghost was = result@;
        result = result.with(old_entries[i].0.as_str(), 0);
        proof {
            assert forall|k: Seq<char>| #[trigger]
                result@.contains_key(k) <==> exists|j: int|
                    0 <= j < i + 1 && (#[trigger] old_entries@[j]).0@ == k by {
                if k == old_entries@[i as int].0@ {
                    assert(result@.contains_key(k));
                } else {
                    assert(result@.contains_key(k) == was.contains_key(k));
                }
            }
        }
        i = i + 1;
    }
    let ghost zeroed = result@;
    let new_entries = other.entries();
    let mut i: usize = 0;
    while i < new_entries.len()
        invariant
            i <= new_entries@.len(),
            forall|k: Seq<char>| #[trigger]
                result@.contains_key(k) <==> zeroed.contains_key(k) || exists|j: int|
                    0 <= j < i && (#[trigger] new_entries@[j]).0@ == k,
            forall|j: int| 0 <= j < i ==> result@[(#[trigger] new_entries@[j]).0@] == new_entries@[j].1,
            forall|k: Seq<char>|
                zeroed.contains_key(k) && (forall|j: int|
                    0 <= j < i ==> (#[trigger] new_entries@[j]).0@ != k) ==> #[trigger] result@[k]
                    == 0,
            forall|a: int, b: int|
                0 <= a < new_entries@.len() && 0 <= b < new_entries@.len() && (
                #[trigger] new_entries@[a]).0@ == (#[trigger] new_entries@[b]).0@ ==> a == b,
        decreases new_entries@.len() - i,
    {
        let ghost was = result@;
        result = result.with(new_entries[i].0.as_str(), new_entries[i].1);
        proof {
            let key = new_entries@[i as int].0@;
            assert forall|k: Seq<char>| #[trigger]
                result@.contains_key(k) <==> zeroed.contains_key(k) || exists|j: int|
                    0 <= j < i + 1 && (#[trigger] new_entries@[j]).0@ == k by {
                if k == key {
                    assert(result@.contains_key(k));
                } else {
                    assert(result@.contains_key(k) == was.contains_key(k));
                }
            }
            assert forall|j: int| 0 <= j < i + 1 implies result@[(
            #[trigger] new_entries@[j]).0@] == new_entries@[j].1 by {
                if j < i {
                    assert(new_entries@[j].0@ != key);
                }
            }
            assert forall|k: Seq<char>|
                zeroed.contains_key(k) && (forall|j: int|
                    0 <= j < i + 1 ==> (#[trigger] new_entries@[j]).0@ != k) implies #[trigger] result@[k]
                == 0 by {
                assert(new_entries@[i as int].0@ != k);
                assert(result@[k] == was[k]);
            }
        }
        i = i + 1;
    }
    proof {
        assert forall|k: Seq<char>| result@.contains_key(k) == updated(start, other@).contains_key(
            k,
        ) by {
            if zeroed.contains_key(k) {
                let j = choose|j: int|
                    0 <= j < old_entries@.len() && (#[trigger] old_entries@[j]).0@ == k;
                assert(start.contains_key(old_entries@[j].0@));
            }
            if other@.contains_key(k) {
                let j = choose|j: int|
                    0 <= j < new_entries@.len() && (#[trigger] new_entries@[j]).0@ == k;
                assert(new_entries@[j].0@ == k);
            }
            if result@.contains_key(k) && !zeroed.contains_key(k) {
                let j = choose|j: int|
                    0 <= j < new_entries@.len() && (#[trigger] new_entries@[j]).0@ == k;
                assert(other@.contains_key(new_entries@[j].0@));
            }
        }
        assert forall|k: Seq<char>| result@.contains_key(k) implies result@[k] == updated(
            start,
            other@,
        )[k] by {
            if other@.contains_key(k) {
                let j = choose|j: int|
                    0 <= j < new_entries@.len() && (#[trigger] new_entries@[j]).0@ == k;
                assert(result@[new_entries@[j].0@] == new_entries@[j].1);
            } else {
                assert forall|j: int| 0 <= j < new_entries@.len() implies (
                #[trigger] new_entries@[j]).0@ != k by {
                    assert(other@.contains_key(new_entries@[j].0@));
                }
                assert(zeroed.contains_key(k));
            }
        }
        assert(result@ =~= updated(start, other@));
    }
    *base = result;
}

/// The metrics of the controller.
#[derive(Debug)]
pub struct BrupopControllerMetrics {
    pub brupop_shared_hosts_data: BrupopHostsData,
}

impl BrupopControllerMetrics {
    /// Metrics that count nothing yet.
    pub fn new() -> (r: Self)
        ensures
            r.brupop_shared_hosts_data@ == (HostsView {
                versions: Map::empty(),
                states: Map::empty(),
            }),
    {
        BrupopControllerMetrics { brupop_shared_hosts_data: BrupopHostsData::default() }
    }

    /// Updates the shared data that the observers read.
    pub fn emit_metrics(&mut self, data: BrupopHostsData)
        ensures
            final(self).brupop_shared_hosts_data@ == (HostsView {
                versions: updated(old(self).brupop_shared_hosts_data@.versions, data@.versions),
                states: updated(old(self).brupop_shared_hosts_data@.states, data@.states),
            }),
    {
        self.brupop_shared_hosts_data.update_counters(&data);
    }
}

/// Whether the versions that the hosts run can be read.
pub fn versions_are_readable(brss: &Vec<BottlerocketShadow>) -> (r: bool)
    ensures
        r == versions_read(shadow_views(brss@)),
{
    let ghost all = shadow_views(brss@);
    let mut i: usize = 0;
    while i < brss.len()
        invariant
            i <= brss@.len(),
            all == shadow_views(brss@),
            forall|j: int|
                0 <= j < i && (#[trigger] all[j]).status is Some ==> semver_parts(
                    all[j].status->0.current_version,
                ) is Some,
        decreases brss@.len() - i,
    {
        assert(all[i as int] == brss@[i as int]@);
        match &brss[i].status {
            None => {},
            Some(status) => {
                if Version::from_str(status.current_version.as_str()).is_none() {
                    assert(all[i as int].status is Some);
                    return false;
                }
            },
        }
        i = i + 1;
    }
    true
}

/// Computes the metrics of the hosts, unless the version of a host cannot be read.
pub fn checked_hosts_data(brss: &Vec<BottlerocketShadow>) -> (r: Option<BrupopHostsData>)
    ensures
        match r {
            Some(d) => {
                &&& counts_hosts(d@.versions, shadow_views(brss@), version_key())
                &&& counts_hosts(d@.states, shadow_views(brss@), state_key())
            },
            None => !versions_read(shadow_views(brss@)),
        },
{
    if versions_are_readable(brss) {
        Some(BrupopHostsData::from_shadows(brss))
    } else {
        None
    }
}

/// After an update a counter shows exactly the new counts, and 0 for every other key it ever
/// showed.
pub proof fn update_shows_new_counts(
    base: Map<Seq<char>, u64>,
    other: Map<Seq<char>, u64>,
    k: Seq<char>,
)
    ensures
        other.contains_key(k) ==> updated(base, other).contains_key(k) && updated(base, other)[k]
            == other[k],
        base.contains_key(k) && !other.contains_key(k) ==> updated(base, other).contains_key(k)
            && updated(base, other)[k] == 0,
        updated(base, other).contains_key(k) ==> base.contains_key(k) || other.contains_key(k),
{
}

/// An update that is repeated changes nothing.
pub proof fn update_is_idempotent(base: Map<Seq<char>, u64>, other: Map<Seq<char>, u64>)
    ensures
        updated(updated(base, other), other) == updated(base, other),
{
    assert(updated(updated(base, other), other) =~= updated(base, other));
}

} // verus!
