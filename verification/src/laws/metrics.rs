//! The metrics of the controller: how many nodes run a version, and how many are in a state.

use vstd::prelude::*;

use crate::controller::metrics::{counts_hosts, host_count, state_key, version_key, versions_read};
use crate::models::node::crd::v2::{BottlerocketShadowState, ShadowView, StatusView};
use crate::version::semver_parts;

verus! {

/// Hosts are counted one by one: those of two lists are those of the first and those of the second,
/// and one host counts under its own key and no other, if it has a status.
pub proof fn hosts_are_counted_one_by_one(
    first: Seq<ShadowView>,
    second: Seq<ShadowView>,
    host: ShadowView,
    key_of: spec_fn(StatusView) -> Seq<char>,
    k: Seq<char>,
)
    ensures
        host_count(first + second, key_of, k) == host_count(first, key_of, k) + host_count(
            second,
            key_of,
            k,
        ),
        host.status is None ==> host_count(seq![host], key_of, k) == 0,
        host.status is Some && key_of(host.status->0) == k ==> host_count(seq![host], key_of, k)
            == 1,
        host.status is Some && key_of(host.status->0) != k ==> host_count(seq![host], key_of, k)
            == 0,
        host_count(Seq::empty(), key_of, k) == 0,
    decreases second.len(),
{
    reveal_with_fuel(host_count, 2);
    assert(seq![host].drop_last() =~= Seq::<ShadowView>::empty());
    if second.len() == 0 {
        assert(first + second =~= first);
    } else {
        hosts_are_counted_one_by_one(first, second.drop_last(), host, key_of, k);
        assert((first + second).drop_last() =~= first + second.drop_last());
        assert((first + second).last() == second.last());
    }
}

/// Counts are kept for the keys of hosts and for no other, each with the number of its hosts; so there
/// is one way only to count given hosts.
pub proof fn counts_are_those_of_hosts(
    m: Map<Seq<char>, u64>,
    other: Map<Seq<char>, u64>,
    brss: Seq<ShadowView>,
    key_of: spec_fn(StatusView) -> Seq<char>,
    k: Seq<char>,
)
    requires
        counts_hosts(m, brss, key_of),
    ensures
        host_count(brss, key_of, k) == 0 <==> !m.contains_key(k),
        host_count(brss, key_of, k) > 0 ==> m[k] == host_count(brss, key_of, k),
        counts_hosts(other, brss, key_of) ==> other =~= m,
{
    assert(m.contains_key(k) <==> host_count(brss, key_of, k) > 0);
    if counts_hosts(other, brss, key_of) {
        assert forall|j: Seq<char>| other.contains_key(j) == m.contains_key(j) && (m.contains_key(j)
            ==> m[j] == other[j]) by {
            assert(m.contains_key(j) <==> host_count(brss, key_of, j) > 0);
            assert(other.contains_key(j) <==> host_count(brss, key_of, j) > 0);
        }
    }
}

/// Hosts are counted by the version that they run and by the name of the state that they are in.
pub proof fn keys_of_hosts(status: StatusView)
    ensures
        version_key()(status) == status.current_version,
        state_key()(status) == match status.current_state {
            BottlerocketShadowState::Idle => "Idle"@,
            BottlerocketShadowState::StagedAndPerformedUpdate => "StagedAndPerformedUpdate"@,
            BottlerocketShadowState::RebootedIntoUpdate => "RebootedIntoUpdate"@,
            BottlerocketShadowState::MonitoringUpdate => "MonitoringUpdate"@,
            BottlerocketShadowState::ErrorReset => "ErrorReset"@,
        },
{
}

/// Hosts can be counted where the version that each of them runs can be read.
pub proof fn countable_hosts(brss: Seq<ShadowView>)
    ensures
        (forall|i: int|
            0 <= i < brss.len() ==> (#[trigger] brss[i]).status is None || semver_parts(
                brss[i].status->0.current_version,
            ) is Some) <==> versions_read(brss),
{
}

} // verus!
