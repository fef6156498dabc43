//! What conversions between the versions of a `BottlerocketShadow` keep.

use vstd::prelude::*;

use super::fields::{four_digit_option, instant_field};
use super::{v1, v2};

verus! {

/// From every state but the recovery state, four successful steps lead back to it.
pub proof fn update_cycle_returns(s: v2::BottlerocketShadowState)
    requires
        s != v2::BottlerocketShadowState::ErrorReset,
    ensures
        s.next().next().next().next() == s,
{
}

/// A crashed node starts over as if it were idle, and no successful step leads to the recovery
/// state.
pub proof fn crashed_node_starts_over(s: v2::BottlerocketShadowState)
    ensures
        v2::BottlerocketShadowState::ErrorReset.next() == v2::BottlerocketShadowState::Idle,
        s.next() != v2::BottlerocketShadowState::ErrorReset,
{
}

/// In `v1`, five successful steps lead from a state back to it.
pub proof fn v1_update_cycle_returns(s: v1::BottlerocketShadowState)
    ensures
        s.next().next().next().next().next() == s,
{
}

/// Converting a `v2` state to `v1` and back keeps it, unless the node has crashed.
pub proof fn state_survives_downgrade(s: v2::BottlerocketShadowState)
    requires
        s != v2::BottlerocketShadowState::ErrorReset,
    ensures
        v2::BottlerocketShadowState::upgraded(v1::BottlerocketShadowState::downgraded(s)) == s,
{
}

/// Converting a `v1` state to `v2` and back keeps it, unless the update was performed and not
/// yet booted.
pub proof fn state_survives_upgrade(s: v1::BottlerocketShadowState)
    requires
        s != v1::BottlerocketShadowState::PerformedUpdate,
    ensures
        v1::BottlerocketShadowState::downgraded(v2::BottlerocketShadowState::upgraded(s)) == s,
{
}

/// An object that is converted from `v1` to `v2` and back has its name, namespace, uid, owners,
/// versions and desired version again, and the instant of its last transition where the year of
/// that instant has four digits. Its states are the same unless an update was performed and not
/// yet booted.
pub proof fn shadow_survives_upgrade(a: v1::ShadowView, b: v2::ShadowView, c: v1::ShadowView)
    requires
        v2::shadow_upgrade(a, b),
        v1::shadow_downgrade(b, c),
    ensures
        c.metadata.name == a.metadata.name,
        c.metadata.namespace == a.metadata.namespace,
        c.metadata.uid == a.metadata.uid,
        c.metadata.owner_references == a.metadata.owner_references,
        c.spec.version == a.spec.version,
        four_digit_option(instant_field(a.spec.state_transition_timestamp)) ==> instant_field(
            c.spec.state_transition_timestamp,
        ) == instant_field(a.spec.state_transition_timestamp),
        a.spec.state != v1::BottlerocketShadowState::PerformedUpdate ==> c.spec.state
            == a.spec.state,
        (c.status is Some) == (a.status is Some),
        a.status is Some ==> {
            &&& c.status->0.current_version == a.status->0.current_version
            &&& c.status->0.target_version == a.status->0.target_version
            &&& a.status->0.current_state != v1::BottlerocketShadowState::PerformedUpdate
                ==> c.status->0.current_state == a.status->0.current_state
        },
{
}

/// An object that is converted from `v2` to `v1` and back has its name, namespace, uid, owners,
/// versions and desired version again, and the instant of its last transition where the year of
/// that instant has four digits. Its states are the same unless the node has crashed; the crash
/// count starts from zero.
pub proof fn shadow_survives_downgrade(a: v2::ShadowView, b: v1::ShadowView, c: v2::ShadowView)
    requires
        v1::shadow_downgrade(a, b),
        v2::shadow_upgrade(b, c),
    ensures
        c.metadata.name == a.metadata.name,
        c.metadata.namespace == a.metadata.namespace,
        c.metadata.uid == a.metadata.uid,
        c.metadata.owner_references == a.metadata.owner_references,
        c.spec.version == a.spec.version,
        four_digit_option(instant_field(a.spec.state_transition_timestamp)) ==> instant_field(
            c.spec.state_transition_timestamp,
        ) == instant_field(a.spec.state_transition_timestamp),
        a.spec.state != v2::BottlerocketShadowState::ErrorReset ==> c.spec.state == a.spec.state,
        (c.status is Some) == (a.status is Some),
        a.status is Some ==> {
            &&& c.status->0.current_version == a.status->0.current_version
            &&& c.status->0.target_version == a.status->0.target_version
            &&& c.status->0.crash_count == 0
            &&& c.status->0.state_transition_failure_timestamp is None
            &&& a.status->0.current_state != v2::BottlerocketShadowState::ErrorReset
                ==> c.status->0.current_state == a.status->0.current_state
        },
{
}

/// The order by crash counts is total and transitive, and equal only for objects that both lack
/// a status or crashed equally often.
pub proof fn crash_order_is_total(a: v2::ShadowView, b: v2::ShadowView, c: v2::ShadowView)
    ensures
        a.crash_order(a) == std::cmp::Ordering::Equal,
        a.crash_order(b) == std::cmp::Ordering::Less <==> b.crash_order(a)
            == std::cmp::Ordering::Greater,
        a.crash_order(b) == std::cmp::Ordering::Equal <==> b.crash_order(a)
            == std::cmp::Ordering::Equal,
        a.crash_order(b) != std::cmp::Ordering::Greater && b.crash_order(c)
            != std::cmp::Ordering::Greater ==> a.crash_order(c) != std::cmp::Ordering::Greater,
{
}

} // verus!
