//! The steps of the update process: which spec a node is given next.

use vstd::arithmetic::power2::{
    lemma2_to64, lemma2_to64_rest, lemma_pow2_strictly_increases, lemma_pow2_unfold, pow2,
};
use vstd::prelude::*;

use crate::models::node::crd::fields::{
    instant_field, instant_is_readable, instant_reads, instant_text, version_is_readable,
    version_reads,
};
use crate::models::node::crd::v2::{ShadowView, SpecView, StatusView};
use crate::models::node::crd::{
    BottlerocketShadow, BottlerocketShadowSpec, BottlerocketShadowState, BottlerocketShadowStatus,
};
use crate::time::{clock_instant, elapsed_nanos, four_digit_year, quotient, Instant, Timestamp};
use crate::version::{semver_parts, Version};

verus! {

/// The longest wait before a crashed node may try again.
pub const RETRY_MAX_DELAY_IN_MINUTES: i64 = 1440;

/// Whether enough minutes have passed: more than the upper limit or more than two to the
/// `power`.
pub open spec fn backoff_elapsed(time_gap: int, power: nat, upper_limit: int) -> bool {
    time_gap > upper_limit || time_gap > pow2(power)
}

/// The whole minutes from a crash to now.
pub open spec fn minutes_since(now: Instant, crash: Instant) -> int {
    quotient(elapsed_nanos(now, crash), 60_000_000_000)
}

/// Whether an idle node may enter an update workflow.
pub open spec fn allowed_to_update(status: StatusView, now: Instant) -> bool {
    match instant_field(status.state_transition_failure_timestamp) {
        Some(crash) => backoff_elapsed(
            minutes_since(now, crash),
            status.crash_count as nat,
            RETRY_MAX_DELAY_IN_MINUTES as int,
        ),
        None => true,
    }
}

/// Whether the wait of a node can be computed: the time of its crash can be read.
pub open spec fn wait_is_known(status: StatusView) -> bool {
    instant_reads(status.state_transition_failure_timestamp)
}

/// The spec of a node that waits for an update.
pub open spec fn waiting_spec() -> SpecView {
    SpecView {
        state: BottlerocketShadowState::Idle,
        state_transition_timestamp: None,
        version: None,
    }
}

/// A spec that was set at an instant.
pub open spec fn spec_at(
    state: BottlerocketShadowState,
    now: Instant,
    version: Option<Seq<char>>,
) -> SpecView {
    SpecView { state, state_transition_timestamp: instant_text(Some(now)), version }
}

/// Whether the time at which a node is given a new spec is read back as that time, where RFC 3339
/// can write its year.
pub open spec fn time_reads_back(brs: ShadowView, spec: SpecView, now: Instant) -> bool {
    spec != brs.spec && spec.state_transition_timestamp is Some && four_digit_year(now)
        ==> instant_field(spec.state_transition_timestamp) == Some(now)
}

/// The spec that a node is given next.
///
/// Without a status the node waits for an update. While it has not reached its desired state it
/// keeps its spec, unless it crashed: then it becomes idle. An idle node starts an update where
/// its target version is not the one it runs and it need not wait after a crash. In any other
/// state the node proceeds to the next one.
pub open spec fn next_spec(brs: ShadowView, now: Instant) -> SpecView {
    match brs.status {
        None => waiting_spec(),
        Some(status) => if status.current_state != brs.spec.state {
            if status.current_state != BottlerocketShadowState::ErrorReset {
                brs.spec
            } else {
                spec_at(BottlerocketShadowState::Idle, now, brs.spec.version)
            }
        } else if brs.spec.state == BottlerocketShadowState::Idle {
            if semver_parts(status.current_version) == semver_parts(status.target_version) {
                waiting_spec()
            } else if allowed_to_update(status, now) {
                spec_at(
                    BottlerocketShadowState::StagedAndPerformedUpdate,
                    now,
                    Some(status.target_version),
                )
            } else {
                brs.spec
            }
        } else {
            spec_at(brs.spec.state.next(), now, brs.spec.version)
        },
    }
}

/// What the controller does next with a node that has a status.
#[derive(Clone, Copy, Debug, PartialEq, Eq, Structural)]
pub enum NextStep {
    /// The node waits for an update.
    Wait,
    /// The node keeps its spec.
    Keep,
    /// The node is to enter a state, at the version of its spec.
    Enter(BottlerocketShadowState),
    /// The node is to begin the update to its target version.
    StartUpdate,
}

/// The next step of a node, from its desired and its current state, whether it runs its target
/// version, and whether it may enter an update workflow.
pub open spec fn next_step(
    desired: BottlerocketShadowState,
    current: BottlerocketShadowState,
    up_to_date: bool,
    allowed: bool,
) -> NextStep {
    if current != desired {
        if current != BottlerocketShadowState::ErrorReset {
            NextStep::Keep
        } else {
            NextStep::Enter(BottlerocketShadowState::Idle)
        }
    } else if desired == BottlerocketShadowState::Idle {
        if up_to_date {
            NextStep::Wait
        } else if allowed {
            NextStep::StartUpdate
        } else {
            NextStep::Keep
        }
    } else {
        NextStep::Enter(desired.next())
    }
}

/// The next step of a node. The last two arguments matter only for a node that has reached the
/// idle state.
pub fn determine_next_step(
    desired: BottlerocketShadowState,
    current: BottlerocketShadowState,
    up_to_date: bool,
    allowed: bool,
) -> (r: NextStep)
    ensures
        r == next_step(desired, current, up_to_date, allowed),
{
    // If we've not actualized the current spec, then don't bother computing a new one.
    if current != desired {
        if current != BottlerocketShadowState::ErrorReset {
            // Wait for the update to complete
            NextStep::Keep
        } else {
            // Agent has crashed
            NextStep::Enter(BottlerocketShadowState::Idle)
        }
    } else {
        match desired {
            BottlerocketShadowState::Idle => {
                if up_to_date {
                    NextStep::Wait
                } else if allowed {
                    // Node crashed before but reached time to retry
                    // Or node just start or completed without crashing
                    NextStep::StartUpdate
                } else {
                    // Do nothing if not reach the wait time
                    NextStep::Keep
                }
            },
            // In any other circumstance, we just proceed to the next step.
            _ => NextStep::Enter(desired.on_success()),
        }
    }
}

/// Whether what `next_spec` reads of an object can be read.
pub open spec fn next_spec_is_known(brs: ShadowView) -> bool {
    match brs.status {
        None => true,
        Some(status) => if status.current_state != brs.spec.state {
            status.current_state == BottlerocketShadowState::ErrorReset ==> version_reads(
                brs.spec.version,
            )
        } else if brs.spec.state == BottlerocketShadowState::Idle {
            &&& semver_parts(status.current_version) is Some
            &&& semver_parts(status.target_version) is Some
            &&& semver_parts(status.current_version) != semver_parts(status.target_version)
                ==> wait_is_known(status)
        } else {
            version_reads(brs.spec.version)
        },
    }
}

/// Constructs a `BottlerocketShadowSpec` to assign to a `BottlerocketShadow` resource, assuming the
/// current spec has been successfully achieved.
pub fn determine_next_node_spec(brs: &BottlerocketShadow) -> (r: BottlerocketShadowSpec)
    requires
        next_spec_is_known(brs@),
    ensures
        exists|now: Instant| #[trigger]
            clock_instant(now) && r@ == next_spec(brs@, now) && time_reads_back(brs@, r@, now),
{
    let now = Timestamp::now();
    assert(clock_instant(now@));
    determine_next_node_spec_at(brs, now)
}

/// The spec that a node is given next at an instant.
pub fn determine_next_node_spec_at(brs: &BottlerocketShadow, now: Timestamp) -> (r:
    BottlerocketShadowSpec)
    requires
        next_spec_is_known(brs@),
    ensures
        r@ == next_spec(brs@, now@),
        time_reads_back(brs@, r@, now@),
{
    match &brs.status {
        // If no status is present, just keep waiting for an update.
        None => BottlerocketShadowSpec::default(),
        Some(node_status) => {
            let desired = brs.spec.state;
            let current = node_status.current_state;
            let mut up_to_date: bool = false;
            let mut allowed: bool = false;
            if current == desired && desired == BottlerocketShadowState::Idle {
                up_to_date = node_status.current_version().same(&node_status.target_version());
                allowed = !up_to_date && node_allowed_to_update(node_status, now);
            }
            match determine_next_step(desired, current, up_to_date, allowed) {
                NextStep::Wait => BottlerocketShadowSpec::default(),
                NextStep::Keep => brs.spec.copy(),
                NextStep::Enter(state) => BottlerocketShadowSpec::new(
                    state,
                    Some(now),
                    brs.spec.version(),
                ),
                NextStep::StartUpdate => BottlerocketShadowSpec::new(
                    BottlerocketShadowState::StagedAndPerformedUpdate,
                    Some(now),
                    Some(node_status.target_version()),
                ),
            }
        },
    }
}

/// Whether what the next step needs can be read from an object.
pub fn next_node_spec_is_known(brs: &BottlerocketShadow) -> (r: bool)
    ensures
        r == next_spec_is_known(brs@),
{
    match &brs.status {
        None => true,
        Some(node_status) => {
            if node_status.current_state != brs.spec.state {
                node_status.current_state != BottlerocketShadowState::ErrorReset
                    || version_is_readable(&brs.spec.version)
            } else {
                match brs.spec.state {
                    BottlerocketShadowState::Idle => {
                        match (
                            Version::from_str(node_status.current_version.as_str()),
                            Version::from_str(node_status.target_version.as_str()),
                        ) {
                            (Some(current), Some(target)) => current.same(&target)
                                || instant_is_readable(
                                &node_status.state_transition_failure_timestamp,
                            ),
                            _ => false,
                        }
                    },
                    _ => version_is_readable(&brs.spec.version),
                }
            }
        },
    }
}

/// The spec that a node is given next at an instant, or none where the object cannot be read.
pub fn checked_next_node_spec(brs: &BottlerocketShadow, now: Timestamp) -> (r: Option<
    BottlerocketShadowSpec,
>)
    ensures
        match r {
            Some(spec) => {
                &&& next_spec_is_known(brs@)
                &&& spec@ == next_spec(brs@, now@)
                &&& time_reads_back(brs@, spec@, now@)
            },
            None => !next_spec_is_known(brs@),
        },
{
    if next_node_spec_is_known(brs) {
        Some(determine_next_node_spec_at(brs, now))
    } else {
        None
    }
}

/// The spec that a node is given next at the current time, or none where the object cannot be
/// read.
pub fn checked_next_node_spec_now(brs: &BottlerocketShadow) -> (r: Option<BottlerocketShadowSpec>)
    ensures
        match r {
            Some(spec) => next_spec_is_known(brs@) && exists|now: Instant| #[trigger]
                clock_instant(now) && spec@ == next_spec(brs@, now) && time_reads_back(brs@, spec@, now),
            None => !next_spec_is_known(brs@),
        },
{
    if next_node_spec_is_known(brs) {
        Some(determine_next_node_spec(brs))
    } else {
        None
    }
}

/// Returns whether or not an Idle node is allowed to enter an update workflow.
/// This returns false if the node has previously encountered an error and not yet
/// passed its retry timer.
pub fn node_allowed_to_update(node_status: &BottlerocketShadowStatus, now: Timestamp) -> (r: bool)
    requires
        wait_is_known(node_status@),
    ensures
        r == allowed_to_update(node_status@, now@),
{
    match node_status.failure_timestamp() {
        Ok(Some(crash_time)) => {
            let time_gap: i64 = now.since(&crash_time).num_minutes();
            exponential_backoff_time_with_upper_limit(
                time_gap,
                node_status.crash_count(),
                RETRY_MAX_DELAY_IN_MINUTES,
            )
        },
        // Never crashed
        _ => true,
    }
}

/// Whether more minutes than the upper limit, or more than two to the `power`, have passed.
pub fn exponential_backoff_time_with_upper_limit(
    time_gap: i64,
    power: u32,
    upper_limit: i64,
) -> (r: bool)
    ensures
        r == backoff_elapsed(time_gap as int, power as nat, upper_limit as int),
{
    if time_gap > upper_limit {
        true
    } else if power >= 63 {
        // Two to the power is more than any number of minutes.
        proof {
            lemma2_to64_rest();
            if power > 63 {
                lemma_pow2_strictly_increases(63, power as nat);
            }
        }
        false
    } else {
        time_gap > two_to(power)
    }
}

/// Two to a power that an `i64` can hold.
fn two_to(power: u32) -> (r: i64)
    requires
        power < 63,
    ensures
        r == pow2(power as nat),
{
    let mut value: i64 = 1;
    let mut i: u32 = 0;
    proof {
        lemma2_to64();
        lemma2_to64_rest();
    }
    while i < power
        invariant
            i <= power < 63,
            value == pow2(i as nat),
            pow2(63) == 0x8000000000000000,
        decreases power - i,
    {
        proof {
            lemma_pow2_unfold((i + 1) as nat);
            lemma_pow2_strictly_increases((i + 1) as nat, 63);
        }
        value = value * 2;
        i = i + 1;
    }
    value
}

/// The next spec never skips a state: it asks for the state that was asked for, for the one that
/// follows it, or for the idle state.
pub proof fn next_spec_takes_one_step(brs: ShadowView, now: Instant)
    ensures
        next_spec(brs, now).state == brs.spec.state || next_spec(brs, now).state
            == brs.spec.state.next() || next_spec(brs, now).state == BottlerocketShadowState::Idle,
        next_spec(brs, now).state == BottlerocketShadowState::ErrorReset ==> brs.spec.state
            == BottlerocketShadowState::ErrorReset,
{
}

/// A node that has not reached its desired state and has not crashed keeps its spec.
pub proof fn unfinished_step_is_kept(brs: ShadowView, now: Instant)
    requires
        brs.status is Some,
        brs.status->0.current_state != brs.spec.state,
        !brs.crashed(),
    ensures
        next_spec(brs, now) == brs.spec,
{
}

/// A node that crashed is sent back to the idle state with the version it was asked for.
pub proof fn crashed_node_becomes_idle(brs: ShadowView, now: Instant)
    requires
        brs.crashed(),
        brs.spec.state != BottlerocketShadowState::ErrorReset,
    ensures
        next_spec(brs, now).state == BottlerocketShadowState::Idle,
        next_spec(brs, now).version == brs.spec.version,
{
}

/// An update starts only on an idle node whose target version differs from the one it runs, and
/// then asks for the target version.
pub proof fn update_starts_for_new_target_only(brs: ShadowView, now: Instant)
    requires
        brs.spec.state == BottlerocketShadowState::Idle,
        next_spec(brs, now).state != BottlerocketShadowState::Idle,
    ensures
        brs.status is Some,
        brs.status->0.current_state == BottlerocketShadowState::Idle,
        semver_parts(brs.status->0.current_version) != semver_parts(brs.status->0.target_version),
        next_spec(brs, now).state == BottlerocketShadowState::StagedAndPerformedUpdate,
        next_spec(brs, now).version == Some(brs.status->0.target_version),
{
}

/// Once a crashed node may try again, it may do so at any later minute; after a day it always
/// may.
pub proof fn backoff_ends(gap: int, later: int, power: nat)
    requires
        gap <= later,
    ensures
        backoff_elapsed(gap, power, RETRY_MAX_DELAY_IN_MINUTES as int) ==> backoff_elapsed(
            later,
            power,
            RETRY_MAX_DELAY_IN_MINUTES as int,
        ),
        later > 1440 ==> backoff_elapsed(later, power, RETRY_MAX_DELAY_IN_MINUTES as int),
{
}

/// However often a node crashed, it waits for a day at most; where it crashed so often that the
/// backoff exceeds a day, it waits for exactly a day.
pub proof fn many_crashes_wait_a_day(gap: int, power: nat)
    requires
        power >= 11,
    ensures
        backoff_elapsed(gap, power, RETRY_MAX_DELAY_IN_MINUTES as int) <==> gap
            > RETRY_MAX_DELAY_IN_MINUTES,
{
    lemma2_to64();
    if power > 11 {
        lemma_pow2_strictly_increases(11, power);
    }
}

/// A node that crashed more often waits at least as long.
pub proof fn more_crashes_wait_longer(gap: int, fewer: nat, more: nat, upper_limit: int)
    requires
        fewer <= more,
        backoff_elapsed(gap, more, upper_limit),
    ensures
        backoff_elapsed(gap, fewer, upper_limit),
{
    if fewer < more {
        lemma_pow2_strictly_increases(fewer, more);
    }
}

} // verus!
