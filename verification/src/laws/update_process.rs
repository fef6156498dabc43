//! The update process of a node: which spec it is given next, and when.

use vstd::arithmetic::power2::pow2;
use vstd::prelude::*;

use crate::controller::controller::{can_progress, in_initial_state, is_ready};
use crate::controller::statemachine::{
    backoff_elapsed, minutes_since, next_spec, next_spec_is_known, next_step, time_reads_back,
    NextStep,
};
use crate::models::node::crd::v2::{BottlerocketShadowState, ShadowView, SpecView};
use crate::time::{
    clock_instant, elapsed_nanos, quotient, rfc3339_read, rfc3339_text, valid_instant, Instant,
};
use crate::version::semver_parts;

verus! {

/// A node that has reached a state other than the idle one is asked for the state after it, at the
/// version that it was asked for before, from now on: the update is staged and performed, then
/// booted into, then monitored, and then over.
pub proof fn reached_state_leads_to_the_next(brs: ShadowView, now: Instant)
    requires
        brs.status is Some,
        brs.status->0.current_state == brs.spec.state,
        brs.spec.state != BottlerocketShadowState::Idle,
    ensures
        next_spec(brs, now).version == brs.spec.version,
        next_spec(brs, now).state_transition_timestamp == Some(rfc3339_text(now.0, now.1)),
        brs.spec.state == BottlerocketShadowState::StagedAndPerformedUpdate <==> next_spec(
            brs,
            now,
        ).state == BottlerocketShadowState::RebootedIntoUpdate,
        brs.spec.state == BottlerocketShadowState::RebootedIntoUpdate <==> next_spec(brs, now).state
            == BottlerocketShadowState::MonitoringUpdate,
        brs.spec.state == BottlerocketShadowState::MonitoringUpdate || brs.spec.state
            == BottlerocketShadowState::ErrorReset <==> next_spec(brs, now).state
            == BottlerocketShadowState::Idle,
{
}

/// An update that nothing disturbs asks for one version all the way: as long as each spec is
/// reached, the four specs that follow the start of an update ask for the version it started with.
pub proof fn undisturbed_update_keeps_its_version(
    first: ShadowView,
    second: ShadowView,
    third: ShadowView,
    t1: Instant,
    t2: Instant,
    t3: Instant,
)
    requires
        first.spec.state == BottlerocketShadowState::StagedAndPerformedUpdate,
        first.status is Some && first.status->0.current_state == first.spec.state,
        second.spec == next_spec(first, t1),
        second.status is Some && second.status->0.current_state == second.spec.state,
        third.spec == next_spec(second, t2),
        third.status is Some && third.status->0.current_state == third.spec.state,
    ensures
        second.spec.state == BottlerocketShadowState::RebootedIntoUpdate,
        second.spec.version == first.spec.version,
        third.spec.state == BottlerocketShadowState::MonitoringUpdate,
        third.spec.version == first.spec.version,
        next_spec(third, t3).state == BottlerocketShadowState::Idle,
        next_spec(third, t3).version == first.spec.version,
{
}

/// A node that crashed on its way to another state is sent back to the idle state from now on, with
/// the version that it was asked for.
pub proof fn crash_sends_back_to_idle(brs: ShadowView, now: Instant)
    requires
        brs.status is Some,
        brs.status->0.current_state == BottlerocketShadowState::ErrorReset,
    ensures
        next_spec(brs, now).state == BottlerocketShadowState::Idle,
        next_spec(brs, now).version == brs.spec.version,
        next_spec(brs, now).state_transition_timestamp == Some(rfc3339_text(now.0, now.1)),
{
}

/// A node that is on its way to another state is left with the spec that it has.
pub proof fn node_on_its_way_is_left_alone(brs: ShadowView, now: Instant)
    requires
        brs.status is Some,
        brs.status->0.current_state != brs.spec.state,
        brs.status->0.current_state != BottlerocketShadowState::ErrorReset,
    ensures
        next_spec(brs, now).state == brs.spec.state,
        next_spec(brs, now).version == brs.spec.version,
        next_spec(brs, now).state_transition_timestamp == brs.spec.state_transition_timestamp,
{
}

/// A node of which nothing is known, and an idle one that runs the version it should run, wait for
/// an update: they are asked for the idle state, for no version and from no time on.
pub proof fn node_without_update_waits(brs: ShadowView, now: Instant)
    requires
        brs.status is None || (brs.status->0.current_state == BottlerocketShadowState::Idle
            && brs.spec.state == BottlerocketShadowState::Idle && semver_parts(
            brs.status->0.current_version,
        ) == semver_parts(brs.status->0.target_version)),
    ensures
        next_spec(brs, now).state == BottlerocketShadowState::Idle,
        next_spec(brs, now).version is None,
        next_spec(brs, now).state_transition_timestamp is None,
{
}

/// An idle node that should run another version and never crashed starts the update to that version
/// now.
pub proof fn node_with_update_starts_at_once(brs: ShadowView, now: Instant)
    requires
        brs.status is Some,
        brs.status->0.current_state == BottlerocketShadowState::Idle,
        brs.spec.state == BottlerocketShadowState::Idle,
        semver_parts(brs.status->0.current_version) != semver_parts(brs.status->0.target_version),
        brs.status->0.state_transition_failure_timestamp is None,
    ensures
        next_spec(brs, now).state == BottlerocketShadowState::StagedAndPerformedUpdate,
        next_spec(brs, now).version == Some(brs.status->0.target_version),
        next_spec(brs, now).state_transition_timestamp == Some(rfc3339_text(now.0, now.1)),
{
}

/// The whole minutes that have passed, counted in nanoseconds.
proof fn lemma_more_minutes(nanos: int, minutes: int)
    requires
        minutes >= 0,
    ensures
        quotient(nanos, 60_000_000_000) > minutes <==> nanos >= (minutes + 1) * 60_000_000_000,
{
    if nanos >= 0 {
        let q = nanos / 60_000_000_000;
        assert(q * 60_000_000_000 <= nanos < (q + 1) * 60_000_000_000);
    } else {
        assert((-nanos) / 60_000_000_000 >= 0);
    }
}

/// An idle node that should run another version and crashed before starts the update once more
/// minutes have passed since the crash than two to the number of its crashes, or than a day has,
/// and not before: until then it keeps its spec.
pub proof fn crashed_node_starts_after_its_wait(brs: ShadowView, now: Instant, crash: Instant)
    requires
        brs.status is Some,
        brs.status->0.current_state == BottlerocketShadowState::Idle,
        brs.spec.state == BottlerocketShadowState::Idle,
        semver_parts(brs.status->0.current_version) != semver_parts(brs.status->0.target_version),
        brs.status->0.state_transition_failure_timestamp is Some,
        rfc3339_read(brs.status->0.state_transition_failure_timestamp->0) == Ok::<
            Instant,
            Seq<char>,
        >(crash),
        now.1 < 1_000_000_000,
        crash.1 < 1_000_000_000,
    ensures
        ({
            let count = brs.status->0.crash_count as nat;
            let passed = (now.0 * 1_000_000_000 + now.1) - (crash.0 * 1_000_000_000 + crash.1);
            if passed >= (pow2(count) + 1) * 60_000_000_000 || passed >= 1441 * 60_000_000_000 {
                &&& next_spec(brs, now).state == BottlerocketShadowState::StagedAndPerformedUpdate
                &&& next_spec(brs, now).version == Some(brs.status->0.target_version)
                &&& next_spec(brs, now).state_transition_timestamp == Some(
                    rfc3339_text(now.0, now.1),
                )
            } else {
                next_spec(brs, now) == brs.spec
            }
        }),
{
    let count = brs.status->0.crash_count as nat;
    let passed = (now.0 * 1_000_000_000 + now.1) - (crash.0 * 1_000_000_000 + crash.1);
    assert(elapsed_nanos(now, crash) == passed);
    lemma_more_minutes(passed, pow2(count) as int);
    lemma_more_minutes(passed, 1440);
}

/// A wait ends at one minute: with the limit or two to the power, whichever is less, it is not
/// over, with one minute more it is, and once over it stays so.
pub proof fn wait_ends_at_one_minute(power: nat, upper_limit: int, gap: int)
    ensures
        ({
            let least: int = if upper_limit < pow2(power) {
                upper_limit
            } else {
                pow2(power) as int
            };
            &&& !backoff_elapsed(least, power, upper_limit)
            &&& backoff_elapsed(least + 1, power, upper_limit)
            &&& backoff_elapsed(gap, power, upper_limit) ==> backoff_elapsed(
                gap + 1,
                power,
                upper_limit,
            )
            &&& gap < least ==> !backoff_elapsed(gap, power, upper_limit)
        }),
{
}

/// Each further crash doubles the wait, as long as the limit allows: the minute at which a wait
/// ends is twice as late.
pub proof fn further_crash_doubles_the_wait(power: nat, upper_limit: int, minutes: int)
    requires
        0 <= minutes,
        2 * minutes <= upper_limit,
    ensures
        backoff_elapsed(minutes, power, upper_limit) <==> backoff_elapsed(
            2 * minutes,
            power + 1,
            upper_limit,
        ),
{
    vstd::arithmetic::power2::lemma_pow2_unfold((power + 1) as nat);
    assert(pow2(power + 1) == 2 * pow2(power));
}

/// The minutes since a crash grow by one with each minute, and are none within the first one.
pub proof fn minutes_are_counted(now: Instant, crash: Instant, minutes: int)
    requires
        now.1 < 1_000_000_000,
        crash.1 < 1_000_000_000,
        minutes >= 0,
        0 <= crash.1 <= now.1,
        now.0 == crash.0 + 60 * minutes,
    ensures
        minutes_since(now, crash) == minutes,
{
    assert(elapsed_nanos(now, crash) == 60_000_000_000 * minutes + (now.1 - crash.1));
    let passed = elapsed_nanos(now, crash);
    assert(passed / 60_000_000_000 == minutes);
}

/// The time from one instant to another is the difference of the two, unless one of them is a leap
/// second. It is the reverse of the time back, and none from an instant to itself.
pub proof fn elapsed_time_is_reversible(a: Instant, b: Instant)
    ensures
        elapsed_nanos(a, b) == -elapsed_nanos(b, a),
        elapsed_nanos(a, a) == 0,
        a.1 < 1_000_000_000 && b.1 < 1_000_000_000 ==> elapsed_nanos(a, b) == (a.0 * 1_000_000_000
            + a.1) - (b.0 * 1_000_000_000 + b.1),
{
}

/// A leap second takes up no time of its own where the other time lies before it within the day, and
/// one second where it lies behind it.
pub proof fn leap_second_counts_once(seconds: int, nanos: int, other: Instant)
    requires
        0 <= nanos < 1_000_000_000,
    ensures
        ({
            let within = (seconds, nanos + 1_000_000_000);
            let before = (seconds, nanos);
            &&& other.0 % 86400 > seconds % 86400 ==> elapsed_nanos(other, within)
                == elapsed_nanos(other, before)
            &&& other.0 % 86400 <= seconds % 86400 ==> elapsed_nanos(other, within)
                == elapsed_nanos(other, before) - 1_000_000_000
        }),
{
}

/// A quotient drops the fraction: it is the nearest number toward zero whose multiple does not
/// exceed the dividend.
pub proof fn quotient_drops_the_fraction(a: int, b: int)
    requires
        b > 0,
    ensures
        a >= 0 ==> 0 <= a - quotient(a, b) * b < b,
        a < 0 ==> 0 <= quotient(a, b) * b - a < b,
        quotient(-a, b) == -quotient(a, b),
{
    if a >= 0 {
        vstd::arithmetic::div_mod::lemma_fundamental_div_mod(a, b);
        vstd::arithmetic::div_mod::lemma_mod_bound(a, b);
        assert(b * (a / b) == (a / b) * b) by (nonlinear_arith);
    } else {
        vstd::arithmetic::div_mod::lemma_fundamental_div_mod(-a, b);
        vstd::arithmetic::div_mod::lemma_mod_bound(-a, b);
        assert(b * ((-a) / b) == -(-((-a) / b)) * b) by (nonlinear_arith);
        assert((-((-a) / b)) * b == -(((-a) / b) * b)) by (nonlinear_arith);
        assert(b * ((-a) / b) == ((-a) / b) * b) by (nonlinear_arith);
    }
    if a == 0 {
        assert(0int / b == 0) by (nonlinear_arith)
            requires
                b > 0,
        ;
    }
}

/// What a node is told follows from four answers alone. An update starts where the node should be
/// idle, is idle, is not up to date and need not wait; it waits where it is up to date instead; it is
/// told a state where it has reached another one or has crashed; and it is told nothing otherwise.
pub proof fn step_follows_from_four_answers(
    desired: BottlerocketShadowState,
    current: BottlerocketShadowState,
    up_to_date: bool,
    allowed: bool,
)
    ensures
        ({
            let idle = desired == BottlerocketShadowState::Idle && current
                == BottlerocketShadowState::Idle;
            let step = next_step(desired, current, up_to_date, allowed);
            &&& step == NextStep::StartUpdate <==> idle && !up_to_date && allowed
            &&& step == NextStep::Wait <==> idle && up_to_date
            &&& step == NextStep::Keep <==> (idle && !up_to_date && !allowed) || (current
                != desired && current != BottlerocketShadowState::ErrorReset)
            &&& step == NextStep::Enter(BottlerocketShadowState::Idle) <==> current
                == BottlerocketShadowState::ErrorReset || (current == desired && desired
                == BottlerocketShadowState::MonitoringUpdate)
            &&& step == NextStep::Enter(BottlerocketShadowState::MonitoringUpdate) <==> current
                == desired && desired == BottlerocketShadowState::RebootedIntoUpdate
            &&& step == NextStep::Enter(BottlerocketShadowState::RebootedIntoUpdate) <==> current
                == desired && desired == BottlerocketShadowState::StagedAndPerformedUpdate
        }),
{
}

/// Whether a text, where there is one, is a version that can be read.
pub open spec fn is_readable_version(field: Option<Seq<char>>) -> bool {
    match field {
        Some(text) => semver_parts(text) is Some,
        None => true,
    }
}

/// Whether a time, where there is one, can be read.
pub open spec fn is_readable_time(field: Option<Seq<char>>) -> bool {
    match field {
        Some(text) => rfc3339_read(text) is Ok,
        None => true,
    }
}

/// What has to be readable to tell a node what to do next. For a node of which nothing is known, or
/// that is on its way, it is nothing. For an idle one it is its two versions and, where these differ,
/// the time of its last crash. For any other one it is the version that it was asked for.
pub proof fn readable_node_can_be_told_what_to_do(brs: ShadowView)
    ensures
        brs.status is None ==> next_spec_is_known(brs),
        brs.status is Some ==> {
            let status = brs.status->0;
            let reached = status.current_state == brs.spec.state;
            if !reached && status.current_state != BottlerocketShadowState::ErrorReset {
                next_spec_is_known(brs)
            } else if reached && brs.spec.state == BottlerocketShadowState::Idle {
                next_spec_is_known(brs) <==> {
                    &&& semver_parts(status.current_version) is Some
                    &&& semver_parts(status.target_version) is Some
                    &&& semver_parts(status.current_version) == semver_parts(status.target_version)
                        || is_readable_time(status.state_transition_failure_timestamp)
                }
            } else {
                next_spec_is_known(brs) <==> is_readable_version(brs.spec.version)
            }
        },
{
}

/// The time at which a node is given another spec is read back as that time, in the years from 0 to
/// 9999.
pub proof fn time_of_a_new_spec_reads_back(
    brs: ShadowView,
    spec: SpecView,
    now: Instant,
    text: Seq<char>,
)
    requires
        time_reads_back(brs, spec, now),
        spec != brs.spec,
        spec.state_transition_timestamp == Some(text),
        -62167219200 <= now.0 <= 253402300799,
    ensures
        rfc3339_read(text) == Ok::<Instant, Seq<char>>(now),
{
}

/// The instants between two that can be represented can be represented too, and a leap second can be
/// only at the end of a minute. The clock shows none of these, and no time before 1970.
pub proof fn representable_instants(first: int, between: int, last: int, nanos: int)
    ensures
        valid_instant((first, 0)) && valid_instant((last, 0)) && first <= between <= last && 0
            <= nanos < 1_000_000_000 ==> valid_instant((between, nanos)),
        1_000_000_000 <= nanos < 2_000_000_000 ==> (valid_instant((between, nanos))
            <==> valid_instant((between, 0)) && between % 60 == 59),
        nanos < 0 || nanos >= 2_000_000_000 ==> !valid_instant((between, nanos)),
        clock_instant((between, nanos)) <==> valid_instant((between, nanos)) && between >= 0
            && nanos < 1_000_000_000,
        valid_instant((-8334601228800, 0)) && !valid_instant((-8334601228801, 0)),
        valid_instant((8210266876799, 0)) && !valid_instant((8210266876800, 0)),
{
}

/// An update can begin on a node only where it is idle, or nothing is known of it, and is then asked
/// for something new. Of the nodes with a status that are asked for the idle state, those are ready
/// that should run another version and need not wait; one without a status is ready where it is
/// asked for anything but to wait.
pub proof fn readiness_of_nodes(brs: ShadowView, now: Instant)
    ensures
        is_ready(brs, now) ==> (brs.status is None || brs.status->0.current_state
            == BottlerocketShadowState::Idle),
        is_ready(brs, now) <==> (brs.status is None || brs.status->0.current_state
            == BottlerocketShadowState::Idle) && !(next_spec(brs, now).state == brs.spec.state
            && next_spec(brs, now).version == brs.spec.version && next_spec(
            brs,
            now,
        ).state_transition_timestamp == brs.spec.state_transition_timestamp),
        brs.status is Some && brs.spec.state != BottlerocketShadowState::Idle ==> !is_ready(
            brs,
            now,
        ),
        in_initial_state(brs) <==> (brs.status is None || brs.status->0.current_state
            == BottlerocketShadowState::Idle),
        brs.status is Some && brs.status->0.current_state == BottlerocketShadowState::Idle
            && brs.spec.state == BottlerocketShadowState::Idle && semver_parts(
            brs.status->0.current_version,
        ) != semver_parts(brs.status->0.target_version)
            && brs.status->0.state_transition_failure_timestamp is None ==> is_ready(brs, now),
{
}

/// A node is pushed forward exactly where it has a status and has reached its state or crashed.
pub proof fn progress_of_nodes(brs: ShadowView)
    ensures
        brs.status is None ==> !can_progress(brs),
        brs.status is Some && brs.status->0.current_state == brs.spec.state ==> can_progress(brs),
        brs.status is Some && brs.status->0.current_state == BottlerocketShadowState::ErrorReset
            ==> can_progress(brs),
        brs.status is Some && brs.status->0.current_state != brs.spec.state
            && brs.status->0.current_state != BottlerocketShadowState::ErrorReset ==> !can_progress(
            brs,
        ),
{
}

} // verus!
