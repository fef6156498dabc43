//! The loop of the agent: what it does to its node, and what it reports of it.

use vstd::prelude::*;

use crate::agent::agentclient::{
    agent_step, changes_node, observed, outcome_fits, refreshed_status, step_is_known, ActionView,
    ErrorInfoView, ObservedView, OutcomeView, PhaseView, Step,
};
use crate::agent::agentclient_error::{Error, Failure};
use crate::models::node::crd::v2::{BottlerocketShadowState, ShadowView};
use crate::time::{rfc3339_read, rfc3339_text, Instant};

verus! {

/// Whether what is reported of crashes is what was observed of them: their number, and the time of
/// the last one as its text is read.
pub open spec fn keeps_crashes(info: ErrorInfoView, o: ObservedView) -> bool {
    &&& info.crash_count == o.crash_count
    &&& o.failure_timestamp is None ==> info.failure is None
    &&& o.failure_timestamp is Some ==> match rfc3339_read(o.failure_timestamp->0) {
        Ok(i) => info.failure == Some(i),
        Err(_) => info.failure is None,
    }
}

/// Whether a status is reported: a state, and of crashes none where the monitoring of an update is
/// over, else what was observed of them.
pub open spec fn reports_state(
    action: ActionView,
    state: BottlerocketShadowState,
    o: ObservedView,
) -> bool {
    &&& action is UpdateStatus
    &&& action->UpdateStatus_0 == state
    &&& if o.current == BottlerocketShadowState::MonitoringUpdate {
        action->UpdateStatus_1.crash_count == 0 && action->UpdateStatus_1.failure is None
    } else {
        keeps_crashes(action->UpdateStatus_1, o)
    }
}

/// An update is prepared exactly where the node was observed in another state than the one in which
/// the update is staged and performed, and should be in that one.
pub proof fn update_is_prepared_where_it_is_desired(
    phase: PhaseView,
    outcome: OutcomeView,
    now: Instant,
)
    ensures
        agent_step(phase, outcome, now).1 is Prepare <==> phase is Fetching && outcome is Shadow
            && outcome->Shadow_0 is Some && outcome->Shadow_0->0.desired
            == BottlerocketShadowState::StagedAndPerformedUpdate && outcome->Shadow_0->0.current
            != BottlerocketShadowState::StagedAndPerformedUpdate,
{
}

/// Where the update should be monitored, the agent reports just that and changes nothing on the
/// node.
pub proof fn monitoring_changes_nothing(o: ObservedView, now: Instant)
    requires
        o.desired == BottlerocketShadowState::MonitoringUpdate,
    ensures
        ({
            let (phase, action) = agent_step(
                PhaseView::Fetching,
                OutcomeView::Shadow(Some(o)),
                now,
            );
            &&& phase is Reporting
            &&& reports_state(action, BottlerocketShadowState::MonitoringUpdate, o)
            &&& !changes_node(action)
        }),
{
}

/// The node itself is changed by five actions and no other.
pub proof fn actions_on_the_node(action: ActionView)
    ensures
        changes_node(action) <==> action is Prepare || action is Update || action is CordonAndDrain
            || action is BootUpdate || action is Uncordon,
{
}

/// A node that is in the state that it should be in is left alone, and its state is reported.
pub proof fn reached_state_is_reported(o: ObservedView, now: Instant)
    requires
        o.desired == o.current,
    ensures
        ({
            let (phase, action) = agent_step(
                PhaseView::Fetching,
                OutcomeView::Shadow(Some(o)),
                now,
            );
            phase is Reporting && reports_state(action, o.current, o)
        }),
{
}

/// A node that should have its update staged and performed has it prepared, then performed, and then
/// reports that state.
pub proof fn update_is_staged_and_performed(o: ObservedView, now: Instant)
    requires
        o.desired == BottlerocketShadowState::StagedAndPerformedUpdate,
        o.current != BottlerocketShadowState::StagedAndPerformedUpdate,
    ensures
        ({
            let (p1, a1) = agent_step(PhaseView::Fetching, OutcomeView::Shadow(Some(o)), now);
            let (p2, a2) = agent_step(p1, OutcomeView::Done, now);
            let (p3, a3) = agent_step(p2, OutcomeView::Done, now);
            &&& a1 is Prepare
            &&& a2 is Update
            &&& reports_state(a3, BottlerocketShadowState::StagedAndPerformedUpdate, o)
            &&& p3 is Reporting
        }),
{
}

/// A node that should have rebooted and does not run the version that it should is cordoned and
/// drained, then rebooted.
pub proof fn node_is_drained_and_rebooted(o: ObservedView, now: Instant)
    requires
        o.desired == BottlerocketShadowState::RebootedIntoUpdate,
        o.current != BottlerocketShadowState::RebootedIntoUpdate,
    ensures
        ({
            let (p1, a1) = agent_step(PhaseView::Fetching, OutcomeView::Shadow(Some(o)), now);
            let (p2, a2) = agent_step(p1, OutcomeView::Answer(false), now);
            let (p3, a3) = agent_step(p2, OutcomeView::Done, now);
            let (p4, a4) = agent_step(p3, OutcomeView::Done, now);
            &&& a1 is CheckRunningVersion
            &&& a2 is CordonAndDrain
            &&& a3 is BootUpdate
            &&& reports_state(a4, BottlerocketShadowState::RebootedIntoUpdate, o)
            &&& p4 is Reporting
        }),
{
}

/// A node that has rebooted into the version that it should run is not rebooted again: it reports
/// its state, with its crashes, is uncordoned, and reports its state again.
pub proof fn rebooted_node_is_uncordoned(o: ObservedView, now: Instant)
    requires
        o.desired == BottlerocketShadowState::RebootedIntoUpdate,
        o.current != BottlerocketShadowState::RebootedIntoUpdate,
    ensures
        ({
            let (p1, a1) = agent_step(PhaseView::Fetching, OutcomeView::Shadow(Some(o)), now);
            let (p2, a2) = agent_step(p1, OutcomeView::Answer(true), now);
            let (p3, a3) = agent_step(p2, OutcomeView::Done, now);
            let (p4, a4) = agent_step(p3, OutcomeView::Done, now);
            &&& a1 is CheckRunningVersion
            &&& a2 is UpdateStatus
            &&& a2->UpdateStatus_0 == BottlerocketShadowState::RebootedIntoUpdate
            &&& keeps_crashes(a2->UpdateStatus_1, o)
            &&& a3 is Uncordon
            &&& reports_state(a4, BottlerocketShadowState::RebootedIntoUpdate, o)
            &&& p4 is Reporting
        }),
{
}

/// A crashed node that should be idle is uncordoned and then reports that it is; one that did not
/// crash reports it at once.
pub proof fn node_becomes_idle(o: ObservedView, now: Instant)
    requires
        o.desired == BottlerocketShadowState::Idle,
    ensures
        ({
            let (p1, a1) = agent_step(PhaseView::Fetching, OutcomeView::Shadow(Some(o)), now);
            let (p2, a2) = agent_step(p1, OutcomeView::Done, now);
            if o.current == BottlerocketShadowState::ErrorReset {
                &&& a1 is Uncordon
                &&& reports_state(a2, BottlerocketShadowState::Idle, o)
                &&& p2 is Reporting
            } else {
                reports_state(a1, BottlerocketShadowState::Idle, o) && p1 is Reporting
            }
        }),
{
}

/// No node is ever asked to crash: the agent stops where it seems to be. It stops too where the
/// object has no status.
pub proof fn impossible_requests_stop_the_agent(o: ObservedView, now: Instant)
    requires
        o.desired == BottlerocketShadowState::ErrorReset,
        o.current != BottlerocketShadowState::ErrorReset,
    ensures
        agent_step(PhaseView::Fetching, OutcomeView::Shadow(Some(o)), now) == (
            PhaseView::Stopped,
            ActionView::StopOnAssertion,
        ),
        agent_step(PhaseView::Fetching, OutcomeView::Shadow(None), now) == (
            PhaseView::Stopped,
            ActionView::StopWithoutStatus,
        ),
{
}

/// When each action on the node is due, after an outcome that fits.
pub proof fn each_node_action_has_its_time(phase: PhaseView, outcome: OutcomeView, now: Instant)
    requires
        outcome_fits(phase, outcome),
    ensures
        ({
            let action = agent_step(phase, outcome, now).1;
            let fetched = phase is Fetching && outcome is Shadow && outcome->Shadow_0 is Some;
            let o = outcome->Shadow_0->0;
            let done = phase is Transition && outcome is Done;
            &&& action is Update <==> done && phase->Transition_1 == Step::Prepare
            &&& action is CheckRunningVersion <==> fetched && o.desired
                == BottlerocketShadowState::RebootedIntoUpdate && o.current
                != BottlerocketShadowState::RebootedIntoUpdate
            &&& action is CordonAndDrain <==> phase is CheckingVersion && outcome
                == OutcomeView::Answer(false)
            &&& action is BootUpdate <==> done && phase->Transition_1 == Step::CordonAndDrain
            &&& action is Uncordon <==> (done && phase->Transition_1 == Step::Report) || (fetched
                && o.desired == BottlerocketShadowState::Idle && o.current
                == BottlerocketShadowState::ErrorReset)
        }),
{
}

/// When each other action is due, after an outcome that fits.
pub proof fn each_other_action_has_its_time(phase: PhaseView, outcome: OutcomeView, now: Instant)
    requires
        outcome_fits(phase, outcome),
    ensures
        ({
            let action = agent_step(phase, outcome, now).1;
            let early = phase is CheckingExistence || phase is Creating || phase is CheckingStatus
                || phase is Initializing || phase is Fetching;
            let acting = phase is CheckingVersion || phase is Transition;
            &&& action is CheckNodeShadowExists <==> phase is Sleeping
            &&& action is CreateMetadataShadow <==> phase is CheckingExistence && outcome
                == OutcomeView::Answer(false)
            &&& action is CheckShadowStatusExists <==> (phase is CheckingExistence && outcome
                == OutcomeView::Answer(true)) || (phase is Creating && outcome is Done)
            &&& action is InitializeMetadataShadow <==> phase is CheckingStatus && outcome
                == OutcomeView::Answer(false)
            &&& action is FetchShadow <==> (phase is CheckingStatus && outcome
                == OutcomeView::Answer(true)) || (phase is Initializing && outcome is Done)
            &&& action is Sleep <==> phase is Reporting || (early && outcome is Failed) || (acting
                && outcome == OutcomeView::Failed(Failure::ShadowAccess))
            &&& action is StopWithoutStatus <==> phase is Fetching && outcome
                == OutcomeView::Shadow(None::<ObservedView>)
        }),
{
}

/// Each step of a transition leads to the one behind it, and the last one to the report of the state
/// that the node should be in.
pub proof fn steps_lead_to_the_report(o: ObservedView, step: Step, now: Instant)
    ensures
        ({
            let (next, action) = agent_step(PhaseView::Transition(o, step), OutcomeView::Done, now);
            &&& step == Step::Prepare <==> next == PhaseView::Transition(o, Step::Update)
            &&& step == Step::CordonAndDrain <==> next == PhaseView::Transition(o, Step::Boot)
            &&& step == Step::Report <==> next == PhaseView::Transition(o, Step::Recover)
            &&& step == Step::Update || step == Step::Boot || step == Step::Recover
                <==> next is Reporting
            &&& next is Reporting ==> reports_state(action, o.desired, o)
        }),
{
}

/// What was observed of the node stays as it is until its state is reported.
pub proof fn observation_is_carried(phase: PhaseView, outcome: OutcomeView, now: Instant)
    requires
        outcome_fits(phase, outcome),
    ensures
        ({
            let next = agent_step(phase, outcome, now).0;
            let before = match phase {
                PhaseView::Fetching => outcome->Shadow_0,
                PhaseView::CheckingVersion(o) => Some(o),
                PhaseView::Transition(o, _) => Some(o),
                _ => None,
            };
            let after = match next {
                PhaseView::CheckingVersion(o) => Some(o),
                PhaseView::Transition(o, _) => Some(o),
                _ => None,
            };
            after is Some ==> after == before
        }),
{
}

/// A failure while the node is being acted upon counts as one more crash, at the time it is noticed.
/// But one in reading or writing the object only ends the round, and one that should never happen
/// stops the agent.
pub proof fn failures_while_acting(
    phase: PhaseView,
    o: ObservedView,
    step: Step,
    failure: Failure,
    now: Instant,
)
    requires
        phase == PhaseView::CheckingVersion(o) || phase == PhaseView::Transition(o, step),
        o.crash_count < u32::MAX,
    ensures
        ({
            let (next, action) = agent_step(phase, OutcomeView::Failed(failure), now);
            &&& failure == Failure::ShadowAccess ==> next is Sleeping && action is Sleep
            &&& failure == Failure::Assertion ==> next is Stopped && action is StopOnAssertion
            &&& failure == Failure::Action ==> {
                &&& next is Reporting
                &&& action is UpdateStatus
                &&& action->UpdateStatus_0 == BottlerocketShadowState::ErrorReset
                &&& action->UpdateStatus_1.crash_count == o.crash_count + 1
                &&& action->UpdateStatus_1.failure == Some(now)
            }
        }),
{
}

/// A node is reported as crashed only where an action failed, or where it was so before and should
/// be.
pub proof fn crash_is_reported_for_a_reason(phase: PhaseView, outcome: OutcomeView, now: Instant)
    requires
        phase is Fetching || phase is CheckingVersion,
        outcome_fits(phase, outcome),
        agent_step(phase, outcome, now).1 is UpdateStatus,
        agent_step(phase, outcome, now).1->UpdateStatus_0 == BottlerocketShadowState::ErrorReset,
    ensures
        outcome == OutcomeView::Failed(Failure::Action) || (phase is Fetching && outcome is Shadow
            && outcome->Shadow_0->0.current == BottlerocketShadowState::ErrorReset) || (
        phase is CheckingVersion && phase->CheckingVersion_0.desired
            == BottlerocketShadowState::ErrorReset),
{
}

/// A round of a new agent makes the object where there is none, gives it a status where it has none,
/// and only then looks at it. A failure on the way ends the round, and the next one begins anew.
pub proof fn round_begins_with_the_object(
    exists_before: bool,
    has_status: bool,
    failure: Failure,
    now: Instant,
)
    ensures
        ({
            let fails = OutcomeView::Failed(failure);
            let (p0, a0) = agent_step(PhaseView::Sleeping, OutcomeView::Done, now);
            let (p1, a1) = agent_step(p0, OutcomeView::Answer(exists_before), now);
            let (p2, a2) = if exists_before {
                (p1, a1)
            } else {
                agent_step(p1, OutcomeView::Done, now)
            };
            let (p3, a3) = agent_step(p2, OutcomeView::Answer(has_status), now);
            let (p4, a4) = if has_status {
                (p3, a3)
            } else {
                agent_step(p3, OutcomeView::Done, now)
            };
            let ended = (PhaseView::Sleeping, ActionView::Sleep);
            &&& a0 is CheckNodeShadowExists
            &&& !exists_before ==> a1 is CreateMetadataShadow
            &&& a2 is CheckShadowStatusExists
            &&& !has_status ==> a3 is InitializeMetadataShadow
            &&& a4 is FetchShadow
            &&& p4 is Fetching
            &&& agent_step(p0, fails, now) == ended
            &&& agent_step(p1, fails, now) == ended
            &&& agent_step(p2, fails, now) == ended
            &&& agent_step(p3, fails, now) == ended
            &&& agent_step(p4, fails, now) == ended
        }),
{
}

/// A round ends with a sleep once the state is reported, whether the report went well or not, and
/// the next round begins after it.
pub proof fn round_ends_with_a_sleep(outcome: OutcomeView, now: Instant)
    ensures
        agent_step(PhaseView::Reporting, outcome, now) == (PhaseView::Sleeping, ActionView::Sleep),
        agent_step(PhaseView::Sleeping, outcome, now) == (
            PhaseView::CheckingExistence,
            ActionView::CheckNodeShadowExists,
        ),
        agent_step(PhaseView::Stopped, outcome, now).0 is Stopped,
{
}

/// The agent can take in what each action that it asks for comes to, and nothing else: the answer to
/// a question, what the object shows, or that the action is done. Any action may fail.
pub proof fn each_agent_action_has_its_outcome(
    phase: PhaseView,
    outcome: OutcomeView,
    next: OutcomeView,
    now: Instant,
)
    requires
        outcome_fits(phase, outcome),
    ensures
        ({
            let (p, action) = agent_step(phase, outcome, now);
            outcome_fits(p, next) <==> (next is Failed || if action is CheckNodeShadowExists
                || action is CheckShadowStatusExists || action is CheckRunningVersion {
                next is Answer
            } else if action is FetchShadow {
                next is Shadow
            } else {
                next is Done
            })
        }),
{
}

/// Whether the time of the last crash, where there is one, can be read.
pub open spec fn crash_time_can_be_read(o: ObservedView) -> bool {
    o.failure_timestamp is Some ==> rfc3339_read(o.failure_timestamp->0) is Ok
}

/// A step can be taken wherever the time of the last crash can be read and one more crash can be
/// counted.
pub proof fn readable_node_lets_the_agent_go_on(phase: PhaseView, outcome: OutcomeView)
    requires
        outcome is Shadow && outcome->Shadow_0 is Some ==> crash_time_can_be_read(
            outcome->Shadow_0->0,
        ),
        phase is CheckingVersion ==> crash_time_can_be_read(phase->CheckingVersion_0)
            && phase->CheckingVersion_0.crash_count < u32::MAX,
        phase is Transition ==> crash_time_can_be_read(phase->Transition_0)
            && phase->Transition_0.crash_count < u32::MAX,
    ensures
        step_is_known(phase, outcome),
{
}

/// Where a step that reports the crashes of a node anew can be taken, the time of the last one can be
/// read; and where one that counts a further crash can be, it can be counted.
pub proof fn reported_crashes_are_known(
    phase: PhaseView,
    outcome: OutcomeView,
    o: ObservedView,
    now: Instant,
)
    requires
        outcome_fits(phase, outcome),
        step_is_known(phase, outcome),
        agent_step(phase, outcome, now).1 is UpdateStatus,
        o == match phase {
            PhaseView::CheckingVersion(o) => o,
            PhaseView::Transition(o, _) => o,
            _ => outcome->Shadow_0->0,
        },
    ensures
        outcome is Failed ==> o.crash_count < u32::MAX,
        !(outcome is Failed) && o.current != BottlerocketShadowState::MonitoringUpdate
            ==> crash_time_can_be_read(o),
        !(outcome is Failed) && phase is CheckingVersion ==> crash_time_can_be_read(o),
{
}

/// What a step reads: the time of the last crash where the crashes of a node are reported anew, and
/// the number of crashes where a further one is counted. Nothing else has to be known.
pub proof fn steps_read_what_they_report(phase: PhaseView, outcome: OutcomeView, now: Instant)
    requires
        outcome_fits(phase, outcome),
    ensures
        ({
            let action = agent_step(phase, outcome, now).1;
            let o = match phase {
                PhaseView::CheckingVersion(o) => o,
                PhaseView::Transition(o, _) => o,
                _ => outcome->Shadow_0->0,
            };
            let counts = action is UpdateStatus && outcome is Failed;
            let reports = action is UpdateStatus && !(outcome is Failed) && (phase is CheckingVersion
                || o.current != BottlerocketShadowState::MonitoringUpdate);
            step_is_known(phase, outcome) <==> (counts ==> o.crash_count < u32::MAX) && (reports
                ==> crash_time_can_be_read(o))
        }),
{
}

/// A node whose object has a status is observed as it is; without one nothing is observed.
pub proof fn observation_shows_the_object(brs: ShadowView)
    ensures
        brs.status is None <==> observed(brs) is None,
        brs.status is Some ==> {
            &&& observed(brs)->0.desired == brs.spec.state
            &&& observed(brs)->0.current == brs.status->0.current_state
            &&& observed(brs)->0.crash_count == brs.status->0.crash_count
            &&& observed(brs)->0.failure_timestamp
                == brs.status->0.state_transition_failure_timestamp
        },
{
}

/// A reported status tells the version that runs, the version to update to, which is the one that
/// runs where no update is chosen, and the state and the crashes as they are given.
pub proof fn reported_status_tells_the_system(
    running: Seq<char>,
    chosen: Seq<char>,
    state: BottlerocketShadowState,
    info: ErrorInfoView,
)
    ensures
        ({
            let with = refreshed_status(running, Some(chosen), state, info);
            let without = refreshed_status(running, None, state, info);
            &&& with.current_version == running && without.current_version == running
            &&& with.target_version == chosen && without.target_version == running
            &&& with.current_state == state && without.current_state == state
            &&& with.crash_count == info.crash_count && without.crash_count == info.crash_count
            &&& with.state_transition_failure_timestamp
                == without.state_transition_failure_timestamp
            &&& info.failure is None ==> with.state_transition_failure_timestamp is None
            &&& info.failure is Some ==> with.state_transition_failure_timestamp == Some(
                rfc3339_text((info.failure->0).0, (info.failure->0).1),
            )
        }),
{
}

/// Only an error in reading or writing the object is passed over, and only a broken assertion stops
/// the agent: every other error is a crash.
pub proof fn errors_of_the_agent(e: Error)
    ensures
        e.failure() == Failure::ShadowAccess <==> e is BottlerocketShadowError,
        e.failure() == Failure::Assertion <==> e is Assertion,
        e.failure() == Failure::Action <==> e is CordonAndDrainNode || e is MissingNodeUid
            || e is ReflectorUnavailable || e is UncordonNode || e is UpdateActions,
{
}

} // verus!
