//! The loop of the agent: what it does next, given how the last thing went.

use vstd::prelude::*;
use vstd::string::*;

use super::agentclient_error::{BottlerocketShadowRWError, Error, Failure};
use super::apiclient::{OsInfo, UpdateImage};
use crate::models::meta::{copy_option, text_option};
use crate::models::node::crd::fields::{
    instant_field, instant_is_readable, instant_option, instant_reads, instant_text, read_instant,
    version_field, version_is_readable, version_reads,
};
use crate::models::node::crd::selector::SelectorView;
use crate::models::node::crd::v2::{ShadowView, StatusView};
use crate::models::node::crd::{
    BottlerocketShadow, BottlerocketShadowSelector, BottlerocketShadowSpec, BottlerocketShadowState,
    BottlerocketShadowStatus,
};
use crate::retry::{backoff, exponential_delays};
use crate::time::{Instant, Timestamp};
use crate::version::version_text;

verus! {

// The reflector uses exponential backoff.
// These values configure how many milliseconds to delay between tries.
pub const RETRY_BASE_DELAY: u64 = 1_000;

pub const RETRY_MAX_DELAY: u64 = 10_000;

pub const NUM_RETRIES: usize = 5;

/// The seconds between two rounds of the loop.
pub const AGENT_SLEEP_DURATION: u64 = 5;

/// How often a node crashed, and when it did so last.
#[derive(Clone, Copy, Debug, PartialEq, Eq, Structural)]
pub struct ShadowErrorInfo {
    pub crash_count: u32,
    pub state_transition_failure_timestamp: Option<Timestamp>,
}

/// The contents of a `ShadowErrorInfo`.
pub struct ErrorInfoView {
    pub crash_count: u32,
    pub failure: Option<Instant>,
}

impl View for ShadowErrorInfo {
    type V = ErrorInfoView;

    open spec fn view(&self) -> ErrorInfoView {
        ErrorInfoView {
            crash_count: self.crash_count,
            failure: instant_option(self.state_transition_failure_timestamp),
        }
    }
}

impl Default for ShadowErrorInfo {
    fn default() -> (r: Self)
        ensures
            r@ == (ErrorInfoView { crash_count: 0, failure: None }),
    {
        ShadowErrorInfo { crash_count: 0, state_transition_failure_timestamp: None }
    }
}

impl ShadowErrorInfo {
    pub fn new(crash_count: u32, state_transition_failure_timestamp: Option<Timestamp>) -> (r: Self)
        ensures
            r@ == (ErrorInfoView {
                crash_count,
                failure: instant_option(state_transition_failure_timestamp),
            }),
    {
        ShadowErrorInfo { crash_count, state_transition_failure_timestamp }
    }
}

/// How a look for the `BottlerocketShadow` of the node through the API went.
#[derive(Debug)]
pub enum ShadowLookup {
    Found,
    /// The API answered with an error code.
    ErrorCode(u16),
    /// The API could not be asked.
    Unreachable(String),
}

/// Whether the `BottlerocketShadow` of the node exists. One in the store is enough; else the API
/// was asked. An answer of 404 is no error: the object does not exist.
pub fn check_node_shadow_exists(
    store_len: usize,
    lookup: ShadowLookup,
    associated_bottlerocketshadow_name: &str,
) -> (r: Result<bool, BottlerocketShadowRWError>)
    ensures
        store_len != 0 ==> r == Ok::<bool, BottlerocketShadowRWError>(true),
        store_len == 0 ==> match lookup {
            ShadowLookup::Found => r == Ok::<bool, BottlerocketShadowRWError>(true),
            ShadowLookup::ErrorCode(code) => if code == 404 {
                r == Ok::<bool, BottlerocketShadowRWError>(false)
            } else {
                r == Err::<bool, BottlerocketShadowRWError>(
                    BottlerocketShadowRWError::FetchBottlerocketShadowErrorCode { code },
                )
            },
            ShadowLookup::Unreachable(why) => {
                &&& r is Err
                &&& r->Err_0 is UnableFetchBottlerocketShadow
                &&& r->Err_0->node_name@ == associated_bottlerocketshadow_name@
                &&& r->Err_0->UnableFetchBottlerocketShadow_source@ == why@
            },
        },
{
    if store_len != 0 {
        return Ok(true);
    }
    match lookup {
        ShadowLookup::Found => Ok(true),
        // 404 not found response error is OK for this use, which means associated BottlerocketShadow doesn't exist
        ShadowLookup::ErrorCode(code) => {
            if code == 404 {
                Ok(false)
            } else {
                Err(BottlerocketShadowRWError::FetchBottlerocketShadowErrorCode { code })
            }
        },
        // Any other type of errors can not present that associated BottlerocketShadow doesn't exist, need return error
        ShadowLookup::Unreachable(source) => Err(
            BottlerocketShadowRWError::UnableFetchBottlerocketShadow {
                node_name: String::from_str(associated_bottlerocketshadow_name),
                source,
            },
        ),
    }
}

/// The node of the agent, from the store that holds that node alone: the uid of each stored node
/// is given, where it has one.
pub fn get_node_selector(associated_node_name: &str, stored_uids: &Vec<Option<String>>) -> (r:
    Result<BottlerocketShadowSelector, Error>)
    ensures
        if stored_uids@.len() == 0 {
            &&& r is Err
            &&& r->Err_0 is ReflectorUnavailable
            &&& r->Err_0->object@ == "Node"@
        } else {
            match text_option(stored_uids@[0]) {
                Some(uid) => r is Ok && r->Ok_0@ == (SelectorView {
                    node_name: associated_node_name@,
                    node_uid: uid,
                }),
                None => r is Err && r->Err_0 is MissingNodeUid,
            }
        },
{
    if stored_uids.len() != 0 {
        return match &stored_uids[0] {
            Some(uid) => Ok(
                BottlerocketShadowSelector {
                    node_name: String::from_str(associated_node_name),
                    node_uid: uid.clone(),
                },
            ),
            None => Err(Error::MissingNodeUid),
        };
    }
    // reflector store is currently unavailable, bail out
    Err(Error::ReflectorUnavailable { object: String::from_str("Node") })
}

/// The `BottlerocketShadow` of the node, from the store that holds that object alone.
pub fn fetch_shadow(stored: Vec<BottlerocketShadow>) -> (r: Result<BottlerocketShadow, Error>)
    ensures
        if stored@.len() == 0 {
            &&& r is Err
            &&& r->Err_0 is ReflectorUnavailable
            &&& r->Err_0->object@ == "BottlerocketShadow"@
        } else {
            r is Ok && r->Ok_0 == stored@[0]
        },
{
    let mut stored = stored;
    if stored.len() != 0 {
        return Ok(stored.remove(0));
    }
    // reflector store is currently unavailable, bail out
    Err(Error::ReflectorUnavailable { object: String::from_str("BottlerocketShadow") })
}

/// The status that the agent reports: the running version, the version to update to, a state
/// and what is known of crashes. Without a chosen update the running version is the latest.
pub open spec fn refreshed_status(
    running: Seq<char>,
    chosen: Option<Seq<char>>,
    state: BottlerocketShadowState,
    info: ErrorInfoView,
) -> StatusView {
    StatusView {
        current_version: running,
        target_version: match chosen {
            Some(v) => v,
            None => running,
        },
        current_state: state,
        crash_count: info.crash_count,
        state_transition_failure_timestamp: instant_text(info.failure),
    }
}

/// Gather metadata about the system, node status provided by spec.
pub fn shadow_status_with_refreshed_system_matadata(
    os_info: &OsInfo,
    chosen_update: &Option<UpdateImage>,
    state: BottlerocketShadowState,
    shadow_error_info: ShadowErrorInfo,
) -> (r: BottlerocketShadowStatus)
    ensures
        r@ == refreshed_status(
            version_text(os_info.version_id@),
            match *chosen_update {
                Some(u) => Some(version_text(u.version@)),
                None => None,
            },
            state,
            shadow_error_info@,
        ),
        r@.well_formed(),
{
    let update_version = match chosen_update {
        Some(chosen_update) => chosen_update.version.copy(),
        // if chosen update is null which means current node already in latest version, assign current version value to it.
        None => os_info.version_id.copy(),
    };
    BottlerocketShadowStatus::new(
        os_info.version_id.copy(),
        update_version,
        state,
        shadow_error_info.crash_count,
        shadow_error_info.state_transition_failure_timestamp,
    )
}

/// Check that the currently running version is the one requested by the controller.
pub fn running_desired_version(spec: &BottlerocketShadowSpec, os_info: &OsInfo) -> (r: bool)
    requires
        version_reads(spec@.version),
    ensures
        r == (version_field(spec@.version) == Some(os_info.version_id@)),
{
    match spec.version() {
        Some(spec_version) => os_info.version_id.same(&spec_version),
        None => false,
    }
}

/// Check that the currently running version is the one requested by the controller; none where
/// the requested version cannot be read.
pub fn checked_running_desired_version(spec: &BottlerocketShadowSpec, os_info: &OsInfo) -> (r:
    Option<bool>)
    ensures
        match r {
            Some(b) => version_reads(spec@.version) && b == (version_field(spec@.version) == Some(
                os_info.version_id@,
            )),
            None => !version_reads(spec@.version),
        },
{
    if version_is_readable(&spec.version) {
        Some(running_desired_version(spec, os_info))
    } else {
        None
    }
}

/// Whether a status has to be written: it differs from the one that the object has. An object
/// without a status is an error.
pub fn update_status_in_shadow(
    bottlerocket_shadow: &BottlerocketShadow,
    updated_node_status: &BottlerocketShadowStatus,
) -> (r: Result<bool, BottlerocketShadowRWError>)
    ensures
        match bottlerocket_shadow@.status {
            Some(status) => r == Ok::<bool, BottlerocketShadowRWError>(
                updated_node_status@ != status,
            ),
            None => r is Err && r->Err_0 is MissingBottlerocketShadowStatus,
        },
{
    match &bottlerocket_shadow.status {
        None => Err(BottlerocketShadowRWError::MissingBottlerocketShadowStatus),
        Some(status) => {
            Ok(!updated_node_status.same(status))
        },
    }
}

/// What the loop knows of the node: the state it should be in, the state it is in, and its
/// crashes.
#[derive(Debug)]
pub struct Observed {
    pub desired: BottlerocketShadowState,
    pub current: BottlerocketShadowState,
    pub crash_count: u32,
    pub failure_timestamp: Option<String>,
}

/// The contents of an `Observed`.
pub struct ObservedView {
    pub desired: BottlerocketShadowState,
    pub current: BottlerocketShadowState,
    pub crash_count: u32,
    pub failure_timestamp: Option<Seq<char>>,
}

impl View for Observed {
    type V = ObservedView;

    open spec fn view(&self) -> ObservedView {
        ObservedView {
            desired: self.desired,
            current: self.current,
            crash_count: self.crash_count,
            failure_timestamp: text_option(self.failure_timestamp),
        }
    }
}

/// What an object shows of its node. Without a status it shows nothing.
pub open spec fn observed(brs: ShadowView) -> Option<ObservedView> {
    match brs.status {
        Some(status) => Some(
            ObservedView {
                desired: brs.spec.state,
                current: status.current_state,
                crash_count: status.crash_count,
                failure_timestamp: status.state_transition_failure_timestamp,
            },
        ),
        None => None,
    }
}

/// What an object shows of its node.
pub fn observe(brs: &BottlerocketShadow) -> (r: Option<Observed>)
    ensures
        (match r {
            Some(o) => Some(o@),
            None => None,
        }) == observed(brs@),
{
    match &brs.status {
        Some(status) => Some(
            Observed {
                desired: brs.spec.state,
                current: status.current_state,
                crash_count: status.crash_count,
                failure_timestamp: copy_option(&status.state_transition_failure_timestamp),
            },
        ),
        None => None,
    }
}

/// A step of a transition to the desired state.
#[derive(Clone, Copy, Debug, PartialEq, Eq, Structural)]
pub enum Step {
    /// Make the node ready to work after a crash or a reboot.
    Recover,
    Prepare,
    Update,
    /// Report the state after the reboot.
    Report,
    CordonAndDrain,
    Boot,
}

/// Where the loop of the agent stands: what it waits for.
#[derive(Debug)]
pub enum Phase {
    CheckingExistence,
    Creating,
    CheckingStatus,
    Initializing,
    Fetching,
    CheckingVersion(Observed),
    Transition(Observed, Step),
    Reporting,
    Sleeping,
    Stopped,
}

/// The contents of a `Phase`.
pub enum PhaseView {
    CheckingExistence,
    Creating,
    CheckingStatus,
    Initializing,
    Fetching,
    CheckingVersion(ObservedView),
    Transition(ObservedView, Step),
    Reporting,
    Sleeping,
    Stopped,
}

impl View for Phase {
    type V = PhaseView;

    open spec fn view(&self) -> PhaseView {
        match *self {
            Phase::CheckingExistence => PhaseView::CheckingExistence,
            Phase::Creating => PhaseView::Creating,
            Phase::CheckingStatus => PhaseView::CheckingStatus,
            Phase::Initializing => PhaseView::Initializing,
            Phase::Fetching => PhaseView::Fetching,
            Phase::CheckingVersion(o) => PhaseView::CheckingVersion(o@),
            Phase::Transition(o, s) => PhaseView::Transition(o@, s),
            Phase::Reporting => PhaseView::Reporting,
            Phase::Sleeping => PhaseView::Sleeping,
            Phase::Stopped => PhaseView::Stopped,
        }
    }
}

/// What the agent has to do.
#[derive(Clone, Copy, Debug, PartialEq, Eq, Structural)]
pub enum Action {
    /// Look for the `BottlerocketShadow` of the node.
    CheckNodeShadowExists,
    CreateMetadataShadow,
    /// Fetch the object and look whether it has a status.
    CheckShadowStatusExists,
    InitializeMetadataShadow,
    FetchShadow,
    /// Look whether the node runs the desired version.
    CheckRunningVersion,
    Prepare,
    Update,
    CordonAndDrain,
    BootUpdate,
    Uncordon,
    /// Write a state and what is known of crashes to the status of the object.
    UpdateStatus(BottlerocketShadowState, ShadowErrorInfo),
    Sleep,
    /// The object has no status although it was initialized: give up.
    StopWithoutStatus,
    /// Something that should never happen: give up.
    StopOnAssertion,
}

/// The contents of an `Action`.
pub enum ActionView {
    CheckNodeShadowExists,
    CreateMetadataShadow,
    CheckShadowStatusExists,
    InitializeMetadataShadow,
    FetchShadow,
    CheckRunningVersion,
    Prepare,
    Update,
    CordonAndDrain,
    BootUpdate,
    Uncordon,
    UpdateStatus(BottlerocketShadowState, ErrorInfoView),
    Sleep,
    StopWithoutStatus,
    StopOnAssertion,
}

impl View for Action {
    type V = ActionView;

    open spec fn view(&self) -> ActionView {
        match *self {
            Action::CheckNodeShadowExists => ActionView::CheckNodeShadowExists,
            Action::CreateMetadataShadow => ActionView::CreateMetadataShadow,
            Action::CheckShadowStatusExists => ActionView::CheckShadowStatusExists,
            Action::InitializeMetadataShadow => ActionView::InitializeMetadataShadow,
            Action::FetchShadow => ActionView::FetchShadow,
            Action::CheckRunningVersion => ActionView::CheckRunningVersion,
            Action::Prepare => ActionView::Prepare,
            Action::Update => ActionView::Update,
            Action::CordonAndDrain => ActionView::CordonAndDrain,
            Action::BootUpdate => ActionView::BootUpdate,
            Action::Uncordon => ActionView::Uncordon,
            Action::UpdateStatus(s, i) => ActionView::UpdateStatus(s, i@),
            Action::Sleep => ActionView::Sleep,
            Action::StopWithoutStatus => ActionView::StopWithoutStatus,
            Action::StopOnAssertion => ActionView::StopOnAssertion,
        }
    }
}

/// How an action went.
#[derive(Debug)]
pub enum Outcome {
    Done,
    /// The answer to a question.
    Answer(bool),
    /// What the object shows of the node, if it has a status.
    Shadow(Option<Observed>),
    Failed(Failure),
}

/// The contents of an `Outcome`.
pub enum OutcomeView {
    Done,
    Answer(bool),
    Shadow(Option<ObservedView>),
    Failed(Failure),
}

impl View for Outcome {
    type V = OutcomeView;

    open spec fn view(&self) -> OutcomeView {
        match *self {
            Outcome::Done => OutcomeView::Done,
            Outcome::Answer(b) => OutcomeView::Answer(b),
            Outcome::Shadow(o) => OutcomeView::Shadow(
                match o {
                    Some(x) => Some(x@),
                    None => None,
                },
            ),
            Outcome::Failed(f) => OutcomeView::Failed(f),
        }
    }
}

/// Whether an outcome is one that the action of a phase can have.
pub open spec fn outcome_fits(phase: PhaseView, outcome: OutcomeView) -> bool {
    outcome is Failed || match phase {
        PhaseView::CheckingExistence => outcome is Answer,
        PhaseView::CheckingStatus => outcome is Answer,
        PhaseView::CheckingVersion(_) => outcome is Answer,
        PhaseView::Fetching => outcome is Shadow,
        _ => outcome is Done,
    }
}

/// What is reported of crashes once the desired state is reached: nothing after an update whose
/// monitoring is over, else what was known before.
pub open spec fn info_on_success(o: ObservedView) -> ErrorInfoView {
    if o.current == BottlerocketShadowState::MonitoringUpdate {
        ErrorInfoView { crash_count: 0, failure: None }
    } else {
        ErrorInfoView { crash_count: o.crash_count, failure: instant_field(o.failure_timestamp) }
    }
}

/// The desired state is reached: report it.
pub open spec fn succeed(o: ObservedView) -> (PhaseView, ActionView) {
    (PhaseView::Reporting, ActionView::UpdateStatus(o.desired, info_on_success(o)))
}

/// An action failed. A failure to read or write the object is passed over until the next round;
/// any other one counts as a crash.
pub open spec fn fail(o: ObservedView, failure: Failure, now: Instant) -> (PhaseView, ActionView) {
    match failure {
        Failure::ShadowAccess => (PhaseView::Sleeping, ActionView::Sleep),
        Failure::Assertion => (PhaseView::Stopped, ActionView::StopOnAssertion),
        Failure::Action => (
            PhaseView::Reporting,
            ActionView::UpdateStatus(
                BottlerocketShadowState::ErrorReset,
                ErrorInfoView { crash_count: (o.crash_count + 1) as u32, failure: Some(now) },
            ),
        ),
    }
}

/// How a transition to the desired state begins.
pub open spec fn begin_transition(o: ObservedView) -> (PhaseView, ActionView) {
    if o.desired == o.current {
        succeed(o)
    } else {
        match o.desired {
            BottlerocketShadowState::Idle => if o.current == BottlerocketShadowState::ErrorReset {
                (PhaseView::Transition(o, Step::Recover), ActionView::Uncordon)
            } else {
                succeed(o)
            },
            BottlerocketShadowState::StagedAndPerformedUpdate => (
                PhaseView::Transition(o, Step::Prepare),
                ActionView::Prepare,
            ),
            BottlerocketShadowState::RebootedIntoUpdate => (
                PhaseView::CheckingVersion(o),
                ActionView::CheckRunningVersion,
            ),
            BottlerocketShadowState::MonitoringUpdate => succeed(o),
            BottlerocketShadowState::ErrorReset => (
                PhaseView::Stopped,
                ActionView::StopOnAssertion,
            ),
        }
    }
}

/// How a transition goes on once a step of it is done.
pub open spec fn after_step(o: ObservedView, step: Step) -> (PhaseView, ActionView) {
    match step {
        Step::Recover => succeed(o),
        Step::Prepare => (PhaseView::Transition(o, Step::Update), ActionView::Update),
        Step::Update => succeed(o),
        Step::Report => (PhaseView::Transition(o, Step::Recover), ActionView::Uncordon),
        Step::CordonAndDrain => (PhaseView::Transition(o, Step::Boot), ActionView::BootUpdate),
        Step::Boot => succeed(o),
    }
}

/// What the agent does next, given where it stands and how the last action went.
pub open spec fn agent_step(phase: PhaseView, outcome: OutcomeView, now: Instant) -> (
    PhaseView,
    ActionView,
) {
    match phase {
        PhaseView::CheckingExistence => match outcome {
            OutcomeView::Answer(true) => (
                PhaseView::CheckingStatus,
                ActionView::CheckShadowStatusExists,
            ),
            OutcomeView::Answer(false) => (PhaseView::Creating, ActionView::CreateMetadataShadow),
            _ => (PhaseView::Sleeping, ActionView::Sleep),
        },
        PhaseView::Creating => match outcome {
            OutcomeView::Failed(_) => (PhaseView::Sleeping, ActionView::Sleep),
            _ => (PhaseView::CheckingStatus, ActionView::CheckShadowStatusExists),
        },
        PhaseView::CheckingStatus => match outcome {
            OutcomeView::Answer(true) => (PhaseView::Fetching, ActionView::FetchShadow),
            OutcomeView::Answer(false) => (
                PhaseView::Initializing,
                ActionView::InitializeMetadataShadow,
            ),
            _ => (PhaseView::Sleeping, ActionView::Sleep),
        },
        PhaseView::Initializing => match outcome {
            OutcomeView::Failed(_) => (PhaseView::Sleeping, ActionView::Sleep),
            _ => (PhaseView::Fetching, ActionView::FetchShadow),
        },
        PhaseView::Fetching => match outcome {
            OutcomeView::Shadow(Some(o)) => begin_transition(o),
            OutcomeView::Shadow(None) => (PhaseView::Stopped, ActionView::StopWithoutStatus),
            _ => (PhaseView::Sleeping, ActionView::Sleep),
        },
        PhaseView::CheckingVersion(o) => match outcome {
            OutcomeView::Failed(f) => fail(o, f, now),
            OutcomeView::Answer(true) => (
                PhaseView::Transition(o, Step::Report),
                ActionView::UpdateStatus(
                    o.desired,
                    ErrorInfoView {
                        crash_count: o.crash_count,
                        failure: instant_field(o.failure_timestamp),
                    },
                ),
            ),
            _ => (PhaseView::Transition(o, Step::CordonAndDrain), ActionView::CordonAndDrain),
        },
        PhaseView::Transition(o, step) => match outcome {
            OutcomeView::Failed(f) => fail(o, f, now),
            _ => after_step(o, step),
        },
        PhaseView::Reporting => (PhaseView::Sleeping, ActionView::Sleep),
        PhaseView::Sleeping => (PhaseView::CheckingExistence, ActionView::CheckNodeShadowExists),
        PhaseView::Stopped => (PhaseView::Stopped, ActionView::StopOnAssertion),
    }
}

/// Whether what a step reads can be read: the time of the last crash where it is reported again,
/// and one more crash can be counted.
pub open spec fn step_is_known(phase: PhaseView, outcome: OutcomeView) -> bool {
    match (phase, outcome) {
        (PhaseView::Fetching, OutcomeView::Shadow(Some(o))) => {
            begin_transition(o).1 is UpdateStatus && o.current
                != BottlerocketShadowState::MonitoringUpdate ==> instant_reads(o.failure_timestamp)
        },
        (PhaseView::CheckingVersion(o), OutcomeView::Failed(Failure::Action)) => o.crash_count
            < u32::MAX,
        (PhaseView::CheckingVersion(o), OutcomeView::Answer(true)) => instant_reads(
            o.failure_timestamp,
        ),
        (PhaseView::Transition(o, _), OutcomeView::Failed(Failure::Action)) => o.crash_count
            < u32::MAX,
        (PhaseView::Transition(o, step), OutcomeView::Done) => after_step(o, step).1 is UpdateStatus
            && o.current != BottlerocketShadowState::MonitoringUpdate ==> instant_reads(
            o.failure_timestamp,
        ),
        _ => true,
    }
}

/// The first thing that the agent does.
pub fn first_action() -> (r: (Phase, Action))
    ensures
        r.0@ == PhaseView::CheckingExistence,
        r.1@ == ActionView::CheckNodeShadowExists,
{
    (Phase::CheckingExistence, Action::CheckNodeShadowExists)
}

fn read_failure(o: &Observed) -> (r: Option<Timestamp>)
    requires
        instant_reads(o@.failure_timestamp),
    ensures
        instant_option(r) == instant_field(o@.failure_timestamp),
{
    match read_instant(&o.failure_timestamp) {
        Ok(t) => t,
        Err(_) => None,
    }
}

fn report_success(o: &Observed) -> (r: (Phase, Action))
    requires
        o@.current != BottlerocketShadowState::MonitoringUpdate ==> instant_reads(
            o@.failure_timestamp,
        ),
    ensures
        (r.0@, r.1@) == succeed(o@),
{
    // Reset crash_count and state_transition_failure_timestamp for a successful update loop
    let info = if o.current == BottlerocketShadowState::MonitoringUpdate {
        ShadowErrorInfo::default()
    } else {
        ShadowErrorInfo::new(o.crash_count, read_failure(o))
    };
    (Phase::Reporting, Action::UpdateStatus(o.desired, info))
}

fn report_failure(o: &Observed, failure: Failure, now: Timestamp) -> (r: (Phase, Action))
    requires
        failure == Failure::Action ==> o@.crash_count < u32::MAX,
    ensures
        (r.0@, r.1@) == fail(o@, failure, now@),
{
    match failure {
        // Errors from update_status_in_shadow should be skipped and retry in next loop
        Failure::ShadowAccess => (Phase::Sleeping, Action::Sleep),
        Failure::Assertion => (Phase::Stopped, Action::StopOnAssertion),
        Failure::Action => (
            Phase::Reporting,
            Action::UpdateStatus(
                BottlerocketShadowState::ErrorReset,
                ShadowErrorInfo::new(o.crash_count + 1, Some(now)),
            ),
        ),
    }
}

/// How a transition to the desired state begins: determine if the spec on the system's
/// BottlerocketShadow demands the node take action.
pub fn handle_state_transition(o: Observed) -> (r: (Phase, Action))
    requires
        begin_transition(o@).1 is UpdateStatus && o@.current
            != BottlerocketShadowState::MonitoringUpdate ==> instant_reads(o@.failure_timestamp),
    ensures
        (r.0@, r.1@) == begin_transition(o@),
{
    if o.desired != o.current {
        match o.desired {
            // Right now we consider the recover state for ErrorReset is Idle
            BottlerocketShadowState::Idle => match o.current {
                BottlerocketShadowState::ErrorReset => (
                    Phase::Transition(o, Step::Recover),
                    Action::Uncordon,
                ),
                // Ready to finish monitoring and start update process
                _ => report_success(&o),
            },
            BottlerocketShadowState::StagedAndPerformedUpdate => (
                Phase::Transition(o, Step::Prepare),
                Action::Prepare,
            ),
            BottlerocketShadowState::RebootedIntoUpdate => (
                Phase::CheckingVersion(o),
                Action::CheckRunningVersion,
            ),
            BottlerocketShadowState::MonitoringUpdate => report_success(&o),
            // Spec state should never be ErrorReset
            BottlerocketShadowState::ErrorReset => (Phase::Stopped, Action::StopOnAssertion),
        }
    } else {
        report_success(&o)
    }
}

/// What the agent does next, given where it stands and how the last action went.
///
/// A running agent has two responsibilities:
/// - Gather metadata about the system and update the BottlerocketShadow associated with this node
/// - Determine if the spec on the system's BottlerocketShadow demands the node take action. If so, begin taking that action.
pub fn next_action(phase: Phase, outcome: Outcome, now: Timestamp) -> (r: (Phase, Action))
    requires
        outcome_fits(phase@, outcome@),
        step_is_known(phase@, outcome@),
    ensures
        (r.0@, r.1@) == agent_step(phase@, outcome@, now@),
{
    match phase {
        Phase::CheckingExistence => match outcome {
            Outcome::Answer(true) => (Phase::CheckingStatus, Action::CheckShadowStatusExists),
            Outcome::Answer(false) => (Phase::Creating, Action::CreateMetadataShadow),
            _ => (Phase::Sleeping, Action::Sleep),
        },
        Phase::Creating => match outcome {
            Outcome::Failed(_) => (Phase::Sleeping, Action::Sleep),
            _ => (Phase::CheckingStatus, Action::CheckShadowStatusExists),
        },
        Phase::CheckingStatus => match outcome {
            Outcome::Answer(true) => (Phase::Fetching, Action::FetchShadow),
            Outcome::Answer(false) => (Phase::Initializing, Action::InitializeMetadataShadow),
            _ => (Phase::Sleeping, Action::Sleep),
        },
        Phase::Initializing => match outcome {
            Outcome::Failed(_) => (Phase::Sleeping, Action::Sleep),
            _ => (Phase::Fetching, Action::FetchShadow),
        },
        Phase::Fetching => match outcome {
            Outcome::Shadow(Some(o)) => handle_state_transition(o),
            Outcome::Shadow(None) => (Phase::Stopped, Action::StopWithoutStatus),
            _ => (Phase::Sleeping, Action::Sleep),
        },
        Phase::CheckingVersion(o) => match outcome {
            Outcome::Failed(f) => report_failure(&o, f, now),
            Outcome::Answer(true) => {
                // Make sure the status in BottlerocketShadow is up-to-date from the reboot
                let info = ShadowErrorInfo::new(o.crash_count, read_failure(&o));
                let desired = o.desired;
                (Phase::Transition(o, Step::Report), Action::UpdateStatus(desired, info))
            },
            _ => (Phase::Transition(o, Step::CordonAndDrain), Action::CordonAndDrain),
        },
        Phase::Transition(o, step) => match outcome {
            Outcome::Failed(f) => report_failure(&o, f, now),
            _ => match step {
                Step::Recover => report_success(&o),
                Step::Prepare => (Phase::Transition(o, Step::Update), Action::Update),
                Step::Update => report_success(&o),
                Step::Report => (Phase::Transition(o, Step::Recover), Action::Uncordon),
                Step::CordonAndDrain => (Phase::Transition(o, Step::Boot), Action::BootUpdate),
                Step::Boot => report_success(&o),
            },
        },
        Phase::Reporting => (Phase::Sleeping, Action::Sleep),
        Phase::Sleeping => (Phase::CheckingExistence, Action::CheckNodeShadowExists),
        Phase::Stopped => (Phase::Stopped, Action::StopOnAssertion),
    }
}

fn failure_is_readable(o: &Observed) -> (r: bool)
    ensures
        r == instant_reads(o@.failure_timestamp),
{
    instant_is_readable(&o.failure_timestamp)
}

/// Whether the next step can be taken: the outcome fits the phase, and what the step reads can be
/// read.
pub fn can_proceed(phase: &Phase, outcome: &Outcome) -> (r: bool)
    ensures
        r == (outcome_fits(phase@, outcome@) && step_is_known(phase@, outcome@)),
{
    match (phase, outcome) {
        (Phase::CheckingExistence, Outcome::Answer(_)) => true,
        (Phase::CheckingExistence, Outcome::Failed(_)) => true,
        (Phase::CheckingExistence, _) => false,
        (Phase::CheckingStatus, Outcome::Answer(_)) => true,
        (Phase::CheckingStatus, Outcome::Failed(_)) => true,
        (Phase::CheckingStatus, _) => false,
        (Phase::CheckingVersion(o), Outcome::Answer(b)) => !*b || failure_is_readable(o),
        (Phase::CheckingVersion(o), Outcome::Failed(f)) => *f != Failure::Action || o.crash_count
            < u32::MAX,
        (Phase::CheckingVersion(_), _) => false,
        (Phase::Fetching, Outcome::Failed(_)) => true,
        (Phase::Fetching, Outcome::Shadow(None)) => true,
        (Phase::Fetching, Outcome::Shadow(Some(o))) => {
            let reports = o.desired == o.current || o.desired
                == BottlerocketShadowState::MonitoringUpdate || (o.desired
                == BottlerocketShadowState::Idle && o.current
                != BottlerocketShadowState::ErrorReset);
            !reports || o.current == BottlerocketShadowState::MonitoringUpdate
                || failure_is_readable(o)
        },
        (Phase::Fetching, _) => false,
        (Phase::Transition(o, _), Outcome::Failed(f)) => *f != Failure::Action || o.crash_count
            < u32::MAX,
        (Phase::Transition(o, step), Outcome::Done) => {
            let reports = *step == Step::Recover || *step == Step::Update || *step == Step::Boot;
            !reports || o.current == BottlerocketShadowState::MonitoringUpdate
                || failure_is_readable(o)
        },
        (_, Outcome::Done) => true,
        (_, Outcome::Failed(_)) => true,
        _ => false,
    }
}

/// What the agent does next, or nothing where the next step cannot be taken.
pub fn checked_next_action(phase: Phase, outcome: Outcome, now: Timestamp) -> (r: Option<
    (Phase, Action),
>)
    ensures
        match r {
            Some(p) => {
                &&& outcome_fits(phase@, outcome@)
                &&& step_is_known(phase@, outcome@)
                &&& (p.0@, p.1@) == agent_step(phase@, outcome@, now@)
            },
            None => !outcome_fits(phase@, outcome@) || !step_is_known(phase@, outcome@),
        },
{
    if can_proceed(&phase, &outcome) {
        Some(next_action(phase, outcome, now))
    } else {
        None
    }
}

/// The delays, in milliseconds, between looks into a store, before they are spread at random.
pub fn retry_strategy() -> (r: Vec<u64>)
    ensures
        r@.len() == NUM_RETRIES,
        forall|i: int| 0 <= i < NUM_RETRIES ==> (#[trigger] r@[i]) == backoff(
            RETRY_BASE_DELAY as nat,
            RETRY_MAX_DELAY as nat,
            i as nat,
        ),
{
    exponential_delays(RETRY_BASE_DELAY, RETRY_MAX_DELAY, NUM_RETRIES)
}

/// Whether an action changes the node itself.
pub open spec fn changes_node(action: ActionView) -> bool {
    action is Prepare || action is Update || action is CordonAndDrain || action is BootUpdate
        || action is Uncordon
}

/// A node that is in its desired state is left alone: its status is reported and nothing else.
pub proof fn settled_node_is_left_alone(o: ObservedView, now: Instant)
    requires
        o.desired == o.current,
    ensures
        agent_step(PhaseView::Fetching, OutcomeView::Shadow(Some(o)), now) == succeed(o),
        !changes_node(succeed(o).1),
{
}

/// A node is rebooted only once it has been cordoned and drained without failure, on the way to
/// the state after the reboot, and when it does not run the desired version.
pub proof fn reboot_follows_drain(phase: PhaseView, outcome: OutcomeView, now: Instant)
    requires
        outcome_fits(phase, outcome),
        agent_step(phase, outcome, now).1 is BootUpdate,
    ensures
        phase is Transition,
        phase->Transition_1 == Step::CordonAndDrain,
        outcome is Done,
{
}

/// A node is cordoned and drained only after it was found not to run the desired version.
pub proof fn drain_follows_version_check(phase: PhaseView, outcome: OutcomeView, now: Instant)
    requires
        outcome_fits(phase, outcome),
        agent_step(phase, outcome, now).1 is CordonAndDrain,
    ensures
        phase is CheckingVersion,
        outcome == OutcomeView::Answer(false),
        agent_step(phase, outcome, now).0 == PhaseView::Transition(
            phase->CheckingVersion_0,
            Step::CordonAndDrain,
        ),
{
}

/// An update is performed only once it has been prepared without failure.
pub proof fn update_follows_prepare(phase: PhaseView, outcome: OutcomeView, now: Instant)
    requires
        outcome_fits(phase, outcome),
        agent_step(phase, outcome, now).1 is Update,
    ensures
        phase is Transition,
        phase->Transition_1 == Step::Prepare,
        outcome is Done,
{
}

/// A failed action on the node is reported as one more crash, at the time it is noticed, and the
/// node is not touched further in that round.
pub proof fn failed_action_is_a_crash(o: ObservedView, step: Step, now: Instant)
    requires
        o.crash_count < u32::MAX,
    ensures
        agent_step(
            PhaseView::Transition(o, step),
            OutcomeView::Failed(Failure::Action),
            now,
        ) == (
            PhaseView::Reporting,
            ActionView::UpdateStatus(
                BottlerocketShadowState::ErrorReset,
                ErrorInfoView { crash_count: (o.crash_count + 1) as u32, failure: Some(now) },
            ),
        ),
{
}

/// Crashes are forgotten once an update has been monitored to its end, and only then.
pub proof fn crashes_are_forgotten_after_monitoring(o: ObservedView)
    requires
        o.crash_count > 0,
    ensures
        info_on_success(o).crash_count == 0 <==> o.current
            == BottlerocketShadowState::MonitoringUpdate,
{
}

/// The agent gives up only where an initialized object has no status or something happens that
/// never should.
pub proof fn agent_stops_for_a_reason(phase: PhaseView, outcome: OutcomeView, now: Instant)
    requires
        !(phase is Stopped),
        outcome_fits(phase, outcome),
        agent_step(phase, outcome, now).0 is Stopped,
    ensures
        outcome == OutcomeView::Failed(Failure::Assertion) || outcome == OutcomeView::Shadow(
            None::<ObservedView>,
        ) || (outcome is Shadow && outcome->Shadow_0->0.desired
            == BottlerocketShadowState::ErrorReset),
{
}

/// How many actions a round of the loop can still take.
pub open spec fn actions_left(phase: PhaseView) -> nat {
    match phase {
        PhaseView::CheckingExistence => 10,
        PhaseView::Creating => 9,
        PhaseView::CheckingStatus => 8,
        PhaseView::Initializing => 7,
        PhaseView::Fetching => 6,
        PhaseView::CheckingVersion(_) => 5,
        PhaseView::Transition(_, Step::Report) => 4,
        PhaseView::Transition(_, Step::Prepare) => 4,
        PhaseView::Transition(_, Step::CordonAndDrain) => 4,
        PhaseView::Transition(_, _) => 3,
        PhaseView::Reporting => 2,
        PhaseView::Sleeping => 1,
        PhaseView::Stopped => 0,
    }
}

/// Every round of the loop ends: each action leaves fewer to take, until the agent sleeps or
/// stops.
pub proof fn every_round_ends(phase: PhaseView, outcome: OutcomeView, now: Instant)
    requires
        !(phase is Sleeping),
        !(phase is Stopped),
    ensures
        actions_left(agent_step(phase, outcome, now).0) < actions_left(phase),
{
}

} // verus!
