//! Version `v2` of the `BottlerocketShadow` custom resource.

use vstd::prelude::*;
use vstd::std_specs::convert::FromSpecImpl;

use super::error::Error;
use super::fields::{
    four_digit_option, instant_field, instant_is_readable, instant_option, instant_reads,
    instant_text, is_format_error, read_instant, read_version, version_field, version_is_readable,
    version_option, version_option_text, version_reads, write_instant, write_version,
};
use super::v1;
use crate::models::meta::{copy_option, same_option, text_option, ObjectMeta, ObjectMetaView};
use crate::time::{clock_instant, four_digit_year, valid_instant, Instant, Timestamp};
use crate::version::{semver_parts, version_text, Version};

verus! {

/// BottlerocketShadowState represents a node's state in the update state machine.
#[derive(Copy, Clone, Debug, PartialEq, Eq, Structural)]
pub enum BottlerocketShadowState {
    /// Nodes in this state are waiting for new updates to become available. This is both the
    /// starting, terminal and recovery state in the update process.
    Idle,
    /// Nodes in this state have staged a new update image, have installed the new image, and have
    /// updated the partition table to mark it as the new active image.
    StagedAndPerformedUpdate,
    /// Nodes in this state have used the kubernetes cordon and drain APIs to remove
    /// running pods, have un-cordoned the node to allow work to be scheduled, and
    /// have rebooted after performing an update.
    RebootedIntoUpdate,
    /// Nodes in this state are monitoring to ensure that the node seems healthy before
    /// marking the update as complete.
    MonitoringUpdate,
    /// Nodes in this state have crashed due to Bottlerocket Update API call failure.
    ErrorReset,
}

impl Default for BottlerocketShadowState {
    fn default() -> (r: Self)
        ensures
            r == BottlerocketShadowState::Idle,
    {
        BottlerocketShadowState::Idle
    }
}

// The most seconds that a machine may take to transition *into* a state.
pub const STAGED_AND_PERFORMED_UPDATE_TIMEOUT: u64 = 720;

pub const REBOOTED_INTO_UPDATE_TIMEOUT: u64 = 600;

pub const MONITORING_UPDATE_TIMEOUT: u64 = 300;

pub const IDLE_TIMEOUT: u64 = 120;

pub const ERROR_RESET_TIMEOUT: u64 = u64::MAX;

impl BottlerocketShadowState {
    /// The state that follows.
    pub open spec fn next(self) -> BottlerocketShadowState {
        match self {
            BottlerocketShadowState::Idle => BottlerocketShadowState::StagedAndPerformedUpdate,
            BottlerocketShadowState::StagedAndPerformedUpdate =>
            BottlerocketShadowState::RebootedIntoUpdate,
            BottlerocketShadowState::RebootedIntoUpdate => BottlerocketShadowState::MonitoringUpdate,
            BottlerocketShadowState::MonitoringUpdate => BottlerocketShadowState::Idle,
            BottlerocketShadowState::ErrorReset => BottlerocketShadowState::Idle,
        }
    }

    /// Returns the next state in the state machine if the current state has been reached
    /// successfully.
    pub fn on_success(&self) -> (r: Self)
        ensures
            r == self.next(),
    {
        match self {
            Self::Idle => Self::StagedAndPerformedUpdate,
            Self::StagedAndPerformedUpdate => Self::RebootedIntoUpdate,
            Self::RebootedIntoUpdate => Self::MonitoringUpdate,
            Self::MonitoringUpdate => Self::Idle,
            Self::ErrorReset => Self::Idle,
        }
    }

    /// The seconds that a node can spend on the transition *into* a state.
    pub open spec fn timeout(self) -> Option<u64> {
        match self {
            BottlerocketShadowState::Idle => Some(IDLE_TIMEOUT),
            BottlerocketShadowState::StagedAndPerformedUpdate => Some(
                STAGED_AND_PERFORMED_UPDATE_TIMEOUT,
            ),
            BottlerocketShadowState::RebootedIntoUpdate => Some(REBOOTED_INTO_UPDATE_TIMEOUT),
            BottlerocketShadowState::MonitoringUpdate => Some(MONITORING_UPDATE_TIMEOUT),
            BottlerocketShadowState::ErrorReset => Some(ERROR_RESET_TIMEOUT),
        }
    }

    /// Returns the total time, in seconds, that a node can spend transitioning *from* the given
    /// state to the next state in the process.
    pub fn timeout_time(&self) -> (r: Option<u64>)
        ensures
            r == self.timeout(),
    {
        match self {
            Self::Idle => Some(IDLE_TIMEOUT),
            Self::StagedAndPerformedUpdate => Some(STAGED_AND_PERFORMED_UPDATE_TIMEOUT),
            Self::RebootedIntoUpdate => Some(REBOOTED_INTO_UPDATE_TIMEOUT),
            Self::MonitoringUpdate => Some(MONITORING_UPDATE_TIMEOUT),
            Self::ErrorReset => Some(ERROR_RESET_TIMEOUT),
        }
    }

    /// The name of the state.
    pub open spec fn name_text(self) -> Seq<char> {
        match self {
            BottlerocketShadowState::Idle => "Idle"@,
            BottlerocketShadowState::StagedAndPerformedUpdate => "StagedAndPerformedUpdate"@,
            BottlerocketShadowState::RebootedIntoUpdate => "RebootedIntoUpdate"@,
            BottlerocketShadowState::MonitoringUpdate => "MonitoringUpdate"@,
            BottlerocketShadowState::ErrorReset => "ErrorReset"@,
        }
    }

    /// The name of the state, as it stands in a resource.
    pub fn name(&self) -> (r: &'static str)
        ensures
            r@ == self.name_text(),
    {
        match self {
            Self::Idle => "Idle",
            Self::StagedAndPerformedUpdate => "StagedAndPerformedUpdate",
            Self::RebootedIntoUpdate => "RebootedIntoUpdate",
            Self::MonitoringUpdate => "MonitoringUpdate",
            Self::ErrorReset => "ErrorReset",
        }
    }

    /// The `v2` state that stands for a `v1` state. Staging and performing an update are one
    /// step in `v2`.
    pub open spec fn upgraded(s: v1::BottlerocketShadowState) -> BottlerocketShadowState {
        match s {
            v1::BottlerocketShadowState::Idle => BottlerocketShadowState::Idle,
            v1::BottlerocketShadowState::StagedUpdate =>
            BottlerocketShadowState::StagedAndPerformedUpdate,
            v1::BottlerocketShadowState::PerformedUpdate =>
            BottlerocketShadowState::StagedAndPerformedUpdate,
            v1::BottlerocketShadowState::RebootedIntoUpdate =>
            BottlerocketShadowState::RebootedIntoUpdate,
            v1::BottlerocketShadowState::MonitoringUpdate =>
            BottlerocketShadowState::MonitoringUpdate,
        }
    }
}

impl From<v1::BottlerocketShadowState> for BottlerocketShadowState {
    fn from(previous_state: v1::BottlerocketShadowState) -> (r: Self) {
        match previous_state {
            v1::BottlerocketShadowState::Idle => Self::Idle,
            v1::BottlerocketShadowState::StagedUpdate => Self::StagedAndPerformedUpdate,
            v1::BottlerocketShadowState::PerformedUpdate => Self::StagedAndPerformedUpdate,
            v1::BottlerocketShadowState::RebootedIntoUpdate => Self::RebootedIntoUpdate,
            v1::BottlerocketShadowState::MonitoringUpdate => Self::MonitoringUpdate,
        }
    }
}

impl FromSpecImpl<v1::BottlerocketShadowState> for BottlerocketShadowState {
    open spec fn obeys_from_spec() -> bool {
        true
    }

    open spec fn from_spec(v: v1::BottlerocketShadowState) -> Self {
        BottlerocketShadowState::upgraded(v)
    }
}

/// The `BottlerocketShadowSpec` can be used to drive a node through the update state machine. A
/// node linearly drives towards the desired state. The brupop controller updates the spec to
/// specify a node's desired state, and the host agent drives state changes forward and updates the
/// `BottlerocketShadowStatus`.
#[derive(Clone, Debug, PartialEq, Eq)]
pub struct BottlerocketShadowSpec {
    /// Records the desired state of the `BottlerocketShadow`
    pub state: BottlerocketShadowState,
    /// The time at which the most recent state was set as the desired state.
    pub state_transition_timestamp: Option<String>,
    /// The desired update version, if any.
    pub version: Option<String>,
}

/// The contents of a `BottlerocketShadowSpec`.
pub struct SpecView {
    pub state: BottlerocketShadowState,
    pub state_transition_timestamp: Option<Seq<char>>,
    pub version: Option<Seq<char>>,
}

impl View for BottlerocketShadowSpec {
    type V = SpecView;

    open spec fn view(&self) -> SpecView {
        SpecView {
            state: self.state,
            state_transition_timestamp: text_option(self.state_transition_timestamp),
            version: text_option(self.version),
        }
    }
}

impl SpecView {
    /// Whether the version and the timestamp can be read.
    pub open spec fn well_formed(self) -> bool {
        version_reads(self.version) && instant_reads(self.state_transition_timestamp)
    }
}

impl Default for BottlerocketShadowSpec {
    fn default() -> (r: Self)
        ensures
            r@ == (SpecView {
                state: BottlerocketShadowState::Idle,
                state_transition_timestamp: None,
                version: None,
            }),
    {
        BottlerocketShadowSpec {
            state: BottlerocketShadowState::Idle,
            state_transition_timestamp: None,
            version: None,
        }
    }
}

/// Whether a `v2` spec is what a `v1` spec is converted to: the same version, the same
/// instant, and the state that stands for the `v1` state.
pub open spec fn spec_upgrade(old: v1::SpecView, new: SpecView) -> bool {
    &&& new.state == BottlerocketShadowState::upgraded(old.state)
    &&& new.version == old.version
    &&& new.state_transition_timestamp == instant_text(
        instant_field(old.state_transition_timestamp),
    )
    &&& four_digit_option(instant_field(old.state_transition_timestamp)) ==> {
        &&& instant_reads(new.state_transition_timestamp)
        &&& instant_field(new.state_transition_timestamp) == instant_field(
            old.state_transition_timestamp,
        )
    }
}

impl BottlerocketShadowSpec {
    /// A spec that asks for a state. What was passed can be read from it again; a timestamp
    /// only where its year has four digits.
    pub fn new(
        state: BottlerocketShadowState,
        state_transition_timestamp: Option<Timestamp>,
        version: Option<Version>,
    ) -> (r: Self)
        ensures
            r@ == (SpecView {
                state,
                state_transition_timestamp: instant_text(
                    instant_option(state_transition_timestamp),
                ),
                version: version_option_text(version_option(version)),
            }),
            version_reads(r@.version),
            version_field(r@.version) == version_option(version),
            four_digit_option(instant_option(state_transition_timestamp)) ==> {
                &&& instant_reads(r@.state_transition_timestamp)
                &&& instant_field(r@.state_transition_timestamp) == instant_option(
                    state_transition_timestamp,
                )
            },
    {
        let state_transition_timestamp = write_instant(state_transition_timestamp);
        let version = write_version(version);
        BottlerocketShadowSpec { state, state_transition_timestamp, version }
    }

    /// Creates a new BottlerocketShadowSpec, using the current time as the timestamp for timeout
    /// purposes.
    pub fn new_starting_now(state: BottlerocketShadowState, version: Option<Version>) -> (r: Self)
        ensures
            r@.state == state,
            r@.version == version_option_text(version_option(version)),
            exists|now: Instant| #[trigger]
                clock_instant(now) && r@.state_transition_timestamp == instant_text(Some(now)) && (
                four_digit_year(now) ==> instant_field(r@.state_transition_timestamp) == Some(now)),
    {
        let now = Timestamp::now();
        assert(clock_instant(now@));
        Self::new(state, Some(now), version)
    }

    /// The transition timestamp as an instant.
    pub fn state_timestamp(&self) -> (r: Result<Option<Timestamp>, Error>)
        ensures
            match r {
                Ok(i) => {
                    &&& instant_reads(self@.state_transition_timestamp)
                    &&& instant_option(i) == instant_field(self@.state_transition_timestamp)
                    &&& i is Some ==> valid_instant(i->0@)
                },
                Err(e) => {
                    &&& !instant_reads(self@.state_transition_timestamp)
                    &&& is_format_error(e, self@.state_transition_timestamp)
                },
            },
    {
        read_instant(&self.state_transition_timestamp)
    }

    /// Returns the desired version for this BottlerocketShadow.
    pub fn version(&self) -> (r: Option<Version>)
        requires
            version_reads(self@.version),
        ensures
            version_option(r) == version_field(self@.version),
            version_option_text(version_option(r)) == self@.version,
    {
        read_version(&self.version)
    }

    /// Whether the version and the timestamp of the spec can be read.
    pub fn is_well_formed(&self) -> (r: bool)
        ensures
            r == self@.well_formed(),
    {
        version_is_readable(&self.version) && instant_is_readable(&self.state_transition_timestamp)
    }

    /// Converts a `v1` spec.
    pub fn from(previous_spec: v1::BottlerocketShadowSpec) -> (r: Self)
        requires
            previous_spec@.well_formed(),
        ensures
            spec_upgrade(previous_spec@, r@),
    {
        let timestamp = match previous_spec.state_timestamp() {
            Ok(t) => t,
            Err(_) => None,
        };
        let version = previous_spec.version();
        Self::new(BottlerocketShadowState::from(previous_spec.state), timestamp, version)
    }
}

/// `BottlerocketShadowStatus` surfaces the current state of a bottlerocket node. The status is
/// updated by the host agent, while the spec is updated by the brupop controller.
#[derive(Clone, Debug, PartialEq, Eq)]
pub struct BottlerocketShadowStatus {
    pub current_version: String,
    pub target_version: String,
    pub current_state: BottlerocketShadowState,
    pub crash_count: u32,
    pub state_transition_failure_timestamp: Option<String>,
}

/// The contents of a `BottlerocketShadowStatus`.
pub struct StatusView {
    pub current_version: Seq<char>,
    pub target_version: Seq<char>,
    pub current_state: BottlerocketShadowState,
    pub crash_count: u32,
    pub state_transition_failure_timestamp: Option<Seq<char>>,
}

impl View for BottlerocketShadowStatus {
    type V = StatusView;

    open spec fn view(&self) -> StatusView {
        StatusView {
            current_version: self.current_version@,
            target_version: self.target_version@,
            current_state: self.current_state,
            crash_count: self.crash_count,
            state_transition_failure_timestamp: text_option(
                self.state_transition_failure_timestamp,
            ),
        }
    }
}

impl StatusView {
    /// Whether both versions can be read.
    pub open spec fn well_formed(self) -> bool {
        semver_parts(self.current_version) is Some && semver_parts(self.target_version) is Some
    }
}

impl Default for BottlerocketShadowStatus {
    fn default() -> (r: Self)
        ensures
            r@ == (StatusView {
                current_version: Seq::empty(),
                target_version: Seq::empty(),
                current_state: BottlerocketShadowState::Idle,
                crash_count: 0,
                state_transition_failure_timestamp: None,
            }),
    {
        BottlerocketShadowStatus {
            current_version: String::new(),
            target_version: String::new(),
            current_state: BottlerocketShadowState::Idle,
            crash_count: 0,
            state_transition_failure_timestamp: None,
        }
    }
}

/// The `v2` status that a `v1` status is converted to: one of a node that never crashed.
pub open spec fn status_upgraded(old: v1::StatusView) -> StatusView {
    StatusView {
        current_version: old.current_version,
        target_version: old.target_version,
        current_state: BottlerocketShadowState::upgraded(old.current_state),
        crash_count: 0,
        state_transition_failure_timestamp: None,
    }
}

impl BottlerocketShadowStatus {
    /// A status. The versions can be read from it again, and the timestamp where its year has
    /// four digits.
    pub fn new(
        current_version: Version,
        target_version: Version,
        current_state: BottlerocketShadowState,
        crash_count: u32,
        state_transition_failure_timestamp: Option<Timestamp>,
    ) -> (r: Self)
        ensures
            r@ == (StatusView {
                current_version: version_text(current_version@),
                target_version: version_text(target_version@),
                current_state,
                crash_count,
                state_transition_failure_timestamp: instant_text(
                    instant_option(state_transition_failure_timestamp),
                ),
            }),
            semver_parts(r@.current_version) == Some(current_version@),
            semver_parts(r@.target_version) == Some(target_version@),
            four_digit_option(instant_option(state_transition_failure_timestamp)) ==> {
                &&& instant_reads(r@.state_transition_failure_timestamp)
                &&& instant_field(r@.state_transition_failure_timestamp) == instant_option(
                    state_transition_failure_timestamp,
                )
            },
    {
        let state_transition_failure_timestamp = write_instant(state_transition_failure_timestamp);
        BottlerocketShadowStatus {
            current_version: current_version.to_text(),
            target_version: target_version.to_text(),
            current_state,
            crash_count,
            state_transition_failure_timestamp,
        }
    }

    /// The version that the node runs.
    pub fn current_version(&self) -> (r: Version)
        requires
            semver_parts(self@.current_version) is Some,
        ensures
            semver_parts(self@.current_version) == Some(r@),
            version_text(r@) == self@.current_version,
    {
        Version::from_str(self.current_version.as_str()).unwrap()
    }

    /// The version that the node should run.
    pub fn target_version(&self) -> (r: Version)
        requires
            semver_parts(self@.target_version) is Some,
        ensures
            semver_parts(self@.target_version) == Some(r@),
            version_text(r@) == self@.target_version,
    {
        Version::from_str(self.target_version.as_str()).unwrap()
    }

    /// How often the node crashed.
    pub fn crash_count(&self) -> (r: u32)
        ensures
            r == self@.crash_count,
    {
        self.crash_count
    }

    /// The time of the last failure as an instant.
    pub fn failure_timestamp(&self) -> (r: Result<Option<Timestamp>, Error>)
        ensures
            match r {
                Ok(i) => {
                    &&& instant_reads(self@.state_transition_failure_timestamp)
                    &&& instant_option(i) == instant_field(self@.state_transition_failure_timestamp)
                    &&& i is Some ==> valid_instant(i->0@)
                },
                Err(e) => {
                    &&& !instant_reads(self@.state_transition_failure_timestamp)
                    &&& is_format_error(e, self@.state_transition_failure_timestamp)
                },
            },
    {
        read_instant(&self.state_transition_failure_timestamp)
    }

    /// Whether both versions of the status can be read.
    pub fn is_well_formed(&self) -> (r: bool)
        ensures
            r == self@.well_formed(),
    {
        Version::from_str(self.current_version.as_str()).is_some() && Version::from_str(
            self.target_version.as_str(),
        ).is_some()
    }

    /// Converts a `v1` status.
    pub fn from(previous_status: v1::BottlerocketShadowStatus) -> (r: Self)
        requires
            semver_parts(previous_status@.current_version) is Some,
            semver_parts(previous_status@.target_version) is Some,
        ensures
            r@ == status_upgraded(previous_status@),
    {
        Self::new(
            previous_status.current_version(),
            previous_status.target_version(),
            BottlerocketShadowState::from(previous_status.current_state),
            0,
            None,
        )
    }
}

/// A `BottlerocketShadow` of version `v2`.
#[derive(Debug)]
pub struct BottlerocketShadow {
    pub metadata: ObjectMeta,
    pub spec: BottlerocketShadowSpec,
    pub status: Option<BottlerocketShadowStatus>,
}

/// The contents of a `BottlerocketShadow`.
pub struct ShadowView {
    pub metadata: ObjectMetaView,
    pub spec: SpecView,
    pub status: Option<StatusView>,
}

/// The contents of an optional status.
pub open spec fn status_option(o: Option<BottlerocketShadowStatus>) -> Option<StatusView> {
    match o {
        Some(s) => Some(s@),
        None => None,
    }
}

impl View for BottlerocketShadow {
    type V = ShadowView;

    open spec fn view(&self) -> ShadowView {
        ShadowView {
            metadata: self.metadata@,
            spec: self.spec@,
            status: status_option(self.status),
        }
    }
}

impl ShadowView {
    /// Whether the node has crashed.
    pub open spec fn crashed(self) -> bool {
        self.status is Some && self.status->0.current_state == BottlerocketShadowState::ErrorReset
    }

    /// The order in which objects are handled: fewer crashes first, no status last.
    pub open spec fn crash_order(self, other: ShadowView) -> std::cmp::Ordering {
        match (self.status, other.status) {
            (None, None) => std::cmp::Ordering::Equal,
            (Some(_), None) => std::cmp::Ordering::Less,
            (None, Some(_)) => std::cmp::Ordering::Greater,
            (Some(a), Some(b)) => if a.crash_count < b.crash_count {
                std::cmp::Ordering::Less
            } else if a.crash_count == b.crash_count {
                std::cmp::Ordering::Equal
            } else {
                std::cmp::Ordering::Greater
            },
        }
    }

    /// Whether the versions and timestamps that a conversion reads can be read.
    pub open spec fn convertible(self) -> bool {
        &&& self.spec.well_formed()
        &&& self.status is Some ==> self.status->0.well_formed()
    }
}

/// Whether a `v2` object is what a `v1` object is converted to. It keeps the name, the
/// namespace, the uid and the owners, and no other metadata.
pub open spec fn shadow_upgrade(old: v1::ShadowView, new: ShadowView) -> bool {
    &&& new.metadata == (ObjectMetaView {
        name: old.metadata.name,
        namespace: old.metadata.namespace,
        uid: old.metadata.uid,
        owner_references: old.metadata.owner_references,
        ..ObjectMetaView::unset()
    })
    &&& spec_upgrade(old.spec, new.spec)
    &&& new.status == match old.status {
        Some(s) => Some(status_upgraded(s)),
        None => None,
    }
}

impl BottlerocketShadowSpec {
    /// A copy of the spec.
    pub fn copy(&self) -> (r: Self)
        ensures
            r@ == self@,
    {
        BottlerocketShadowSpec {
            state: self.state,
            state_transition_timestamp: copy_option(&self.state_transition_timestamp),
            version: copy_option(&self.version),
        }
    }

    /// Whether two specs are the same.
    pub fn same(&self, other: &Self) -> (r: bool)
        ensures
            r == (self@ == other@),
    {
        self.state == other.state && same_option(
            &self.state_transition_timestamp,
            &other.state_transition_timestamp,
        ) && same_option(&self.version, &other.version)
    }
}

impl BottlerocketShadowStatus {
    /// A copy of the status.
    pub fn copy(&self) -> (r: Self)
        ensures
            r@ == self@,
    {
        BottlerocketShadowStatus {
            current_version: self.current_version.clone(),
            target_version: self.target_version.clone(),
            current_state: self.current_state,
            crash_count: self.crash_count,
            state_transition_failure_timestamp: copy_option(
                &self.state_transition_failure_timestamp,
            ),
        }
    }

    /// Whether two statuses are the same.
    pub fn same(&self, other: &Self) -> (r: bool)
        ensures
            r == (self@ == other@),
    {
        self.current_version == other.current_version && self.target_version
            == other.target_version && self.current_state == other.current_state
            && self.crash_count == other.crash_count && same_option(
            &self.state_transition_failure_timestamp,
            &other.state_transition_failure_timestamp,
        )
    }
}

impl BottlerocketShadow {
    /// A copy of the object.
    pub fn copy(&self) -> (r: Self)
        ensures
            r@ == self@,
    {
        BottlerocketShadow {
            metadata: self.metadata.copy(),
            spec: self.spec.copy(),
            status: match &self.status {
                Some(s) => Some(s.copy()),
                None => None,
            },
        }
    }

    /// Returns whether or not a node has reached the state requested by its spec.
    pub fn has_reached_desired_state(&self) -> (r: bool)
        ensures
            r == (self@.status is Some && self@.status->0.current_state == self@.spec.state),
    {
        match &self.status {
            None => false,
            Some(status) => status.current_state == self.spec.state,
        }
    }

    /// Returns whether or not a node has crashed.
    pub fn has_crashed(&self) -> (r: bool)
        ensures
            r == self@.crashed(),
    {
        match &self.status {
            None => false,
            Some(status) => status.current_state == BottlerocketShadowState::ErrorReset,
        }
    }

    /// Order BottleRocketShadow based on crash_count in status
    /// to determine the priority to be handled by the controller.
    /// Uninitialized status should be considered as lowest priority.
    pub fn compare_crash_count(&self, other: &Self) -> (r: std::cmp::Ordering)
        ensures
            r == self@.crash_order(other@),
    {
        match (&self.status, &other.status) {
            (None, None) => std::cmp::Ordering::Equal,
            (Some(_), None) => std::cmp::Ordering::Less,
            (None, Some(_)) => std::cmp::Ordering::Greater,
            (Some(s1), Some(s2)) => {
                if s1.crash_count() < s2.crash_count() {
                    std::cmp::Ordering::Less
                } else if s1.crash_count() == s2.crash_count() {
                    std::cmp::Ordering::Equal
                } else {
                    std::cmp::Ordering::Greater
                }
            },
        }
    }

    /// Whether a conversion can read the object.
    pub fn is_convertible(&self) -> (r: bool)
        ensures
            r == self@.convertible(),
    {
        self.spec.is_well_formed() && match &self.status {
            None => true,
            Some(status) => status.is_well_formed(),
        }
    }

    /// Converts a `v1` object.
    pub fn from(previous_shadow: v1::BottlerocketShadow) -> (r: Self)
        requires
            previous_shadow@.convertible(),
        ensures
            shadow_upgrade(previous_shadow@, r@),
    {
        let status = match previous_shadow.status {
            Some(s) => Some(BottlerocketShadowStatus::from(s)),
            None => None,
        };
        let spec = BottlerocketShadowSpec::from(previous_shadow.spec);
        BottlerocketShadow {
            metadata: ObjectMeta {
                name: previous_shadow.metadata.name,
                generate_name: None,
                namespace: previous_shadow.metadata.namespace,
                uid: previous_shadow.metadata.uid,
                owner_references: previous_shadow.metadata.owner_references,
                labels: None,
                annotations: None,
            },
            spec,
            status,
        }
    }
}

} // verus!
