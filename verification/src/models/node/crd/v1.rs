//! Version `v1` of the `BottlerocketShadow` custom resource.

use vstd::prelude::*;
use vstd::std_specs::convert::FromSpecImpl;

use super::error::Error;
use super::fields::{
    four_digit_option, instant_field, instant_is_readable, instant_option, instant_reads,
    instant_text, is_format_error, read_instant, read_version, version_field, version_is_readable,
    version_option, version_option_text, version_reads, write_instant, write_version,
};
use super::v2;
use crate::models::meta::{copy_option, text_option, ObjectMeta, ObjectMetaView};
use crate::time::{clock_instant, four_digit_year, valid_instant, Instant, Timestamp};
use crate::version::{semver_parts, version_text, Version};

verus! {

/// BottlerocketShadowState represents a node's state in the update state machine.
#[derive(Copy, Clone, Debug, PartialEq, Eq, Structural)]
pub enum BottlerocketShadowState {
    /// Nodes in this state are waiting for new updates to become available. This is both the
    /// starting and terminal state in the update process.
    Idle,
    /// Nodes in this state have staged a new update image and used the kubernetes cordon and
    /// drain APIs to remove running pods.
    StagedUpdate,
    /// Nodes in this state have installed the new image and updated the partition table to mark
    /// it as the new active image.
    PerformedUpdate,
    /// Nodes in this state have rebooted after performing an update.
    RebootedIntoUpdate,
    /// Nodes in this state have un-cordoned the node to allow work to be scheduled, and are
    /// monitoring to ensure that the node seems healthy before marking the update as complete.
    MonitoringUpdate,
}

impl Default for BottlerocketShadowState {
    fn default() -> (r: Self)
        ensures
            r == BottlerocketShadowState::Idle,
    {
        BottlerocketShadowState::Idle
    }
}

// The most seconds that a machine may take to transition *into* a state.
pub const STAGED_UPDATE_TIMEOUT: u64 = 600;

pub const PERFORMED_UPDATE_TIMEOUT: u64 = 120;

pub const REBOOTED_INTO_UPDATE_TIMEOUT: u64 = 600;

pub const MONITORING_UPDATE_TIMEOUT: u64 = 300;

pub const IDLE_TIMEOUT: u64 = 120;

impl BottlerocketShadowState {
    /// The state that follows.
    pub open spec fn next(self) -> BottlerocketShadowState {
        match self {
            BottlerocketShadowState::Idle => BottlerocketShadowState::StagedUpdate,
            BottlerocketShadowState::StagedUpdate => BottlerocketShadowState::PerformedUpdate,
            BottlerocketShadowState::PerformedUpdate => BottlerocketShadowState::RebootedIntoUpdate,
            BottlerocketShadowState::RebootedIntoUpdate => BottlerocketShadowState::MonitoringUpdate,
            BottlerocketShadowState::MonitoringUpdate => BottlerocketShadowState::Idle,
        }
    }

    /// Returns the next state in the state machine if the current state has been reached
    /// successfully.
    pub fn on_success(&self) -> (r: Self)
        ensures
            r == self.next(),
    {
        match self {
            Self::Idle => Self::StagedUpdate,
            Self::StagedUpdate => Self::PerformedUpdate,
            Self::PerformedUpdate => Self::RebootedIntoUpdate,
            Self::RebootedIntoUpdate => Self::MonitoringUpdate,
            Self::MonitoringUpdate => Self::Idle,
        }
    }

    /// The seconds that a node can spend on the transition *into* a state.
    pub open spec fn timeout(self) -> Option<u64> {
        match self {
            BottlerocketShadowState::Idle => Some(IDLE_TIMEOUT),
            BottlerocketShadowState::StagedUpdate => Some(STAGED_UPDATE_TIMEOUT),
            BottlerocketShadowState::PerformedUpdate => Some(PERFORMED_UPDATE_TIMEOUT),
            BottlerocketShadowState::RebootedIntoUpdate => Some(REBOOTED_INTO_UPDATE_TIMEOUT),
            BottlerocketShadowState::MonitoringUpdate => Some(MONITORING_UPDATE_TIMEOUT),
        }
    }

    /// Returns the total time, in seconds, that a node can spend transitioning *from* the given
    /// state to the next state in the process.
    pub fn timeout_time(&self) -> (r: Option<u64>)
        ensures
            r == self.timeout(),
    {
        match self {
            Self::Idle => Some(IDLE_TIMEOUT),
            Self::StagedUpdate => Some(STAGED_UPDATE_TIMEOUT),
            Self::PerformedUpdate => Some(PERFORMED_UPDATE_TIMEOUT),
            Self::RebootedIntoUpdate => Some(REBOOTED_INTO_UPDATE_TIMEOUT),
            Self::MonitoringUpdate => Some(MONITORING_UPDATE_TIMEOUT),
        }
    }

    /// The name of the state.
    pub open spec fn name_text(self) -> Seq<char> {
        match self {
            BottlerocketShadowState::Idle => "Idle"@,
            BottlerocketShadowState::StagedUpdate => "StagedUpdate"@,
            BottlerocketShadowState::PerformedUpdate => "PerformedUpdate"@,
            BottlerocketShadowState::RebootedIntoUpdate => "RebootedIntoUpdate"@,
            BottlerocketShadowState::MonitoringUpdate => "MonitoringUpdate"@,
        }
    }

    /// The name of the state, as it stands in a resource.
    pub fn name(&self) -> (r: &'static str)
        ensures
            r@ == self.name_text(),
    {
        match self {
            Self::Idle => "Idle",
            Self::StagedUpdate => "StagedUpdate",
            Self::PerformedUpdate => "PerformedUpdate",
            Self::RebootedIntoUpdate => "RebootedIntoUpdate",
            Self::MonitoringUpdate => "MonitoringUpdate",
        }
    }

    /// The `v1` state that stands for a `v2` state. Two `v2` states have no counterpart: a
    /// staged and performed update is shown as staged, a crashed node as monitoring.
    pub open spec fn downgraded(s: v2::BottlerocketShadowState) -> BottlerocketShadowState {
        match s {
            v2::BottlerocketShadowState::Idle => BottlerocketShadowState::Idle,
            v2::BottlerocketShadowState::StagedAndPerformedUpdate =>
            BottlerocketShadowState::StagedUpdate,
            v2::BottlerocketShadowState::RebootedIntoUpdate =>
            BottlerocketShadowState::RebootedIntoUpdate,
            v2::BottlerocketShadowState::MonitoringUpdate =>
            BottlerocketShadowState::MonitoringUpdate,
            v2::BottlerocketShadowState::ErrorReset => BottlerocketShadowState::MonitoringUpdate,
        }
    }
}

impl From<v2::BottlerocketShadowState> for BottlerocketShadowState {
    fn from(previous_state: v2::BottlerocketShadowState) -> (r: Self) {
        // Mapping v2 -> v1 drops the PerformedUpdate state.
        match previous_state {
            v2::BottlerocketShadowState::Idle => Self::Idle,
            v2::BottlerocketShadowState::StagedAndPerformedUpdate => Self::StagedUpdate,
            v2::BottlerocketShadowState::RebootedIntoUpdate => Self::RebootedIntoUpdate,
            v2::BottlerocketShadowState::MonitoringUpdate => Self::MonitoringUpdate,
            v2::BottlerocketShadowState::ErrorReset => Self::MonitoringUpdate,
        }
    }
}

impl FromSpecImpl<v2::BottlerocketShadowState> for BottlerocketShadowState {
    open spec fn obeys_from_spec() -> bool {
        true
    }

    open spec fn from_spec(v: v2::BottlerocketShadowState) -> Self {
        BottlerocketShadowState::downgraded(v)
    }
}

/// The `BottlerocketShadowSpec` can be used to drive a node through the update state machine. A
/// node linearly drives towards the desired state. The brupop controller updates the spec to
/// specify a node's desired state, and the host agent drives state changes forward and updates the
/// `BottlerocketShadowStatus`.
#[derive(Clone, Debug, PartialEq, Eq)]
pub struct BottlerocketShadowSpec {
    /// Records the desired state of the `BottlerocketShadow`
    pub state: BottlerocketShadowState,
    /// The time at which the most recent state was set as the desired state.
    pub state_transition_timestamp: Option<String>,
    /// The desired update version, if any.
    pub version: Option<String>,
}

/// The contents of a `BottlerocketShadowSpec`.
pub struct SpecView {
    pub state: BottlerocketShadowState,
    pub state_transition_timestamp: Option<Seq<char>>,
    pub version: Option<Seq<char>>,
}

impl View for BottlerocketShadowSpec {
    type V = SpecView;

    open spec fn view(&self) -> SpecView {
        SpecView {
            state: self.state,
            state_transition_timestamp: text_option(self.state_transition_timestamp),
            version: text_option(self.version),
        }
    }
}

impl SpecView {
    /// Whether the version and the timestamp can be read.
    pub open spec fn well_formed(self) -> bool {
        version_reads(self.version) && instant_reads(self.state_transition_timestamp)
    }
}

impl Default for BottlerocketShadowSpec {
    fn default() -> (r: Self)
        ensures
            r@ == (SpecView {
                state: BottlerocketShadowState::Idle,
                state_transition_timestamp: None,
                version: None,
            }),
    {
        BottlerocketShadowSpec {
            state: BottlerocketShadowState::Idle,
            state_transition_timestamp: None,
            version: None,
        }
    }
}

/// Whether a `v1` spec is what a `v2` spec is converted to: the same version, the same
/// instant, and the state that stands for the `v2` state.
pub open spec fn spec_downgrade(old: v2::SpecView, new: SpecView) -> bool {
    &&& new.state == BottlerocketShadowState::downgraded(old.state)
    &&& new.version == old.version
    &&& new.state_transition_timestamp == instant_text(
        instant_field(old.state_transition_timestamp),
    )
    &&& four_digit_option(instant_field(old.state_transition_timestamp)) ==> {
        &&& instant_reads(new.state_transition_timestamp)
        &&& instant_field(new.state_transition_timestamp) == instant_field(
            old.state_transition_timestamp,
        )
    }
}

impl BottlerocketShadowSpec {
    /// A spec that asks for a state. What was passed can be read from it again; a timestamp
    /// only where its year has four digits.
    pub fn new(
        state: BottlerocketShadowState,
        state_transition_timestamp: Option<Timestamp>,
        version: Option<Version>,
    ) -> (r: Self)
        ensures
            r@ == (SpecView {
                state,
                state_transition_timestamp: instant_text(
                    instant_option(state_transition_timestamp),
                ),
                version: version_option_text(version_option(version)),
            }),
            version_reads(r@.version),
            version_field(r@.version) == version_option(version),
            four_digit_option(instant_option(state_transition_timestamp)) ==> {
                &&& instant_reads(r@.state_transition_timestamp)
                &&& instant_field(r@.state_transition_timestamp) == instant_option(
                    state_transition_timestamp,
                )
            },
    {
        let state_transition_timestamp = write_instant(state_transition_timestamp);
        let version = write_version(version);
        BottlerocketShadowSpec { state, state_transition_timestamp, version }
    }

    /// Creates a new BottlerocketShadowSpec, using the current time as the timestamp for timeout
    /// purposes.
    pub fn new_starting_now(state: BottlerocketShadowState, version: Option<Version>) -> (r: Self)
        ensures
            r@.state == state,
            r@.version == version_option_text(version_option(version)),
            exists|now: Instant| #[trigger]
                clock_instant(now) && r@.state_transition_timestamp == instant_text(Some(now)) && (
                four_digit_year(now) ==> instant_field(r@.state_transition_timestamp) == Some(now)),
    {
        let now = Timestamp::now();
        assert(clock_instant(now@));
        Self::new(state, Some(now), version)
    }

    /// The transition timestamp as an instant.
    pub fn state_timestamp(&self) -> (r: Result<Option<Timestamp>, Error>)
        ensures
            match r {
                Ok(i) => {
                    &&& instant_reads(self@.state_transition_timestamp)
                    &&& instant_option(i) == instant_field(self@.state_transition_timestamp)
                    &&& i is Some ==> valid_instant(i->0@)
                },
                Err(e) => {
                    &&& !instant_reads(self@.state_transition_timestamp)
                    &&& is_format_error(e, self@.state_transition_timestamp)
                },
            },
    {
        read_instant(&self.state_transition_timestamp)
    }

    /// Returns the desired version for this BottlerocketShadow.
    pub fn version(&self) -> (r: Option<Version>)
        requires
            version_reads(self@.version),
        ensures
            version_option(r) == version_field(self@.version),
            version_option_text(version_option(r)) == self@.version,
    {
        read_version(&self.version)
    }

    /// Whether the version and the timestamp of the spec can be read.
    pub fn is_well_formed(&self) -> (r: bool)
        ensures
            r == self@.well_formed(),
    {
        version_is_readable(&self.version) && instant_is_readable(&self.state_transition_timestamp)
    }

    /// Converts a `v2` spec.
    pub fn from(previous_spec: v2::BottlerocketShadowSpec) -> (r: Self)
        requires
            previous_spec@.well_formed(),
        ensures
            spec_downgrade(previous_spec@, r@),
    {
        let timestamp = match previous_spec.state_timestamp() {
            Ok(t) => t,
            Err(_) => None,
        };
        let version = previous_spec.version();
        Self::new(BottlerocketShadowState::from(previous_spec.state), timestamp, version)
    }
}

/// `BottlerocketShadowStatus` surfaces the current state of a bottlerocket node. The status is
/// updated by the host agent, while the spec is updated by the brupop controller.
#[derive(Clone, Debug, PartialEq, Eq)]
pub struct BottlerocketShadowStatus {
    pub current_version: String,
    pub target_version: String,
    pub current_state: BottlerocketShadowState,
}

/// The contents of a `BottlerocketShadowStatus`.
pub struct StatusView {
    pub current_version: Seq<char>,
    pub target_version: Seq<char>,
    pub current_state: BottlerocketShadowState,
}

impl View for BottlerocketShadowStatus {
    type V = StatusView;

    open spec fn view(&self) -> StatusView {
        StatusView {
            current_version: self.current_version@,
            target_version: self.target_version@,
            current_state: self.current_state,
        }
    }
}

impl StatusView {
    /// Whether both versions can be read.
    pub open spec fn well_formed(self) -> bool {
        semver_parts(self.current_version) is Some && semver_parts(self.target_version) is Some
    }
}

impl Default for BottlerocketShadowStatus {
    fn default() -> (r: Self)
        ensures
            r@ == (StatusView {
                current_version: Seq::empty(),
                target_version: Seq::empty(),
                current_state: BottlerocketShadowState::Idle,
            }),
    {
        BottlerocketShadowStatus {
            current_version: String::new(),
            target_version: String::new(),
            current_state: BottlerocketShadowState::Idle,
        }
    }
}

/// The `v1` status that a `v2` status is converted to. The crash count and the time of the
/// last failure have no place in it.
pub open spec fn status_downgraded(old: v2::StatusView) -> StatusView {
    StatusView {
        current_version: old.current_version,
        target_version: old.target_version,
        current_state: BottlerocketShadowState::downgraded(old.current_state),
    }
}

impl BottlerocketShadowStatus {
    /// A status. The versions can be read from it again.
    pub fn new(
        current_version: Version,
        target_version: Version,
        current_state: BottlerocketShadowState,
    ) -> (r: Self)
        ensures
            r@ == (StatusView {
                current_version: version_text(current_version@),
                target_version: version_text(target_version@),
                current_state,
            }),
            semver_parts(r@.current_version) == Some(current_version@),
            semver_parts(r@.target_version) == Some(target_version@),
    {
        BottlerocketShadowStatus {
            current_version: current_version.to_text(),
            target_version: target_version.to_text(),
            current_state,
        }
    }

    /// The version that the node runs.
    pub fn current_version(&self) -> (r: Version)
        requires
            semver_parts(self@.current_version) is Some,
        ensures
            semver_parts(self@.current_version) == Some(r@),
            version_text(r@) == self@.current_version,
    {
        Version::from_str(self.current_version.as_str()).unwrap()
    }

    /// The version that the node should run.
    pub fn target_version(&self) -> (r: Version)
        requires
            semver_parts(self@.target_version) is Some,
        ensures
            semver_parts(self@.target_version) == Some(r@),
            version_text(r@) == self@.target_version,
    {
        Version::from_str(self.target_version.as_str()).unwrap()
    }

    /// Whether both versions of the status can be read.
    pub fn is_well_formed(&self) -> (r: bool)
        ensures
            r == self@.well_formed(),
    {
        Version::from_str(self.current_version.as_str()).is_some() && Version::from_str(
            self.target_version.as_str(),
        ).is_some()
    }

    /// Converts a `v2` status.
    pub fn from(previous_status: v2::BottlerocketShadowStatus) -> (r: Self)
        requires
            semver_parts(previous_status@.current_version) is Some,
            semver_parts(previous_status@.target_version) is Some,
        ensures
            r@ == status_downgraded(previous_status@),
    {
        Self::new(
            previous_status.current_version(),
            previous_status.target_version(),
            BottlerocketShadowState::from(previous_status.current_state),
        )
    }
}

/// A `BottlerocketShadow` of version `v1`.
#[derive(Debug)]
pub struct BottlerocketShadow {
    pub metadata: ObjectMeta,
    pub spec: BottlerocketShadowSpec,
    pub status: Option<BottlerocketShadowStatus>,
}

/// The contents of a `BottlerocketShadow`.
pub struct ShadowView {
    pub metadata: ObjectMetaView,
    pub spec: SpecView,
    pub status: Option<StatusView>,
}

/// The contents of an optional status.
pub open spec fn status_option(o: Option<BottlerocketShadowStatus>) -> Option<StatusView> {
    match o {
        Some(s) => Some(s@),
        None => None,
    }
}

impl View for BottlerocketShadow {
    type V = ShadowView;

    open spec fn view(&self) -> ShadowView {
        ShadowView {
            metadata: self.metadata@,
            spec: self.spec@,
            status: status_option(self.status),
        }
    }
}

impl ShadowView {
    /// Whether the versions and timestamps that a conversion reads can be read.
    pub open spec fn convertible(self) -> bool {
        &&& self.spec.well_formed()
        &&& self.status is Some ==> self.status->0.well_formed()
    }
}

/// Whether a `v1` object is what a `v2` object is converted to. It keeps the name, the
/// namespace, the uid and the owners, and no other metadata.
pub open spec fn shadow_downgrade(old: v2::ShadowView, new: ShadowView) -> bool {
    &&& new.metadata == (ObjectMetaView {
        name: old.metadata.name,
        namespace: old.metadata.namespace,
        uid: old.metadata.uid,
        owner_references: old.metadata.owner_references,
        ..ObjectMetaView::unset()
    })
    &&& spec_downgrade(old.spec, new.spec)
    &&& new.status == match old.status {
        Some(s) => Some(status_downgraded(s)),
        None => None,
    }
}

impl BottlerocketShadow {
    /// A copy of the object.
    pub fn copy(&self) -> (r: Self)
        ensures
            r@ == self@,
    {
        BottlerocketShadow {
            metadata: self.metadata.copy(),
            spec: BottlerocketShadowSpec {
                state: self.spec.state,
                state_transition_timestamp: copy_option(&self.spec.state_transition_timestamp),
                version: copy_option(&self.spec.version),
            },
            status: match &self.status {
                Some(s) => Some(
                    BottlerocketShadowStatus {
                        current_version: s.current_version.clone(),
                        target_version: s.target_version.clone(),
                        current_state: s.current_state,
                    },
                ),
                None => None,
            },
        }
    }

    /// Returns whether or not a node has reached the state requested by its spec.
    pub fn has_reached_desired_state(&self) -> (r: bool)
        ensures
            r == (self@.status is Some && self@.status->0.current_state == self@.spec.state),
    {
        match &self.status {
            None => false,
            Some(status) => status.current_state == self.spec.state,
        }
    }

    /// Whether a conversion can read the object.
    pub fn is_convertible(&self) -> (r: bool)
        ensures
            r == self@.convertible(),
    {
        self.spec.is_well_formed() && match &self.status {
            None => true,
            Some(status) => status.is_well_formed(),
        }
    }

    /// Converts a `v2` object.
    pub fn from(previous_shadow: v2::BottlerocketShadow) -> (r: Self)
        requires
            previous_shadow@.convertible(),
        ensures
            shadow_downgrade(previous_shadow@, r@),
    {
        let status = match previous_shadow.status {
            Some(s) => Some(BottlerocketShadowStatus::from(s)),
            None => None,
        };
        let spec = BottlerocketShadowSpec::from(previous_shadow.spec);
        BottlerocketShadow {
            metadata: ObjectMeta {
                name: previous_shadow.metadata.name,
                generate_name: None,
                namespace: previous_shadow.metadata.namespace,
                uid: previous_shadow.metadata.uid,
                owner_references: previous_shadow.metadata.owner_references,
                labels: None,
                annotations: None,
            },
            spec,
            status,
        }
    }
}

} // verus!
