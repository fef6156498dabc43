//! When the update of a cluster is over, as seen from outside.

use vstd::prelude::*;
use vstd::string::*;

use crate::models::meta::text_option;
use crate::models::node::crd::v2::{ShadowView, StatusView};
use crate::models::node::crd::{BottlerocketShadow, BottlerocketShadowState};
use crate::text::{concat2, concat3, str_eq};

verus! {

/// Seconds between two looks at the cluster.
pub const MONITOR_SLEEP_DURATION: u64 = 30;

/// Seconds that the update of a node is expected to take.
pub const ESTIMATED_UPDATE_TIME_EACH_NODE: i32 = 300;

/// Seconds that are granted on top.
pub const EXTRA_TIME: i32 = 300;

/// How often an unhealthy cluster is looked at again.
pub const NUM_RETRIES: usize = 5;

pub const UNHEALTHY: &'static str =
    "Brupop pods (agent, apisever, controller or BottlerocketShadows) aren't on healthy status";

pub const OVERDUE: &'static str = "Monitor exceeds the estimated update time limit";

/// Why the update is not seen through.
#[derive(Debug)]
pub enum MonitorError {
    /// The pods or objects of the operator cannot be had.
    FindBrupopPods { source: String },
    BrupopMonitor { object: String },
    BottlerocketShadowName,
    MissingBottlerocketShadowStatus,
    /// The clock went backwards.
    TimeElapsed,
}

impl MonitorError {
    /// The error in words.
    pub open spec fn message(self) -> Seq<char> {
        match self {
            MonitorError::FindBrupopPods { source } => "Unable to find Brupop pods: "@ + source@,
            MonitorError::BrupopMonitor { object } => "Failed to run brupop monitor because "@
                + object@ + ", please check brupop pods' logs"@,
            MonitorError::BottlerocketShadowName => "Unable to get Bottlerocket name"@,
            MonitorError::MissingBottlerocketShadowStatus =>
            "Unable to get Bottlerocket node 'status' because of missing 'status' value"@,
            MonitorError::TimeElapsed =>
            "Unable to return the difference between the clock time when this system time was created, and the current clock time."@,
        }
    }

    /// The error in words.
    pub fn to_text(&self) -> (r: String)
        ensures
            r@ == self.message(),
    {
        match self {
            Self::FindBrupopPods { source } => concat2(
                "Unable to find Brupop pods: ",
                source.as_str(),
            ),
            Self::BrupopMonitor { object } => concat3(
                "Failed to run brupop monitor because ",
                object.as_str(),
                ", please check brupop pods' logs",
            ),
            Self::BottlerocketShadowName => String::from_str("Unable to get Bottlerocket name"),
            Self::MissingBottlerocketShadowStatus => String::from_str(
                "Unable to get Bottlerocket node 'status' because of missing 'status' value",
            ),
            Self::TimeElapsed => String::from_str(
                "Unable to return the difference between the clock time when this system time was created, and the current clock time.",
            ),
        }
    }
}

/// The status of a pod.
#[derive(Debug)]
pub struct PodStatus {
    pub phase: Option<String>,
}

/// A pod of the operator.
#[derive(Debug)]
pub struct Pod {
    pub status: Option<PodStatus>,
}

impl View for PodStatus {
    type V = Option<Seq<char>>;

    /// The phase of the pod, where it is known.
    open spec fn view(&self) -> Option<Seq<char>> {
        text_option(self.phase)
    }
}

impl View for Pod {
    type V = Option<Option<Seq<char>>>;

    /// The status of the pod, where it has one.
    open spec fn view(&self) -> Option<Option<Seq<char>>> {
        match self.status {
            Some(s) => Some(s@),
            None => None,
        }
    }
}

/// Whether a pod runs.
pub fn is_pod_running(pod: &Pod) -> (r: bool)
    ensures
        r == (pod@ == Some(Some("Running"@))),
{
    match &pod.status {
        Some(s) => match &s.phase {
            Some(phase) => str_eq(phase.as_str(), "Running"),
            None => false,
        },
        None => false,
    }
}

/// Whether there are pods and all of them run.
pub open spec fn pods_healthy(pods: Seq<Pod>) -> bool {
    pods.len() > 0 && forall|i: int|
        0 <= i < pods.len() ==> (#[trigger] pods[i])@ == Some(Some("Running"@))
}

/// Whether there are objects and all of them have a status.
pub open spec fn shadows_healthy(shadows: Seq<BottlerocketShadow>) -> bool {
    shadows.len() > 0 && forall|i: int|
        0 <= i < shadows.len() ==> (#[trigger] shadows[i])@.status is Some
}

/// Whether a node has come to its target version and is idle again.
pub open spec fn is_updated(status: StatusView) -> bool {
    status.current_version == status.target_version && status.current_state
        == BottlerocketShadowState::Idle
}

/// Whether both versions of an object's status can be read, where it has one.
pub open spec fn versions_read(shadow: ShadowView) -> bool {
    shadow.status is Some ==> shadow.status->0.well_formed()
}

/// Whether the versions of all objects can be read.
pub open spec fn all_versions_read(shadows: Seq<BottlerocketShadow>) -> bool {
    forall|i: int| 0 <= i < shadows.len() ==> versions_read((#[trigger] shadows[i])@)
}

/// What is missing from an object.
pub open spec fn defect(shadow: ShadowView) -> Option<MonitorError> {
    if shadow.status is None {
        Some(MonitorError::MissingBottlerocketShadowStatus)
    } else if shadow.metadata.name is None {
        Some(MonitorError::BottlerocketShadowName)
    } else {
        None
    }
}

/// Whether a result says of some objects if all are updated, or what is missing from the first
/// one that is incomplete.
pub open spec fn update_outcome(
    shadows: Seq<BottlerocketShadow>,
    r: Result<bool, MonitorError>,
) -> bool {
    match r {
        Ok(done) => {
            &&& forall|i: int| 0 <= i < shadows.len() ==> defect((#[trigger] shadows[i])@) is None
            &&& done == forall|i: int|
                0 <= i < shadows.len() ==> is_updated((#[trigger] shadows[i])@.status->0)
        },
        Err(e) => exists|k: int|
            {
                &&& 0 <= k < shadows.len()
                &&& defect((#[trigger] shadows[k])@) == Some(e)
                &&& forall|i: int| 0 <= i < k ==> defect((#[trigger] shadows[i])@) is None
            },
    }
}

/// The seconds after which the update of some nodes is overdue.
pub open spec fn expire_time(number_of_brs: int) -> int {
    number_of_brs * 300 + 300
}

/// compute the estimated update time to trigger monitor exit
/// formula: number_of_node*300 secs + 300 secs
pub fn estimate_expire_time(number_of_brs: i32) -> (r: i32)
    requires
        i32::MIN <= number_of_brs * 300,
        expire_time(number_of_brs as int) <= i32::MAX,
    ensures
        r == expire_time(number_of_brs as int),
{
    number_of_brs * ESTIMATED_UPDATE_TIME_EACH_NODE + EXTRA_TIME
}

/// The most nodes for which the estimate is defined.
pub const MAX_MONITORED_NODES: usize = 7_158_277;

/// What the monitor does after a look at the cluster.
#[derive(Debug)]
pub enum MonitorStep {
    /// All nodes have been successfully updated.
    Complete,
    /// Look again after some seconds; so many retries are used up.
    LookAgain { seconds: u64, retry_count: usize },
    Fail(MonitorError),
}

/// What the monitor does after a look at the cluster: an unhealthy cluster is looked at again a
/// few times, an update that is not through is waited for until it is overdue.
pub open spec fn monitor_step(
    retry_count: usize,
    shadows: Seq<BottlerocketShadow>,
    pods: Seq<Pod>,
    elapsed_seconds: Option<u64>,
    step: MonitorStep,
) -> bool {
    if !pods_healthy(pods) || !shadows_healthy(shadows) {
        if retry_count < NUM_RETRIES {
            step == (MonitorStep::LookAgain {
                seconds: MONITOR_SLEEP_DURATION,
                retry_count: (retry_count + 1) as usize,
            })
        } else {
            is_failure(step, UNHEALTHY@)
        }
    } else {
        match step {
            MonitorStep::Complete => update_outcome(shadows, Ok(true)),
            MonitorStep::LookAgain { seconds, retry_count: retries } => {
                &&& update_outcome(shadows, Ok(false))
                &&& elapsed_seconds is Some
                &&& elapsed_seconds->0 < expire_time(shadows.len() as int)
                &&& seconds == MONITOR_SLEEP_DURATION
                &&& retries == retry_count
            },
            MonitorStep::Fail(e) => {
                ||| update_outcome(shadows, Err(e))
                ||| {
                    &&& update_outcome(shadows, Ok(false))
                    &&& match elapsed_seconds {
                        None => e is TimeElapsed,
                        Some(s) => s >= expire_time(shadows.len() as int) && is_failure(
                            step,
                            OVERDUE@,
                        ),
                    }
                }
            },
        }
    }
}

/// Whether a step fails for a reason.
pub open spec fn is_failure(step: MonitorStep, reason: Seq<char>) -> bool {
    &&& step is Fail
    &&& step->0 is BrupopMonitor
    &&& step->0->object@ == reason
}

/// A trait providing an interface to monitor brupop process.
pub trait Monitor {
    /// What to do after a look at the cluster. `elapsed_seconds` are the whole seconds since the
    /// monitor started, if the clock can tell.
    fn run_monitor(
        &self,
        retry_count: usize,
        shadows: &Vec<BottlerocketShadow>,
        pods: &Vec<Pod>,
        elapsed_seconds: Option<u64>,
    ) -> (step: MonitorStep)
        requires
            shadows@.len() <= MAX_MONITORED_NODES,
            forall|i: int| 0 <= i < shadows@.len() ==> versions_read((#[trigger] shadows@[i])@),
        ensures
            monitor_step(retry_count, shadows@, pods@, elapsed_seconds, step),
    ;
}

/// Watches the update of a cluster.
#[derive(Copy, Clone, Debug)]
pub struct BrupopMonitor;

impl BrupopMonitor {
    /// A monitor.
    pub fn new() -> (r: Self) {
        BrupopMonitor
    }

    /// verify if Brupop pods (agent, api-server, controller) are in `running` status.
    pub fn check_pods_health(&self, pods: &Vec<Pod>) -> (r: bool)
        ensures
            r == pods_healthy(pods@),
    {
        if pods.len() == 0 {
            return false;
        }
        let mut i: usize = 0;
        while i < pods.len()
            invariant
                i <= pods@.len(),
                forall|j: int| 0 <= j < i ==> (#[trigger] pods@[j])@ == Some(Some("Running"@)),
            decreases pods@.len() - i,
        {
            if !is_pod_running(&pods[i]) {
                assert(pods@[i as int]@ != Some(Some("Running"@)));
                return false;
            }
            i = i + 1;
        }
        true
    }

    /// verify if brs has been created properly and initialized `status`.
    pub fn check_shadows_health(&self, bottlerocketshadows: &Vec<BottlerocketShadow>) -> (r: bool)
        ensures
            r == shadows_healthy(bottlerocketshadows@),
    {
        if bottlerocketshadows.len() == 0 {
            return false;
        }
        let mut i: usize = 0;
        while i < bottlerocketshadows.len()
            invariant
                i <= bottlerocketshadows@.len(),
                forall|j: int|
                    0 <= j < i ==> (#[trigger] bottlerocketshadows@[j])@.status is Some,
            decreases bottlerocketshadows@.len() - i,
        {
            if bottlerocketshadows[i].status.is_none() {
                assert(bottlerocketshadows@[i as int]@.status is None);
                return false;
            }
            i = i + 1;
        }
        true
    }

    /// confirm that the instances successfully made it to the target version and the Idle state
    pub fn confirm_update_success(&self, bottlerocketshadows: &Vec<BottlerocketShadow>) -> (r:
        Result<bool, MonitorError>)
        requires
            forall|i: int|
                0 <= i < bottlerocketshadows@.len() ==> versions_read(
                    (#[trigger] bottlerocketshadows@[i])@,
                ),
        ensures
            update_outcome(bottlerocketshadows@, r),
    {
        let mut update_success = true;
        let mut i: usize = 0;
        while i < bottlerocketshadows.len()
            invariant
                i <= bottlerocketshadows@.len(),
                forall|j: int|
                    0 <= j < bottlerocketshadows@.len() ==> versions_read(
                        (#[trigger] bottlerocketshadows@[j])@,
                    ),
                forall|j: int|
                    0 <= j < i ==> defect((#[trigger] bottlerocketshadows@[j])@) is None,
                update_success == forall|j: int|
                    0 <= j < i ==> is_updated((#[trigger] bottlerocketshadows@[j])@.status->0),
            decreases bottlerocketshadows@.len() - i,
        {
            let shadow = &bottlerocketshadows[i];
            assert(versions_read(bottlerocketshadows@[i as int]@));
            match &shadow.status {
                None => {
                    assert(defect(bottlerocketshadows@[i as int]@) == Some(
                        MonitorError::MissingBottlerocketShadowStatus,
                    ));
                    return Err(MonitorError::MissingBottlerocketShadowStatus);
                },
                Some(status) => {
                    let current = status.current_version();
                    let target = status.target_version();
                    let same = str_eq(current.to_text().as_str(), target.to_text().as_str());
                    let idle = status.current_state == BottlerocketShadowState::Idle;
                    assert(bottlerocketshadows@[i as int]@.status == Some(status@));
                    assert((same && idle) == is_updated(status@));
                    if !same || !idle {
                        update_success = false;
                    }
                    if shadow.metadata.name.is_none() {
                        assert(defect(bottlerocketshadows@[i as int]@) == Some(
                            MonitorError::BottlerocketShadowName,
                        ));
                        return Err(MonitorError::BottlerocketShadowName);
                    }
                },
            }
            i = i + 1;
        }
        Ok(update_success)
    }

    /// Whether the versions of all objects that have a status can be read.
    pub fn versions_are_readable(&self, shadows: &Vec<BottlerocketShadow>) -> (r: bool)
        ensures
            r == forall|i: int| 0 <= i < shadows@.len() ==> versions_read((#[trigger] shadows@[i])@),
    {
        let mut i: usize = 0;
        while i < shadows.len()
            invariant
                i <= shadows@.len(),
                forall|j: int| 0 <= j < i ==> versions_read((#[trigger] shadows@[j])@),
            decreases shadows@.len() - i,
        {
            if let Some(status) = &shadows[i].status {
                if !status.is_well_formed() {
                    assert(!versions_read(shadows@[i as int]@));
                    return false;
                }
            }
            assert(versions_read(shadows@[i as int]@));
            i = i + 1;
        }
        true
    }

    /// What to do after a look at the cluster; none where a version cannot be read or there are
    /// more nodes than the estimate is defined for.
    pub fn checked_run_monitor(
        &self,
        retry_count: usize,
        shadows: &Vec<BottlerocketShadow>,
        pods: &Vec<Pod>,
        elapsed_seconds: Option<u64>,
    ) -> (r: Option<MonitorStep>)
        ensures
            match r {
                Some(step) => monitor_step(retry_count, shadows@, pods@, elapsed_seconds, step),
                None => shadows@.len() > MAX_MONITORED_NODES || exists|i: int|
                    0 <= i < shadows@.len() && !versions_read((#[trigger] shadows@[i])@),
            },
            r is Some <==> shadows@.len() <= MAX_MONITORED_NODES && all_versions_read(shadows@),
    {
        if shadows.len() > MAX_MONITORED_NODES || !self.versions_are_readable(shadows) {
            return None;
        }
        Some(self.run_monitor(retry_count, shadows, pods, elapsed_seconds))
    }
}

impl Monitor for BrupopMonitor {
    fn run_monitor(
        &self,
        retry_count: usize,
        shadows: &Vec<BottlerocketShadow>,
        pods: &Vec<Pod>,
        elapsed_seconds: Option<u64>,
    ) -> (step: MonitorStep) {
        if !self.check_pods_health(pods) || !self.check_shadows_health(shadows) {
            if retry_count < NUM_RETRIES {
                return MonitorStep::LookAgain {
                    seconds: MONITOR_SLEEP_DURATION,
                    retry_count: retry_count + 1,
                };
            }
            return MonitorStep::Fail(
                MonitorError::BrupopMonitor { object: String::from_str(UNHEALTHY) },
            );
        }
        match self.confirm_update_success(shadows) {
            Err(e) => MonitorStep::Fail(e),
            Ok(true) => MonitorStep::Complete,
            Ok(false) => {
                let limit: i32 = estimate_expire_time(shadows.len() as i32);
                match elapsed_seconds {
                    None => MonitorStep::Fail(MonitorError::TimeElapsed),
                    Some(s) => {
                        if s >= limit as u64 {
                            MonitorStep::Fail(
                                MonitorError::BrupopMonitor { object: String::from_str(OVERDUE) },
                            )
                        } else {
                            MonitorStep::LookAgain {
                                seconds: MONITOR_SLEEP_DURATION,
                                retry_count,
                            }
                        }
                    },
                }
            },
        }
    }
}

/// The monitor ends well only on a cluster whose pods all run and whose nodes are all idle at
/// their target version.
pub proof fn complete_means_updated(
    retry_count: usize,
    shadows: Seq<BottlerocketShadow>,
    pods: Seq<Pod>,
    elapsed_seconds: Option<u64>,
)
    requires
        monitor_step(retry_count, shadows, pods, elapsed_seconds, MonitorStep::Complete),
    ensures
        pods_healthy(pods),
        shadows_healthy(shadows),
        forall|i: int| 0 <= i < shadows.len() ==> is_updated((#[trigger] shadows[i])@.status->0),
{
}

/// The monitor comes to an end: an unhealthy cluster uses up a retry of which there are only a
/// few, and on a healthy one it does not look again once the update is overdue.
pub proof fn monitor_ends(
    retry_count: usize,
    shadows: Seq<BottlerocketShadow>,
    pods: Seq<Pod>,
    elapsed_seconds: Option<u64>,
    step: MonitorStep,
)
    requires
        monitor_step(retry_count, shadows, pods, elapsed_seconds, step),
        step is LookAgain,
    ensures
        step->retry_count == retry_count + 1 && step->retry_count <= NUM_RETRIES || (
        step->retry_count == retry_count && elapsed_seconds is Some && elapsed_seconds->0
            < expire_time(shadows.len() as int)),
{
}

} // verus!
