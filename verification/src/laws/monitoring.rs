//! The monitor of an integration test: when it is done, when it looks again, and when it gives up.

use vstd::prelude::*;

use crate::integ::monitor::{
    all_versions_read, defect, estimate_expire_time, expire_time, is_pod_running, is_updated,
    monitor_step, pods_healthy, shadows_healthy, update_outcome, versions_read, BrupopMonitor,
    MonitorError, MonitorStep, Pod,
};
use crate::models::node::crd::v2::{BottlerocketShadowState, ShadowView, StatusView};
use crate::models::node::crd::BottlerocketShadow;
use crate::version::semver_parts;

verus! {

/// Whether a pod runs, as its phase says.
pub open spec fn runs(pod: Pod) -> bool {
    pod.status is Some && pod.status->0.phase is Some && pod.status->0.phase->0@ == "Running"@
}

/// A pod runs where its phase says so.
pub proof fn running_pods(pod: &Pod, r: bool)
    requires
        call_ensures(is_pod_running, (pod,), r),
    ensures
        r <==> runs(*pod),
{
}

/// The pods are healthy where there are any and all of them run.
pub proof fn healthy_pods(pods: Seq<Pod>)
    ensures
        pods_healthy(pods) <==> pods.len() > 0 && forall|i: int|
            0 <= i < pods.len() ==> runs(#[trigger] pods[i]),
{
    if pods_healthy(pods) {
        assert forall|i: int| 0 <= i < pods.len() implies runs(#[trigger] pods[i]) by {
            assert(pods[i]@ == Some(Some("Running"@)));
        }
    }
    if pods.len() > 0 && forall|i: int| 0 <= i < pods.len() ==> runs(#[trigger] pods[i]) {
        assert forall|i: int| 0 <= i < pods.len() implies (#[trigger] pods[i])@ == Some(
            Some("Running"@),
        ) by {
            assert(runs(pods[i]));
        }
    }
}

/// The objects are healthy where there are any and all of them have a status.
pub proof fn healthy_objects(shadows: Seq<BottlerocketShadow>)
    ensures
        shadows_healthy(shadows) <==> shadows.len() > 0 && forall|i: int|
            0 <= i < shadows.len() ==> (#[trigger] shadows[i]).status is Some,
{
    if shadows_healthy(shadows) {
        assert forall|i: int| 0 <= i < shadows.len() implies (#[trigger] shadows[i]).status
            is Some by {
            assert(shadows[i]@.status is Some);
        }
    }
    if shadows.len() > 0 && forall|i: int|
        0 <= i < shadows.len() ==> (#[trigger] shadows[i]).status is Some {
        assert forall|i: int| 0 <= i < shadows.len() implies (#[trigger] shadows[i])@.status
            is Some by {
            assert(shadows[i].status is Some);
        }
    }
}

/// A node is updated where it is idle and runs its target version.
pub proof fn updated_nodes(status: StatusView)
    ensures
        is_updated(status) <==> status.current_state == BottlerocketShadowState::Idle
            && status.target_version == status.current_version,
{
}

/// An object without a status is a defect, and so is one without a name.
pub proof fn defects_of_objects(shadow: ShadowView)
    ensures
        defect(shadow) is None <==> shadow.status is Some && shadow.metadata.name is Some,
        shadow.status is None ==> defect(shadow) == Some(
            MonitorError::MissingBottlerocketShadowStatus,
        ),
        shadow.status is Some && shadow.metadata.name is None ==> defect(shadow) == Some(
            MonitorError::BottlerocketShadowName,
        ),
        versions_read(shadow) <==> (shadow.status is Some ==> semver_parts(
            shadow.status->0.current_version,
        ) is Some && semver_parts(shadow.status->0.target_version) is Some),
{
}

/// As long as the cluster is not healthy the monitor looks again every thirty seconds, five times, and
/// then gives up.
pub proof fn monitor_waits_for_health(
    retries: usize,
    shadows: Seq<BottlerocketShadow>,
    pods: Seq<Pod>,
    elapsed: Option<u64>,
    step: MonitorStep,
)
    requires
        monitor_step(retries, shadows, pods, elapsed, step),
        !pods_healthy(pods) || !shadows_healthy(shadows),
    ensures
        retries < 5 ==> step is LookAgain && step->seconds == 30 && step->retry_count == retries + 1,
        retries >= 5 ==> step is Fail && step->0 is BrupopMonitor && step->0->object@
            == "Brupop pods (agent, apisever, controller or BottlerocketShadows) aren't on healthy status"@,
{
}

/// Once the cluster is healthy the monitor is done where every node is updated. Where one is not, it
/// looks again after thirty seconds, which uses up no retry, within the time that is allowed; and
/// after it, or where the clock cannot tell, it gives up.
pub proof fn monitor_waits_for_updates(
    retries: usize,
    shadows: Seq<BottlerocketShadow>,
    pods: Seq<Pod>,
    elapsed: Option<u64>,
    step: MonitorStep,
)
    requires
        monitor_step(retries, shadows, pods, elapsed, step),
        pods_healthy(pods),
        shadows_healthy(shadows),
        forall|i: int|
            0 <= i < shadows.len() ==> (#[trigger] shadows[i])@.metadata.name is Some
                && shadows[i]@.status is Some,
    ensures
        ({
            let done = forall|i: int|
                0 <= i < shadows.len() ==> is_updated((#[trigger] shadows[i])@.status->0);
            let allowed = 300 * shadows.len() + 300;
            &&& done <==> step is Complete
            &&& step is LookAgain <==> !done && elapsed is Some && elapsed->0 < allowed
            &&& step is LookAgain ==> step->seconds == 30 && step->retry_count == retries
            &&& !done && elapsed is None ==> step is Fail && step->0 is TimeElapsed
            &&& !done && elapsed is Some && elapsed->0 >= allowed ==> step is Fail
                && step->0 is BrupopMonitor && step->0->object@
                == "Monitor exceeds the estimated update time limit"@
        }),
{
    assert forall|i: int| 0 <= i < shadows.len() implies defect((#[trigger] shadows[i])@)
        is None by {
        assert(shadows[i]@.metadata.name is Some);
    }
}

/// A healthy cluster with an object that has no name ends the monitor.
pub proof fn monitor_needs_names(
    retries: usize,
    shadows: Seq<BottlerocketShadow>,
    pods: Seq<Pod>,
    elapsed: Option<u64>,
    step: MonitorStep,
    k: int,
)
    requires
        monitor_step(retries, shadows, pods, elapsed, step),
        pods_healthy(pods),
        shadows_healthy(shadows),
        0 <= k < shadows.len(),
        shadows[k]@.metadata.name is None,
    ensures
        step is Fail,
        step->0 is BottlerocketShadowName,
{
    assert(shadows[k]@.status is Some);
    assert(defect(shadows[k]@) is Some);
    if step is Fail {
        if update_outcome(shadows, Err(step->0)) {
            let j = choose|j: int|
                {
                    &&& 0 <= j < shadows.len()
                    &&& defect((#[trigger] shadows[j])@) == Some(step->0)
                    &&& forall|i: int| 0 <= i < j ==> defect((#[trigger] shadows[i])@) is None
                };
            assert(shadows[j]@.status is Some);
        }
    }
}

/// An update is allowed five minutes for each node, and five more.
pub proof fn time_that_is_allowed(nodes: int, n: i32, r: i32)
    requires
        call_ensures(estimate_expire_time, (n,), r),
        -1_000 <= n <= 1_000,
    ensures
        expire_time(0) == 300,
        expire_time(nodes + 1) == expire_time(nodes) + 300,
        r == 300 * n + 300,
{
}

/// The versions of all objects can be read where those of each one can.
pub proof fn versions_of_all_objects(shadows: Seq<BottlerocketShadow>)
    ensures
        all_versions_read(shadows) <==> forall|i: int|
            0 <= i < shadows.len() && (#[trigger] shadows[i])@.status is Some ==> semver_parts(
                shadows[i]@.status->0.current_version,
            ) is Some && semver_parts(shadows[i]@.status->0.target_version) is Some,
{
    if all_versions_read(shadows) {
        assert forall|i: int|
            0 <= i < shadows.len() && (#[trigger] shadows[i])@.status is Some implies semver_parts(
            shadows[i]@.status->0.current_version,
        ) is Some && semver_parts(shadows[i]@.status->0.target_version) is Some by {
            assert(versions_read(shadows[i]@));
        }
    }
}

/// The monitor takes the step that the laws say, for as many nodes as its time can be counted for.
pub proof fn monitor_takes_its_steps(
    monitor: &BrupopMonitor,
    retries: usize,
    shadows: &Vec<BottlerocketShadow>,
    pods: &Vec<Pod>,
    elapsed: Option<u64>,
    r: Option<MonitorStep>,
)
    requires
        call_ensures(
            BrupopMonitor::checked_run_monitor,
            (monitor, retries, shadows, pods, elapsed),
            r,
        ),
    ensures
        r is Some <==> shadows@.len() <= 7_158_277 && all_versions_read(shadows@),
        r is Some ==> monitor_step(retries, shadows@, pods@, elapsed, r->0),
{
}

} // verus!
