//! Draining Pods from a Kubernetes Node, similar to `kubectl drain`.
//!
//! Draining in Kubernetes is done client side, and is typically a combination of "cordoning" a Node by
//! marking it as unschedulable, followed by deleting (or evicting, which is a distinct concept) Pods from the
//! Node. This implementation uses evictions, which respect PodDisruptionBudgets (PDBs).

use vstd::prelude::*;
use vstd::string::*;

use crate::models::meta::{text_option, ObjectMeta, ObjectMetaView, OwnerReference, OwnerReferenceView};
use crate::retry::{backoff, exponential_delays};
use crate::text::{concat2, concat5, str_eq};

verus! {

// Maximum number of Pods to evict concurrently. Waiting for Pods to be deleted is included in this limitation.
// Eviction retries are slow under typical conditions, but we don't want to generate too many TPS to Kubernetes.
// Keeping this relatively low is probably a good idea.
pub const CONCURRENT_EVICTIONS: usize = 5;

// When waiting for a PodDisruptionBudget to be satisfied, or if there is a server error, we stall for a fixed number of
// seconds between eviction attempts. `kubectl drain` similarly waits 5 seconds between eviction attempts.
pub const EVICTION_RETRY_INTERVAL: u64 = 5;

// After evictions are created, we wait for the Pods to be deleted by Kubernetes.
// These constants define the seconds between checks of the Pods, as well as the max seconds to wait.
pub const DELETION_CHECK_INTERVAL: u64 = 5;

// `kubectl drain` by default will wait "forever" for an eviction to complete. We follow suit.
pub const DELETION_TIMEOUT: u64 = u64::MAX;

// Some errors while attempting evictions result in retries with exponential backoff.
// These values configure how many milliseconds to delay between tries.
// We should be tenacious in attempting retries, as some workloads are sensitive to being suddenly interrupted.
pub const RETRY_BASE_DELAY: u64 = 100;

pub const RETRY_MAX_DELAY: u64 = 20_000;

pub const NUM_RETRIES: usize = 10;

/// The annotation of a static mirror pod.
pub const MIRROR_ANNOTATION: &'static str = "kubernetes.io/config.mirror";

/// A pod, as far as draining looks at it.
#[derive(Debug)]
pub struct Pod {
    pub metadata: ObjectMeta,
    /// The phase in the status of the pod.
    pub phase: Option<String>,
}

/// The contents of a `Pod`.
pub struct PodView {
    pub metadata: ObjectMetaView,
    pub phase: Option<Seq<char>>,
}

impl View for Pod {
    type V = PodView;

    open spec fn view(&self) -> PodView {
        PodView { metadata: self.metadata@, phase: text_option(self.phase) }
    }
}

/// Pods as their contents.
pub open spec fn pod_views(pods: Seq<Pod>) -> Seq<PodView> {
    pods.map_values(|p: Pod| p@)
}

/// Whether an owner is the controlling DaemonSet.
pub open spec fn is_daemon_set(o: OwnerReferenceView) -> bool {
    o.controller == Some(true) && o.kind == "DaemonSet"@
}

/// Whether a pod is controlled by a DaemonSet.
pub open spec fn in_daemon_set(pod: PodView) -> bool {
    pod.metadata.owner_references is Some && exists|i: int|
        0 <= i < pod.metadata.owner_references->0.len() && is_daemon_set(
            #[trigger] pod.metadata.owner_references->0[i],
        )
}

/// Whether a pod is a static mirror pod.
pub open spec fn is_mirror(pod: PodView) -> bool {
    pod.metadata.annotations is Some && pod.metadata.annotations->0.contains_key(
        MIRROR_ANNOTATION@,
    )
}

/// Whether a pod has run to its end.
pub open spec fn is_completed(pod: PodView) -> bool {
    pod.phase == Some("Failed"@) || pod.phase == Some("Succeeded"@)
}

/// Whether a pod is evicted in a drain: all but those of DaemonSets, which do not respect node
/// cordons, and static mirror pods, which cannot be controlled; completed ones in any case.
pub open spec fn is_drained(pod: PodView) -> bool {
    is_completed(pod) || !(in_daemon_set(pod) || is_mirror(pod))
}

fn owned_by_daemon_set(owners: &Vec<OwnerReference>) -> (r: bool)
    ensures
        r == exists|i: int| 0 <= i < owners@.len() && is_daemon_set((#[trigger] owners@[i])@),
{
    let mut i: usize = 0;
    while i < owners.len()
        invariant
            i <= owners@.len(),
            forall|j: int| 0 <= j < i ==> !is_daemon_set((#[trigger] owners@[j])@),
        decreases owners@.len() - i,
    {
        let controller = match owners[i].controller {
            Some(c) => c,
            None => false,
        };
        if controller && str_eq(owners[i].kind.as_str(), "DaemonSet") {
            assert(is_daemon_set(owners@[i as int]@));
            return true;
        }
        i = i + 1;
    }
    false
}

fn should_drain(pod: &Pod) -> (r: bool)
    ensures
        r == is_drained(pod@),
{
    // Any completed pod can remain.
    match &pod.phase {
        Some(phase) => {
            if str_eq(phase.as_str(), "Failed") || str_eq(phase.as_str(), "Succeeded") {
                return true;
            }
        },
        None => {},
    }
    // Ignore daemonset pods, as the DaemonSet controller ignores node cordons.
    match &pod.metadata.owner_references {
        Some(owner_references) => {
            let owned = owned_by_daemon_set(owner_references);
            proof {
                let owners = pod@.metadata.owner_references->0;
                assert forall|i: int| 0 <= i < owners.len() implies #[trigger] owners[i]
                    == owner_references@[i]@ by {}
                if owned {
                    let i = choose|i: int|
                        0 <= i < owner_references@.len() && is_daemon_set(
                            (#[trigger] owner_references@[i])@,
                        );
                    assert(is_daemon_set(owners[i]));
                } else {
                    assert forall|i: int| 0 <= i < owners.len() implies !is_daemon_set(
                        #[trigger] owners[i],
                    ) by {
                        assert(owners[i] == owner_references@[i]@);
                    }
                }
            }
            if owned {
                // TODO: Kubectl's drain evicts "orphaned" pods, where the owning DaemonSet no longer exists.
                return false;
            }
        },
        None => {},
    }
    // Ignore static mirror pods, they cannot be controlled.
    match &pod.metadata.annotations {
        Some(annotations) => annotations.get(MIRROR_ANNOTATION).is_none(),
        None => true,
    }
}

/// The pods that are evicted, in their order.
pub open spec fn drained(pods: Seq<PodView>) -> Seq<PodView> {
    pods.filter(|p: PodView| is_drained(p))
}

/// Given a list of all pods for a given node, this filters out pods which we do not want to attempt to drain.
/// By default, we skip daemonset and static Mirror pods.
pub fn filter_pods(pods: Vec<Pod>) -> (r: Vec<Pod>)
    ensures
        pod_views(r@) == drained(pod_views(pods@)),
{
    let mut rest = pods;
    let ghost all = pod_views(rest@);
    let mut kept: Vec<Pod> = Vec::new();
    let ghost mut done: int = 0;
    proof {
        reveal(Seq::filter);
        assert(all.take(0) =~= Seq::<PodView>::empty());
        assert(pod_views(kept@) =~= drained(all.take(0)));
        assert(all.skip(0) =~= all);
    }
    while rest.len() > 0
        invariant
            0 <= done <= all.len(),
            rest@.len() == all.len() - done,
            pod_views(rest@) == all.skip(done),
            pod_views(kept@) == drained(all.take(done)),
        decreases rest@.len(),
    {
        let ghost before = rest@;
        let ghost was = kept@;
        let pod = rest.remove(0);
        proof {
            reveal(Seq::filter);
            assert(pod@ == all.skip(done)[0]) by {
                assert(pod_views(before)[0] == before[0]@);
            }
            assert(all.take(done + 1).drop_last() =~= all.take(done));
            assert(all.take(done + 1).last() == pod@);
            assert(pod_views(rest@) =~= pod_views(before).skip(1));
            assert(all.skip(done).skip(1) =~= all.skip(done + 1));
        }
        if should_drain(&pod) {
            let ghost view = pod@;
            kept.push(pod);
            assert(pod_views(kept@) =~= pod_views(was).push(view));
        }
        proof {
            done = done + 1;
        }
    }
    assert(all.take(done) =~= all);
    kept
}

/// The field selector of the pods on a node.
pub fn target_pods_selector(node_name: &str) -> (r: String)
    ensures
        r@ == "spec.nodeName="@ + node_name@,
{
    concat2("spec.nodeName=", node_name)
}

/// Why a drain fails. What came from outside is held as its text.
#[derive(Debug)]
pub enum DrainError {
    FindTargetPods { source: String, node_name: String },
    /// A pod was not deleted within some seconds.
    WaitForDeletion { pod_name: String, max_wait: u64 },
}

/// What is said where the pods of a node cannot be found.
pub open spec fn find_target_pods_message(node_name: Seq<char>, source: Seq<char>) -> Seq<char> {
    "Unable to find drainable Pods for Node '"@ + node_name + "': '"@ + source + "'"@
}

/// What is said where the pods of a node cannot be found.
pub fn find_target_pods_text(node_name: &str, source: &str) -> (r: String)
    ensures
        r@ == find_target_pods_message(node_name@, source@),
{
    concat5("Unable to find drainable Pods for Node '", node_name, "': '", source, "'")
}

/// Finds all pods on a given node that are targeted for eviction during a drain, from the pods
/// that are listed for it.
pub fn find_target_pods(node_name: &String, listed: Result<Vec<Pod>, String>) -> (r: Result<
    Vec<Pod>,
    DrainError,
>)
    ensures
        match listed {
            Ok(pods) => r is Ok && pod_views(r->Ok_0@) == drained(pod_views(pods@)),
            Err(source) => r == Err::<Vec<Pod>, DrainError>(
                DrainError::FindTargetPods { source, node_name: *node_name },
            ),
        },
{
    match listed {
        Ok(pods) => Ok(filter_pods(pods)),
        Err(source) => Err(DrainError::FindTargetPods { source, node_name: node_name.clone() }),
    }
}

/// What the drain of a pod came to.
#[derive(Debug)]
pub enum PodOutcome {
    Deleted,
    NotEvicted(EvictionError),
    NotDeleted(DrainError),
}

/// What the drain of a node came to, from what it came to for each of its pods, where these were
/// found.
///
/// If an eviction for a Pod fails, it's either because:
/// * The eviction would never succeed (the Pod doesn't exist, we lack permissions to evict them, etc)
/// * The eviction may succeed, but we have retried many times and hit possibly transient errors.
/// In either case, we proceed with the drain, ultimately reporting success.
/// We want to avoid triggering an endless retry loop if we have mistakenly labelled an error as transient
/// when it is not. Deletions that do not complete within the given time limit are ultimately ignored too.
pub fn drain_node(outcomes: Result<Vec<PodOutcome>, DrainError>) -> (r: Result<(), DrainError>)
    ensures
        r == match outcomes {
            Ok(_) => Ok::<(), DrainError>(()),
            Err(e) => Err(e),
        },
{
    match outcomes {
        Ok(_) => Ok(()),
        Err(e) => Err(e),
    }
}

/// How the Kubernetes API answered a request. An error is held as its text.
#[derive(Debug)]
pub enum Response {
    Success,
    /// An error with a status code.
    ErrorCode { code: u16, source: String },
    /// The API could not be asked.
    Unreachable { source: String },
}

/// An error in an eviction.
#[derive(Debug)]
pub enum EvictionError {
    /// An error occurred while attempting to evict a Pod. This may result in an attempt to retry the eviction.
    RetriableEviction { source: String, pod_name: String },
    /// A fatal error occurred while attempting to evict a Pod. This will not be retried.
    NonRetriableEviction { source: String, pod_name: String },
}

impl EvictionError {
    pub fn should_retry(&self) -> (r: bool)
        ensures
            r == (self is RetriableEviction),
    {
        match self {
            Self::RetriableEviction { .. } => true,
            Self::NonRetriableEviction { .. } => false,
        }
    }

    /// The error in words.
    pub open spec fn message(self) -> Seq<char> {
        match self {
            EvictionError::RetriableEviction { source, pod_name } =>
            "Unable to create eviction for Pod '"@ + pod_name@ + "': '"@ + source@ + "'"@,
            EvictionError::NonRetriableEviction { source, pod_name } =>
            "Unable to create eviction for Pod '"@ + pod_name@ + "': '"@ + source@ + "'"@,
        }
    }

    /// The error in words.
    pub fn to_text(&self) -> (r: String)
        ensures
            r@ == self.message(),
    {
        let (source, pod_name) = match self {
            Self::RetriableEviction { source, pod_name } => (source, pod_name),
            Self::NonRetriableEviction { source, pod_name } => (source, pod_name),
        };
        concat5(
            "Unable to create eviction for Pod '",
            pod_name.as_str(),
            "': '",
            source.as_str(),
            "'",
        )
    }
}

/// What an answer to an eviction request comes to.
#[derive(Debug)]
pub enum EvictionStep {
    Evicted,
    /// A budget is not satisfied or misconfigured: wait and ask again.
    WaitForBudget,
    Failed(EvictionError),
}

/// What an answer to a request to evict a pod comes to.
///
/// When evicting a node, a 429 response code is used to indicate that we must wait to allow a PodDisruptionBudget (PDB) to be satisfied.
/// If there is some kind of misconfiguration (e.g. multiple PDBs that refer to the same Pod), you get a 500.
/// A pod that does not exist (404), or that may not be evicted (403), is not asked for again.
pub open spec fn eviction_step(pod_name: String, response: Response) -> EvictionStep {
    match response {
        Response::Success => EvictionStep::Evicted,
        Response::ErrorCode { code, source } => if code == 429 || code == 500 {
            EvictionStep::WaitForBudget
        } else if code == 404 || code == 403 {
            EvictionStep::Failed(EvictionError::NonRetriableEviction { source, pod_name })
        } else {
            EvictionStep::Failed(EvictionError::RetriableEviction { source, pod_name })
        },
        Response::Unreachable { source } => EvictionStep::Failed(
            EvictionError::RetriableEviction { source, pod_name },
        ),
    }
}

/// What an answer to a request to evict a pod comes to.
pub fn classify_eviction(pod_name: &String, response: Response) -> (r: EvictionStep)
    ensures
        r == eviction_step(*pod_name, response),
{
    let pod_name = pod_name.clone();
    match response {
        Response::Success => EvictionStep::Evicted,
        Response::ErrorCode { code, source } => {
            if code == 429 {
                // This is likely due to respecting a Pod Disruption Budget.
                EvictionStep::WaitForBudget
            } else if code == 500 {
                // Check for misconfigured PodDisruptionBudgets.
                EvictionStep::WaitForBudget
            } else if code == 404 {
                EvictionStep::Failed(EvictionError::NonRetriableEviction { source, pod_name })
            } else if code == 403 {
                // An eviction request in a deleting namespace will throw a forbidden error.
                // `kubectl drain` will still wait for these pods to be deleted; the answer is not
                // granular enough to determine if we can proceed, so we ignore these.
                EvictionStep::Failed(EvictionError::NonRetriableEviction { source, pod_name })
            } else {
                EvictionStep::Failed(EvictionError::RetriableEviction { source, pod_name })
            }
        },
        Response::Unreachable { source } => EvictionStep::Failed(
            EvictionError::RetriableEviction { source, pod_name },
        ),
    }
}

/// What is done after an answer to an eviction request.
#[derive(Debug)]
pub enum EvictionAction {
    /// The pod is evicted: wait for its deletion.
    WaitForDeletion,
    /// Ask again after a number of seconds.
    AskAgain(u64),
    /// Ask again after at most a number of milliseconds, spread at random.
    Retry(u64),
    GiveUp(EvictionError),
}

/// What is done after an answer to a request to evict a pod, and the number of retries that are
/// then used up. Waiting for a budget uses up no retry.
pub open spec fn after_eviction(pod_name: String, retries: nat, response: Response) -> (
    nat,
    EvictionAction,
) {
    match eviction_step(pod_name, response) {
        EvictionStep::Evicted => (retries, EvictionAction::WaitForDeletion),
        EvictionStep::WaitForBudget => (
            retries,
            EvictionAction::AskAgain(EVICTION_RETRY_INTERVAL),
        ),
        EvictionStep::Failed(e) => if e is RetriableEviction && retries < NUM_RETRIES {
            (
                retries + 1,
                EvictionAction::Retry(
                    backoff(RETRY_BASE_DELAY as nat, RETRY_MAX_DELAY as nat, retries) as u64,
                ),
            )
        } else {
            (retries, EvictionAction::GiveUp(e))
        },
    }
}

/// Create an eviction for the desired Pod: what is done after an answer to the request.
///
/// It's possible for an eviction to become stuck: the eviction API will never return anything other than 429 or 500. This would be due to invalid PDBs, or PDBs
/// which cannot be satisifed with the current cluster resources. In these cases, Brupop will continuously retry to evict rather than clobber an attempt to
/// protect cluster resources with PDBs. Operators must intervene manually.
/// See https://kubernetes.io/docs/tasks/administer-cluster/safely-drain-node/#stuck-evictions for details.
pub fn evict_pod(pod_name: &String, retries: usize, response: Response) -> (r: (
    usize,
    EvictionAction,
))
    ensures
        (r.0 as nat, r.1) == after_eviction(*pod_name, retries as nat, response),
{
    match classify_eviction(pod_name, response) {
        EvictionStep::Evicted => (retries, EvictionAction::WaitForDeletion),
        EvictionStep::WaitForBudget => (
            retries,
            EvictionAction::AskAgain(EVICTION_RETRY_INTERVAL),
        ),
        EvictionStep::Failed(e) => {
            if e.should_retry() && retries < NUM_RETRIES {
                let delays = retry_strategy();
                (retries + 1, EvictionAction::Retry(delays[retries]))
            } else {
                (retries, EvictionAction::GiveUp(e))
            }
        },
    }
}

/// The delays, in milliseconds, between attempts to evict a pod, before they are spread at random.
pub fn retry_strategy() -> (r: Vec<u64>)
    ensures
        r@.len() == NUM_RETRIES,
        forall|i: int| 0 <= i < NUM_RETRIES ==> (#[trigger] r@[i]) == backoff(
            RETRY_BASE_DELAY as nat,
            RETRY_MAX_DELAY as nat,
            i as nat,
        ),
{
    exponential_delays(RETRY_BASE_DELAY, RETRY_MAX_DELAY, NUM_RETRIES)
}

/// What is done after a look whether a pod is deleted.
#[derive(Debug)]
pub enum DeletionStep {
    Deleted,
    /// Look again after a number of seconds.
    LookAgain(u64),
    TimedOut(DrainError),
}

/// Whether some seconds and nanoseconds are longer than some seconds.
pub open spec fn longer_than(elapsed: (u64, u32), seconds: u64) -> bool {
    elapsed.0 > seconds || (elapsed.0 == seconds && elapsed.1 > 0)
}

/// What is done after a look whether a pod is deleted, some seconds and nanoseconds after the
/// first one. Only an answer of 404 shows that it is.
pub open spec fn deletion_step(
    pod_name: String,
    response: Response,
    elapsed: (u64, u32),
) -> DeletionStep {
    if response is ErrorCode && response->code == 404 {
        DeletionStep::Deleted
    } else if longer_than(elapsed, DELETION_TIMEOUT) {
        DeletionStep::TimedOut(
            DrainError::WaitForDeletion { pod_name, max_wait: DELETION_TIMEOUT },
        )
    } else {
        DeletionStep::LookAgain(DELETION_CHECK_INTERVAL)
    }
}

/// Wait for the given Pod to be deleted by Kubernetes: what is done after a look.
pub fn wait_for_deletion(pod_name: &String, response: &Response, elapsed: (u64, u32)) -> (r:
    DeletionStep)
    ensures
        r == deletion_step(*pod_name, *response, elapsed),
{
    match response {
        Response::ErrorCode { code: 404, .. } => {
            return DeletionStep::Deleted;
        },
        _ => {},
    }
    if elapsed.0 > DELETION_TIMEOUT || (elapsed.0 == DELETION_TIMEOUT && elapsed.1 > 0) {
        DeletionStep::TimedOut(
            DrainError::WaitForDeletion {
                pod_name: pod_name.clone(),
                max_wait: DELETION_TIMEOUT,
            },
        )
    } else {
        DeletionStep::LookAgain(DELETION_CHECK_INTERVAL)
    }
}

/// An unsatisfied budget is waited for as often as it takes: it never ends an eviction and uses
/// up no retry.
pub proof fn budgets_are_respected(pod_name: String, retries: nat, code: u16, source: String)
    requires
        code == 429 || code == 500,
    ensures
        after_eviction(pod_name, retries, Response::ErrorCode { code, source }) == (
            retries,
            EvictionAction::AskAgain(EVICTION_RETRY_INTERVAL),
        ),
{
}

/// An eviction is given up at once where the pod is gone or may not be evicted, and otherwise
/// only once all retries are used up.
pub proof fn eviction_is_tenacious(pod_name: String, retries: nat, response: Response)
    ensures
        after_eviction(pod_name, retries, response).1 is GiveUp ==> (response is ErrorCode && (
        response->code == 404 || response->code == 403)) || retries >= NUM_RETRIES,
        retries <= NUM_RETRIES ==> after_eviction(pod_name, retries, response).0 <= NUM_RETRIES,
{
}

/// A pod that neither belongs to a DaemonSet nor is a mirror pod is always evicted, and a running
/// pod that is one of these never is.
pub proof fn drain_spares_daemons_and_mirrors(pod: PodView)
    ensures
        !in_daemon_set(pod) && !is_mirror(pod) ==> is_drained(pod),
        (in_daemon_set(pod) || is_mirror(pod)) && !is_completed(pod) ==> !is_drained(pod),
{
}

} // verus!
