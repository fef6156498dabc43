//! The drain of a node: which pods are evicted, and how an eviction goes on.

use vstd::arithmetic::power::{lemma_pow1, lemma_pow_adds, lemma_pow_positive, pow};
use vstd::prelude::*;

use crate::models::node::drain::{
    after_eviction, deletion_step, drained, eviction_step, in_daemon_set, is_daemon_set, is_drained,
    DeletionStep, DrainError, EvictionAction, EvictionError, PodView, Response,
};
use crate::retry::backoff;

verus! {

/// Whether one of the owners of a pod is a DaemonSet that controls it.
pub open spec fn has_daemon_owner(pod: PodView) -> bool {
    pod.metadata.owner_references is Some && exists|i: int|
        0 <= i < pod.metadata.owner_references->0.len()
            && #[trigger] pod.metadata.owner_references->0[i].kind == "DaemonSet"@
            && pod.metadata.owner_references->0[i].controller == Some(true)
}

/// Whether a pod is spared in a drain: it has not run to its end, and is controlled by a DaemonSet or
/// bears the annotation of mirror pods.
pub open spec fn is_spared(pod: PodView) -> bool {
    &&& pod.phase != Some("Failed"@)
    &&& pod.phase != Some("Succeeded"@)
    &&& has_daemon_owner(pod) || (pod.metadata.annotations is Some
        && pod.metadata.annotations->0.contains_key("kubernetes.io/config.mirror"@))
}

proof fn lemma_daemon_owner(pod: PodView)
    ensures
        has_daemon_owner(pod) == in_daemon_set(pod),
        is_spared(pod) == !is_drained(pod),
{
    if has_daemon_owner(pod) {
        let i = choose|i: int|
            0 <= i < pod.metadata.owner_references->0.len()
                && #[trigger] pod.metadata.owner_references->0[i].kind == "DaemonSet"@
                && pod.metadata.owner_references->0[i].controller == Some(true);
        assert(is_daemon_set(pod.metadata.owner_references->0[i]));
    }
    if in_daemon_set(pod) {
        let i = choose|i: int|
            0 <= i < pod.metadata.owner_references->0.len()
                && is_daemon_set(
                #[trigger] pod.metadata.owner_references->0[i],
            );
        assert(pod.metadata.owner_references->0[i].kind == "DaemonSet"@);
    }
}

/// A pod without the mirror annotation none of whose owners is of the kind DaemonSet is evicted,
/// whatever kind its owners are of.
pub proof fn pods_without_daemon_set_are_evicted(pods: Seq<PodView>, k: int)
    requires
        0 <= k < pods.len(),
        pods[k].metadata.annotations is None
            || !pods[k].metadata.annotations->0.contains_key("kubernetes.io/config.mirror"@),
        pods[k].metadata.owner_references is Some ==> forall|i: int|
            0 <= i < pods[k].metadata.owner_references->0.len()
                ==> #[trigger] pods[k].metadata.owner_references->0[i].kind != "DaemonSet"@,
    ensures
        drained(pods).contains(pods[k]),
{
    lemma_daemon_owner(pods[k]);
    lemma_drained_members(pods, pods[k]);
    assert(pods.contains(pods[k]));
}

/// A pod whose DaemonSet does not control it is evicted as well.
pub proof fn owners_that_do_not_control_spare_no_pod(pods: Seq<PodView>, k: int)
    requires
        0 <= k < pods.len(),
        pods[k].metadata.annotations is None
            || !pods[k].metadata.annotations->0.contains_key("kubernetes.io/config.mirror"@),
        pods[k].metadata.owner_references is Some ==> forall|i: int|
            0 <= i < pods[k].metadata.owner_references->0.len()
                ==> #[trigger] pods[k].metadata.owner_references->0[i].controller != Some(true),
    ensures
        drained(pods).contains(pods[k]),
{
    if has_daemon_owner(pods[k]) {
        let i = choose|i: int|
            0 <= i < pods[k].metadata.owner_references->0.len()
                && #[trigger] pods[k].metadata.owner_references->0[i].kind == "DaemonSet"@
                && pods[k].metadata.owner_references->0[i].controller == Some(true);
        assert(pods[k].metadata.owner_references->0[i].controller != Some(true));
    }
    lemma_daemon_owner(pods[k]);
    lemma_drained_members(pods, pods[k]);
    assert(pods.contains(pods[k]));
}

proof fn lemma_drained_members(pods: Seq<PodView>, pod: PodView)
    ensures
        drained(pods).contains(pod) <==> pods.contains(pod) && is_drained(pod),
    decreases pods.len(),
{
    reveal(Seq::filter);
    if pods.len() > 0 {
        let rest = pods.drop_last();
        lemma_drained_members(rest, pod);
        assert(pods =~= rest.push(pods.last()));
        assert(rest.push(pods.last()).contains(pod) <==> rest.contains(pod) || pods.last() == pod)
            by {
            lemma_pushed(rest, pods.last(), pod);
        }
        lemma_pushed(drained(rest), pods.last(), pod);
    }
}

proof fn lemma_pushed(s: Seq<PodView>, last: PodView, pod: PodView)
    ensures
        s.push(last).contains(pod) <==> s.contains(pod) || last == pod,
{
    if s.contains(pod) {
        let i = choose|i: int| 0 <= i < s.len() && s[i] == pod;
        assert(s.push(last)[i] == pod);
    }
    if last == pod {
        assert(s.push(last)[s.len() as int] == pod);
    }
    if s.push(last).contains(pod) {
        let i = choose|i: int| 0 <= i < s.push(last).len() && s.push(last)[i] == pod;
        if i < s.len() {
            assert(s[i] == pod);
        }
    }
}

/// The pods that are evicted are those that are listed and not spared.
pub proof fn evicted_pods_are_those_not_spared(pods: Seq<PodView>, pod: PodView)
    ensures
        drained(pods).contains(pod) <==> pods.contains(pod) && !is_spared(pod),
{
    lemma_daemon_owner(pod);
    lemma_drained_members(pods, pod);
}

/// Pods are chosen one by one, and in their order: the choice from two lists is the choice from the
/// first and then that from the second.
pub proof fn pods_are_chosen_one_by_one(first: Seq<PodView>, second: Seq<PodView>, pod: PodView)
    ensures
        drained(first + second) == drained(first) + drained(second),
        is_spared(pod) ==> drained(seq![pod]) == Seq::<PodView>::empty(),
        !is_spared(pod) ==> drained(seq![pod]) == seq![pod],
{
    let keep = |p: PodView| is_drained(p);
    Seq::filter_distributes_over_add(first, second, keep);
    lemma_daemon_owner(pod);
    reveal(Seq::filter);
    let one = seq![pod];
    assert(one.drop_last() =~= Seq::<PodView>::empty());
    assert(one.last() == pod);
    assert(one.drop_last().filter(keep) =~= Seq::<PodView>::empty());
    if is_spared(pod) {
        assert(one.filter(keep) =~= Seq::<PodView>::empty());
    } else {
        assert(one.filter(keep) =~= seq![pod]);
    }
}

/// An eviction that is granted is over: the pod is waited for.
pub proof fn granted_eviction_is_over(pod_name: String, retries: nat)
    ensures
        after_eviction(pod_name, retries, Response::Success) == (
            retries,
            EvictionAction::WaitForDeletion,
        ),
        eviction_step(pod_name, Response::Success) is Evicted,
{
}

/// A code of 429 or 500, and nothing else, is waited out for five seconds at a time, as often as it
/// comes, and uses up no retry.
pub proof fn budget_is_waited_for(pod_name: String, retries: nat, response: Response)
    ensures
        ({
            let (used, action) = after_eviction(pod_name, retries, response);
            let waits = response is ErrorCode && (response->code == 429 || response->code == 500);
            &&& waits <==> action is AskAgain
            &&& waits ==> action == EvictionAction::AskAgain(5) && used == retries
            &&& waits <==> eviction_step(pod_name, response) is WaitForBudget
        }),
{
}

/// A code of 404 or 403 ends an eviction at once.
pub proof fn hopeless_eviction_ends(pod_name: String, retries: nat, code: u16, source: String)
    requires
        code == 404 || code == 403,
    ensures
        after_eviction(pod_name, retries, Response::ErrorCode { code, source }) == (
            retries,
            EvictionAction::GiveUp(EvictionError::NonRetriableEviction { source, pod_name }),
        ),
{
}

/// Any other error is tried again ten times, with each retry counted, and then given up. The error
/// names the pod and what went wrong.
pub proof fn eviction_is_retried_ten_times(
    pod_name: String,
    retries: nat,
    response: Response,
    source: String,
)
    requires
        response == (Response::Unreachable { source }) || (response is ErrorCode && response
            == (Response::ErrorCode { code: response->code, source }) && response->code != 429
            && response->code != 500 && response->code != 404 && response->code != 403),
    ensures
        ({
            let (used, action) = after_eviction(pod_name, retries, response);
            if retries < 10 {
                action is Retry && used == retries + 1
            } else {
                &&& used == retries
                &&& action == EvictionAction::GiveUp(
                    EvictionError::RetriableEviction { source, pod_name },
                )
            }
        }),
{
}

/// The waits before retries: a tenth of a second, ten seconds, and then twenty seconds each time.
pub proof fn eviction_waits(pod_name: String, retries: nat, source: String)
    requires
        retries < 10,
    ensures
        after_eviction(pod_name, retries, Response::Unreachable { source }).1
            == EvictionAction::Retry(
            if retries == 0 {
                100
            } else if retries == 1 {
                10_000
            } else {
                20_000
            },
        ),
{
    lemma_limit_is_kept(retries);
}

proof fn lemma_limit_is_kept(retries: nat)
    ensures
        backoff(100, 20_000, retries) == if retries == 0 {
            100int
        } else if retries == 1 {
            10_000
        } else {
            20_000
        },
    decreases retries,
{
    if retries == 0 {
        delays_are_powers_up_to_a_limit(100, 20_000, 0);
    } else {
        lemma_limit_is_kept((retries - 1) as nat);
        delays_are_powers_up_to_a_limit(100, 20_000, (retries - 1) as nat);
    }
}

/// The first delay is the base and each further one is the base times the one before it, as long as
/// that is within the limit; from then on a delay is the limit.
pub proof fn delays_are_powers_up_to_a_limit(base: nat, max: nat, attempt: nat)
    requires
        base > 0,
    ensures
        base <= max ==> backoff(base, max, 0) == base,
        base > max ==> backoff(base, max, attempt) == max,
        backoff(base, max, attempt) < max ==> backoff(base, max, attempt + 1) == if base * backoff(
            base,
            max,
            attempt,
        ) <= max {
            base * backoff(base, max, attempt)
        } else {
            max as int
        },
        backoff(base, max, attempt) == max ==> backoff(base, max, attempt + 1) == max,
        backoff(base, max, attempt) <= max,
{
    let b = base as int;
    lemma_pow1(b);
    lemma_pow_adds(b, 1, attempt + 1);
    lemma_pow_adds(b, 1, attempt);
    lemma_pow_positive(b, attempt);
    lemma_pow_positive(b, attempt + 1);
    let p = pow(b, attempt);
    assert(b * p >= b) by (nonlinear_arith)
        requires
            p > 0,
            b > 0,
    ;
    let q = pow(b, attempt + 1);
    assert(b * q >= q) by (nonlinear_arith)
        requires
            q > 0,
            b > 0,
    ;
}

/// A pod is deleted where the answer is 404, and only there. Until then it is looked for every five
/// seconds, for as long as the seconds can be counted.
pub proof fn deletion_is_waited_for(pod_name: String, response: Response, elapsed: (u64, u32))
    ensures
        ({
            let step = deletion_step(pod_name, response, elapsed);
            let gone = response is ErrorCode && response->code == 404;
            &&& gone <==> step is Deleted
            &&& step is TimedOut <==> !gone && elapsed.0 == u64::MAX && elapsed.1 > 0
            &&& step is TimedOut ==> step == DeletionStep::TimedOut(
                DrainError::WaitForDeletion { pod_name, max_wait: u64::MAX },
            )
            &&& step is LookAgain ==> step == DeletionStep::LookAgain(5)
        }),
{
}

/// A failed eviction is said in words that name the pod and what went wrong, whether it was tried
/// again or not.
pub proof fn evictions_fail_in_words(source: String, pod_name: String)
    ensures
        (EvictionError::RetriableEviction { source, pod_name }).message() == (
        EvictionError::NonRetriableEviction { source, pod_name }).message(),
        (EvictionError::RetriableEviction { source, pod_name }).message()
            == "Unable to create eviction for Pod '"@ + pod_name@ + "': '"@ + source@ + "'"@,
{
}

} // verus!
