//! Who may change a node: a request is authorized for the node on which the pod of its token runs.

use vstd::prelude::*;

use crate::apiserver::auth::authorizor::{
    audiences_meet, first_value, is_first_pod, pod_at, refusal, tells, AgentPodView, AuthorizorView,
    K8STokenAuthorizor, Refusal, TokenAuthorizor, TokenReviewStatus, TokenReviewStatusView,
};
use crate::apiserver::auth::error::AuthorizationError;
use crate::apiserver::auth::middleware::TokenAuthMiddleware;
use crate::models::node::crd::selector::SelectorView;
use crate::models::node::crd::BottlerocketShadowSelector;

verus! {

/// Whether the review of a token goes well up to the pod that it names: it reports no error, the
/// token is authenticated, and, where we have audiences, the token is for one of them.
pub open spec fn token_is_accepted(a: AuthorizorView, status: TokenReviewStatusView) -> bool {
    &&& status.error is None
    &&& status.authenticated == Some(true)
    &&& a.audiences is Some ==> status.audiences is Some && exists|i: int, j: int|
        0 <= i < a.audiences->0.len() && 0 <= j < status.audiences->0.len()
            && #[trigger] a.audiences->0[i] == #[trigger] status.audiences->0[j]
}

/// Whether the review of a token names a pod: it stands first under the first entry for pod names.
pub open spec fn names_pod(status: TokenReviewStatusView, name: Seq<char>, e: int) -> bool {
    &&& status.extra is Some
    &&& 0 <= e < status.extra->0.len()
    &&& status.extra->0[e].0 == "authentication.kubernetes.io/pod-name"@
    &&& forall|d: int|
        0 <= d < e ==> (#[trigger] status.extra->0[d]).0
            != "authentication.kubernetes.io/pod-name"@
    &&& status.extra->0[e].1.len() > 0
    &&& status.extra->0[e].1[0] == name
}

proof fn lemma_first_value(extra: Seq<(Seq<char>, Seq<Seq<char>>)>, key: Seq<char>, e: int)
    requires
        0 <= e < extra.len(),
        extra[e].0 == key,
        forall|d: int| 0 <= d < e ==> (#[trigger] extra[d]).0 != key,
    ensures
        extra[e].1.len() > 0 ==> first_value(extra, key) == Some(extra[e].1[0]),
        extra[e].1.len() == 0 ==> first_value(extra, key) is None,
    decreases e,
{
    if e > 0 {
        let rest = extra.subrange(1, extra.len() as int);
        assert(extra[0].0 != key);
        assert(rest[e - 1] == extra[e]);
        assert forall|d: int| 0 <= d < e - 1 implies (#[trigger] rest[d]).0 != key by {
            assert(rest[d] == extra[d + 1]);
        }
        lemma_first_value(rest, key, e - 1);
    }
}

proof fn lemma_no_value(extra: Seq<(Seq<char>, Seq<Seq<char>>)>, key: Seq<char>)
    requires
        forall|d: int| 0 <= d < extra.len() ==> (#[trigger] extra[d]).0 != key,
    ensures
        first_value(extra, key) is None,
    decreases extra.len(),
{
    if extra.len() > 0 {
        let rest = extra.subrange(1, extra.len() as int);
        assert forall|d: int| 0 <= d < rest.len() implies (#[trigger] rest[d]).0 != key by {
            assert(rest[d] == extra[d + 1]);
        }
        lemma_no_value(rest, key);
    }
}

proof fn lemma_accepted(a: AuthorizorView, status: TokenReviewStatusView)
    requires
        token_is_accepted(a, status),
    ensures
        a.audiences is Some ==> audiences_meet(
            a.audiences->0,
            status.audiences->0,
        ),
{
    if a.audiences is Some {
        let (i, j) = choose|i: int, j: int|
            0 <= i < a.audiences->0.len() && 0 <= j < status.audiences->0.len()
                && #[trigger] a.audiences->0[i] == #[trigger] status.audiences->0[j];
        assert(status.audiences->0.contains(a.audiences->0[i]));
    }
}

proof fn lemma_first_pod(
    pods: Seq<AgentPodView>,
    name: Seq<char>,
    namespace: Option<Seq<char>>,
    k: int,
)
    requires
        0 <= k < pods.len(),
        pods[k].name == name,
        pods[k].namespace == namespace,
        forall|j: int|
            0 <= j < k ==> (#[trigger] pods[j]).name != name || pods[j].namespace != namespace,
    ensures
        pod_at(pods, name, namespace) == Some(pods[k]),
{
    assert(is_first_pod(pods, name, namespace, k));
    let c = choose|i: int| is_first_pod(pods, name, namespace, i);
    if c < k {
        assert(pods[c].name != name || pods[c].namespace != namespace);
    }
    if k < c {
        assert(pods[k].name != name || pods[k].namespace != namespace);
    }
}

proof fn lemma_no_pod(pods: Seq<AgentPodView>, name: Seq<char>, namespace: Option<Seq<char>>)
    requires
        forall|j: int|
            0 <= j < pods.len() ==> (#[trigger] pods[j]).name != name || pods[j].namespace
                != namespace,
    ensures
        pod_at(pods, name, namespace) is None,
{
    assert forall|i: int| !is_first_pod(pods, name, namespace, i) by {
        if is_first_pod(pods, name, namespace, i) {
            assert(pods[i].name != name || pods[i].namespace != namespace);
        }
    }
}

/// A request for the node of the one known pod of the name that the token gives is authorized, where
/// that pod is of our namespace.
pub proof fn agents_may_change_their_own_node(
    a: AuthorizorView,
    node: SelectorView,
    status: TokenReviewStatusView,
    e: int,
    k: int,
)
    requires
        token_is_accepted(a, status),
        0 <= k < a.pods.len(),
        names_pod(status, a.pods[k].name, e),
        a.pods[k].namespace == Some(a.namespace),
        forall|j: int| 0 <= j < a.pods.len() && j != k ==> (#[trigger] a.pods[j]).name != a.pods[k].name,
        a.pods[k].node_name == Some(node.node_name),
    ensures
        refusal(a, node, status) is None,
{
    lemma_accepted(a, status);
    lemma_first_value(status.extra->0, "authentication.kubernetes.io/pod-name"@, e);
    lemma_first_pod(a.pods, a.pods[k].name, Some(a.namespace), k);
}

/// Of the known pods the first one of our namespace decides: a request is authorized for its node, is
/// refused for any other one, and is refused where it runs on none.
pub proof fn pod_of_our_namespace_decides(
    a: AuthorizorView,
    node: SelectorView,
    status: TokenReviewStatusView,
    name: Seq<char>,
    e: int,
    k: int,
)
    requires
        token_is_accepted(a, status),
        names_pod(status, name, e),
        0 <= k < a.pods.len(),
        a.pods[k].name == name,
        a.pods[k].namespace == Some(a.namespace),
        forall|j: int|
            0 <= j < k ==> (#[trigger] a.pods[j]).name != name || a.pods[j].namespace != Some(
                a.namespace,
            ),
    ensures
        match a.pods[k].node_name {
            Some(n) => if n == node.node_name {
                refusal(a, node, status) is None
            } else {
                refusal(a, node, status) == Some(Refusal::OtherNode(n, node.node_name))
            },
            None => refusal(a, node, status) == Some(Refusal::NoSuchPod(name)),
        },
{
    lemma_accepted(a, status);
    lemma_first_value(status.extra->0, "authentication.kubernetes.io/pod-name"@, e);
    lemma_first_pod(a.pods, name, Some(a.namespace), k);
}

/// Where no known pod of the name is of our namespace, the first one without a namespace decides in
/// its place.
pub proof fn pod_without_namespace_decides_otherwise(
    a: AuthorizorView,
    node: SelectorView,
    status: TokenReviewStatusView,
    name: Seq<char>,
    e: int,
    k: int,
)
    requires
        token_is_accepted(a, status),
        names_pod(status, name, e),
        forall|j: int|
            0 <= j < a.pods.len() ==> (#[trigger] a.pods[j]).name != name || a.pods[j].namespace
                != Some(a.namespace),
        0 <= k < a.pods.len(),
        a.pods[k].name == name,
        a.pods[k].namespace is None,
        forall|j: int|
            0 <= j < k ==> (#[trigger] a.pods[j]).name != name || a.pods[j].namespace is Some,
    ensures
        match a.pods[k].node_name {
            Some(n) => if n == node.node_name {
                refusal(a, node, status) is None
            } else {
                refusal(a, node, status) == Some(Refusal::OtherNode(n, node.node_name))
            },
            None => refusal(a, node, status) == Some(Refusal::NoSuchPod(name)),
        },
{
    lemma_accepted(a, status);
    lemma_first_value(status.extra->0, "authentication.kubernetes.io/pod-name"@, e);
    lemma_no_pod(a.pods, name, Some(a.namespace));
    lemma_first_pod(a.pods, name, None, k);
}

/// A token whose pod is not known, in our namespace or without one, gives access to nothing: pods of
/// other namespaces do not count.
pub proof fn unknown_pods_are_refused(
    a: AuthorizorView,
    node: SelectorView,
    status: TokenReviewStatusView,
    name: Seq<char>,
    e: int,
)
    requires
        token_is_accepted(a, status),
        names_pod(status, name, e),
        forall|j: int|
            0 <= j < a.pods.len() && (#[trigger] a.pods[j]).name == name ==> a.pods[j].namespace is Some
                && a.pods[j].namespace->0 != a.namespace,
    ensures
        refusal(a, node, status) == Some(Refusal::NoSuchPod(name)),
{
    lemma_accepted(a, status);
    lemma_first_value(status.extra->0, "authentication.kubernetes.io/pod-name"@, e);
    lemma_no_pod(a.pods, name, Some(a.namespace));
    lemma_no_pod(a.pods, name, None);
}

/// A review that names no pod is refused: it knows nothing further, or has no entry for pod names,
/// or its first such entry is empty.
pub proof fn nameless_pods_are_refused(
    a: AuthorizorView,
    node: SelectorView,
    status: TokenReviewStatusView,
    e: int,
)
    requires
        token_is_accepted(a, status),
        status.extra is None || (forall|d: int|
            0 <= d < status.extra->0.len() ==> (#[trigger] status.extra->0[d]).0
                != "authentication.kubernetes.io/pod-name"@) || (0 <= e < status.extra->0.len()
            && status.extra->0[e].0 == "authentication.kubernetes.io/pod-name"@
            && status.extra->0[e].1.len() == 0 && forall|d: int|
            0 <= d < e ==> (#[trigger] status.extra->0[d]).0
                != "authentication.kubernetes.io/pod-name"@),
    ensures
        refusal(a, node, status) == Some(Refusal::MissingPodName),
{
    lemma_accepted(a, status);
    if status.extra is Some {
        let extra = status.extra->0;
        let key = "authentication.kubernetes.io/pod-name"@;
        if forall|d: int| 0 <= d < extra.len() ==> (#[trigger] extra[d]).0 != key {
            lemma_no_value(extra, key);
        } else {
            lemma_first_value(extra, key, e);
        }
    }
}

/// A request is refused before the pods are looked at where the review reports an error, else where
/// the token is not authenticated, else where we have audiences and the token has none, or none of
/// ours. Nothing else is refused on these grounds.
pub proof fn bad_tokens_are_refused(
    a: AuthorizorView,
    node: SelectorView,
    status: TokenReviewStatusView,
)
    ensures
        ({
            let why = refusal(a, node, status);
            let sound = status.error is None && status.authenticated == Some(true);
            &&& status.error is Some <==> why is Some && why->0 is ServerError
            &&& status.error is Some ==> why == Some(Refusal::ServerError(status.error->0))
            &&& why == Some(Refusal::NotAuthenticated) <==> status.error is None
                && status.authenticated != Some(true)
            &&& why == Some(Refusal::NotAudienceAware) <==> sound && a.audiences is Some
                && status.audiences is None
            &&& why == Some(Refusal::AudienceMismatch) <==> sound && a.audiences is Some
                && status.audiences is Some && !token_is_accepted(a, status)
            &&& why is None ==> token_is_accepted(a, status)
        }),
{
    if token_is_accepted(a, status) {
        lemma_accepted(a, status);
    } else if a.audiences is Some && status.audiences is Some && status.error is None
        && status.authenticated == Some(true) {
        let ours = a.audiences->0;
        let theirs = status.audiences->0;
        assert forall|i: int| 0 <= i < ours.len() implies !theirs.contains(#[trigger] ours[i]) by {
            if theirs.contains(ours[i]) {
                let j = choose|j: int| 0 <= j < theirs.len() && theirs[j] == ours[i];
                assert(ours[i] == theirs[j]);
            }
        }
    }
}

/// Each refusal is told by one error, which carries what the refusal is about.
pub proof fn refusals_are_told(e: AuthorizationError, why: Refusal)
    ensures
        e is TokenNotAuthenticated ==> (tells(e, why) <==> why is NotAuthenticated),
        e is AudienceMismatch ==> (tells(e, why) <==> why is AudienceMismatch),
        e is TokenReviewMissingPodName ==> (tells(e, why) <==> why is MissingPodName
            || why is NotAudienceAware),
        e is TokenReviewServerError ==> (tells(e, why) <==> why == Refusal::ServerError(
            e->TokenReviewServerError_err_msg@,
        )),
        e is NoSuchPod ==> (tells(e, why) <==> why == Refusal::NoSuchPod(e->pod_name@)),
        e is RequesterTargetMismatch ==> (tells(e, why) <==> why == Refusal::OtherNode(
            e->requesting_node@,
            e->target_node@,
        )),
        e is TokenReviewCreate || e is TokenReviewMissingStatus
            || e is TokenReviewServerNotAudienceAware ==> !tells(e, why),
{
}

/// A request is answered with status 500 where the review could not be had or reports an error, and
/// with 403 where it is refused for any other reason.
pub proof fn unauthorized_requests_are_answered(e: AuthorizationError)
    ensures
        e is TokenReviewCreate || e is TokenReviewServerError <==> e.status() == 500,
        e.status() == 500 || e.status() == 403,
{
}

/// A token is authenticated where its review says so.
pub proof fn tokens_are_authenticated(
    a: &K8STokenAuthorizor,
    status: &TokenReviewStatus,
    r: Result<(), AuthorizationError>,
)
    requires
        call_ensures(K8STokenAuthorizor::check_token_has_authenticated, (a, status), r),
    ensures
        r is Ok <==> status.authenticated == Some(true),
        r is Err ==> r->Err_0 is TokenNotAuthenticated,
{
}

/// The audiences of a token are compatible where we have none, or where one of them is ours.
pub proof fn audiences_are_compatible(
    a: &K8STokenAuthorizor,
    status: &TokenReviewStatus,
    r: Result<(), AuthorizationError>,
    i: int,
    j: int,
)
    requires
        call_ensures(K8STokenAuthorizor::check_audiences_are_compatible, (a, status), r),
    ensures
        a@.audiences is None ==> r is Ok,
        a@.audiences is Some && status@.audiences is None ==> r is Err
            && r->Err_0 is TokenReviewMissingPodName,
        a@.audiences is Some && status@.audiences is Some && r is Err
            ==> r->Err_0 is AudienceMismatch,
        a@.audiences is Some && status@.audiences is Some && 0 <= i < a@.audiences->0.len() && 0 <= j
            < status@.audiences->0.len() && a@.audiences->0[i] == status@.audiences->0[j]
            ==> r is Ok,
        a@.audiences is Some && status@.audiences is Some && (forall|k: int, l: int|
            0 <= k < a@.audiences->0.len() && 0 <= l < status@.audiences->0.len()
                ==> #[trigger] a@.audiences->0[k] != #[trigger] status@.audiences->0[l])
            ==> r is Err,
{
    if a@.audiences is Some && status@.audiences is Some {
        let ours = a@.audiences->0;
        let theirs = status@.audiences->0;
        if 0 <= i < ours.len() && 0 <= j < theirs.len() && ours[i] == theirs[j] {
            assert(theirs.contains(ours[i]));
        }
        if audiences_meet(ours, theirs) {
            let k = choose|k: int| 0 <= k < ours.len() && theirs.contains(#[trigger] ours[k]);
            let l = choose|l: int| 0 <= l < theirs.len() && theirs[l] == ours[k];
            assert(ours[k] == theirs[l]);
        }
    }
}

/// The node of a request is the right one where an authorizor that asks for nothing else would not
/// refuse it.
pub proof fn nodes_are_checked_alone(
    a: &K8STokenAuthorizor,
    status: &TokenReviewStatus,
    node: &BottlerocketShadowSelector,
    r: Result<(), AuthorizationError>,
)
    requires
        call_ensures(
            K8STokenAuthorizor::check_requester_is_from_correct_node,
            (a, status, node),
            r,
        ),
        status@.error is None,
        status@.authenticated == Some(true),
    ensures
        ({
            let open = AuthorizorView { audiences: None, ..a@ };
            let why = refusal(open, node@, status@);
            &&& r is Ok <==> why is None
            &&& r is Err ==> tells(r->Err_0, why->0)
        }),
{
}

/// Paths are excluded one by one from the checks of the middleware, of which there are none at first.
pub proof fn paths_are_excluded_one_by_one<T: TokenAuthorizor>(
    authorizor: T,
    fresh: TokenAuthMiddleware<T>,
    path: String,
    more: TokenAuthMiddleware<T>,
)
    requires
        call_ensures(TokenAuthMiddleware::<T>::new, (authorizor,), fresh),
        call_ensures(TokenAuthMiddleware::<T>::exclude, (fresh, path), more),
    ensures
        fresh.authorizor == authorizor,
        fresh.excluded() == Set::<Seq<char>>::empty(),
        more.authorizor == authorizor,
        more.excluded() =~= set![path@],
{
}

} // verus!
