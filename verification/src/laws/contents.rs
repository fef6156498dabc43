//! What the values of the operator hold: their contents are their fields.

use vstd::prelude::*;

use crate::agent::agentclient::{Action, Observed, Outcome, Phase, ShadowErrorInfo};
use crate::apiserver::api::{ApiserverCommonHeaders, Headers};
use crate::apiserver::auth::authorizor::{
    AgentPod, K8STokenAuthorizor, TokenAuthorizor, TokenReview, TokenReviewStatus,
};
use crate::apiserver::client::HttpRequest;
use crate::controller::metrics::shadow_views;
use crate::models::meta::{text_option, ObjectMeta, OwnerReference};
use crate::models::node::client::{BottlerocketShadowSpecPatch, BottlerocketShadowStatusPatch};
use crate::models::node::crd::{v1, v2, BottlerocketShadowSelector};
use crate::models::node::drain::{pod_views, Pod};
use crate::text::texts;
use crate::time::Timestamp;

verus! {

/// An optional text holds its characters, and a list of texts those of each.
pub proof fn contents_of_texts(s: String, v: Seq<String>, i: int)
    ensures
        text_option(Some(s)) == Some(s@),
        text_option(None) is None,
        texts(v).len() == v.len(),
        0 <= i < v.len() ==> texts(v)[i] == v[i]@,
{
}

/// What an object of the second version holds.
pub proof fn contents_of_objects(brs: v2::BottlerocketShadow)
    ensures
        brs@.metadata == brs.metadata@,
        brs@.spec.state == brs.spec.state,
        brs@.spec.version == text_option(brs.spec.version),
        brs@.spec.state_transition_timestamp == text_option(brs.spec.state_transition_timestamp),
        brs@.status is Some <==> brs.status is Some,
        brs.status is Some ==> {
            let shown = brs@.status->0;
            let status = brs.status->0;
            &&& shown == status@
            &&& shown.current_version == status.current_version@
            &&& shown.target_version == status.target_version@
            &&& shown.current_state == status.current_state
            &&& shown.crash_count == status.crash_count
            &&& shown.state_transition_failure_timestamp == text_option(
                status.state_transition_failure_timestamp,
            )
        },
{
}

/// What an object of the first version holds.
pub proof fn contents_of_first_objects(brs: v1::BottlerocketShadow)
    ensures
        brs@.metadata == brs.metadata@,
        brs@.spec.state == brs.spec.state,
        brs@.spec.version == text_option(brs.spec.version),
        brs@.spec.state_transition_timestamp == text_option(brs.spec.state_transition_timestamp),
        brs@.status is Some <==> brs.status is Some,
        brs.status is Some ==> {
            let shown = brs@.status->0;
            let status = brs.status->0;
            &&& shown == status@
            &&& shown.current_version == status.current_version@
            &&& shown.target_version == status.target_version@
            &&& shown.current_state == status.current_state
        },
{
}

/// What metadata hold.
pub proof fn contents_of_metadata(meta: ObjectMeta, i: int)
    ensures
        meta@.name == text_option(meta.name),
        meta@.generate_name == text_option(meta.generate_name),
        meta@.namespace == text_option(meta.namespace),
        meta@.uid == text_option(meta.uid),
        meta@.owner_references is Some <==> meta.owner_references is Some,
        meta.owner_references is Some ==> {
            let shown = meta@.owner_references->0;
            let owners = meta.owner_references->0@;
            shown.len() == owners.len() && (0 <= i < owners.len() ==> shown[i] == owners[i]@)
        },
        meta@.labels is Some <==> meta.labels is Some,
        meta.labels is Some ==> meta@.labels->0 == meta.labels->0@,
        meta@.annotations is Some <==> meta.annotations is Some,
        meta.annotations is Some ==> meta@.annotations->0 == meta.annotations->0@,
{
}

/// What the reference to an owner holds, and what tells a node.
pub proof fn contents_of_owners(owner: OwnerReference, node: BottlerocketShadowSelector)
    ensures
        owner@.api_version == owner.api_version@,
        owner@.kind == owner.kind@,
        owner@.name == owner.name@,
        owner@.uid == owner.uid@,
        owner@.controller == owner.controller,
        owner@.block_owner_deletion == owner.block_owner_deletion,
        node@.node_name == node.node_name@,
        node@.node_uid == node.node_uid@,
{
}

/// Lists of objects and of pods hold each of them.
pub proof fn contents_of_lists(brss: Seq<v2::BottlerocketShadow>, pods: Seq<Pod>, i: int)
    ensures
        shadow_views(brss).len() == brss.len(),
        0 <= i < brss.len() ==> shadow_views(brss)[i] == brss[i]@,
        pod_views(pods).len() == pods.len(),
        0 <= i < pods.len() ==> pod_views(pods)[i] == pods[i]@ && pods[i]@.metadata
            == pods[i].metadata@ && pods[i]@.phase == text_option(pods[i].phase),
{
}

/// What patches hold.
pub proof fn contents_of_patches(
    status: BottlerocketShadowStatusPatch,
    spec: BottlerocketShadowSpecPatch,
)
    ensures
        status@.api_version == status.api_version@,
        status@.kind == status.kind@,
        status@.value == status.status@,
        spec@.api_version == spec.api_version@,
        spec@.kind == spec.kind@,
        spec@.value == spec.spec@,
{
}

/// What the agent observes of its node and what it knows of crashes.
pub proof fn contents_of_observations(o: Observed, info: ShadowErrorInfo, t: Timestamp)
    ensures
        o@.desired == o.desired,
        o@.current == o.current,
        o@.crash_count == o.crash_count,
        o@.failure_timestamp == text_option(o.failure_timestamp),
        info@.crash_count == info.crash_count,
        info.state_transition_failure_timestamp is None <==> info@.failure is None,
        info.state_transition_failure_timestamp == Some(t) ==> info@.failure == Some(t@),
{
}

/// Where the agent stands.
pub proof fn contents_of_phases(p: Phase)
    ensures
        p is CheckingExistence <==> p@ is CheckingExistence,
        p is Creating <==> p@ is Creating,
        p is CheckingStatus <==> p@ is CheckingStatus,
        p is Initializing <==> p@ is Initializing,
        p is Fetching <==> p@ is Fetching,
        p is Reporting <==> p@ is Reporting,
        p is Sleeping <==> p@ is Sleeping,
        p is Stopped <==> p@ is Stopped,
        p is CheckingVersion <==> p@ is CheckingVersion,
        p is CheckingVersion ==> p@->CheckingVersion_0 == p->CheckingVersion_0@,
        p is Transition <==> p@ is Transition,
        p is Transition ==> p@->Transition_0 == p->Transition_0@ && p@->Transition_1
            == p->Transition_1,
{
}

/// What the agent does.
pub proof fn contents_of_actions(a: Action)
    ensures
        a is CheckNodeShadowExists <==> a@ is CheckNodeShadowExists,
        a is CreateMetadataShadow <==> a@ is CreateMetadataShadow,
        a is CheckShadowStatusExists <==> a@ is CheckShadowStatusExists,
        a is InitializeMetadataShadow <==> a@ is InitializeMetadataShadow,
        a is FetchShadow <==> a@ is FetchShadow,
        a is CheckRunningVersion <==> a@ is CheckRunningVersion,
        a is Prepare <==> a@ is Prepare,
        a is Update <==> a@ is Update,
        a is CordonAndDrain <==> a@ is CordonAndDrain,
        a is BootUpdate <==> a@ is BootUpdate,
        a is Uncordon <==> a@ is Uncordon,
        a is Sleep <==> a@ is Sleep,
        a is StopWithoutStatus <==> a@ is StopWithoutStatus,
        a is StopOnAssertion <==> a@ is StopOnAssertion,
        a is UpdateStatus <==> a@ is UpdateStatus,
        a is UpdateStatus ==> a@->UpdateStatus_0 == a->UpdateStatus_0 && a@->UpdateStatus_1
            == a->UpdateStatus_1@,
{
}

/// What an action of the agent comes to.
pub proof fn contents_of_outcomes(o: Outcome)
    ensures
        o is Done <==> o@ is Done,
        o is Answer <==> o@ is Answer,
        o is Answer ==> o@->Answer_0 == o->Answer_0,
        o is Shadow <==> o@ is Shadow,
        o is Shadow ==> (o->Shadow_0 is Some <==> o@->Shadow_0 is Some),
        o is Shadow && o->Shadow_0 is Some ==> o@->Shadow_0->0 == o->Shadow_0->0@,
        o is Failed <==> o@ is Failed,
        o is Failed ==> o@->Failed_0 == o->Failed_0,
{
}

/// What the review of a token holds.
pub proof fn contents_of_reviews(review: TokenReview, status: TokenReviewStatus, i: int)
    ensures
        review@.token == text_option(review.token),
        review@.audiences is Some <==> review.audiences is Some,
        review.audiences is Some ==> review@.audiences->0 == texts(review.audiences->0@),
        status@.authenticated == status.authenticated,
        status@.error == text_option(status.error),
        status@.audiences is Some <==> status.audiences is Some,
        status.audiences is Some ==> status@.audiences->0 == texts(status.audiences->0@),
        status@.extra is Some <==> status.extra is Some,
        status.extra is Some ==> {
            let shown = status@.extra->0;
            let extra = status.extra->0@;
            shown.len() == extra.len() && (0 <= i < extra.len() ==> shown[i].0 == extra[i].0@
                && shown[i].1 == texts(extra[i].1@))
        },
{
}

/// What an authorizor goes by: its own settings decide.
pub proof fn contents_of_authorizors(a: K8STokenAuthorizor, pod: AgentPod, i: int)
    ensures
        a@.namespace == a.namespace@,
        a@.pods.len() == a.pods@.len(),
        0 <= i < a.pods@.len() ==> a@.pods[i] == a.pods@[i]@,
        a@.audiences is Some <==> a.k8s_audiences is Some,
        a.k8s_audiences is Some ==> a@.audiences->0 == texts(a.k8s_audiences->0@),
        a.review_audiences() == a@.audiences,
        pod@.name == pod.name@,
        pod@.namespace == text_option(pod.namespace),
        pod@.node_name == text_option(pod.node_name),
{
}

/// What requests hold.
pub proof fn contents_of_requests(
    q: HttpRequest,
    h: Headers,
    read: ApiserverCommonHeaders,
    i: int,
)
    ensures
        q@.method == q.method,
        q@.url == q.url@,
        q@.headers.len() == q.headers@.len(),
        0 <= i < q.headers@.len() ==> q@.headers[i].0 == q.headers@[i].0@ && q@.headers[i].1
            == q.headers@[i].1@,
        h@.len() == h.entries@.len(),
        0 <= i < h.entries@.len() ==> h@[i].0 == h.entries@[i].0@ && h@[i].1 == h.entries@[i].1@,
        read@.node_selector == read.node_selector@,
        read@.k8s_auth_token == read.k8s_auth_token@,
{
}

} // verus!
