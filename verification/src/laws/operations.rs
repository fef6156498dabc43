//! The operations of the library give what the laws speak of.

use vstd::prelude::*;
use vstd::string::*;

use crate::agent::agentclient::{
    agent_step, can_proceed, checked_next_action, handle_state_transition, next_action, observe,
    observed, outcome_fits, refreshed_status, shadow_status_with_refreshed_system_matadata,
    step_is_known, Action, Observed, Outcome, OutcomeView, Phase, PhaseView, ShadowErrorInfo,
};
use crate::agent::agentclient_error;
use crate::agent::apiclient::{
    after_invocation, invocation_step, Invocation, InvocationStep, OsInfo, UpdateImage,
};
use crate::apiserver::api::{
    common_headers, endpoint_route, route, ApiserverCommonHeaders, Endpoint, Headers, Method,
    ServerPlan,
};
use crate::apiserver::api_error;
use crate::apiserver::auth::authorizor::{
    create_token_review, refusal, tells, K8STokenAuthorizor, TokenAuthorizor, TokenReview,
    TokenReviewStatus,
};
use crate::apiserver::auth::error::AuthorizationError;
use crate::apiserver::client::{
    request_for, APIServerClient, CordonAndDrainBottlerocketShadowRequest,
    CreateBottlerocketShadowRequest, HttpRequest, K8SAPIServerClient,
    UncordonBottlerocketShadowRequest, UpdateBottlerocketShadowRequest,
};
use crate::apiserver::tls::{
    identity_read, pem_certificates, pem_pkcs8_keys, server_identity, ServerIdentity,
};
use crate::apiserver::webhook::{
    answers, list_reads, object_views, ConversionRequest, ConversionResponse,
};
use crate::controller::controller::{
    active_brs_set, active_map, bottlerocketshadows_cleanup, controller_step, find_unlabeled_nodes,
    is_labeled, lists_in_order, meta_views, node_has_label, objects_of, unlabeled_names,
};
use crate::controller::controller;
use crate::controller::metrics::{
    counts_hosts, shadow_views, state_key, version_key, versions_read, BrupopHostsData,
};
use crate::controller::scheduler::{
    cron_accepts, determine_schedule_type, outside_window, schedule_made, schedule_type_seen_from,
    BrupopCronScheduler, ScheduleType,
};
use crate::controller::{controllerclient_error, scheduler_error};
use crate::controller::statemachine::{
    allowed_to_update, backoff_elapsed, checked_next_node_spec, checked_next_node_spec_now,
    determine_next_node_spec, determine_next_node_spec_at, determine_next_step,
    exponential_backoff_time_with_upper_limit, next_node_spec_is_known, next_spec,
    next_spec_is_known, next_step, node_allowed_to_update, time_reads_back, wait_is_known, NextStep,
};
use crate::models::meta::ObjectMeta;
use crate::models::node::client::{
    create_node, initial_shadow, shadow_patch, update_node_spec, update_node_status,
    BottlerocketShadowSpecPatch, BottlerocketShadowStatusPatch,
};
use crate::models::node::crd::definition::{
    combined, combined_crds, definition_views, CustomResourceDefinition,
};
use crate::models::node::crd::{
    v1, v2, BottlerocketShadow, BottlerocketShadowSelector, BottlerocketShadowSpec,
    BottlerocketShadowState, BottlerocketShadowStatus,
};
use crate::models::node::drain::{
    after_eviction, deletion_step, drain_node, drained, evict_pod, filter_pods, find_target_pods,
    pod_views, target_pods_selector, wait_for_deletion, DeletionStep, DrainError, EvictionAction,
    Pod, PodOutcome, Response,
};
use crate::text::{text_before, texts};
use crate::time::{
    clock_instant, elapsed_nanos, quotient, rfc3339_read, rfc3339_text, valid_instant, Instant,
    TimeDelta, Timestamp,
};
use crate::version::version_text;

verus! {

/// The spec that a node is given is the next one, at every time. It is given only where it is known.
pub proof fn next_specs_are_given(
    brs: &BottlerocketShadow,
    now: Timestamp,
    given: BottlerocketShadowSpec,
    checked: Option<BottlerocketShadowSpec>,
    known: bool,
)
    requires
        call_ensures(determine_next_node_spec_at, (brs, now), given),
        call_ensures(checked_next_node_spec, (brs, now), checked),
        call_ensures(next_node_spec_is_known, (brs,), known),
    ensures
        known <==> next_spec_is_known(brs@),
        known ==> given@ == next_spec(brs@, now@) && time_reads_back(brs@, given@, now@),
        checked is Some <==> known,
        checked is Some ==> checked->0@ == next_spec(brs@, now@),
{
}

/// The step of a node, its permission to start an update, and the end of its wait are decided as the
/// laws say.
pub proof fn steps_are_decided(
    desired: BottlerocketShadowState,
    current: BottlerocketShadowState,
    up_to_date: bool,
    allowed: bool,
    step: NextStep,
    status: &BottlerocketShadowStatus,
    now: Timestamp,
    starts: bool,
    gap: i64,
    power: u32,
    limit: i64,
    over: bool,
)
    requires
        call_ensures(determine_next_step, (desired, current, up_to_date, allowed), step),
        wait_is_known(status@),
        call_ensures(node_allowed_to_update, (status, now), starts),
        call_ensures(exponential_backoff_time_with_upper_limit, (gap, power, limit), over),
    ensures
        step == next_step(desired, current, up_to_date, allowed),
        starts == allowed_to_update(status@, now@),
        over == backoff_elapsed(gap as int, power as nat, limit as int),
{
}

/// The states follow each other, and time out, as the laws say.
pub proof fn states_follow_each_other(
    s: BottlerocketShadowState,
    next: BottlerocketShadowState,
    timeout: Option<u64>,
    first: v1::BottlerocketShadowState,
    first_next: v1::BottlerocketShadowState,
    first_timeout: Option<u64>,
)
    requires
        call_ensures(BottlerocketShadowState::on_success, (&s,), next),
        call_ensures(BottlerocketShadowState::timeout_time, (&s,), timeout),
        call_ensures(v1::BottlerocketShadowState::on_success, (&first,), first_next),
        call_ensures(v1::BottlerocketShadowState::timeout_time, (&first,), first_timeout),
    ensures
        next == s.next(),
        timeout == s.timeout(),
        first_next == first.next(),
        first_timeout == first.timeout(),
{
}

/// A node has reached its state where its status says so, and has crashed where it says so.
pub proof fn nodes_are_looked_at(
    brs: &BottlerocketShadow,
    reached: bool,
    crashed: bool,
    initial: bool,
)
    requires
        call_ensures(BottlerocketShadow::has_reached_desired_state, (brs,), reached),
        call_ensures(BottlerocketShadow::has_crashed, (brs,), crashed),
        call_ensures(controller::is_initial_state, (brs,), initial),
    ensures
        reached <==> brs@.status is Some && brs@.status->0.current_state == brs@.spec.state,
        crashed <==> brs@.status is Some && brs@.status->0.current_state
            == BottlerocketShadowState::ErrorReset,
        initial <==> brs@.status is None || brs@.status->0.current_state
            == BottlerocketShadowState::Idle,
{
}

/// The controller takes the steps of its loop.
pub proof fn controller_takes_its_steps(
    phase: controller::Phase,
    outcome: controller::Outcome,
    r: (controller::Phase, controller::Action),
)
    requires
        controller::outcome_fits(phase, outcome),
        call_ensures(controller::next_action, (phase, outcome), r),
    ensures
        r == controller_step(phase, outcome),
{
}

/// The active set lists each busy node once, under its name and in the order of names, and nothing
/// else.
pub proof fn busy_nodes_are_listed(
    all: &Vec<BottlerocketShadow>,
    r: Vec<(String, BottlerocketShadow)>,
    name: Seq<char>,
    i: int,
    j: int,
)
    requires
        call_ensures(active_brs_set, (all,), r),
    ensures
        lists_in_order(r@, active_map(shadow_views(all@))),
        0 <= i < r@.len() ==> active_map(shadow_views(all@)).contains_pair(
            r@[i].0@,
            r@[i].1@,
        ),
        active_map(shadow_views(all@)).contains_key(name) ==> exists|k: int|
            0 <= k < r@.len() && (#[trigger] r@[k]).0@ == name,
        0 <= i < j < r@.len() ==> text_before(r@[i].0@, r@[j].0@),
{
    if 0 <= i < r@.len() {
        assert(active_map(shadow_views(all@)).contains_key(r@[i].0@));
    }
}

/// The nodes without the label are found, and the objects of those are deleted.
pub proof fn unlabeled_nodes_are_cleaned_up(
    nodes: &Vec<ObjectMeta>,
    names: &Vec<String>,
    found: Vec<String>,
    doomed: Vec<String>,
    node: &ObjectMeta,
    labeled: bool,
)
    requires
        call_ensures(find_unlabeled_nodes, (nodes,), found),
        call_ensures(bottlerocketshadows_cleanup, (nodes, names), doomed),
        call_ensures(node_has_label, (node,), labeled),
    ensures
        texts(found@) == unlabeled_names(meta_views(nodes@)),
        texts(doomed@) == objects_of(unlabeled_names(meta_views(nodes@)), texts(names@)),
        labeled <==> is_labeled(node@),
{
}

/// The hosts are counted by version and by state.
pub proof fn hosts_are_counted(brss: &Vec<BottlerocketShadow>, r: BrupopHostsData)
    requires
        versions_read(shadow_views(brss@)),
        call_ensures(BrupopHostsData::from_shadows, (brss,), r),
    ensures
        counts_hosts(r@.versions, shadow_views(brss@), version_key()),
        counts_hosts(r@.states, shadow_views(brss@), state_key()),
{
}

/// Schedules are made, have their type and discontinue updates as the laws say.
pub proof fn schedules_are_followed(
    expression: &str,
    now: Timestamp,
    made: Result<BrupopCronScheduler, scheduler_error::Error>,
    s: &BrupopCronScheduler,
    ends: bool,
    kind: Result<ScheduleType, scheduler_error::Error>,
)
    requires
        call_ensures(BrupopCronScheduler::from_string_at, (expression, now), made),
        call_ensures(BrupopCronScheduler::should_discontinue_updates_impl, (s, now), ends),
        cron_accepts(expression@),
        call_ensures(determine_schedule_type, (expression, now), kind),
    ensures
        schedule_made(expression@, now@, made),
        ends <==> outside_window(s@, now@),
        kind is Ok <==> schedule_type_seen_from(expression@, now@) is Some,
        kind is Ok ==> kind->Ok_0 == schedule_type_seen_from(expression@, now@)->0,
        kind is Err ==> kind->Err_0 is GetScheduledDatetime,
{
}

/// The agent takes the steps of its loop, wherever one can be taken.
pub proof fn agent_takes_its_steps(
    phase: Phase,
    outcome: Outcome,
    now: Timestamp,
    can: bool,
    step: (Phase, Action),
    checked: Option<(Phase, Action)>,
)
    requires
        call_ensures(can_proceed, (&phase, &outcome), can),
        call_ensures(next_action, (phase, outcome, now), step),
        call_ensures(checked_next_action, (phase, outcome, now), checked),
    ensures
        can <==> outcome_fits(phase@, outcome@) && step_is_known(phase@, outcome@),
        can ==> (step.0@, step.1@) == agent_step(phase@, outcome@, now@),
        checked is Some <==> can,
        checked is Some ==> ((checked->0).0@, (checked->0).1@) == agent_step(
            phase@,
            outcome@,
            now@,
        ),
{
}

/// A transition begins as the step from a fetched object does.
pub proof fn transitions_begin_with_the_object(o: Observed, now: Timestamp, r: (Phase, Action))
    requires
        step_is_known(PhaseView::Fetching, OutcomeView::Shadow(Some(o@))),
        call_ensures(handle_state_transition, (o,), r),
    ensures
        (r.0@, r.1@) == agent_step(PhaseView::Fetching, OutcomeView::Shadow(Some(o@)), now@),
{
}

/// The agent observes the object, reports the system, and takes errors as the laws say.
pub proof fn agent_observes_and_reports(
    brs: &BottlerocketShadow,
    seen: Option<Observed>,
    os: &OsInfo,
    chosen: &Option<UpdateImage>,
    state: BottlerocketShadowState,
    info: ShadowErrorInfo,
    status: BottlerocketShadowStatus,
    e: agentclient_error::Error,
    taken: agentclient_error::Failure,
)
    requires
        call_ensures(observe, (brs,), seen),
        call_ensures(shadow_status_with_refreshed_system_matadata, (os, chosen, state, info), status),
        call_ensures(agentclient_error::Error::classify, (&e,), taken),
    ensures
        seen is Some <==> observed(brs@) is Some,
        seen is Some ==> Some(seen->0@) == observed(brs@),
        *chosen is Some ==> status@ == refreshed_status(
            version_text(os.version_id@),
            Some(version_text(chosen->0.version@)),
            state,
            info@,
        ),
        *chosen is None ==> status@ == refreshed_status(
            version_text(os.version_id@),
            None,
            state,
            info@,
        ),
        taken == e.failure(),
{
}

/// Runs of the client are made again, or end, as the laws say.
pub proof fn runs_go_on(retries: usize, run: Invocation, r: (usize, InvocationStep))
    requires
        call_ensures(after_invocation, (retries, run), r),
    ensures
        r.0 == invocation_step(retries as nat, run).0,
        r.1 == invocation_step(retries as nat, run).1,
{
}

/// The pods of a node are looked for by its name, and those that are not spared are evicted.
pub proof fn pods_of_a_node_are_found(
    node: &String,
    name: &str,
    fields: String,
    pods: Vec<Pod>,
    chosen: Vec<Pod>,
    listed: Result<Vec<Pod>, String>,
    found: Result<Vec<Pod>, DrainError>,
)
    requires
        call_ensures(target_pods_selector, (name,), fields),
        call_ensures(filter_pods, (pods,), chosen),
        call_ensures(find_target_pods, (node, listed), found),
    ensures
        fields@ == "spec.nodeName="@ + name@,
        pod_views(chosen@) == drained(pod_views(pods@)),
        found is Ok <==> listed is Ok,
        listed is Ok ==> pod_views(found->Ok_0@) == drained(pod_views(listed->Ok_0@)),
        listed is Err ==> found->Err_0 == (DrainError::FindTargetPods {
            source: listed->Err_0,
            node_name: *node,
        }),
{
}

/// A drain goes on from answer to answer. It fails only where the pods cannot be found, whatever it
/// came to for each of them.
pub proof fn drains_go_on(
    pod_name: &String,
    retries: usize,
    response: Response,
    evicted: (usize, EvictionAction),
    elapsed: (u64, u32),
    deleted: DeletionStep,
    outcomes: Result<Vec<PodOutcome>, DrainError>,
    r: Result<(), DrainError>,
)
    requires
        call_ensures(evict_pod, (pod_name, retries, response), evicted),
        call_ensures(wait_for_deletion, (pod_name, &response, elapsed), deleted),
        call_ensures(drain_node, (outcomes,), r),
    ensures
        evicted.0 == after_eviction(*pod_name, retries as nat, response).0,
        evicted.1 == after_eviction(*pod_name, retries as nat, response).1,
        deleted == deletion_step(*pod_name, response, elapsed),
        r is Ok <==> outcomes is Ok,
        r is Err ==> r->Err_0 == outcomes->Err_0,
{
}

/// Objects are made and patched for the node that is given.
pub proof fn objects_are_made_and_patched(
    node: &BottlerocketShadowSelector,
    brs: BottlerocketShadow,
    status: &BottlerocketShadowStatus,
    status_patch: (String, BottlerocketShadowStatusPatch),
    spec: &BottlerocketShadowSpec,
    spec_patch: (String, BottlerocketShadowSpecPatch),
)
    requires
        call_ensures(create_node, (node,), brs),
        call_ensures(update_node_status, (node, status), status_patch),
        call_ensures(update_node_spec, (node, spec), spec_patch),
    ensures
        brs@ == initial_shadow(node@),
        status_patch.0@ == "brs-"@ + node@.node_name,
        status_patch.1@ == shadow_patch(status@),
        spec_patch.0@ == "brs-"@ + node@.node_name,
        spec_patch.1@ == shadow_patch(spec@),
{
}

/// Objects are converted both ways as the laws say, wherever they can be.
pub proof fn objects_are_converted(
    old: v1::BottlerocketShadow,
    new: v2::BottlerocketShadow,
    up: v2::BottlerocketShadow,
    down: v1::BottlerocketShadow,
)
    requires
        old@.convertible(),
        new@.convertible(),
        call_ensures(v2::BottlerocketShadow::from, (old,), up),
        call_ensures(v1::BottlerocketShadow::from, (new,), down),
    ensures
        v2::shadow_upgrade(old@, up@),
        v1::shadow_downgrade(new@, down@),
{
}

/// Definitions are put together as the laws say.
pub proof fn definitions_are_put_together(
    crds: Vec<CustomResourceDefinition>,
    r: CustomResourceDefinition,
)
    requires
        crds@.len() > 0,
        call_ensures(combined_crds, (crds,), r),
    ensures
        r@ == combined(definition_views(crds@)),
{
}

/// A token is reviewed for the audiences of the authorizor, and the answer decides; an answer without
/// a status and a failure are errors.
pub proof fn tokens_are_reviewed(
    a: &K8STokenAuthorizor,
    token: &str,
    review: TokenReview,
    answer: Result<Option<TokenReviewStatus>, String>,
    reviewed: Result<TokenReviewStatus, AuthorizationError>,
    node: &BottlerocketShadowSelector,
    r: Result<(), AuthorizationError>,
)
    requires
        call_ensures(
            <K8STokenAuthorizor as TokenAuthorizor>::token_review,
            (a, token),
            review,
        ),
        call_ensures(create_token_review, (answer,), reviewed),
        call_ensures(
            <K8STokenAuthorizor as TokenAuthorizor>::check_request_authorized,
            (a, node, reviewed),
            r,
        ),
    ensures
        review@.token == Some(token@),
        review@.audiences == a@.audiences,
        reviewed is Ok <==> answer is Ok && answer->Ok_0 is Some,
        reviewed is Ok ==> reviewed->Ok_0 == answer->Ok_0->0,
        answer is Ok && answer->Ok_0 is None ==> reviewed->Err_0 is TokenReviewMissingStatus,
        answer is Err ==> reviewed->Err_0 is TokenReviewCreate
            && reviewed->Err_0->TokenReviewCreate_err_msg@ == answer->Err_0@,
        r is Ok <==> reviewed is Ok && refusal(a@, node@, reviewed->Ok_0@) is None,
        reviewed is Ok && r is Err ==> tells(
            r->Err_0,
            refusal(a@, node@, reviewed->Ok_0@)->0,
        ),
        reviewed is Err ==> r->Err_0 == reviewed->Err_0,
{
}

/// Headers are read, and services routed, as the laws say.
pub proof fn headers_are_read(
    headers: &Headers,
    r: Result<ApiserverCommonHeaders, api_error::Error>,
    endpoint: Endpoint,
    routed: (Method, &'static str),
)
    requires
        call_ensures(ApiserverCommonHeaders::try_from, (headers,), r),
        call_ensures(endpoint_route, (endpoint,), routed),
    ensures
        r is Ok <==> common_headers(headers@) is Ok,
        r is Ok ==> r->Ok_0@ == common_headers(headers@)->Ok_0,
        r is Err ==> r->Err_0 is HTTPHeaderParse && r->Err_0->missing_header@ == common_headers(
            headers@,
        )->Err_0,
        (routed.0, routed.1@) == route(endpoint),
{
}

/// Each request of the agent is that for what it asks for.
pub proof fn agents_ask_for_what_they_need(
    client: &K8SAPIServerClient,
    token: &str,
    create: &CreateBottlerocketShadowRequest,
    created: HttpRequest,
    update: &UpdateBottlerocketShadowRequest,
    updated: HttpRequest,
    drain: &CordonAndDrainBottlerocketShadowRequest,
    drained: HttpRequest,
    uncordon: &UncordonBottlerocketShadowRequest,
    uncordoned: HttpRequest,
)
    requires
        call_ensures(
            <K8SAPIServerClient as APIServerClient>::create_bottlerocket_shadow,
            (client, create, token),
            created,
        ),
        call_ensures(
            <K8SAPIServerClient as APIServerClient>::update_bottlerocket_shadow,
            (client, update, token),
            updated,
        ),
        call_ensures(
            <K8SAPIServerClient as APIServerClient>::cordon_and_drain_node,
            (client, drain, token),
            drained,
        ),
        call_ensures(
            <K8SAPIServerClient as APIServerClient>::uncordon_node,
            (client, uncordon, token),
            uncordoned,
        ),
    ensures
        created@ == request_for(Endpoint::CreateShadow, create.node_selector@, token@),
        updated@ == request_for(Endpoint::UpdateShadow, update.node_selector@, token@),
        drained@ == request_for(Endpoint::CordonAndDrain, drain.node_selector@, token@),
        uncordoned@ == request_for(Endpoint::Uncordon, uncordon.node_selector@, token@),
{
}

/// A request for a conversion is answered as the laws say.
pub proof fn conversion_requests_are_answered(req: &ConversionRequest, r: ConversionResponse)
    requires
        list_reads(object_views(req.request.objects@), req.request.desired_api_version@),
        call_ensures(ConversionRequest::convert_resource, (req,), r),
    ensures
        answers(*req, r),
{
}

/// The server identifies itself with what is found in its three files.
pub proof fn server_identifies_itself(
    plan: &ServerPlan,
    cert: &Vec<u8>,
    key: &Vec<u8>,
    ca: &Vec<u8>,
    r: Result<Option<ServerIdentity>, api_error::Error>,
)
    requires
        call_ensures(server_identity, (plan, cert, key, ca), r),
    ensures
        identity_read(
            *plan,
            pem_certificates(cert@),
            pem_pkcs8_keys(key@),
            pem_certificates(ca@),
            r,
        ),
{
}

/// Instants are made where they can be represented, and the time between them is counted in whole
/// seconds and minutes.
pub proof fn times_are_counted(
    seconds: i64,
    nanos: u32,
    made: Option<Timestamp>,
    later: &Timestamp,
    earlier: &Timestamp,
    span: TimeDelta,
    whole_seconds: i64,
    whole_minutes: i64,
)
    requires
        call_ensures(Timestamp::from_timestamp, (seconds, nanos), made),
        call_ensures(Timestamp::since, (later, earlier), span),
        call_ensures(TimeDelta::num_seconds, (&span,), whole_seconds),
        call_ensures(TimeDelta::num_minutes, (&span,), whole_minutes),
    ensures
        made is Some <==> valid_instant((seconds as int, nanos as int)),
        made is Some ==> made->0@ == (seconds as int, nanos as int),
        span@ == elapsed_nanos(later@, earlier@),
        whole_seconds == quotient(elapsed_nanos(later@, earlier@), 1_000_000_000),
        whole_minutes == quotient(elapsed_nanos(later@, earlier@), 60_000_000_000),
{
}

/// The spec that a node is given now is the next one at the time that the clock shows.
pub proof fn next_specs_are_given_now(
    brs: &BottlerocketShadow,
    given: BottlerocketShadowSpec,
    checked: Option<BottlerocketShadowSpec>,
)
    requires
        next_spec_is_known(brs@),
        call_ensures(determine_next_node_spec, (brs,), given),
        call_ensures(checked_next_node_spec_now, (brs,), checked),
    ensures
        exists|now: Instant| #[trigger] clock_instant(now) && given@ == next_spec(brs@, now),
        checked is Some,
        exists|now: Instant| #[trigger] clock_instant(now) && checked->0@ == next_spec(brs@, now),
{
}

/// Nodes are pushed forward wherever they can be read, and readiness is told as the laws say.
pub proof fn nodes_are_checked(
    node: &BottlerocketShadow,
    now: Timestamp,
    pushed: Option<
        Result<
            Option<(BottlerocketShadowSelector, BottlerocketShadowSpec)>,
            controllerclient_error::Error,
        >,
    >,
    all: &Vec<BottlerocketShadow>,
    ready: Option<bool>,
)
    requires
        call_ensures(controller::checked_progress_node, (node, now), pushed),
        call_ensures(controller::checked_nodes_ready_to_update, (all, now), ready),
    ensures
        pushed is None <==> controller::can_progress(node@) && !next_spec_is_known(node@),
        pushed is Some ==> {
            let r = pushed->0;
            &&& r is Ok && r->Ok_0 is None <==> !controller::can_progress(node@)
            &&& r is Ok && r->Ok_0 is Some ==> (r->Ok_0->0).1@ == next_spec(node@, now@)
                && node@.metadata.owner_references is Some && (r->Ok_0->0).0@.node_name
                == node@.metadata.owner_references->0[0].name && (r->Ok_0->0).0@.node_uid
                == node@.metadata.owner_references->0[0].uid
            &&& r is Err ==> r->Err_0 is NodeSelectorCreation && (
            node@.metadata.owner_references is None || node@.metadata.owner_references->0.len()
                == 0)
        },
        ready is Some <==> controller::known_until_ready(shadow_views(all@), 0, now@),
        ready is Some ==> (ready->0 <==> controller::some_ready(shadow_views(all@), now@)),
{
}

/// A setting for the limit is a number or "unlimited"; a variable is read as it is, or told as missing.
pub proof fn settings_are_read(
    lower: &str,
    limit: Result<usize, controllerclient_error::Error>,
    variable: &str,
    value: Result<String, String>,
    read: Result<String, controllerclient_error::Error>,
)
    requires
        call_ensures(controller::parse_max_concurrent_update, (lower,), limit),
        call_ensures(controller::read_env_var, (variable, value), read),
    ensures
        limit is Ok <==> controller::allowed_updates(lower@) is Some,
        limit is Ok ==> limit->Ok_0 == controller::allowed_updates(lower@)->0,
        limit is Err ==> limit->Err_0 is MaxConcurrentUpdateParseError,
        value is Ok ==> read is Ok && read->Ok_0@ == value->Ok_0@,
        value is Err ==> read is Err && read->Err_0 is MissingEnvVariable
            && read->Err_0->MissingEnvVariable_variable@ == variable@
            && read->Err_0->MissingEnvVariable_source@ == value->Err_0@,
{
}

/// A request for a conversion is answered wherever its objects can be read.
pub proof fn conversion_requests_are_checked(
    req: &ConversionRequest,
    r: Option<ConversionResponse>,
)
    requires
        call_ensures(ConversionRequest::checked_convert_resource, (req,), r),
    ensures
        r is Some <==> list_reads(
            object_views(req.request.objects@),
            req.request.desired_api_version@,
        ),
        r is Some ==> answers(*req, r->0),
{
}

/// Times are read from their texts and written as such, and a span that is not negative is handed on
/// as it is.
pub proof fn times_are_read_and_written(
    text: &str,
    read: Result<Timestamp, String>,
    t: &Timestamp,
    written: String,
    span: &TimeDelta,
    handed_on: Result<(u64, u32), String>,
)
    requires
        call_ensures(Timestamp::parse_from_rfc3339, (text,), read),
        call_ensures(Timestamp::to_rfc3339, (t,), written),
        call_ensures(TimeDelta::to_std, (span,), handed_on),
    ensures
        read is Ok <==> rfc3339_read(text@) is Ok,
        read is Ok ==> read->Ok_0@ == rfc3339_read(text@)->Ok_0,
        read is Err ==> read->Err_0@ == rfc3339_read(text@)->Err_0,
        written@ == rfc3339_text(t@.0, t@.1),
        -62167219200 <= t@.0 <= 253402300799 ==> rfc3339_read(written@) == Ok::<Instant, Seq<char>>(
            t@,
        ),
        handed_on is Ok <==> span@ >= 0,
        handed_on is Ok ==> (handed_on->Ok_0).0 == span@ / 1_000_000_000 && (handed_on->Ok_0).1
            == span@ % 1_000_000_000,
{
}

} // verus!
