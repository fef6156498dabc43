//! Requests to the apiserver: how the agent makes them, and how the server reads them.

use vstd::prelude::*;
use vstd::string::*;

use super::draining::delays_are_powers_up_to_a_limit;
use crate::apiserver::api::{
    any_address, common_headers, header_string, header_text, header_value, is_visible, lower,
    open_paths, quiet_paths, reload_certificate, route, run_server, server_ended, Endpoint, Headers,
    Method, ServerEnded, ServerPlan,
};
use crate::apiserver::api_error::Error;
use crate::apiserver::auth::authorizor::{tells, TokenAuthorizor, TokenReviewStatus};
use crate::apiserver::auth::error::AuthorizationError;
use crate::apiserver::auth::middleware::{Decision, InnerTokenAuthMiddleware};
use crate::apiserver::client::{
    check_response, is_error_of, is_success, request_for, request_headers, response_text,
    retry_strategy, ClientError, FailureCause,
};
use crate::models::node::crd::selector::SelectorView;
use crate::models::node::crd::BottlerocketShadowSelector;
use crate::retry::backoff;
use crate::text::{ascii_lower, decimal, texts};

verus! {

/// Whether two characters are the same but for the case of an ASCII letter.
pub open spec fn same_letter(a: char, b: char) -> bool {
    ||| a == b
    ||| 'A' <= a <= 'Z' && 'a' <= b <= 'z' && a as int + 32 == b as int
    ||| 'a' <= a <= 'z' && 'A' <= b <= 'Z' && a as int == b as int + 32
}

proof fn lemma_same_letter(a: char, b: char)
    ensures
        ascii_lower(a) == ascii_lower(b) <==> same_letter(a, b),
{
    let la = ascii_lower(a);
    let lb = ascii_lower(b);
    if 'A' <= a <= 'Z' {
        assert(la as int == a as int + 32);
    }
    if 'A' <= b <= 'Z' {
        assert(lb as int == b as int + 32);
    }
}

/// The names of headers are compared without regard to the case of their letters.
pub proof fn case_of_header_names_does_not_matter(a: Seq<char>, b: Seq<char>)
    ensures
        lower(a) == lower(b) <==> a.len() == b.len() && forall|i: int|
            0 <= i < a.len() ==> #[trigger] same_letter(a[i], b[i]),
{
    if lower(a) == lower(b) {
        assert(lower(a).len() == a.len());
        assert forall|i: int| 0 <= i < a.len() implies #[trigger] same_letter(a[i], b[i]) by {
            assert(lower(a)[i] == lower(b)[i]);
            lemma_same_letter(a[i], b[i]);
        }
    }
    if a.len() == b.len() && forall|i: int| 0 <= i < a.len() ==> #[trigger] same_letter(a[i], b[i]) {
        assert forall|i: int| 0 <= i < a.len() implies lower(a)[i] == lower(b)[i] by {
            assert(same_letter(a[i], b[i]));
            lemma_same_letter(a[i], b[i]);
        }
        assert(lower(a) =~= lower(b));
    }
}

/// The value of a header is text where it is made of visible ASCII characters, spaces and tabs, each
/// byte being one character.
pub proof fn header_values_are_visible_text(value: Seq<u8>)
    ensures
        header_text(value) is Some <==> forall|i: int|
            0 <= i < value.len() ==> #[trigger] value[i] == 9 || 32 <= value[i] <= 126,
        header_text(value) is Some ==> header_text(value)->0.len() == value.len() && forall|i: int|
            0 <= i < value.len() ==> (#[trigger] header_text(value)->0[i]) as u32 == value[i],
{
    if forall|i: int| 0 <= i < value.len() ==> #[trigger] value[i] == 9 || 32 <= value[i] <= 126 {
        assert forall|i: int| 0 <= i < value.len() implies is_visible(
            #[trigger] value[i],
        ) by {
            assert(value[i] == 9 || 32 <= value[i] <= 126);
        }
    } else {
        let i = choose|i: int| 0 <= i < value.len() && !(value[i] == 9 || 32 <= value[i] <= 126);
        assert(!is_visible(value[i]));
    }
}

/// Of headers of one name the first counts; without one there is no value.
pub proof fn first_header_of_a_name_counts(
    headers: Seq<(Seq<char>, Seq<u8>)>,
    key: Seq<char>,
    k: int,
)
    requires
        0 <= k <= headers.len(),
        forall|j: int| 0 <= j < k ==> lower((#[trigger] headers[j]).0) != lower(key),
        k < headers.len() ==> lower(headers[k].0) == lower(key),
    ensures
        k < headers.len() ==> header_value(headers, key) == Some(headers[k].1),
        k < headers.len() ==> header_string(headers, key) == header_text(headers[k].1),
        k == headers.len() ==> header_value(headers, key) is None && header_string(headers, key)
            is None,
    decreases k,
{
    if k > 0 {
        let rest = headers.subrange(1, headers.len() as int);
        assert(lower(headers[0].0) != lower(key));
        assert forall|j: int| 0 <= j < k - 1 implies lower((#[trigger] rest[j]).0) != lower(
            key,
        ) by {
            assert(rest[j] == headers[j + 1]);
        }
        if k < headers.len() {
            assert(rest[k - 1] == headers[k]);
        }
        first_header_of_a_name_counts(rest, key, k - 1);
    }
}

/// A request names its node, the uid of the node, and a token. The first of these that is missing is
/// told.
pub proof fn requests_name_their_node(headers: Seq<(Seq<char>, Seq<u8>)>)
    ensures
        ({
            let name = header_string(headers, "BrupopNodeName"@);
            let uid = header_string(headers, "BrupopNodeUid"@);
            let token = header_string(headers, "BrupopK8sAuthToken"@);
            let read = common_headers(headers);
            &&& read is Ok <==> name is Some && uid is Some && token is Some
            &&& read is Ok ==> {
                &&& read->Ok_0.node_selector.node_name == name->0
                &&& read->Ok_0.node_selector.node_uid == uid->0
                &&& read->Ok_0.k8s_auth_token == token->0
            }
            &&& name is None ==> read is Err && read->Err_0 == "BrupopNodeName"@
            &&& name is Some && uid is None ==> read is Err && read->Err_0 == "BrupopNodeUid"@
            &&& name is Some && uid is Some && token is None ==> read is Err && read->Err_0 == "BrupopK8sAuthToken"@
        }),
{
}

/// Where each service of the server is found.
pub proof fn routes_of_the_server(endpoint: Endpoint)
    ensures
        endpoint is CreateShadow <==> route(endpoint) == (
            Method::Post,
            "/bottlerocket-node-resource"@,
        ),
        endpoint is UpdateShadow <==> route(endpoint) == (
            Method::Put,
            "/bottlerocket-node-resource"@,
        ),
        endpoint is CordonAndDrain ==> route(endpoint) == (
            Method::Post,
            "/bottlerocket-node-resource/cordon-and-drain"@,
        ),
        endpoint is Uncordon ==> route(endpoint) == (
            Method::Post,
            "/bottlerocket-node-resource/uncordon"@,
        ),
        endpoint is ConvertShadow ==> route(endpoint) == (Method::Post, "/crdconvert"@),
        endpoint is HealthCheck ==> route(endpoint) == (Method::Get, "/ping"@),
        endpoint is Metrics ==> route(endpoint) == (Method::Get, "/metrics"@),
{
    reveal_strlit("/bottlerocket-node-resource");
    reveal_strlit("/bottlerocket-node-resource/cordon-and-drain");
    reveal_strlit("/bottlerocket-node-resource/uncordon");
    reveal_strlit("/crdconvert");
    reveal_strlit("/ping");
    reveal_strlit("/metrics");
    assert("/bottlerocket-node-resource"@.len() == 27);
    assert("/bottlerocket-node-resource/cordon-and-drain"@.len() == 44);
    assert("/bottlerocket-node-resource/uncordon"@.len() == 36);
    assert("/crdconvert"@.len() == 11);
}

/// The health check and the conversion of objects need no authorization, and every other path does.
/// The health check alone is not traced.
pub proof fn paths_without_authorization(path: Seq<char>)
    ensures
        open_paths().contains(path) <==> path == "/ping"@ || path == "/crdconvert"@,
        quiet_paths().contains(path) <==> path == "/ping"@,
{
    assert(open_paths()[0] == "/ping"@ && open_paths()[1] == "/crdconvert"@);
    assert(quiet_paths()[0] == "/ping"@);
}

/// The server listens on all addresses of the family that the cluster uses.
pub proof fn server_listens_on_all_addresses(address: Seq<char>, port: nat)
    ensures
        address.contains(':') ==> any_address(address, port) == "[::]:"@ + decimal(port),
        !address.contains(':') ==> any_address(address, port) == "0.0.0.0:"@ + decimal(port),
{
    if address.contains(':') {
        let i = choose|i: int| 0 <= i < address.len() && address[i] == ':';
        assert(address[i] == ':');
    }
}

/// The server is made of the mounted keys, watches the pods of agents, and belongs to the audience of
/// its own service.
pub proof fn server_is_planned(address: &str, port: u16, plan: ServerPlan)
    requires
        call_ensures(run_server, (address, port), plan),
    ensures
        plan.address@ == any_address(address@, port as nat),
        plan.certificate_path@ == "/etc/brupop-tls-keys"@ + "/"@ + "tls.crt"@,
        plan.private_key_path@ == "/etc/brupop-tls-keys"@ + "/"@ + "tls.key"@,
        plan.ca_path@ == "/etc/brupop-tls-keys"@ + "/"@ + "ca.crt"@,
        plan.pod_labels@ == "brupop.bottlerocket.aws/component"@ + "="@ + "agent"@,
        texts(plan.audiences@) == seq!["brupop-apiserver"@],
        texts(plan.open_paths@) == seq!["/ping"@, "/crdconvert"@],
{
}

/// The server fails where one of its watches ends, or where it fails itself.
pub proof fn server_ends(ended: ServerEnded, r: Result<(), Error>)
    requires
        call_ensures(server_ended, (ended,), r),
    ensures
        r is Ok <==> ended is Server && ended->Server_0 is Ok,
        ended is PodWatch ==> r->Err_0 is KubernetesWatcherFailed,
        ended is CertificateWatch ==> r->Err_0 is ReloadCertificateFailed,
        ended is Server && ended->Server_0 is Err ==> r->Err_0 is HttpServerError
            && r->Err_0->HttpServerError_source == ended->Server_0->Err_0,
{
}

/// The server reloads its certificate exactly where it has changed.
pub proof fn changed_certificates_are_reloaded(current: &Vec<u8>, cached: &Vec<u8>, r: bool)
    requires
        call_ensures(reload_certificate, (current, cached), r),
    ensures
        r <==> current@ != cached@,
{
}

/// A request of the agent goes to the service of the server, by the route of what it asks for, and
/// carries the node and the token.
pub proof fn agents_make_requests(endpoint: Endpoint, node: SelectorView, token: Seq<char>)
    ensures
        ({
            let request = request_for(endpoint, node, token);
            &&& request.method == route(endpoint).0
            &&& request.url == "https"@ + "://"@ + ("brupop-apiserver"@ + "."@
                + "brupop-bottlerocket-aws"@ + ".svc.cluster.local:"@ + decimal(443))
                + route(endpoint).1
            &&& request.headers == request_headers(node, token)
            &&& request.headers.len() == 3
            &&& request.headers.contains(("BrupopNodeName"@, node.node_name))
            &&& request.headers.contains(("BrupopNodeUid"@, node.node_uid))
            &&& request.headers.contains(("BrupopK8sAuthToken"@, token))
        }),
{
    let headers = request_headers(node, token);
    assert(headers[0] == ("BrupopNodeUid"@, node.node_uid));
    assert(headers[1] == ("BrupopNodeName"@, node.node_name));
    assert(headers[2] == ("BrupopK8sAuthToken"@, token));
}

/// A request succeeds where its status is from 200 to 299. Otherwise the error tells what was asked
/// for, of which node, the status, and what the server said.
pub proof fn answers_to_requests(
    endpoint: Endpoint,
    node: &BottlerocketShadowSelector,
    status: u16,
    text: Option<String>,
    r: Result<(), ClientError>,
)
    requires
        call_ensures(check_response, (endpoint, node, status, text), r),
    ensures
        r is Ok <==> 200 <= status <= 299,
        is_success(status) <==> 200 <= status <= 299,
        r is Err ==> {
            let e = r->Err_0;
            let said = if text is Some {
                text->0@
            } else {
                "<empty response>"@
            };
            &&& endpoint is CreateShadow ==> {
                &&& e is CreateBottlerocketShadowResource
                &&& e->CreateBottlerocketShadowResource_selector@ == node@
                &&& e->CreateBottlerocketShadowResource_source is ErrorResponse
                &&& e->CreateBottlerocketShadowResource_source->status_code == status
                &&& e->CreateBottlerocketShadowResource_source->response@ == said
            }
            &&& endpoint is UpdateShadow ==> {
                &&& e is UpdateBottlerocketShadowResource
                &&& e->UpdateBottlerocketShadowResource_selector@ == node@
                &&& e->UpdateBottlerocketShadowResource_source is ErrorResponse
                &&& e->UpdateBottlerocketShadowResource_source->status_code == status
                &&& e->UpdateBottlerocketShadowResource_source->response@ == said
            }
            &&& endpoint is CordonAndDrain || endpoint is Uncordon ==> {
                &&& e is CordonAndDrainNodeResource
                &&& e->CordonAndDrainNodeResource_selector@ == node@
                &&& e->CordonAndDrainNodeResource_source is ErrorResponse
                &&& e->CordonAndDrainNodeResource_source->status_code == status
                &&& e->CordonAndDrainNodeResource_source->response@ == said
            }
        },
        text is Some ==> response_text(text) == text->0@,
{
}

/// What an error of a request is about: what was asked for, of which node, and why it failed.
pub proof fn errors_of_requests(
    e: ClientError,
    endpoint: Endpoint,
    node: SelectorView,
    source: FailureCause,
)
    requires
        is_error_of(e, endpoint, node, source),
    ensures
        endpoint is CreateShadow <==> e is CreateBottlerocketShadowResource,
        endpoint is UpdateShadow <==> e is UpdateBottlerocketShadowResource,
        endpoint is CordonAndDrain || endpoint is Uncordon ==> e is CordonAndDrainNodeResource,
        e is CreateBottlerocketShadowResource ==> e->CreateBottlerocketShadowResource_source == source
            && e->CreateBottlerocketShadowResource_selector@ == node,
        e is UpdateBottlerocketShadowResource ==> e->UpdateBottlerocketShadowResource_source == source
            && e->UpdateBottlerocketShadowResource_selector@ == node,
        e is CordonAndDrainNodeResource ==> e->CordonAndDrainNodeResource_source == source
            && e->CordonAndDrainNodeResource_selector@ == node,
{
}

proof fn lemma_ten_seconds(retries: nat)
    ensures
        backoff(100, 10_000, retries) == if retries == 0 {
            100int
        } else {
            10_000
        },
    decreases retries,
{
    if retries == 0 {
        delays_are_powers_up_to_a_limit(100, 10_000, 0);
    } else {
        lemma_ten_seconds((retries - 1) as nat);
        delays_are_powers_up_to_a_limit(100, 10_000, (retries - 1) as nat);
    }
}

/// A failed request is made again five times: after a tenth of a second, and then every ten seconds.
pub proof fn waits_between_requests(delays: Vec<u64>, i: int)
    requires
        call_ensures(retry_strategy, (), delays),
        0 <= i < 5,
    ensures
        delays@.len() == 5,
        delays@[i] == if i == 0 {
            100u64
        } else {
            10_000
        },
{
    lemma_ten_seconds(i as nat);
}

/// A request to an excluded path is handed on. Any other one is rejected where it lacks a header, and
/// else has its token reviewed for the audiences of the authorizor, and its node remembered.
pub proof fn requests_are_reviewed<S, T: TokenAuthorizor>(
    middleware: &InnerTokenAuthMiddleware<S, T>,
    path: &str,
    headers: &Headers,
    r: Decision,
)
    requires
        call_ensures(InnerTokenAuthMiddleware::<S, T>::call, (middleware, path, headers), r),
    ensures
        ({
            let excluded = texts(middleware.exclude_paths@).contains(path@);
            let name = header_string(headers@, "BrupopNodeName"@);
            let uid = header_string(headers@, "BrupopNodeUid"@);
            let token = header_string(headers@, "BrupopK8sAuthToken"@);
            &&& r is Pass <==> excluded
            &&& r is Review <==> !excluded && name is Some && uid is Some && token is Some
            &&& r is Review ==> {
                &&& r->node_selector@.node_name == name->0
                &&& r->node_selector@.node_uid == uid->0
                &&& r->review@.token == token
                &&& r->review@.audiences == middleware.authorizor.review_audiences()
            }
            &&& r is Reject ==> r->Reject_0 is HTTPHeaderParse
        }),
{
}

/// A reviewed request is handed on where the authorizor does not refuse it. A review that failed is an
/// error, and so is a refusal.
pub proof fn reviewed_requests_are_authorized<S, T: TokenAuthorizor>(
    middleware: &InnerTokenAuthMiddleware<S, T>,
    node: &BottlerocketShadowSelector,
    review: Result<TokenReviewStatus, AuthorizationError>,
    r: Result<(), AuthorizationError>,
)
    requires
        call_ensures(InnerTokenAuthMiddleware::<S, T>::finish, (middleware, node, review), r),
    ensures
        r is Ok <==> review is Ok && middleware.authorizor.refuses(node@, review->Ok_0@) is None,
        review is Err ==> r->Err_0 == review->Err_0,
        review is Ok && r is Err ==> tells(
            r->Err_0,
            middleware.authorizor.refuses(node@, review->Ok_0@)->0,
        ),
{
}

} // verus!
