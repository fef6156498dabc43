//! The client of the apiserver, which the agents use.

use vstd::prelude::*;
use vstd::string::*;

use super::api::{
    common_headers, endpoint_route, header_text, header_value, is_visible, lower, route,
    CommonHeadersView, Endpoint, Method,
};
use super::constants::{
    HEADER_BRUPOP_K8S_AUTH_TOKEN, HEADER_BRUPOP_NODE_NAME, HEADER_BRUPOP_NODE_UID,
};
use crate::models::constants::{
    APISERVER_SERVICE_NAME, APISERVER_SERVICE_PORT, NAMESPACE, PUBLIC_KEY_NAME, TLS_KEY_MOUNT_PATH,
};
use crate::models::node::crd::selector::SelectorView;
use crate::models::node::crd::{BottlerocketShadowSelector, BottlerocketShadowStatus};
use crate::retry::{backoff, exponential_delays};
use crate::text::{concat3, concat4, concat5, decimal, u64_text};

verus! {

// The web client uses exponential backoff.
// These values configure how many milliseconds to delay between tries.
pub const RETRY_BASE_DELAY: u64 = 100;

pub const RETRY_MAX_DELAY: u64 = 10_000;

pub const NUM_RETRIES: usize = 5;

/// The requests per minute that a client with a rate limit makes.
pub const DEFAULT_REQUESTS_PER_MINUTE: u32 = 4;

/// What is reported of a response without text.
pub const EMPTY_RESPONSE: &'static str = "<empty response>";

/// Describes a node for which a BottlerocketShadow custom resource should be constructed.
#[derive(Debug)]
pub struct CreateBottlerocketShadowRequest {
    pub node_selector: BottlerocketShadowSelector,
}

/// Describes updates to a BottlerocketShadow object's `status`.
#[derive(Debug)]
pub struct UpdateBottlerocketShadowRequest {
    pub node_selector: BottlerocketShadowSelector,
    pub node_status: BottlerocketShadowStatus,
}

/// Describes a node which should have its k8s pods drained, and be cordoned to avoid more pods being scheduled..
#[derive(Debug)]
pub struct CordonAndDrainBottlerocketShadowRequest {
    pub node_selector: BottlerocketShadowSelector,
}

/// Describes a node which should be uncordoned, allowing k8s Pods to be scheduled to it.
#[derive(Debug)]
pub struct UncordonBottlerocketShadowRequest {
    pub node_selector: BottlerocketShadowSelector,
}

/// A request to the apiserver: where it goes and the headers it carries.
#[derive(Debug)]
pub struct HttpRequest {
    pub method: Method,
    pub url: String,
    pub headers: Vec<(String, String)>,
}

/// The contents of an `HttpRequest`.
pub struct HttpRequestView {
    pub method: Method,
    pub url: Seq<char>,
    pub headers: Seq<(Seq<char>, Seq<char>)>,
}

impl View for HttpRequest {
    type V = HttpRequestView;

    open spec fn view(&self) -> HttpRequestView {
        HttpRequestView {
            method: self.method,
            url: self.url@,
            headers: self.headers@.map_values(|h: (String, String)| (h.0@, h.1@)),
        }
    }
}

/// The domain on which the server can be reached.
pub open spec fn domain() -> Seq<char> {
    APISERVER_SERVICE_NAME@ + "."@ + NAMESPACE@ + ".svc.cluster.local:"@ + decimal(
        APISERVER_SERVICE_PORT as nat,
    )
}

/// The headers of every request.
pub open spec fn request_headers(node: SelectorView, auth_token: Seq<char>) -> Seq<
    (Seq<char>, Seq<char>),
> {
    seq![
        (HEADER_BRUPOP_NODE_UID@, node.node_uid),
        (HEADER_BRUPOP_NODE_NAME@, node.node_name),
        (HEADER_BRUPOP_K8S_AUTH_TOKEN@, auth_token),
    ]
}

/// The request for an endpoint.
pub open spec fn request_for(
    endpoint: Endpoint,
    node: SelectorView,
    auth_token: Seq<char>,
) -> HttpRequestView {
    HttpRequestView {
        method: route(endpoint).0,
        url: "https"@ + "://"@ + domain() + route(endpoint).1,
        headers: request_headers(node, auth_token),
    }
}

/// Makes the requests to the apiserver.
pub trait APIServerClient {
    fn create_bottlerocket_shadow(
        &self,
        req: &CreateBottlerocketShadowRequest,
        auth_token: &str,
    ) -> (r: HttpRequest)
        ensures
            r@ == request_for(Endpoint::CreateShadow, req.node_selector@, auth_token@),
    ;

    fn update_bottlerocket_shadow(
        &self,
        req: &UpdateBottlerocketShadowRequest,
        auth_token: &str,
    ) -> (r: HttpRequest)
        ensures
            r@ == request_for(Endpoint::UpdateShadow, req.node_selector@, auth_token@),
    ;

    fn cordon_and_drain_node(
        &self,
        req: &CordonAndDrainBottlerocketShadowRequest,
        auth_token: &str,
    ) -> (r: HttpRequest)
        ensures
            r@ == request_for(Endpoint::CordonAndDrain, req.node_selector@, auth_token@),
    ;

    fn uncordon_node(&self, req: &UncordonBottlerocketShadowRequest, auth_token: &str) -> (r:
        HttpRequest)
        ensures
            r@ == request_for(Endpoint::Uncordon, req.node_selector@, auth_token@),
    ;
}

/// A client in the cluster, which finds its token in a file.
#[derive(Debug)]
pub struct K8SAPIServerClient {
    pub k8s_projected_token_path: String,
}

impl K8SAPIServerClient {
    /// A client that finds its token at a path.
    pub fn new(k8s_projected_token_path: String) -> (r: Self)
        ensures
            r.k8s_projected_token_path@ == k8s_projected_token_path@,
    {
        Self { k8s_projected_token_path }
    }

    /// Protocol scheme for communicating with the server.
    pub fn scheme() -> (r: String)
        ensures
            r@ == "https"@,
    {
        String::from_str("https")
    }

    /// Returns the domain on which the server can be reached.
    pub fn server_domain() -> (r: String)
        ensures
            r@ == domain(),
    {
        let port = u64_text(APISERVER_SERVICE_PORT as u64);
        concat5(
            APISERVER_SERVICE_NAME,
            ".",
            NAMESPACE,
            ".svc.cluster.local:",
            port.as_str(),
        )
    }

    /// The path of the certificate that the client trusts.
    pub fn certificate_path() -> (r: String)
        ensures
            r@ == TLS_KEY_MOUNT_PATH@ + "/"@ + PUBLIC_KEY_NAME@,
    {
        concat3(TLS_KEY_MOUNT_PATH, "/", PUBLIC_KEY_NAME)
    }

    fn add_common_request_headers(node_selector: &BottlerocketShadowSelector, auth_token: &str) -> (r:
        Vec<(String, String)>)
        ensures
            r@.map_values(|h: (String, String)| (h.0@, h.1@)) == request_headers(
                node_selector@,
                auth_token@,
            ),
    {
        let mut headers: Vec<(String, String)> = Vec::new();
        headers.push((String::from_str(HEADER_BRUPOP_NODE_UID), node_selector.node_uid.clone()));
        headers.push((String::from_str(HEADER_BRUPOP_NODE_NAME), node_selector.node_name.clone()));
        headers.push((String::from_str(HEADER_BRUPOP_K8S_AUTH_TOKEN), String::from_str(auth_token)));
        assert(headers@.map_values(|h: (String, String)| (h.0@, h.1@)) =~= request_headers(
            node_selector@,
            auth_token@,
        ));
        headers
    }

    fn request(endpoint: Endpoint, node_selector: &BottlerocketShadowSelector, auth_token: &str) -> (r:
        HttpRequest)
        ensures
            r@ == request_for(endpoint, node_selector@, auth_token@),
    {
        let (method, path) = endpoint_route(endpoint);
        let scheme = Self::scheme();
        let server = Self::server_domain();
        HttpRequest {
            method,
            url: concat4(scheme.as_str(), "://", server.as_str(), path),
            headers: Self::add_common_request_headers(node_selector, auth_token),
        }
    }
}

impl APIServerClient for K8SAPIServerClient {
    fn create_bottlerocket_shadow(
        &self,
        req: &CreateBottlerocketShadowRequest,
        auth_token: &str,
    ) -> (r: HttpRequest) {
        Self::request(Endpoint::CreateShadow, &req.node_selector, auth_token)
    }

    fn update_bottlerocket_shadow(
        &self,
        req: &UpdateBottlerocketShadowRequest,
        auth_token: &str,
    ) -> (r: HttpRequest) {
        Self::request(Endpoint::UpdateShadow, &req.node_selector, auth_token)
    }

    fn cordon_and_drain_node(
        &self,
        req: &CordonAndDrainBottlerocketShadowRequest,
        auth_token: &str,
    ) -> (r: HttpRequest) {
        Self::request(Endpoint::CordonAndDrain, &req.node_selector, auth_token)
    }

    fn uncordon_node(&self, req: &UncordonBottlerocketShadowRequest, auth_token: &str) -> (r:
        HttpRequest) {
        Self::request(Endpoint::Uncordon, &req.node_selector, auth_token)
    }
}

/// Why a request failed.
#[derive(Debug)]
pub enum FailureCause {
    /// The server answered with an error status.
    ErrorResponse { status_code: u16, response: String },
    /// The request could not be made or the answer not be read.
    Other { message: String },
}

/// Error type representing issues using an apiserver client.
#[derive(Debug)]
pub enum ClientError {
    CreateBottlerocketShadowResource { source: FailureCause, selector: BottlerocketShadowSelector },
    UpdateBottlerocketShadowResource { source: FailureCause, selector: BottlerocketShadowSelector },
    CordonAndDrainNodeResource { source: FailureCause, selector: BottlerocketShadowSelector },
    IOError { source: String },
}

/// How `http::StatusCode` writes a status code: the number and its reason.
pub uninterp spec fn http_status_text(code: u16) -> Seq<char>;

/// Writes a status code with `Display` of `http::StatusCode`, whose result `http_status_text`
/// names. The type holds the codes of three digits.
#[verifier::external_body]
fn status_code_text(code: u16) -> (r: String)
    requires
        100 <= code < 1000,
    ensures
        r@ == http_status_text(code),
{
    actix_web::http::StatusCode::from_u16(code).unwrap().to_string()
}

/// A status as it is reported: with its reason, where the code has three digits.
pub open spec fn reported_status(code: u16) -> Seq<char> {
    if 100 <= code < 1000 {
        http_status_text(code)
    } else {
        decimal(code as nat)
    }
}

impl FailureCause {
    /// The cause in words.
    pub open spec fn message(self) -> Seq<char> {
        match self {
            FailureCause::ErrorResponse { status_code, response } => error_response_message(
                reported_status(status_code),
                response@,
            ),
            FailureCause::Other { message } => message@,
        }
    }

    /// The cause in words.
    pub fn to_text(&self) -> (r: String)
        ensures
            r@ == self.message(),
    {
        match self {
            FailureCause::ErrorResponse { status_code, response } => {
                let status = if 100 <= *status_code && *status_code < 1000 {
                    status_code_text(*status_code)
                } else {
                    u64_text(*status_code as u64)
                };
                error_response_text(status.as_str(), response.as_str())
            },
            FailureCause::Other { message } => message.clone(),
        }
    }
}

/// What is said of a response with an error status.
pub open spec fn error_response_message(status: Seq<char>, response: Seq<char>) -> Seq<char> {
    "API server responded with an error status code "@ + status + ": '"@ + response + "'"@
}

/// What is said of a response with an error status.
pub fn error_response_text(status: &str, response: &str) -> (r: String)
    ensures
        r@ == error_response_message(status@, response@),
{
    concat5("API server responded with an error status code ", status, ": '", response, "'")
}

/// What is said of a request for a node that failed.
pub open spec fn node_failure_message(
    what: Seq<char>,
    node: SelectorView,
    cause: Seq<char>,
) -> Seq<char> {
    what + " ("@ + node.node_name + ", "@ + node.node_uid + "): '"@ + cause + "'"@
}

fn node_failure_text(what: &str, selector: &BottlerocketShadowSelector, source: &FailureCause) -> (r:
    String)
    ensures
        r@ == node_failure_message(what@, selector@, source.message()),
{
    let head = concat5(what, " (", selector.node_name.as_str(), ", ", selector.node_uid.as_str());
    concat4(head.as_str(), "): '", source.to_text().as_str(), "'")
}

impl ClientError {
    /// The error in words.
    pub open spec fn message(self) -> Seq<char> {
        match self {
            ClientError::CreateBottlerocketShadowResource { source, selector } =>
            node_failure_message(
                "Unable to create BottlerocketShadow"@,
                selector@,
                source.message(),
            ),
            ClientError::UpdateBottlerocketShadowResource { source, selector } =>
            node_failure_message(
                "Unable to update BottlerocketShadow status"@,
                selector@,
                source.message(),
            ),
            ClientError::CordonAndDrainNodeResource { source, selector } => node_failure_message(
                "Unable to drain and cordon Node status"@,
                selector@,
                source.message(),
            ),
            ClientError::IOError { source } =>
            "IO error occurred while attempting to use APIServerClient: '"@ + source@ + "'"@,
        }
    }

    /// The error in words.
    pub fn to_text(&self) -> (r: String)
        ensures
            r@ == self.message(),
    {
        match self {
            ClientError::CreateBottlerocketShadowResource { source, selector } => node_failure_text(
                "Unable to create BottlerocketShadow",
                selector,
                source,
            ),
            ClientError::UpdateBottlerocketShadowResource { source, selector } => node_failure_text(
                "Unable to update BottlerocketShadow status",
                selector,
                source,
            ),
            ClientError::CordonAndDrainNodeResource { source, selector } => node_failure_text(
                "Unable to drain and cordon Node status",
                selector,
                source,
            ),
            ClientError::IOError { source } => concat3(
                "IO error occurred while attempting to use APIServerClient: '",
                source.as_str(),
                "'",
            ),
        }
    }
}

/// Whether a status reports success.
pub open spec fn is_success(status: u16) -> bool {
    200 <= status < 300
}

/// Whether an error is that of an endpoint and holds a cause. An uncordon that fails is reported
/// like a drain that fails.
pub open spec fn is_error_of(
    e: ClientError,
    endpoint: Endpoint,
    node: SelectorView,
    source: FailureCause,
) -> bool {
    match endpoint {
        Endpoint::CreateShadow => {
            &&& e is CreateBottlerocketShadowResource
            &&& e->CreateBottlerocketShadowResource_source == source
            &&& e->CreateBottlerocketShadowResource_selector@ == node
        },
        Endpoint::UpdateShadow => {
            &&& e is UpdateBottlerocketShadowResource
            &&& e->UpdateBottlerocketShadowResource_source == source
            &&& e->UpdateBottlerocketShadowResource_selector@ == node
        },
        _ => {
            &&& e is CordonAndDrainNodeResource
            &&& e->CordonAndDrainNodeResource_source == source
            &&& e->CordonAndDrainNodeResource_selector@ == node
        },
    }
}

/// The cause that an error holds.
pub open spec fn cause_of(e: ClientError) -> FailureCause {
    match e {
        ClientError::CreateBottlerocketShadowResource { source, .. } => source,
        ClientError::UpdateBottlerocketShadowResource { source, .. } => source,
        ClientError::CordonAndDrainNodeResource { source, .. } => source,
        ClientError::IOError { source } => FailureCause::Other { message: source },
    }
}

/// The error of an endpoint.
pub fn client_error(
    endpoint: Endpoint,
    node_selector: &BottlerocketShadowSelector,
    source: FailureCause,
) -> (r: ClientError)
    ensures
        is_error_of(r, endpoint, node_selector@, source),
{
    let selector = node_selector.copy();
    match endpoint {
        Endpoint::CreateShadow => ClientError::CreateBottlerocketShadowResource {
            source,
            selector,
        },
        Endpoint::UpdateShadow => ClientError::UpdateBottlerocketShadowResource {
            source,
            selector,
        },
        _ => ClientError::CordonAndDrainNodeResource { source, selector },
    }
}

/// What is reported of the text of a response.
pub open spec fn response_text(text: Option<String>) -> Seq<char> {
    match text {
        Some(t) => t@,
        None => EMPTY_RESPONSE@,
    }
}

/// Whether a request succeeded, from the status of the response and its text where it has one.
pub fn check_response(
    endpoint: Endpoint,
    node_selector: &BottlerocketShadowSelector,
    status: u16,
    text: Option<String>,
) -> (r: Result<(), ClientError>)
    ensures
        is_success(status) ==> r is Ok,
        !is_success(status) ==> {
            &&& r is Err
            &&& is_error_of(r->Err_0, endpoint, node_selector@, cause_of(r->Err_0))
            &&& cause_of(r->Err_0) is ErrorResponse
            &&& cause_of(r->Err_0)->status_code == status
            &&& cause_of(r->Err_0)->response@ == response_text(text)
        },
{
    if 200 <= status && status < 300 {
        Ok(())
    } else {
        let response = match text {
            Some(t) => t,
            None => String::from_str(EMPTY_RESPONSE),
        };
        let e = client_error(
            endpoint,
            node_selector,
            FailureCause::ErrorResponse { status_code: status, response },
        );
        Err(e)
    }
}

/// The delays, in milliseconds, between attempts to reach the apiserver, before they are spread
/// at random.
pub fn retry_strategy() -> (r: Vec<u64>)
    ensures
        r@.len() == NUM_RETRIES,
        forall|i: int| 0 <= i < NUM_RETRIES ==> (#[trigger] r@[i]) == backoff(
            RETRY_BASE_DELAY as nat,
            RETRY_MAX_DELAY as nat,
            i as nat,
        ),
{
    exponential_delays(RETRY_BASE_DELAY, RETRY_MAX_DELAY, NUM_RETRIES)
}

/// Whether a character is a visible ASCII character, a blank or a tab.
pub open spec fn is_visible_char(c: char) -> bool {
    ' ' <= c <= '~' || c == '\t'
}

/// Whether a text is made of visible ASCII characters, blanks and tabs.
pub open spec fn is_visible_text(s: Seq<char>) -> bool {
    forall|i: int| 0 <= i < s.len() ==> is_visible_char(#[trigger] s[i])
}

/// The bytes of a text that is made of visible ASCII characters, blanks and tabs.
pub open spec fn text_bytes(s: Seq<char>) -> Seq<u8> {
    s.map_values(|c: char| c as u8)
}

/// Headers as they are sent.
pub open spec fn sent_headers(headers: Seq<(Seq<char>, Seq<char>)>) -> Seq<(Seq<char>, Seq<u8>)> {
    headers.map_values(|h: (Seq<char>, Seq<char>)| (h.0, text_bytes(h.1)))
}

proof fn lemma_text_survives(s: Seq<char>)
    requires
        is_visible_text(s),
    ensures
        header_text(text_bytes(s)) == Some(s),
{
    let b = text_bytes(s);
    assert forall|i: int| 0 <= i < b.len() implies is_visible(#[trigger] b[i]) && b[i] as char
        == s[i] by {
        lemma_char_survives(s[i]);
    }
    assert(b.map_values(|x: u8| x as char) =~= s);
}

proof fn lemma_char_survives(c: char)
    requires
        is_visible_char(c),
    ensures
        is_visible(c as u8),
        c as u8 as char == c,
{
}

/// What a client sends, the apiserver reads: the headers of a request are read as the node and
/// the token that it was made for, if these are made of visible ASCII characters.
pub proof fn server_reads_what_client_sends(node: SelectorView, auth_token: Seq<char>)
    requires
        is_visible_text(node.node_name),
        is_visible_text(node.node_uid),
        is_visible_text(auth_token),
    ensures
        common_headers(sent_headers(request_headers(node, auth_token))) == Ok::<
            CommonHeadersView,
            Seq<char>,
        >(CommonHeadersView { node_selector: node, k8s_auth_token: auth_token }),
{
    reveal_strlit("BrupopNodeName");
    reveal_strlit("BrupopNodeUid");
    reveal_strlit("BrupopK8sAuthToken");
    lemma_text_survives(node.node_name);
    lemma_text_survives(node.node_uid);
    lemma_text_survives(auth_token);
    let sent = sent_headers(request_headers(node, auth_token));
    let second = sent.subrange(1, sent.len() as int);
    let third = second.subrange(1, second.len() as int);
    assert(lower(HEADER_BRUPOP_NODE_NAME@).len() == 14);
    assert(lower(HEADER_BRUPOP_NODE_UID@).len() == 13);
    assert(lower(HEADER_BRUPOP_K8S_AUTH_TOKEN@).len() == 18);
    assert(sent[0] == (HEADER_BRUPOP_NODE_UID@, text_bytes(node.node_uid)));
    assert(second[0] == (HEADER_BRUPOP_NODE_NAME@, text_bytes(node.node_name)));
    assert(third[0] == (HEADER_BRUPOP_K8S_AUTH_TOKEN@, text_bytes(auth_token)));
    assert(header_value(second, HEADER_BRUPOP_NODE_NAME@) == Some(text_bytes(node.node_name)));
    assert(header_value(third, HEADER_BRUPOP_K8S_AUTH_TOKEN@) == Some(text_bytes(auth_token)));
    assert(header_value(second, HEADER_BRUPOP_K8S_AUTH_TOKEN@) == header_value(
        third,
        HEADER_BRUPOP_K8S_AUTH_TOKEN@,
    ));
    assert(header_value(sent, HEADER_BRUPOP_NODE_UID@) == Some(text_bytes(node.node_uid)));
    assert(header_value(sent, HEADER_BRUPOP_NODE_NAME@) == header_value(
        second,
        HEADER_BRUPOP_NODE_NAME@,
    ));
    assert(header_value(sent, HEADER_BRUPOP_K8S_AUTH_TOKEN@) == header_value(
        second,
        HEADER_BRUPOP_K8S_AUTH_TOKEN@,
    ));
}

} // verus!
