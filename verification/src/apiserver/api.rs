//! The brupop API server: its headers, its endpoints and its settings.

use vstd::prelude::*;
use vstd::string::*;

use super::api_error::Error;
use super::constants::{
    CRD_CONVERT_ENDPOINT, HEADER_BRUPOP_K8S_AUTH_TOKEN, HEADER_BRUPOP_NODE_NAME,
    HEADER_BRUPOP_NODE_UID, METRICS_ENDPOINT, NODE_CORDON_AND_DRAIN_ENDPOINT,
    NODE_RESOURCE_ENDPOINT, NODE_UNCORDON_ENDPOINT,
};
use crate::models::constants::{
    AGENT, APISERVER_HEALTH_CHECK_ROUTE, APISERVER_SERVICE_NAME, CA_NAME, LABEL_COMPONENT,
    PRIVATE_KEY_NAME, PUBLIC_KEY_NAME, TLS_KEY_MOUNT_PATH,
};
use crate::models::node::crd::selector::SelectorView;
use crate::models::node::crd::BottlerocketShadowSelector;
use crate::text::{ascii_lower, concat2, concat3, decimal, texts, u64_text};

verus! {

/// The seconds between looks at the certificate.
pub const CERTIFICATE_DETECTOR_SLEEP_DURATION: u64 = 60;

/// The answer of the health check.
pub const HEALTH_CHECK_BODY: &'static str = "pong";

/// The headers of a request: names and values.
#[derive(Debug)]
pub struct Headers {
    pub entries: Vec<(String, Vec<u8>)>,
}

impl View for Headers {
    type V = Seq<(Seq<char>, Seq<u8>)>;

    open spec fn view(&self) -> Seq<(Seq<char>, Seq<u8>)> {
        self.entries@.map_values(|e: (String, Vec<u8>)| (e.0@, e.1@))
    }
}

/// A name in lower case.
pub open spec fn lower(name: Seq<char>) -> Seq<char> {
    name.map_values(|c: char| ascii_lower(c))
}

/// Whether a byte is a visible ASCII character, a blank or a tab.
pub open spec fn is_visible(b: u8) -> bool {
    32 <= b < 127 || b == 9
}

/// The text of a header value, if it is made of visible ASCII characters, blanks and tabs.
pub open spec fn header_text(value: Seq<u8>) -> Option<Seq<char>> {
    if forall|i: int| 0 <= i < value.len() ==> is_visible(#[trigger] value[i]) {
        Some(value.map_values(|b: u8| b as char))
    } else {
        None
    }
}

/// The value of the first header of a name. The case of letters does not matter.
pub open spec fn header_value(
    headers: Seq<(Seq<char>, Seq<u8>)>,
    key: Seq<char>,
) -> Option<Seq<u8>>
    decreases headers.len(),
{
    if headers.len() == 0 {
        None
    } else if lower(headers[0].0) == lower(key) {
        Some(headers[0].1)
    } else {
        header_value(headers.subrange(1, headers.len() as int), key)
    }
}

/// The text of the first header of a name.
pub open spec fn header_string(headers: Seq<(Seq<char>, Seq<u8>)>, key: Seq<char>) -> Option<
    Seq<char>,
> {
    match header_value(headers, key) {
        Some(v) => header_text(v),
        None => None,
    }
}

/// Calls `HeaderValue::from_bytes` and `HeaderValue::to_str` of `actix-web`'s HTTP types. The
/// latter gives the text of a value in which all bytes are visible ASCII characters, blanks or
/// tabs, and fails for any other one; the former accepts all those values.
#[verifier::external_body]
fn value_text(value: &Vec<u8>) -> (r: Option<String>)
    ensures
        (match r {
            Some(s) => Some(s@),
            None => None,
        }) == header_text(value@),
{
    let value = actix_web::http::header::HeaderValue::from_bytes(value).ok()?;
    value.to_str().ok().map(|s| s.to_string())
}

fn same_name(a: &str, b: &str) -> (r: bool)
    ensures
        r == (lower(a@) == lower(b@)),
{
    let n: usize = a.unicode_len();
    let m: usize = b.unicode_len();
    if n != m {
        assert(lower(a@).len() != lower(b@).len());
        return false;
    }
    let mut i: usize = 0;
    while i < n
        invariant
            n == a@.len(),
            n == b@.len(),
            i <= n,
            forall|j: int| 0 <= j < i ==> lower(a@)[j] == #[trigger] lower(b@)[j],
        decreases n - i,
    {
        if lower_char(a.get_char(i)) != lower_char(b.get_char(i)) {
            assert(lower(a@)[i as int] != lower(b@)[i as int]);
            return false;
        }
        i = i + 1;
    }
    assert(lower(a@) =~= lower(b@));
    true
}

fn lower_char(c: char) -> (r: u32)
    ensures
        r == ascii_lower(c) as u32,
{
    if 'A' <= c && c <= 'Z' {
        c as u32 + 32
    } else {
        c as u32
    }
}

/// Returns a string value extracted from HTTP headers.
pub fn extract_header_string(headers: &Headers, key: &'static str) -> (r: Result<String, Error>)
    ensures
        match header_string(headers@, key@) {
            Some(s) => r is Ok && r->Ok_0@ == s,
            None => {
                &&& r is Err
                &&& r->Err_0 is HTTPHeaderParse
                &&& r->Err_0->missing_header@ == key@
            },
        },
{
    let ghost all = headers@;
    let mut i: usize = 0;
    proof {
        assert(all.subrange(0, all.len() as int) =~= all);
    }
    while i < headers.entries.len()
        invariant
            i <= headers.entries@.len(),
            all == headers@,
            all.len() == headers.entries@.len(),
            header_value(all, key@) == header_value(all.subrange(i as int, all.len() as int), key@),
        decreases headers.entries@.len() - i,
    {
        let ghost rest = all.subrange(i as int, all.len() as int);
        assert(rest[0] == (headers.entries@[i as int].0@, headers.entries@[i as int].1@));
        if same_name(headers.entries[i].0.as_str(), key) {
            return match value_text(&headers.entries[i].1) {
                Some(s) => Ok(s),
                None => Err(Error::HTTPHeaderParse { missing_header: key }),
            };
        }
        assert(rest.subrange(1, rest.len() as int) =~= all.subrange(i + 1, all.len() as int));
        i = i + 1;
    }
    Err(Error::HTTPHeaderParse { missing_header: key })
}

/// A struct containing information intended to be passed to the apiserver via HTTP headers.
#[derive(Debug)]
pub struct ApiserverCommonHeaders {
    pub node_selector: BottlerocketShadowSelector,
    pub k8s_auth_token: String,
}

/// The contents of an `ApiserverCommonHeaders`.
pub struct CommonHeadersView {
    pub node_selector: SelectorView,
    pub k8s_auth_token: Seq<char>,
}

impl View for ApiserverCommonHeaders {
    type V = CommonHeadersView;

    open spec fn view(&self) -> CommonHeadersView {
        CommonHeadersView {
            node_selector: self.node_selector@,
            k8s_auth_token: self.k8s_auth_token@,
        }
    }
}

/// What the headers of a request say, or the first header that is missing or is not text: the
/// name of the node, its uid and the token, in this order.
pub open spec fn common_headers(headers: Seq<(Seq<char>, Seq<u8>)>) -> Result<
    CommonHeadersView,
    Seq<char>,
> {
    match header_string(headers, HEADER_BRUPOP_NODE_NAME@) {
        None => Err(HEADER_BRUPOP_NODE_NAME@),
        Some(node_name) => match header_string(headers, HEADER_BRUPOP_NODE_UID@) {
            None => Err(HEADER_BRUPOP_NODE_UID@),
            Some(node_uid) => match header_string(headers, HEADER_BRUPOP_K8S_AUTH_TOKEN@) {
                None => Err(HEADER_BRUPOP_K8S_AUTH_TOKEN@),
                Some(k8s_auth_token) => Ok(
                    CommonHeadersView {
                        node_selector: SelectorView { node_name, node_uid },
                        k8s_auth_token,
                    },
                ),
            },
        },
    }
}

impl ApiserverCommonHeaders {
    /// Reads the headers of a request.
    pub fn try_from(headers: &Headers) -> (r: Result<Self, Error>)
        ensures
            match common_headers(headers@) {
                Ok(h) => r is Ok && r->Ok_0@ == h,
                Err(missing) => {
                    &&& r is Err
                    &&& r->Err_0 is HTTPHeaderParse
                    &&& r->Err_0->missing_header@ == missing
                },
            },
    {
        let node_name = match extract_header_string(headers, HEADER_BRUPOP_NODE_NAME) {
            Ok(s) => s,
            Err(e) => {
                return Err(e);
            },
        };
        let node_uid = match extract_header_string(headers, HEADER_BRUPOP_NODE_UID) {
            Ok(s) => s,
            Err(e) => {
                return Err(e);
            },
        };
        let k8s_auth_token = match extract_header_string(headers, HEADER_BRUPOP_K8S_AUTH_TOKEN) {
            Ok(s) => s,
            Err(e) => {
                return Err(e);
            },
        };
        Ok(
            ApiserverCommonHeaders {
                node_selector: BottlerocketShadowSelector { node_name, node_uid },
                k8s_auth_token,
            },
        )
    }
}

/// A request method.
#[derive(Clone, Copy, Debug, PartialEq, Eq, Structural)]
pub enum Method {
    Get,
    Post,
    Put,
}

/// What the apiserver does for a request.
#[derive(Clone, Copy, Debug, PartialEq, Eq, Structural)]
pub enum Endpoint {
    CreateShadow,
    UpdateShadow,
    CordonAndDrain,
    Uncordon,
    ConvertShadow,
    HealthCheck,
    Metrics,
}

/// Where a request for an endpoint goes.
pub open spec fn route(endpoint: Endpoint) -> (Method, Seq<char>) {
    match endpoint {
        Endpoint::CreateShadow => (Method::Post, NODE_RESOURCE_ENDPOINT@),
        Endpoint::UpdateShadow => (Method::Put, NODE_RESOURCE_ENDPOINT@),
        Endpoint::CordonAndDrain => (Method::Post, NODE_CORDON_AND_DRAIN_ENDPOINT@),
        Endpoint::Uncordon => (Method::Post, NODE_UNCORDON_ENDPOINT@),
        Endpoint::ConvertShadow => (Method::Post, CRD_CONVERT_ENDPOINT@),
        Endpoint::HealthCheck => (Method::Get, APISERVER_HEALTH_CHECK_ROUTE@),
        Endpoint::Metrics => (Method::Get, METRICS_ENDPOINT@),
    }
}

/// Where a request for an endpoint goes.
pub fn endpoint_route(endpoint: Endpoint) -> (r: (Method, &'static str))
    ensures
        (r.0, r.1@) == route(endpoint),
{
    match endpoint {
        Endpoint::CreateShadow => (Method::Post, NODE_RESOURCE_ENDPOINT),
        Endpoint::UpdateShadow => (Method::Put, NODE_RESOURCE_ENDPOINT),
        Endpoint::CordonAndDrain => (Method::Post, NODE_CORDON_AND_DRAIN_ENDPOINT),
        Endpoint::Uncordon => (Method::Post, NODE_UNCORDON_ENDPOINT),
        Endpoint::ConvertShadow => (Method::Post, CRD_CONVERT_ENDPOINT),
        Endpoint::HealthCheck => (Method::Get, APISERVER_HEALTH_CHECK_ROUTE),
        Endpoint::Metrics => (Method::Get, METRICS_ENDPOINT),
    }
}

/// The paths that need no authorization: the health check and the conversion webhook, which
/// Kubernetes itself calls.
pub open spec fn open_paths() -> Seq<Seq<char>> {
    seq![APISERVER_HEALTH_CHECK_ROUTE@, CRD_CONVERT_ENDPOINT@]
}

/// The paths for which no spans are recorded.
pub open spec fn quiet_paths() -> Seq<Seq<char>> {
    seq![APISERVER_HEALTH_CHECK_ROUTE@]
}

/// The paths for which no spans are recorded.
pub fn no_telemetry_endpoints() -> (r: Vec<String>)
    ensures
        texts(r@) == quiet_paths(),
{
    let mut paths: Vec<String> = Vec::new();
    paths.push(String::from_str(APISERVER_HEALTH_CHECK_ROUTE));
    assert(texts(paths@) =~= quiet_paths());
    paths
}

/// How the server is set up.
#[derive(Debug)]
pub struct ServerPlan {
    /// The address to listen on.
    pub address: String,
    pub certificate_path: String,
    pub private_key_path: String,
    pub ca_path: String,
    /// Which pods are watched to authenticate requests.
    pub pod_labels: String,
    pub audiences: Vec<String>,
    /// The paths that need no authorization.
    pub open_paths: Vec<String>,
}

/// Whether a text holds a colon, as an IPv6 address does.
pub open spec fn has_colon(s: Seq<char>) -> bool {
    exists|i: int| 0 <= i < s.len() && s[i] == ':'
}

/// The address of all interfaces in the family of an address, with a port.
pub open spec fn any_address(k8s_service_addr: Seq<char>, port: nat) -> Seq<char> {
    if has_colon(k8s_service_addr) {
        "[::]:"@ + decimal(port)
    } else {
        "0.0.0.0:"@ + decimal(port)
    }
}

/// The address to listen on: that of all interfaces, in the IP family of the cluster, which the
/// address of the Kubernetes service shows.
pub fn server_address(k8s_service_addr: &str, port: u16) -> (r: String)
    ensures
        r@ == any_address(k8s_service_addr@, port as nat),
{
    let n: usize = k8s_service_addr.unicode_len();
    let mut i: usize = 0;
    while i < n
        invariant
            n == k8s_service_addr@.len(),
            i <= n,
            forall|j: int| 0 <= j < i ==> k8s_service_addr@[j] != ':',
        decreases n - i,
    {
        if k8s_service_addr.get_char(i) == ':' {
            // IPv6 format
            return concat2("[::]:", u64_text(port as u64).as_str());
        }
        i = i + 1;
    }
    // IPv4 format
    concat2("0.0.0.0:", u64_text(port as u64).as_str())
}

/// The file that holds the certificate of the server.
pub fn public_key_path() -> (r: String)
    ensures
        r@ == TLS_KEY_MOUNT_PATH@ + "/"@ + PUBLIC_KEY_NAME@,
{
    concat3(TLS_KEY_MOUNT_PATH, "/", PUBLIC_KEY_NAME)
}

/// How the server is set up for a cluster and a port.
pub fn run_server(k8s_service_addr: &str, server_port: u16) -> (r: ServerPlan)
    ensures
        r.address@ == any_address(k8s_service_addr@, server_port as nat),
        r.certificate_path@ == TLS_KEY_MOUNT_PATH@ + "/"@ + PUBLIC_KEY_NAME@,
        r.private_key_path@ == TLS_KEY_MOUNT_PATH@ + "/"@ + PRIVATE_KEY_NAME@,
        r.ca_path@ == TLS_KEY_MOUNT_PATH@ + "/"@ + CA_NAME@,
        r.pod_labels@ == LABEL_COMPONENT@ + "="@ + AGENT@,
        texts(r.audiences@) == seq![APISERVER_SERVICE_NAME@],
        texts(r.open_paths@) == open_paths(),
{
    let mut audiences: Vec<String> = Vec::new();
    audiences.push(String::from_str(APISERVER_SERVICE_NAME));
    let mut paths: Vec<String> = Vec::new();
    paths.push(String::from_str(APISERVER_HEALTH_CHECK_ROUTE));
    paths.push(String::from_str(CRD_CONVERT_ENDPOINT));
    assert(texts(audiences@) =~= seq![APISERVER_SERVICE_NAME@]);
    assert(texts(paths@) =~= open_paths());
    ServerPlan {
        address: server_address(k8s_service_addr, server_port),
        certificate_path: public_key_path(),
        private_key_path: concat3(TLS_KEY_MOUNT_PATH, "/", PRIVATE_KEY_NAME),
        ca_path: concat3(TLS_KEY_MOUNT_PATH, "/", CA_NAME),
        pod_labels: concat3(LABEL_COMPONENT, "=", AGENT),
        audiences,
        open_paths: paths,
    }
}

/// What ended a run of the server.
#[derive(Debug)]
pub enum ServerEnded {
    /// The watch on pods.
    PodWatch,
    /// The watch on the certificate.
    CertificateWatch,
    /// The server itself, which may have failed.
    Server(Result<(), String>),
}

/// How a run of the server ends. Neither watch ends while all is well.
pub fn server_ended(ended: ServerEnded) -> (r: Result<(), Error>)
    ensures
        r == match ended {
            ServerEnded::PodWatch => Err::<(), Error>(Error::KubernetesWatcherFailed),
            ServerEnded::CertificateWatch => Err(Error::ReloadCertificateFailed),
            ServerEnded::Server(Ok(())) => Ok(()),
            ServerEnded::Server(Err(source)) => Err(Error::HttpServerError { source }),
        },
{
    match ended {
        ServerEnded::PodWatch => Err(Error::KubernetesWatcherFailed),
        ServerEnded::CertificateWatch => Err(Error::ReloadCertificateFailed),
        ServerEnded::Server(Ok(())) => Ok(()),
        ServerEnded::Server(Err(source)) => Err(Error::HttpServerError { source }),
    }
}

/// Whether the server has to be restarted: the certificate is not the one it was started with.
///
/// The certificate is refreshed periodically (default 60 days). Once the certificate is renewed, the apiserver
/// needs to stop in order to reload the new certificate.
/// We cache the certificate initially when brupop starts the server, and compare it to the update-to-date certificate periodically.
/// If they don't match, we recognize it as a new certificate, so the server needs to be restarted.
pub fn reload_certificate(current_certificate: &Vec<u8>, certificate_cache: &Vec<u8>) -> (r: bool)
    ensures
        r == (current_certificate@ != certificate_cache@),
{
    if current_certificate.len() != certificate_cache.len() {
        return true;
    }
    let mut i: usize = 0;
    while i < current_certificate.len()
        invariant
            i <= current_certificate@.len(),
            current_certificate@.len() == certificate_cache@.len(),
            forall|j: int| 0 <= j < i ==> current_certificate@[j] == certificate_cache@[j],
        decreases current_certificate@.len() - i,
    {
        if current_certificate[i] != certificate_cache[i] {
            return true;
        }
        i = i + 1;
    }
    assert(current_certificate@ =~= certificate_cache@);
    false
}

/// A request changes a node, or what is known of it, only with authorization: the paths that need
/// none are those of the health check and of the conversion webhook.
pub proof fn changes_need_authorization(endpoint: Endpoint)
    ensures
        open_paths().contains(route(endpoint).1) <==> endpoint == Endpoint::HealthCheck || endpoint
            == Endpoint::ConvertShadow,
{
    reveal_strlit("/bottlerocket-node-resource");
    reveal_strlit("/bottlerocket-node-resource/cordon-and-drain");
    reveal_strlit("/bottlerocket-node-resource/uncordon");
    reveal_strlit("/crdconvert");
    reveal_strlit("/ping");
    reveal_strlit("/metrics");
    assert(open_paths()[0] == APISERVER_HEALTH_CHECK_ROUTE@);
    assert(open_paths()[1] == CRD_CONVERT_ENDPOINT@);
    assert(route(endpoint).1.len() != 5 || endpoint == Endpoint::HealthCheck);
    assert(route(endpoint).1.len() != 11 || endpoint == Endpoint::ConvertShadow);
}

} // verus!
