//! This module provides abstractions for authenticating and authorizing requests from brupop agents to make changes to
//! the underlying Node's resources (including BottlerocketShadow custom resources, or draining the host Nodes of Pods.)

use vstd::prelude::*;
use vstd::string::*;

use super::error::AuthorizationError;
use crate::models::meta::{copy_option, text_option};
use crate::models::node::crd::selector::SelectorView;
use crate::models::node::crd::BottlerocketShadowSelector;
use crate::text::{contains_text, copy_texts, str_eq, texts};

verus! {

// The k8s TokenReview authenticator adds the pod name in the `extra` field of the UserInfo
// provided with our TokenReview.status. This is the key to retrieve it.
//
// Presence in the `extra` field means that this is non-standard, so it's possible that brupop will not
// work with some implementations of a TokenReview server. The current Kubernetes API implementation seems to guarantee it.
pub const POD_NAME_INFO_KEY: &'static str = "authentication.kubernetes.io/pod-name";

/// A request for a review of a token.
#[derive(Debug)]
pub struct TokenReview {
    pub token: Option<String>,
    pub audiences: Option<Vec<String>>,
}

/// The contents of a `TokenReview`.
pub struct TokenReviewView {
    pub token: Option<Seq<char>>,
    pub audiences: Option<Seq<Seq<char>>>,
}

/// A list of texts, where there is one, as sequences of characters.
pub open spec fn texts_option(o: Option<Vec<String>>) -> Option<Seq<Seq<char>>> {
    match o {
        Some(v) => Some(texts(v@)),
        None => None,
    }
}

impl View for TokenReview {
    type V = TokenReviewView;

    open spec fn view(&self) -> TokenReviewView {
        TokenReviewView { token: text_option(self.token), audiences: texts_option(self.audiences) }
    }
}

/// The result of the review of a token.
#[derive(Debug)]
pub struct TokenReviewStatus {
    pub authenticated: Option<bool>,
    pub audiences: Option<Vec<String>>,
    pub error: Option<String>,
    /// What is known of the user beyond the standard: lists of values by key. None where no
    /// user or nothing further is known.
    pub extra: Option<Vec<(String, Vec<String>)>>,
}

/// The contents of a `TokenReviewStatus`.
pub struct TokenReviewStatusView {
    pub authenticated: Option<bool>,
    pub audiences: Option<Seq<Seq<char>>>,
    pub error: Option<Seq<char>>,
    pub extra: Option<Seq<(Seq<char>, Seq<Seq<char>>)>>,
}

impl View for TokenReviewStatus {
    type V = TokenReviewStatusView;

    open spec fn view(&self) -> TokenReviewStatusView {
        TokenReviewStatusView {
            authenticated: self.authenticated,
            audiences: texts_option(self.audiences),
            error: text_option(self.error),
            extra: match self.extra {
                Some(v) => Some(v@.map_values(|e: (String, Vec<String>)| (e.0@, texts(e.1@)))),
                None => None,
            },
        }
    }
}

impl Default for TokenReviewStatus {
    fn default() -> (r: Self)
        ensures
            r@ == (TokenReviewStatusView {
                authenticated: None,
                audiences: None,
                error: None,
                extra: None,
            }),
    {
        TokenReviewStatus { authenticated: None, audiences: None, error: None, extra: None }
    }
}

/// A pod of an agent, as far as authorization looks at it.
#[derive(Debug)]
pub struct AgentPod {
    pub name: String,
    pub namespace: Option<String>,
    /// The node that the pod runs on.
    pub node_name: Option<String>,
}

/// The contents of an `AgentPod`.
pub struct AgentPodView {
    pub name: Seq<char>,
    pub namespace: Option<Seq<char>>,
    pub node_name: Option<Seq<char>>,
}

impl View for AgentPod {
    type V = AgentPodView;

    open spec fn view(&self) -> AgentPodView {
        AgentPodView {
            name: self.name@,
            namespace: text_option(self.namespace),
            node_name: text_option(self.node_name),
        }
    }
}

/// Pods as their contents.
pub open spec fn agent_pod_views(pods: Seq<AgentPod>) -> Seq<AgentPodView> {
    pods.map_values(|p: AgentPod| p@)
}

/// Whether the pod at a place is the first one of a name and a namespace.
pub open spec fn is_first_pod(
    pods: Seq<AgentPodView>,
    name: Seq<char>,
    namespace: Option<Seq<char>>,
    i: int,
) -> bool {
    &&& 0 <= i < pods.len()
    &&& pods[i].name == name && pods[i].namespace == namespace
    &&& forall|j: int|
        0 <= j < i ==> (#[trigger] pods[j]).name != name || pods[j].namespace != namespace
}

/// The first pod of a name and a namespace.
pub open spec fn pod_at(
    pods: Seq<AgentPodView>,
    name: Seq<char>,
    namespace: Option<Seq<char>>,
) -> Option<AgentPodView> {
    if exists|i: int| is_first_pod(pods, name, namespace, i) {
        Some(pods[choose|i: int| is_first_pod(pods, name, namespace, i)])
    } else {
        None
    }
}

/// The pod of a name: in the given namespace, or else one without a namespace.
pub open spec fn pod_named(
    pods: Seq<AgentPodView>,
    name: Seq<char>,
    namespace: Seq<char>,
) -> Option<AgentPodView> {
    match pod_at(pods, name, Some(namespace)) {
        Some(p) => Some(p),
        None => pod_at(pods, name, None),
    }
}

fn find_pod_at(pods: &Vec<AgentPod>, name: &str, namespace: Option<&str>) -> (r: Option<usize>)
    ensures
        ({
            let ns = match namespace {
                Some(n) => Some(n@),
                None => None,
            };
            match r {
                Some(i) => i < pods@.len() && pod_at(agent_pod_views(pods@), name@, ns) == Some(
                    pods@[i as int]@,
                ),
                None => pod_at(agent_pod_views(pods@), name@, ns) is None,
            }
        }),
{
    let ghost ns = match namespace {
        Some(n) => Some(n@),
        None => None,
    };
    let ghost views = agent_pod_views(pods@);
    let mut i: usize = 0;
    while i < pods.len()
        invariant
            i <= pods@.len(),
            views == agent_pod_views(pods@),
            ns == (match namespace {
                Some(n) => Some(n@),
                None => None,
            }),
            forall|j: int|
                0 <= j < i ==> (#[trigger] views[j]).name != name@ || views[j].namespace != ns,
        decreases pods@.len() - i,
    {
        assert(views[i as int] == pods@[i as int]@);
        let same_namespace = match (&pods[i].namespace, namespace) {
            (Some(a), Some(b)) => str_eq(a.as_str(), b),
            (None, None) => true,
            _ => false,
        };
        if same_namespace && str_eq(pods[i].name.as_str(), name) {
            proof {
                assert(is_first_pod(views, name@, ns, i as int));
                let k = choose|k: int| is_first_pod(views, name@, ns, k);
                assert(k == i) by {
                    if k < i {
                        assert(views[k].name != name@ || views[k].namespace != ns);
                    }
                    if i < k {
                        assert(views[i as int].name != name@ || views[i as int].namespace != ns);
                    }
                }
            }
            return Some(i);
        }
        i = i + 1;
    }
    proof {
        assert forall|k: int| !is_first_pod(views, name@, ns, k) by {
            if is_first_pod(views, name@, ns, k) {
                assert(views[k].name != name@ || views[k].namespace != ns);
            }
        }
    }
    None
}

/// The pod name in a review: the first value under the key for pod names. Of entries with that
/// key the first counts.
pub open spec fn reviewed_pod_name(status: TokenReviewStatusView) -> Option<Seq<char>> {
    match status.extra {
        None => None,
        Some(extra) => first_value(extra, POD_NAME_INFO_KEY@),
    }
}

/// The first value of the first entry with a key.
pub open spec fn first_value(
    extra: Seq<(Seq<char>, Seq<Seq<char>>)>,
    key: Seq<char>,
) -> Option<Seq<char>>
    decreases extra.len(),
{
    if extra.len() == 0 {
        None
    } else if extra[0].0 == key {
        if extra[0].1.len() > 0 {
            Some(extra[0].1[0])
        } else {
            None
        }
    } else {
        first_value(extra.subrange(1, extra.len() as int), key)
    }
}

fn find_first_value<'a>(extra: &'a Vec<(String, Vec<String>)>, key: &str) -> (r: Option<&'a String>)
    ensures
        (match r {
            Some(s) => Some(s@),
            None => None,
        }) == first_value(
            extra@.map_values(|e: (String, Vec<String>)| (e.0@, texts(e.1@))),
            key@,
        ),
{
    let ghost all = extra@.map_values(|e: (String, Vec<String>)| (e.0@, texts(e.1@)));
    let mut i: usize = 0;
    proof {
        assert(all.subrange(0, all.len() as int) =~= all);
    }
    while i < extra.len()
        invariant
            i <= extra@.len(),
            all == extra@.map_values(|e: (String, Vec<String>)| (e.0@, texts(e.1@))),
            first_value(all, key@) == first_value(all.subrange(i as int, all.len() as int), key@),
        decreases extra@.len() - i,
    {
        let ghost rest = all.subrange(i as int, all.len() as int);
        assert(rest[0] == (extra@[i as int].0@, texts(extra@[i as int].1@)));
        if str_eq(extra[i].0.as_str(), key) {
            let values = &extra[i].1;
            if values.len() > 0 {
                return Some(&values[0]);
            } else {
                return None;
            }
        }
        assert(rest.subrange(1, rest.len() as int) =~= all.subrange(i + 1, all.len() as int));
        i = i + 1;
    }
    None
}

/// What the settings of an authorizor are: the namespace of the agents, the known pods and the
/// audiences that the apiserver belongs to.
pub struct AuthorizorView {
    pub namespace: Seq<char>,
    pub pods: Seq<AgentPodView>,
    pub audiences: Option<Seq<Seq<char>>>,
}

/// Whether two lists of audiences have one in common.
pub open spec fn audiences_meet(a: Seq<Seq<char>>, b: Seq<Seq<char>>) -> bool {
    exists|i: int| 0 <= i < a.len() && b.contains(#[trigger] a[i])
}

/// The node that the pod of a review runs on.
pub open spec fn reviewed_node(a: AuthorizorView, pod_name: Seq<char>) -> Option<Seq<char>> {
    match pod_named(a.pods, pod_name, a.namespace) {
        Some(p) => p.node_name,
        None => None,
    }
}

/// Why a reviewed request to change a node is refused.
pub enum Refusal {
    ServerError(Seq<char>),
    NotAuthenticated,
    NotAudienceAware,
    AudienceMismatch,
    MissingPodName,
    NoSuchPod(Seq<char>),
    OtherNode(Seq<char>, Seq<char>),
}

/// Whether a reviewed request to change a node is refused, and why. It is authorized under the
/// conditions that:
/// * the review reports no error and the token is authenticated
/// * the audiences of the review and our own have one in common, if we have any
/// * the review contains the pod name, and the referred pod is deployed to our target node.
pub open spec fn refusal(
    a: AuthorizorView,
    node: SelectorView,
    status: TokenReviewStatusView,
) -> Option<Refusal> {
    if status.error is Some {
        Some(Refusal::ServerError(status.error->0))
    } else if status.authenticated != Some(true) {
        Some(Refusal::NotAuthenticated)
    } else if a.audiences is Some && status.audiences is None {
        Some(Refusal::NotAudienceAware)
    } else if a.audiences is Some && !audiences_meet(a.audiences->0, status.audiences->0) {
        Some(Refusal::AudienceMismatch)
    } else {
        match reviewed_pod_name(status) {
            None => Some(Refusal::MissingPodName),
            Some(pod_name) => match reviewed_node(a, pod_name) {
                None => Some(Refusal::NoSuchPod(pod_name)),
                Some(node_name) => if node_name == node.node_name {
                    None
                } else {
                    Some(Refusal::OtherNode(node_name, node.node_name))
                },
            },
        }
    }
}

/// Whether an error tells a refusal.
pub open spec fn tells(e: AuthorizationError, refusal: Refusal) -> bool {
    match refusal {
        Refusal::ServerError(m) => e is TokenReviewServerError
            && e->TokenReviewServerError_err_msg@ == m,
        Refusal::NotAuthenticated => e is TokenNotAuthenticated,
        Refusal::NotAudienceAware => e is TokenReviewMissingPodName,
        Refusal::AudienceMismatch => e is AudienceMismatch,
        Refusal::MissingPodName => e is TokenReviewMissingPodName,
        Refusal::NoSuchPod(name) => e is NoSuchPod && e->pod_name@ == name,
        Refusal::OtherNode(requesting, target) => {
            &&& e is RequesterTargetMismatch
            &&& e->requesting_node@ == requesting
            &&& e->target_node@ == target
        },
    }
}

/// A token authorizor can determine if a given identity is authorized to make changes to a particular node.
pub trait TokenAuthorizor {
    /// The audiences for which a token is reviewed.
    spec fn review_audiences(&self) -> Option<Seq<Seq<char>>>;

    /// Whether a reviewed request is refused, and why.
    spec fn refuses(&self, node: SelectorView, status: TokenReviewStatusView) -> Option<Refusal>;

    /// The review that has to be made of a token.
    fn token_review(&self, auth_token: &str) -> (r: TokenReview)
        ensures
            r@ == (TokenReviewView {
                token: Some(auth_token@),
                audiences: self.review_audiences(),
            }),
    ;

    /// Determine if the identity represented by a reviewed auth token has access to the provided node.
    fn check_request_authorized(
        &self,
        node_selector: &BottlerocketShadowSelector,
        review: Result<TokenReviewStatus, AuthorizationError>,
    ) -> (r: Result<(), AuthorizationError>)
        ensures
            match review {
                Err(e) => r == Err::<(), AuthorizationError>(e),
                Ok(status) => match self.refuses(node_selector@, status@) {
                    None => r is Ok,
                    Some(why) => r is Err && tells(r->Err_0, why),
                },
            },
    ;
}

/// An authorizor that goes by reviews of tokens by the Kubernetes API.
#[derive(Debug)]
pub struct K8STokenAuthorizor {
    pub namespace: String,
    pub pods: Vec<AgentPod>,
    pub k8s_audiences: Option<Vec<String>>,
}

impl View for K8STokenAuthorizor {
    type V = AuthorizorView;

    open spec fn view(&self) -> AuthorizorView {
        AuthorizorView {
            namespace: self.namespace@,
            pods: agent_pod_views(self.pods@),
            audiences: texts_option(self.k8s_audiences),
        }
    }
}

impl TokenAuthorizor for K8STokenAuthorizor {
    open spec fn review_audiences(&self) -> Option<Seq<Seq<char>>> {
        self@.audiences
    }

    open spec fn refuses(&self, node: SelectorView, status: TokenReviewStatusView) -> Option<
        Refusal,
    > {
        refusal(self@, node, status)
    }

    fn token_review(&self, auth_token: &str) -> (r: TokenReview) {
        TokenReview {
            token: Some(String::from_str(auth_token)),
            audiences: match &self.k8s_audiences {
                Some(a) => Some(copy_texts(a)),
                None => None,
            },
        }
    }

    /// Returns Ok(()) if a write operation is permitted to this given node by the requester, and Err(_) otherwise.
    fn check_request_authorized(
        &self,
        node_selector: &BottlerocketShadowSelector,
        review: Result<TokenReviewStatus, AuthorizationError>,
    ) -> (r: Result<(), AuthorizationError>) {
        let review_status = match review {
            Ok(s) => s,
            Err(e) => {
                return Err(e);
            },
        };
        match &review_status.error {
            Some(err_msg) => {
                return Err(
                    AuthorizationError::TokenReviewServerError { err_msg: err_msg.clone() },
                );
            },
            None => {},
        }
        match self.check_token_has_authenticated(&review_status) {
            Ok(_) => {},
            Err(e) => {
                return Err(e);
            },
        }
        match self.check_audiences_are_compatible(&review_status) {
            Ok(_) => {},
            Err(e) => {
                return Err(e);
            },
        }
        self.check_requester_is_from_correct_node(&review_status, node_selector)
    }
}

impl K8STokenAuthorizor {
    /// An authorizor for the agents of a namespace, of which the pods are known.
    pub fn new(
        namespace: String,
        pods: Vec<AgentPod>,
        k8s_audiences: Option<Vec<String>>,
    ) -> (r: Self)
        ensures
            r@ == (AuthorizorView {
                namespace: namespace@,
                pods: agent_pod_views(pods@),
                audiences: texts_option(k8s_audiences),
            }),
    {
        K8STokenAuthorizor { namespace, pods, k8s_audiences }
    }

    /// Returns whether or not the TokenReview server has authenticated the given token.
    pub fn check_token_has_authenticated(&self, token_review_status: &TokenReviewStatus) -> (r:
        Result<(), AuthorizationError>)
        ensures
            match r {
                Ok(_) => token_review_status@.authenticated == Some(true),
                Err(e) => token_review_status@.authenticated != Some(true)
                    && e is TokenNotAuthenticated,
            },
    {
        match token_review_status.authenticated {
            Some(true) => Ok(()),
            _ => Err(AuthorizationError::TokenNotAuthenticated),
        }
    }

    /// Succeeds where the owner of a token and the service that had it checked have compatible
    /// audience lists.
    pub fn check_audiences_are_compatible(&self, token_review_status: &TokenReviewStatus) -> (r:
        Result<(), AuthorizationError>)
        ensures
            match (self@.audiences, token_review_status@.audiences) {
                (None, _) => r is Ok,
                (Some(_), None) => r is Err && r->Err_0 is TokenReviewMissingPodName,
                (Some(provided), Some(returned)) => if audiences_meet(provided, returned) {
                    r is Ok
                } else {
                    r is Err && r->Err_0 is AudienceMismatch
                },
            },
    {
        // If we've been provided audiences, assert that we were returned audiences and the intersection is not empty.
        match &self.k8s_audiences {
            // If we weren't provided audiences, then we aren't checking for a specific audience.
            None => Ok(()),
            Some(provided_audiences) => match &token_review_status.audiences {
                None => Err(AuthorizationError::TokenReviewMissingPodName),
                Some(returned_audiences) => {
                    let ghost provided = texts(provided_audiences@);
                    let ghost returned = texts(returned_audiences@);
                    let mut i: usize = 0;
                    while i < provided_audiences.len()
                        invariant
                            i <= provided_audiences@.len(),
                            provided == texts(provided_audiences@),
                            returned == texts(returned_audiences@),
                            self@.audiences == Some(provided),
                            token_review_status@.audiences == Some(returned),
                            forall|j: int|
                                0 <= j < i ==> !returned.contains(#[trigger] provided[j]),
                        decreases provided_audiences@.len() - i,
                    {
                        if contains_text(returned_audiences, provided_audiences[i].as_str()) {
                            assert(returned.contains(provided[i as int]));
                            return Ok(());
                        }
                        i = i + 1;
                    }
                    Err(AuthorizationError::AudienceMismatch)
                },
            },
        }
    }

    /// Returns Ok(()) if the token-owning pod is hosted on our target node.
    pub fn check_requester_is_from_correct_node(
        &self,
        token_review_status: &TokenReviewStatus,
        node_selector: &BottlerocketShadowSelector,
    ) -> (r: Result<(), AuthorizationError>)
        ensures
            match reviewed_pod_name(token_review_status@) {
                None => r is Err && r->Err_0 is TokenReviewMissingPodName,
                Some(pod_name) => match reviewed_node(self@, pod_name) {
                    None => r is Err && r->Err_0 is NoSuchPod && r->Err_0->pod_name@ == pod_name,
                    Some(node_name) => if node_name == node_selector@.node_name {
                        r is Ok
                    } else {
                        &&& r is Err
                        &&& r->Err_0 is RequesterTargetMismatch
                        &&& r->Err_0->requesting_node@ == node_name
                        &&& r->Err_0->target_node@ == node_selector@.node_name
                    },
                },
            },
    {
        let found = match &token_review_status.extra {
            None => None,
            Some(extra) => find_first_value(extra, POD_NAME_INFO_KEY),
        };
        let pod_name = match found {
            Some(n) => n,
            None => {
                return Err(AuthorizationError::TokenReviewMissingPodName);
            },
        };
        let place = match find_pod_at(
            &self.pods,
            pod_name.as_str(),
            Some(self.namespace.as_str()),
        ) {
            Some(i) => Some(i),
            None => find_pod_at(&self.pods, pod_name.as_str(), None),
        };
        let pod_node_name = match place {
            Some(i) => copy_option(&self.pods[i].node_name),
            None => None,
        };
        match pod_node_name {
            None => Err(AuthorizationError::NoSuchPod { pod_name: pod_name.clone() }),
            Some(pod_node_name) => {
                if pod_node_name == node_selector.node_name {
                    Ok(())
                } else {
                    Err(
                        AuthorizationError::RequesterTargetMismatch {
                            requesting_node: pod_node_name,
                            target_node: node_selector.node_name.clone(),
                        },
                    )
                }
            },
        }
    }
}

/// The status of a review that the Kubernetes API was asked for: an answer without a status and
/// a failure to ask are errors.
pub fn create_token_review(answer: Result<Option<TokenReviewStatus>, String>) -> (r: Result<
    TokenReviewStatus,
    AuthorizationError,
>)
    ensures
        match answer {
            Ok(Some(status)) => r == Ok::<TokenReviewStatus, AuthorizationError>(status),
            Ok(None) => r is Err && r->Err_0 is TokenReviewMissingStatus,
            Err(why) => r is Err && r->Err_0 is TokenReviewCreate
                && r->Err_0->TokenReviewCreate_err_msg@ == why@,
        },
{
    match answer {
        Ok(Some(status)) => Ok(status),
        Ok(None) => Err(AuthorizationError::TokenReviewMissingStatus),
        Err(err_msg) => Err(AuthorizationError::TokenReviewCreate { err_msg }),
    }
}

/// A request is authorized only for the node on which the pod of the token runs, only with an
/// authenticated token, and, where the apiserver has audiences, only with a token for one of
/// them.
pub proof fn only_own_node_is_authorized(
    a: AuthorizorView,
    node: SelectorView,
    status: TokenReviewStatusView,
)
    requires
        refusal(a, node, status) is None,
    ensures
        status.error is None,
        status.authenticated == Some(true),
        a.audiences is Some ==> status.audiences is Some && audiences_meet(
            a.audiences->0,
            status.audiences->0,
        ),
        reviewed_pod_name(status) is Some,
        reviewed_node(a, reviewed_pod_name(status)->0) == Some(node.node_name),
{
}

/// One token gives access to one node at most.
pub proof fn token_authorizes_one_node(
    a: AuthorizorView,
    first: SelectorView,
    second: SelectorView,
    status: TokenReviewStatusView,
)
    requires
        refusal(a, first, status) is None,
        refusal(a, second, status) is None,
    ensures
        first.node_name == second.node_name,
{
}

/// A request that the rules refuse is answered with status 403, or 500 where the review reports
/// an error.
pub proof fn refusals_are_answered(e: AuthorizationError, why: Refusal)
    requires
        tells(e, why),
    ensures
        e.status() == if why is ServerError {
            500
        } else {
            403u16
        },
{
}

} // verus!
