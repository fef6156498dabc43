//! This module provides middleware for authenticating and authorizing requests from brupop agents to make changes to
//! their Node's resources (including BottlerocketShadow custom resources, or Draining their host Nodes of Pods.)

use vstd::prelude::*;

use super::authorizor::{tells, TokenAuthorizor, TokenReview, TokenReviewStatus, TokenReviewView};
use super::error::AuthorizationError;
use crate::apiserver::api::{common_headers, ApiserverCommonHeaders, Headers};
use crate::apiserver::api_error::Error;
use crate::models::node::crd::BottlerocketShadowSelector;
use crate::text::{contains_text, texts};

verus! {

/// Middleware which checks that callers are brupop agents originating from the Nodes for which they are trying to make requests.
#[derive(Debug)]
pub struct TokenAuthMiddleware<T: TokenAuthorizor> {
    pub authorizor: T,
    pub exclude_paths: Vec<String>,
}

impl<T: TokenAuthorizor> TokenAuthMiddleware<T> {
    /// The paths that need no authorization.
    pub open spec fn excluded(&self) -> Set<Seq<char>> {
        texts(self.exclude_paths@).to_set()
    }

    /// Middleware that checks every path.
    pub fn new(authorizor: T) -> (r: Self)
        ensures
            r.authorizor == authorizor,
            r.excluded() == Set::<Seq<char>>::empty(),
    {
        let r = Self { authorizor, exclude_paths: Vec::new() };
        assert(texts(r.exclude_paths@) =~= Seq::<Seq<char>>::empty());
        assert(r.excluded() =~= Set::<Seq<char>>::empty());
        r
    }

    /// Middleware that does not check a path.
    pub fn exclude(self, path: String) -> (r: Self)
        ensures
            r.authorizor == self.authorizor,
            r.excluded() == self.excluded().insert(path@),
    {
        let mut exclude_paths = self.exclude_paths;
        let ghost before = texts(exclude_paths@);
        let ghost name = path@;
        exclude_paths.push(path);
        let r = Self { authorizor: self.authorizor, exclude_paths };
        proof {
            assert(texts(r.exclude_paths@) =~= before.push(name));
            assert(r.excluded() =~= before.to_set().insert(name)) by {
                assert forall|k: Seq<char>| r.excluded().contains(k) == before.to_set().insert(
                    name,
                ).contains(k) by {
                    if before.contains(k) {
                        let i = choose|i: int| 0 <= i < before.len() && before[i] == k;
                        assert(before.push(name)[i] == k);
                    }
                    if k == name {
                        assert(before.push(name)[before.len() as int] == k);
                    }
                }
            }
        }
        r
    }

    /// The middleware for the next service in the chain.
    pub fn new_transform<S>(self, service: S) -> (r: InnerTokenAuthMiddleware<S, T>)
        ensures
            r.service == service,
            r.authorizor == self.authorizor,
            texts(r.exclude_paths@).to_set() == self.excluded(),
    {
        InnerTokenAuthMiddleware {
            service,
            authorizor: self.authorizor,
            exclude_paths: self.exclude_paths,
        }
    }
}

/// The middleware in front of a service.
#[derive(Debug)]
pub struct InnerTokenAuthMiddleware<S, T: TokenAuthorizor> {
    pub service: S,
    pub authorizor: T,
    pub exclude_paths: Vec<String>,
}

/// What has to be done with a request.
#[derive(Debug)]
pub enum Decision {
    /// Hand it on to the service.
    Pass,
    /// Refuse it: it lacks a header.
    Reject(Error),
    /// Have the token reviewed and go by the result.
    Review { review: TokenReview, node_selector: BottlerocketShadowSelector },
}

impl<S, T: TokenAuthorizor> InnerTokenAuthMiddleware<S, T> {
    /// What has to be done with a request to a path. A request to an excluded path is handed on.
    /// Any other one has to say which node it is for and carry a token, which is reviewed.
    pub fn call(&self, request_path: &str, headers: &Headers) -> (r: Decision)
        ensures
            texts(self.exclude_paths@).to_set().contains(request_path@) ==> r is Pass,
            !texts(self.exclude_paths@).to_set().contains(request_path@) ==> match common_headers(
                headers@,
            ) {
                Ok(h) => {
                    &&& r is Review
                    &&& r->node_selector@ == h.node_selector
                    &&& r->review@ == (TokenReviewView {
                        token: Some(h.k8s_auth_token),
                        audiences: self.authorizor.review_audiences(),
                    })
                },
                Err(missing) => {
                    &&& r is Reject
                    &&& r->Reject_0 is HTTPHeaderParse
                    &&& r->Reject_0->missing_header@ == missing
                },
            },
    {
        if contains_text(&self.exclude_paths, request_path) {
            return Decision::Pass;
        }
        match ApiserverCommonHeaders::try_from(headers) {
            Ok(apiserver_headers) => {
                let review = self.authorizor.token_review(
                    apiserver_headers.k8s_auth_token.as_str(),
                );
                Decision::Review { review, node_selector: apiserver_headers.node_selector }
            },
            Err(e) => Decision::Reject(e),
        }
    }

    /// Whether a request whose token was reviewed is handed on to the service.
    pub fn finish(
        &self,
        node_selector: &BottlerocketShadowSelector,
        review: Result<TokenReviewStatus, AuthorizationError>,
    ) -> (r: Result<(), AuthorizationError>)
        ensures
            match review {
                Err(e) => r == Err::<(), AuthorizationError>(e),
                Ok(status) => match self.authorizor.refuses(node_selector@, status@) {
                    None => r is Ok,
                    Some(why) => r is Err && tells(r->Err_0, why),
                },
            },
    {
        self.authorizor.check_request_authorized(node_selector, review)
    }
}

} // verus!
