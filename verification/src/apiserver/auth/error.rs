//! Why a request is not authorized.

use vstd::prelude::*;
use vstd::string::*;

use crate::text::{concat3, concat5};

verus! {

/// Errors that can occur while authorizing a request from a brupop agent against a particular Node.
#[derive(Debug, Clone, PartialEq, Eq)]
pub enum AuthorizationError {
    TokenReviewCreate { err_msg: String },
    TokenReviewMissingStatus,
    TokenReviewServerError { err_msg: String },
    TokenNotAuthenticated,
    TokenReviewServerNotAudienceAware,
    AudienceMismatch,
    TokenReviewMissingPodName,
    NoSuchPod { pod_name: String },
    RequesterTargetMismatch { requesting_node: String, target_node: String },
}

impl AuthorizationError {
    /// The HTTP status with which a request is refused: 500 where the review failed, else 403.
    pub open spec fn status(self) -> u16 {
        match self {
            AuthorizationError::TokenReviewCreate { .. } => 500,
            AuthorizationError::TokenReviewServerError { .. } => 500,
            _ => 403,
        }
    }

    /// The HTTP status with which a request is refused.
    pub fn status_code(&self) -> (r: u16)
        ensures
            r == self.status(),
    {
        match self {
            Self::TokenReviewCreate { .. } => 500,
            Self::TokenReviewServerError { .. } => 500,
            _ => 403,
        }
    }

    /// The error in words.
    pub open spec fn message(self) -> Seq<char> {
        match self {
            AuthorizationError::TokenReviewCreate { err_msg } =>
            "Failed to create TokenReview request: '"@ + err_msg@ + "'"@,
            AuthorizationError::TokenReviewMissingStatus =>
            "The TokenReview Server returned a review without a status"@,
            AuthorizationError::TokenReviewServerError { err_msg } =>
            "The TokenReview Server indicated that an error occurred: '"@ + err_msg@ + "'"@,
            AuthorizationError::TokenNotAuthenticated =>
            "The TokenReview Server did not authenticate the provided token."@,
            AuthorizationError::TokenReviewServerNotAudienceAware =>
            "The TokenReview Server does not appear to be audience aware."@,
            AuthorizationError::AudienceMismatch =>
            "APIServer does not seem to be in the audience of the requester's token"@,
            AuthorizationError::TokenReviewMissingPodName =>
            "Returned TokenReview status does not contain pod metadata required to authorize"@,
            AuthorizationError::NoSuchPod { pod_name } =>
            "Could not find reference to Pod owning request token: '"@ + pod_name@ + "'"@,
            AuthorizationError::RequesterTargetMismatch { requesting_node, target_node } =>
            "Requesting pod's node ('"@ + requesting_node@ + "') does not match brn selector ('"@
                + target_node@ + "')"@,
        }
    }

    /// The error in words.
    pub fn to_text(&self) -> (r: String)
        ensures
            r@ == self.message(),
    {
        match self {
            Self::TokenReviewCreate { err_msg } => concat3(
                "Failed to create TokenReview request: '",
                err_msg.as_str(),
                "'",
            ),
            Self::TokenReviewMissingStatus => String::from_str(
                "The TokenReview Server returned a review without a status",
            ),
            Self::TokenReviewServerError { err_msg } => concat3(
                "The TokenReview Server indicated that an error occurred: '",
                err_msg.as_str(),
                "'",
            ),
            Self::TokenNotAuthenticated => String::from_str(
                "The TokenReview Server did not authenticate the provided token.",
            ),
            Self::TokenReviewServerNotAudienceAware => String::from_str(
                "The TokenReview Server does not appear to be audience aware.",
            ),
            Self::AudienceMismatch => String::from_str(
                "APIServer does not seem to be in the audience of the requester's token",
            ),
            Self::TokenReviewMissingPodName => String::from_str(
                "Returned TokenReview status does not contain pod metadata required to authorize",
            ),
            Self::NoSuchPod { pod_name } => concat3(
                "Could not find reference to Pod owning request token: '",
                pod_name.as_str(),
                "'",
            ),
            Self::RequesterTargetMismatch { requesting_node, target_node } => concat5(
                "Requesting pod's node ('",
                requesting_node.as_str(),
                "') does not match brn selector ('",
                target_node.as_str(),
                "')",
            ),
        }
    }
}

} // verus!
