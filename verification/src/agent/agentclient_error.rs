//! What can go wrong with the agent.

use vstd::prelude::*;
use vstd::string::*;

use super::apiclient_error;
use crate::text::{concat3, concat4, concat5, decimal, u64_text};

verus! {

/// An error of the agent.
#[derive(Debug)]
pub enum Error {
    /// The node could not be cordoned and drained.
    CordonAndDrainNode { source: String },
    /// The node has no uid.
    MissingNodeUid,
    /// An object could not be had from its store.
    ReflectorUnavailable { object: String },
    /// The node could not be uncordoned.
    UncordonNode { source: String },
    /// An update action failed.
    UpdateActions { action: String, source: apiclient_error::Error },
    /// The `BottlerocketShadow` could not be read or written.
    BottlerocketShadowError { error: BottlerocketShadowRWError },
    /// Something that should never happen.
    Assertion { message: String },
}

/// An error in reading or writing a `BottlerocketShadow`.
#[derive(Debug)]
pub enum BottlerocketShadowRWError {
    /// The version of the system is not known.
    BottlerocketShadowStatusVersion { source: apiclient_error::Error },
    /// The chosen update is not known.
    BottlerocketShadowStatusChosenUpdate { source: apiclient_error::Error },
    /// The object has no status.
    MissingBottlerocketShadowStatus,
    /// The object could not be updated.
    UpdateBottlerocketShadowResource { source: String },
    /// The object could not be created.
    CreateBottlerocketShadowResource { source: String },
    /// The object could not be fetched; the API answered with an error code.
    FetchBottlerocketShadowErrorCode { code: u16 },
    /// The object could not be fetched.
    UnableFetchBottlerocketShadow { node_name: String, source: String },
}

/// How the loop of the agent takes an error.
#[derive(Clone, Copy, Debug, PartialEq, Eq, Structural)]
pub enum Failure {
    /// The `BottlerocketShadow` could not be read or written: try again in the next round.
    ShadowAccess,
    /// Something that should never happen: stop.
    Assertion,
    /// An action failed: the node has crashed.
    Action,
}

impl Error {
    /// How the loop of the agent takes the error.
    pub open spec fn failure(self) -> Failure {
        match self {
            Error::BottlerocketShadowError { error: _ } => Failure::ShadowAccess,
            Error::Assertion { message: _ } => Failure::Assertion,
            _ => Failure::Action,
        }
    }

    /// How the loop of the agent takes the error.
    pub fn classify(&self) -> (r: Failure)
        ensures
            r == self.failure(),
    {
        match self {
            Error::BottlerocketShadowError { error: _ } => Failure::ShadowAccess,
            Error::Assertion { message: _ } => Failure::Assertion,
            _ => Failure::Action,
        }
    }
}

impl BottlerocketShadowRWError {
    /// The error in words.
    pub open spec fn message(self) -> Seq<char> {
        match self {
            BottlerocketShadowRWError::BottlerocketShadowStatusVersion { source } =>
            "Unable to gather system version metadata: '"@
                + source.message() + "'"@,
            BottlerocketShadowRWError::BottlerocketShadowStatusChosenUpdate { source } =>
            "Unable to gather system chosen update metadata: '"@
                + source.message() + "'"@,
            BottlerocketShadowRWError::MissingBottlerocketShadowStatus =>
            "Unable to get Bottlerocket node 'status' because of missing 'status' value"@,
            BottlerocketShadowRWError::UpdateBottlerocketShadowResource { source } =>
            "Unable to update the BottlerocketShadow associated with this node: '"@
                + source@ + "'"@,
            BottlerocketShadowRWError::CreateBottlerocketShadowResource { source } =>
            "Unable to create the BottlerocketShadow associated with this node: '"@
                + source@ + "'"@,
            BottlerocketShadowRWError::FetchBottlerocketShadowErrorCode { code } =>
            "ErrorResponse code '"@
                + decimal(code as nat) + "' when sending to fetch Bottlerocket Node"@,
            BottlerocketShadowRWError::UnableFetchBottlerocketShadow { node_name, source } =>
            "Error "@
                + source@ + " when sending to fetch Bottlerocket Node "@ + node_name@,
        }
    }

    /// The error in words.
    pub fn to_text(&self) -> (r: String)
        ensures
            r@ == self.message(),
    {
        match self {
            BottlerocketShadowRWError::BottlerocketShadowStatusVersion { source } => concat3(
                "Unable to gather system version metadata: '",
                source.to_text().as_str(),
                "'",
            ),
            BottlerocketShadowRWError::BottlerocketShadowStatusChosenUpdate { source } => concat3(
                "Unable to gather system chosen update metadata: '",
                source.to_text().as_str(),
                "'",
            ),
            BottlerocketShadowRWError::MissingBottlerocketShadowStatus => String::from_str(
                "Unable to get Bottlerocket node 'status' because of missing 'status' value",
            ),
            BottlerocketShadowRWError::UpdateBottlerocketShadowResource { source } => concat3(
                "Unable to update the BottlerocketShadow associated with this node: '",
                source.as_str(),
                "'",
            ),
            BottlerocketShadowRWError::CreateBottlerocketShadowResource { source } => concat3(
                "Unable to create the BottlerocketShadow associated with this node: '",
                source.as_str(),
                "'",
            ),
            BottlerocketShadowRWError::FetchBottlerocketShadowErrorCode { code } => concat3(
                "ErrorResponse code '",
                u64_text(*code as u64).as_str(),
                "' when sending to fetch Bottlerocket Node",
            ),
            BottlerocketShadowRWError::UnableFetchBottlerocketShadow { node_name, source } =>
            concat4(
                "Error ",
                source.as_str(),
                " when sending to fetch Bottlerocket Node ",
                node_name.as_str(),
            ),
        }
    }
}

impl Error {
    /// The error in words.
    pub open spec fn message(self) -> Seq<char> {
        match self {
            Error::CordonAndDrainNode { source } => "Unable to drain and cordon this node: '"@
                + source@ + "'"@,
            Error::MissingNodeUid => "Unable to get Node uid because of missing Node `uid` value"@,
            Error::ReflectorUnavailable { object } => "Unable to fetch "@
                + object@ + " store: Store unavailable: retries exhausted"@,
            Error::UncordonNode { source } => "Unable to uncordon this node: '"@ + source@ + "'"@,
            Error::UpdateActions { action, source } => "Unable to take action '"@
                + action@ + "': '"@ + source.message() + "'"@,
            Error::BottlerocketShadowError { error } =>
            "Unable to operate on BottlerocketShadow: '"@
                + error.message() + "'"@,
            Error::Assertion { message } =>
            "Agent client failed due to internal assertion issue: '"@
                + message@ + "'"@,
        }
    }

    /// The error in words.
    pub fn to_text(&self) -> (r: String)
        ensures
            r@ == self.message(),
    {
        match self {
            Error::CordonAndDrainNode { source } => concat3(
                "Unable to drain and cordon this node: '",
                source.as_str(),
                "'",
            ),
            Error::MissingNodeUid => String::from_str(
                "Unable to get Node uid because of missing Node `uid` value",
            ),
            Error::ReflectorUnavailable { object } => concat3(
                "Unable to fetch ",
                object.as_str(),
                " store: Store unavailable: retries exhausted",
            ),
            Error::UncordonNode { source } => concat3(
                "Unable to uncordon this node: '",
                source.as_str(),
                "'",
            ),
            Error::UpdateActions { action, source } => concat5(
                "Unable to take action '",
                action.as_str(),
                "': '",
                source.to_text().as_str(),
                "'",
            ),
            Error::BottlerocketShadowError { error } => concat3(
                "Unable to operate on BottlerocketShadow: '",
                error.to_text().as_str(),
                "'",
            ),
            Error::Assertion { message } => concat3(
                "Agent client failed due to internal assertion issue: '",
                message.as_str(),
                "'",
            ),
        }
    }
}

} // verus!
