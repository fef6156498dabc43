//! What can go wrong with the Bottlerocket update API.

use vstd::prelude::*;
use vstd::string::*;

use super::apiclient::UpdateState;
use crate::text::{
    concat2, concat3, concat4, concat5, debug_text, join_texts, joined, quoted, texts,
};

verus! {

/// An error of the Bottlerocket update API.
#[derive(Debug)]
pub enum Error {
    /// The apiclient could not be run.
    ApiClientRawCommand { args: Vec<String>, source: String },
    /// The description of the operating system cannot be read.
    OsContent { source: String },
    /// The update status cannot be read.
    UpdateStatusContent { source: String },
    /// Updates were not refreshed, or an update action was performed out of band.
    RefreshUpdate,
    /// The update was not prepared, or an update action was performed out of band.
    PrepareUpdate,
    /// The update was not activated, or an update action was performed out of band.
    Update,
    /// The update is not in the state that an action needs.
    UpdateStage { expect_state: String, update_state: UpdateState },
    /// The update API answered with an error.
    BadHttpResponse { args: Vec<String>, error_content: String, statuscode: String },
    /// Another process holds the lock of the update API.
    UpdateApiUnavailable { args: Vec<String> },
    /// A version cannot be read.
    VersionParseError { source: String },
}

/// The name of an update state.
pub open spec fn state_name(state: UpdateState) -> Seq<char> {
    match state {
        UpdateState::Idle => "Idle"@,
        UpdateState::Available => "Available"@,
        UpdateState::Staged => "Staged"@,
        UpdateState::Ready => "Ready"@,
    }
}

/// The name of an update state.
pub fn state_text(state: UpdateState) -> (r: &'static str)
    ensures
        r@ == state_name(state),
{
    match state {
        UpdateState::Idle => "Idle",
        UpdateState::Available => "Available",
        UpdateState::Staged => "Staged",
        UpdateState::Ready => "Ready",
    }
}

impl Error {
    /// The error in words.
    pub open spec fn message(self) -> Seq<char> {
        match self {
            Error::ApiClientRawCommand { args, source } =>
            "Failed to run apiclient command apiclient "@
                + debug_text(joined(texts(args@))) + ": "@ + source@,
            Error::OsContent { source } => "Failed to deserialize Os info: "@ + source@,
            Error::UpdateStatusContent { source } => "Failed to deserialize update status: "@
                + source@,
            Error::RefreshUpdate =>
            "Failed to refresh updates or update action performed out of band"@,
            Error::PrepareUpdate =>
            "Failed to prepare update or update action performed out of band"@,
            Error::Update => "Failed to activate update or update action performed out of band"@,
            Error::UpdateStage { expect_state, update_state } => "Unexpected update state: "@
                + state_name(update_state) + ", expecting state to be "@ + expect_state@
                + ". Update action performed out of band?"@,
            Error::BadHttpResponse { args, error_content, statuscode } =>
            "Bad http response when running command "@
                + joined(texts(args@)) + " due to status code "@ + statuscode@
                + ". Error output: "@ + error_content@,
            Error::UpdateApiUnavailable { args } => "Unable to process command apiclient "@
                + joined(texts(args@))
                + ": The lock for the update API is held by another process. Retries exhausted."@,
            Error::VersionParseError { source } => "Unable to parse version information: '"@
                + source@ + "'"@,
        }
    }

    /// The error in words.
    pub fn to_text(&self) -> (r: String)
        ensures
            r@ == self.message(),
    {
        match self {
            Error::ApiClientRawCommand { args, source } => concat4(
                "Failed to run apiclient command apiclient ",
                quoted(join_texts(args).as_str()).as_str(),
                ": ",
                source.as_str(),
            ),
            Error::OsContent { source } => concat2(
                "Failed to deserialize Os info: ",
                source.as_str(),
            ),
            Error::UpdateStatusContent { source } => concat2(
                "Failed to deserialize update status: ",
                source.as_str(),
            ),
            Error::RefreshUpdate => String::from_str(
                "Failed to refresh updates or update action performed out of band",
            ),
            Error::PrepareUpdate => String::from_str(
                "Failed to prepare update or update action performed out of band",
            ),
            Error::Update => String::from_str(
                "Failed to activate update or update action performed out of band",
            ),
            Error::UpdateStage { expect_state, update_state } => concat5(
                "Unexpected update state: ",
                state_text(*update_state),
                ", expecting state to be ",
                expect_state.as_str(),
                ". Update action performed out of band?",
            ),
            Error::BadHttpResponse { args, error_content, statuscode } => concat2(
                concat5(
                    "Bad http response when running command ",
                    join_texts(args).as_str(),
                    " due to status code ",
                    statuscode.as_str(),
                    ". Error output: ",
                ).as_str(),
                error_content.as_str(),
            ),
            Error::UpdateApiUnavailable { args } => concat3(
                "Unable to process command apiclient ",
                join_texts(args).as_str(),
                ": The lock for the update API is held by another process. Retries exhausted.",
            ),
            Error::VersionParseError { source } => concat3(
                "Unable to parse version information: '",
                source.as_str(),
                "'",
            ),
        }
    }
}

} // verus!
