//! What can be wrong with a schedule.

use vstd::prelude::*;
use vstd::string::*;

use crate::text::{concat2, concat3, concat5};

verus! {

/// An error in the schedule of updates. What came from outside is held as its text.
#[derive(Debug, PartialEq, Eq)]
pub enum Error {
    /// A time span is negative.
    ConvertToStdDuration { source: String },
    /// A cron expression cannot be read.
    GenerateScheduleFailed { cron: String, source: String },
    /// The schedule has no further point in time.
    GetScheduledDatetime,
    /// An environment variable is missing.
    MissingEnvVariable { source: String, variable: String },
    /// Only one end of the update time window is set.
    MissingTimeWindowVariable { message: String },
    /// An update time window and a cron expression are both set.
    DisallowSetTimeWindowAndScheduler,
    /// An end of the update time window is not of the form HH:MM:SS.
    InvalidTimeWindowSettings,
    /// A number does not fit.
    UnableParseToU8 { variable: String, source: String },
}

impl Error {
    /// The error in words.
    pub open spec fn message(self) -> Seq<char> {
        match self {
            Error::ConvertToStdDuration { source } => "Unable convert to Std duration due to "@
                + source@,
            Error::GenerateScheduleFailed { cron, source } =>
            "Failed to generate corn expression '"@ + cron@ + "' due to `"@ + source@ + "`"@,
            Error::GetScheduledDatetime =>
            "Unable to get cron expression schedule scheduled datetime"@,
            Error::MissingEnvVariable { source, variable } =>
            "Unable to get environment variable '"@ + variable@ + "' due to : '"@ + source@ + "'"@,
            Error::MissingTimeWindowVariable { message } =>
            "Failed to find update time window due to '"@ + message@ + "'"@,
            Error::DisallowSetTimeWindowAndScheduler =>
            "Update time window and scheduler are't allowed to be set simultaneously"@,
            Error::InvalidTimeWindowSettings =>
            "Failed to generate update window settings due to invalid input, please follow HH:MM:SS format."@,
            Error::UnableParseToU8 { variable, source } => "Failed to parse "@ + variable@
                + " to u8 due to "@ + source@ + "."@,
        }
    }

    /// The error in words.
    pub fn to_text(&self) -> (r: String)
        ensures
            r@ == self.message(),
    {
        match self {
            Error::ConvertToStdDuration { source } => concat2(
                "Unable convert to Std duration due to ",
                source.as_str(),
            ),
            Error::GenerateScheduleFailed { cron, source } => concat5(
                "Failed to generate corn expression '",
                cron.as_str(),
                "' due to `",
                source.as_str(),
                "`",
            ),
            Error::GetScheduledDatetime => String::from_str(
                "Unable to get cron expression schedule scheduled datetime",
            ),
            Error::MissingEnvVariable { source, variable } => concat5(
                "Unable to get environment variable '",
                variable.as_str(),
                "' due to : '",
                source.as_str(),
                "'",
            ),
            Error::MissingTimeWindowVariable { message } => concat3(
                "Failed to find update time window due to '",
                message.as_str(),
                "'",
            ),
            Error::DisallowSetTimeWindowAndScheduler => String::from_str(
                "Update time window and scheduler are't allowed to be set simultaneously",
            ),
            Error::InvalidTimeWindowSettings => String::from_str(
                "Failed to generate update window settings due to invalid input, please follow HH:MM:SS format.",
            ),
            Error::UnableParseToU8 { variable, source } => concat5(
                "Failed to parse ",
                variable.as_str(),
                " to u8 due to ",
                source.as_str(),
                ".",
            ),
        }
    }
}

} // verus!
