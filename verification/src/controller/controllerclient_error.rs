//! What can go wrong with the controller.

use vstd::prelude::*;
use vstd::string::*;

use super::controller::MAX_CONCURRENT_UPDATE_ENV_VAR;
use super::metrics_error::MetricsError;
use super::scheduler_error;
use crate::models::node::crd::error as crd_error;
use crate::text::{concat2, concat3, concat5};

verus! {

/// An error of the controller. What came from outside is held as its text.
#[derive(Debug)]
pub enum Error {
    /// An object could not be deleted.
    DeleteNode { source: String },
    /// The name of the node that hosts the controller is not known.
    GetNodeName { source: String },
    /// There is no schedule.
    GetCronSchedule { source: scheduler_error::Error },
    /// The spec of a node could not be updated.
    UpdateNodeSpec { source: String },
    /// The node of an object is not known.
    NodeSelectorCreation { source: crd_error::Error },
    /// An environment variable is missing.
    MissingEnvVariable { source: String, variable: String },
    /// The number of concurrent updates is not a number.
    MaxConcurrentUpdateParseError { source: String },
    /// There is no maintenance time.
    MaintenanceTimeError { source: scheduler_error::Error },
    /// The metrics cannot be computed.
    MetricsCompute { source: MetricsError },
    /// The next scheduled time cannot be waited for.
    SleepUntilNextSchedule { source: scheduler_error::Error },
}

impl Error {
    /// The error in words.
    pub open spec fn message(self) -> Seq<char> {
        match self {
            Error::DeleteNode { source } => "Failed to delete node via kubernetes API: '"@
                + source@ + "'"@,
            Error::GetNodeName { source } => "Unable to get host controller pod node name: "@
                + source@,
            Error::GetCronSchedule { source } => "Unable to get cron expression schedule: "@
                + source.message(),
            Error::UpdateNodeSpec { source } =>
            "Failed to update node spec via kubernetes API: '"@
                + source@ + "'"@,
            Error::NodeSelectorCreation { source } => "Could not determine selector for node: '"@
                + source.message() + "'"@,
            Error::MissingEnvVariable { source, variable } =>
            "Unable to get environment variable '"@
                + variable@ + "' due to : '"@ + source@ + "'"@,
            Error::MaxConcurrentUpdateParseError { source } =>
            "Unable to parse environment variable '"@
                + MAX_CONCURRENT_UPDATE_ENV_VAR@ + "': '"@ + source@ + "'"@,
            Error::MaintenanceTimeError { source } => "Error creating maintenance time: '"@
                + source.message() + "'"@,
            Error::MetricsCompute { source } => "Failed to compute cluster metrics: '"@
                + source.message() + "'"@,
            Error::SleepUntilNextSchedule { source } =>
            "Unable to find next scheduled time and sleep: '"@
                + source.message() + "'"@,
        }
    }

    /// The error in words.
    pub fn to_text(&self) -> (r: String)
        ensures
            r@ == self.message(),
    {
        match self {
            Error::DeleteNode { source } => concat3(
                "Failed to delete node via kubernetes API: '",
                source.as_str(),
                "'",
            ),
            Error::GetNodeName { source } => concat2(
                "Unable to get host controller pod node name: ",
                source.as_str(),
            ),
            Error::GetCronSchedule { source } => concat2(
                "Unable to get cron expression schedule: ",
                source.to_text().as_str(),
            ),
            Error::UpdateNodeSpec { source } => concat3(
                "Failed to update node spec via kubernetes API: '",
                source.as_str(),
                "'",
            ),
            Error::NodeSelectorCreation { source } => concat3(
                "Could not determine selector for node: '",
                source.to_text().as_str(),
                "'",
            ),
            Error::MissingEnvVariable { source, variable } => concat5(
                "Unable to get environment variable '",
                variable.as_str(),
                "' due to : '",
                source.as_str(),
                "'",
            ),
            Error::MaxConcurrentUpdateParseError { source } => concat5(
                "Unable to parse environment variable '",
                MAX_CONCURRENT_UPDATE_ENV_VAR,
                "': '",
                source.as_str(),
                "'",
            ),
            Error::MaintenanceTimeError { source } => concat3(
                "Error creating maintenance time: '",
                source.to_text().as_str(),
                "'",
            ),
            Error::MetricsCompute { source } => concat3(
                "Failed to compute cluster metrics: '",
                source.to_text().as_str(),
                "'",
            ),
            Error::SleepUntilNextSchedule { source } => concat3(
                "Unable to find next scheduled time and sleep: '",
                source.to_text().as_str(),
                "'",
            ),
        }
    }
}

} // verus!
