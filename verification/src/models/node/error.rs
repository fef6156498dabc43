//! What can go wrong with the `BottlerocketShadow` of a node. What came from outside is held as
//! its text.

use vstd::prelude::*;
use vstd::string::*;

use super::crd::selector::{BottlerocketShadowSelector, SelectorView};
use super::crd::v2::BottlerocketShadowState;
use crate::text::{concat2, concat3, concat5};

verus! {

/// An error of the operations on a node and its `BottlerocketShadow`.
#[derive(Debug)]
pub enum BottlerocketShadowError {
    CreateBottlerocketShadow { source: String, selector: BottlerocketShadowSelector },
    UpdateBottlerocketShadowStatus { source: String, selector: BottlerocketShadowSelector },
    UpdateBottlerocketShadowSpec { source: String, selector: BottlerocketShadowSelector },
    CordonBottlerocketShadow { source: String, selector: BottlerocketShadowSelector },
    DrainBottlerocketShadow { source: String, selector: BottlerocketShadowSelector },
    ExcludeNodeFromLB { source: String, selector: BottlerocketShadowSelector },
    IOError { source: String },
    RemoveNodeExclusionFromLB { source: String, selector: BottlerocketShadowSelector },
    UncordonBottlerocketShadow { source: String, selector: BottlerocketShadowSelector },
    NodeWithoutSpec { selector: BottlerocketShadowSelector },
    CreateK8SPatch { source: String },
    NodeSpecNotAchieved {
        current_state: BottlerocketShadowState,
        desired_state: BottlerocketShadowState,
    },
    NodeWithoutStatus { name: String },
    MissingOwnerReference { name: String },
    TimestampFormat { source: String },
}

/// A message on a node: what failed, the node, and why.
pub open spec fn node_message(
    what: Seq<char>,
    selector: SelectorView,
    source: Seq<char>,
) -> Seq<char> {
    what + " ("@ + selector.node_name + ", "@ + selector.node_uid + ("): '"@ + source + "'"@)
}

fn node_text(what: &str, selector: &BottlerocketShadowSelector, source: &String) -> (r: String)
    ensures
        r@ == node_message(what@, selector@, source@),
{
    let node = concat5(
        what,
        " (",
        selector.node_name.as_str(),
        ", ",
        selector.node_uid.as_str(),
    );
    let cause = concat3("): '", source.as_str(), "'");
    concat2(node.as_str(), cause.as_str())
}

impl BottlerocketShadowError {
    /// The message of the error.
    pub open spec fn message(self) -> Seq<char> {
        match self {
            BottlerocketShadowError::CreateBottlerocketShadow { source, selector } => node_message(
                "Unable to create BottlerocketShadow"@,
                selector@,
                source@,
            ),
            BottlerocketShadowError::UpdateBottlerocketShadowStatus { source, selector } =>
            node_message("Unable to update BottlerocketShadow status"@, selector@, source@),
            BottlerocketShadowError::UpdateBottlerocketShadowSpec { source, selector } =>
            node_message("Unable to update BottlerocketShadow spec"@, selector@, source@),
            BottlerocketShadowError::CordonBottlerocketShadow { source, selector } => node_message(
                "Unable to cordon BottlerocketShadow"@,
                selector@,
                source@,
            ),
            BottlerocketShadowError::DrainBottlerocketShadow { source, selector } => node_message(
                "Unable to drain BottlerocketShadow"@,
                selector@,
                source@,
            ),
            BottlerocketShadowError::ExcludeNodeFromLB { source, selector } => node_message(
                "Unable to exclude node from load balancer"@,
                selector@,
                source@,
            ),
            BottlerocketShadowError::IOError { source } =>
            "IO error occurred while attempting to use APIServerClient: '"@ + source@ + "'"@,
            BottlerocketShadowError::RemoveNodeExclusionFromLB { source, selector } => node_message(
                "Unable to remove node exclusion from load balancer"@,
                selector@,
                source@,
            ),
            BottlerocketShadowError::UncordonBottlerocketShadow { source, selector } =>
            node_message("Unable to uncordon BottlerocketShadow"@, selector@, source@),
            BottlerocketShadowError::NodeWithoutSpec { selector } =>
            "BottlerocketShadow does not have a k8s spec ("@ + selector@.node_name + ", "@
                + selector@.node_uid + ").'"@,
            BottlerocketShadowError::CreateK8SPatch { source } =>
            "Unable to create patch to send to Kubernetes API: '"@ + source@ + "'"@,
            BottlerocketShadowError::NodeSpecNotAchieved { current_state, desired_state } =>
            "Attempted to progress node state machine without achieving current desired state. Current state: '"@
                + current_state.name_text() + "'. Desired state: '"@ + desired_state.name_text()
                + "'"@,
            BottlerocketShadowError::NodeWithoutStatus { name } =>
            "Attempted to perform an operation on a statusless node ("@ + name@
                + ") which requires a status."@,
            BottlerocketShadowError::MissingOwnerReference { name } => "BottlerocketShadow object ('"@
                + name@ + "') is missing a reference to the owning Node."@,
            BottlerocketShadowError::TimestampFormat { source } =>
            "BottlerocketShadow object must have valid rfc3339 timestamp: '"@ + source@ + "'"@,
        }
    }

    /// The message of the error.
    pub fn to_text(&self) -> (r: String)
        ensures
            r@ == self.message(),
    {
        match self {
            Self::CreateBottlerocketShadow { source, selector } => node_text(
                "Unable to create BottlerocketShadow",
                selector,
                source,
            ),
            Self::UpdateBottlerocketShadowStatus { source, selector } => node_text(
                "Unable to update BottlerocketShadow status",
                selector,
                source,
            ),
            Self::UpdateBottlerocketShadowSpec { source, selector } => node_text(
                "Unable to update BottlerocketShadow spec",
                selector,
                source,
            ),
            Self::CordonBottlerocketShadow { source, selector } => node_text(
                "Unable to cordon BottlerocketShadow",
                selector,
                source,
            ),
            Self::DrainBottlerocketShadow { source, selector } => node_text(
                "Unable to drain BottlerocketShadow",
                selector,
                source,
            ),
            Self::ExcludeNodeFromLB { source, selector } => node_text(
                "Unable to exclude node from load balancer",
                selector,
                source,
            ),
            Self::IOError { source } => concat3(
                "IO error occurred while attempting to use APIServerClient: '",
                source.as_str(),
                "'",
            ),
            Self::RemoveNodeExclusionFromLB { source, selector } => node_text(
                "Unable to remove node exclusion from load balancer",
                selector,
                source,
            ),
            Self::UncordonBottlerocketShadow { source, selector } => node_text(
                "Unable to uncordon BottlerocketShadow",
                selector,
                source,
            ),
            Self::NodeWithoutSpec { selector } => concat5(
                "BottlerocketShadow does not have a k8s spec (",
                selector.node_name.as_str(),
                ", ",
                selector.node_uid.as_str(),
                ").'",
            ),
            Self::CreateK8SPatch { source } => concat3(
                "Unable to create patch to send to Kubernetes API: '",
                source.as_str(),
                "'",
            ),
            Self::NodeSpecNotAchieved { current_state, desired_state } => concat5(
                "Attempted to progress node state machine without achieving current desired state. Current state: '",
                current_state.name(),
                "'. Desired state: '",
                desired_state.name(),
                "'",
            ),
            Self::NodeWithoutStatus { name } => concat3(
                "Attempted to perform an operation on a statusless node (",
                name.as_str(),
                ") which requires a status.",
            ),
            Self::MissingOwnerReference { name } => concat3(
                "BottlerocketShadow object ('",
                name.as_str(),
                "') is missing a reference to the owning Node.",
            ),
            Self::TimestampFormat { source } => concat3(
                "BottlerocketShadow object must have valid rfc3339 timestamp: '",
                source.as_str(),
                "'",
            ),
        }
    }
}

} // verus!
