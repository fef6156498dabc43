//! Endpoints and headers of the apiserver.

use vstd::prelude::*;

verus! {

pub const NODE_RESOURCE_ENDPOINT: &'static str = "/bottlerocket-node-resource";

pub const NODE_CORDON_AND_DRAIN_ENDPOINT: &'static str =
    "/bottlerocket-node-resource/cordon-and-drain";

pub const NODE_UNCORDON_ENDPOINT: &'static str = "/bottlerocket-node-resource/uncordon";

pub const CRD_CONVERT_ENDPOINT: &'static str = "/crdconvert";

pub const METRICS_ENDPOINT: &'static str = "/metrics";

// Key names for HTTP headers for apiserver.
pub const HEADER_BRUPOP_NODE_NAME: &'static str = "BrupopNodeName";

pub const HEADER_BRUPOP_NODE_UID: &'static str = "BrupopNodeUid";

pub const HEADER_BRUPOP_K8S_AUTH_TOKEN: &'static str = "BrupopK8sAuthToken";

} // verus!
