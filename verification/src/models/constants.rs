//! Names and ports that the components agree on.

use vstd::prelude::*;

verus! {

pub const API_VERSION: &'static str = "brupop.bottlerocket.aws/v2";

pub const NAMESPACE: &'static str = "brupop-bottlerocket-aws";

pub const BRUPOP: &'static str = "brupop";

pub const BRUPOP_DOMAIN_LIKE_NAME: &'static str = "brupop.bottlerocket.aws";

pub const LABEL_BRUPOP_INTERFACE_NAME: &'static str = "bottlerocket.aws/updater-interface-version";

pub const BRUPOP_INTERFACE_VERSION: &'static str = "2.0.0";

// In name space secret name for SSL communication in API server.
pub const CA_NAME: &'static str = "ca.crt";

pub const PUBLIC_KEY_NAME: &'static str = "tls.crt";

pub const PRIVATE_KEY_NAME: &'static str = "tls.key";

pub const TLS_KEY_MOUNT_PATH: &'static str = "/etc/brupop-tls-keys";

// Certificate object name
pub const ROOT_CERTIFICATE_NAME: &'static str = "root-certificate";

// Label keys
pub const LABEL_COMPONENT: &'static str = "brupop.bottlerocket.aws/component";

// Standard tags https://kubernetes.io/docs/concepts/overview/working-with-objects/common-labels/
pub const APP_NAME: &'static str = "app.kubernetes.io/name";

pub const APP_INSTANCE: &'static str = "app.kubernetes.io/instance";

pub const APP_COMPONENT: &'static str = "app.kubernetes.io/component";

pub const APP_PART_OF: &'static str = "app.kubernetes.io/part-of";

pub const APP_MANAGED_BY: &'static str = "app.kubernetes.io/managed-by";

pub const APP_CREATED_BY: &'static str = "app.kubernetes.io/created-by";

// apiserver constants
pub const APISERVER: &'static str = "apiserver";

/// The maximum number of unavailable nodes for the apiserver deployment.
pub const APISERVER_MAX_UNAVAILABLE: &'static str = "33%";

/// Route used for apiserver k8s liveness and readiness checks.
pub const APISERVER_HEALTH_CHECK_ROUTE: &'static str = "/ping";

/// Custom Resource convert endpoint
pub const APISERVER_CRD_CONVERT_ENDPOINT: &'static str = "/crdconvert";

/// The name for the `svc` fronting the apiserver.
pub const APISERVER_SERVICE_NAME: &'static str = "brupop-apiserver";

/// The port on which the apiserver listens.
pub const APISERVER_INTERNAL_PORT: i32 = 8443;

/// The k8s service port hosting the apiserver.
pub const APISERVER_SERVICE_PORT: i32 = 443;

// agent constants
pub const AGENT: &'static str = "agent";

pub const AGENT_NAME: &'static str = "brupop-agent";

// controller constants
pub const CONTROLLER: &'static str = "brupop-controller";

pub const CONTROLLER_DEPLOYMENT_NAME: &'static str = "brupop-controller-deployment";

/// The name for the `svc` fronting the controller.
pub const CONTROLLER_SERVICE_NAME: &'static str = "brupop-controller-server";

/// The internal port on which the the controller service is hosted.
pub const CONTROLLER_INTERNAL_PORT: i32 = 8080;

/// The k8s service port hosting the controller service.
pub const CONTROLLER_SERVICE_PORT: i32 = 80;

pub const BRUPOP_CONTROLLER_PRIORITY_CLASS: &'static str = "brupop-controller-high-priority";

pub const BRUPOP_CONTROLLER_PREEMPTION_POLICY: &'static str = "Never";

/// A high priority, so that the controller is scheduled preferentially, but below the values
/// of a cluster's critical resources.
pub const BRUPOP_CONTROLLER_PRIORITY_VALUE: i32 = 1000000;

pub const K8S_NODE_KIND: &'static str = "BottlerocketShadow";

pub const K8S_NODE_PLURAL: &'static str = "bottlerocketshadows";

pub const K8S_NODE_STATUS: &'static str = "bottlerocketshadows/status";

pub const K8S_NODE_SHORTNAME: &'static str = "brs";

} // verus!
