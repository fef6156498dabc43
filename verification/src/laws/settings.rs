//! The settings of the operator that no operation decides.

use vstd::prelude::*;

use crate::agent::agentclient::AGENT_SLEEP_DURATION;
use crate::agent::apiclient::API_CLIENT_BIN;
use crate::apiserver::api::{CERTIFICATE_DETECTOR_SLEEP_DURATION, HEALTH_CHECK_BODY};
use crate::apiserver::client::{DEFAULT_REQUESTS_PER_MINUTE, K8SAPIServerClient};
use crate::controller::controller::{MAX_CONCURRENT_UPDATE_ENV_VAR, MY_NODE_NAME_ENV_VAR};
use crate::integ::run::{
    AMI_ARCH, CLUSTER_NAME, DEFAULT_KUBECONFIG_FILE_NAME, DEFAULT_REGION, NODEGROUP_NAME,
};
use crate::integ::updater::KUBECTL_BINARY;
use crate::models::node::drain::CONCURRENT_EVICTIONS;
use crate::models::telemetry::{
    LOGGING_ANSI_ENABLED_ENV_VAR, LOGGING_FORMATTER_ENV_VAR, TRACING_FILTER_DIRECTIVE_ENV_VAR,
};
use crate::text::decimal;

verus! {

/// How long is slept, how much is done at once, and how often the server is called.
pub proof fn paces_of_the_operator()
    ensures
        AGENT_SLEEP_DURATION == 5,
        CERTIFICATE_DETECTOR_SLEEP_DURATION == 60,
        CONCURRENT_EVICTIONS == 5,
        DEFAULT_REQUESTS_PER_MINUTE == 4,
{
}

/// The names of the variables of the environment, of the tools, and of what is done by default.
pub proof fn names_of_the_environment()
    ensures
        MAX_CONCURRENT_UPDATE_ENV_VAR@ == "MAX_CONCURRENT_UPDATE"@,
        MY_NODE_NAME_ENV_VAR@ == "MY_NODE_NAME"@,
        TRACING_FILTER_DIRECTIVE_ENV_VAR@ == "TRACING_FILTER_DIRECTIVE"@,
        LOGGING_FORMATTER_ENV_VAR@ == "LOGGING_FORMATTER"@,
        LOGGING_ANSI_ENABLED_ENV_VAR@ == "LOGGING_ANSI_ENABLED"@,
        API_CLIENT_BIN@ == "apiclient"@,
        KUBECTL_BINARY@ == "kubectl"@,
        HEALTH_CHECK_BODY@ == "pong"@,
        DEFAULT_KUBECONFIG_FILE_NAME@ == "kubeconfig.yaml"@,
        DEFAULT_REGION@ == "us-west-2"@,
        CLUSTER_NAME@ == "brupop-integration-test"@,
        AMI_ARCH@ == "x86_64"@,
        NODEGROUP_NAME@ == "brupop-integ-test-nodegroup"@,
{
}

/// Where the agent reaches the server, and by which certificate it knows it.
pub proof fn server_is_reached(scheme: String, domain: String, certificate: String)
    requires
        call_ensures(K8SAPIServerClient::scheme, (), scheme),
        call_ensures(K8SAPIServerClient::server_domain, (), domain),
        call_ensures(K8SAPIServerClient::certificate_path, (), certificate),
    ensures
        scheme@ == "https"@,
        domain@ == "brupop-apiserver"@ + "."@ + "brupop-bottlerocket-aws"@ + ".svc.cluster.local:"@
            + decimal(443),
        certificate@ == "/etc/brupop-tls-keys"@ + "/"@ + "tls.crt"@,
{
}

} // verus!
