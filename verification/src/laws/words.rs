//! What errors say.

use vstd::prelude::*;
use vstd::string::*;

use crate::agent::agentclient_error::BottlerocketShadowRWError;
use crate::agent::apiclient::UpdateState;
use crate::agent::apiclient_error::state_name;
use crate::agent::run::AgentError;
use crate::agent::{agentclient_error, apiclient_error};
use crate::apiserver::api_error;
use crate::apiserver::auth::error::AuthorizationError;
use crate::apiserver::client::{http_status_text, reported_status, ClientError, FailureCause};
use crate::apiserver::webhook::WebhookConvertError;
use crate::controller::metrics_error::MetricsError;
use crate::controller::{controllerclient_error, scheduler_error};
use crate::integ::monitor::MonitorError;
use crate::integ::run;
use crate::integ::updater::UpdateError;
use crate::models::node::crd::error as crd_error;
use crate::models::node::drain::find_target_pods_message;
use crate::models::node::error::BottlerocketShadowError;
use crate::text::{debug_text, decimal, joined, texts};

verus! {

/// Errors in reading and writing the object of a node, in words.
pub proof fn objects_fail_in_words(e: BottlerocketShadowRWError)
    ensures
        match e {
            BottlerocketShadowRWError::BottlerocketShadowStatusVersion { source } => e.message()
                == "Unable to gather system version metadata: '"@ + source.message() + "'"@,
            BottlerocketShadowRWError::BottlerocketShadowStatusChosenUpdate { source } => e.message()
                == "Unable to gather system chosen update metadata: '"@ + source.message() + "'"@,
            BottlerocketShadowRWError::MissingBottlerocketShadowStatus => e.message()
                == "Unable to get Bottlerocket node 'status' because of missing 'status' value"@,
            BottlerocketShadowRWError::UpdateBottlerocketShadowResource { source } => e.message()
                == "Unable to update the BottlerocketShadow associated with this node: '"@ + source@
                + "'"@,
            BottlerocketShadowRWError::CreateBottlerocketShadowResource { source } => e.message()
                == "Unable to create the BottlerocketShadow associated with this node: '"@ + source@
                + "'"@,
            BottlerocketShadowRWError::FetchBottlerocketShadowErrorCode { code } => e.message()
                == "ErrorResponse code '"@ + decimal(code as nat)
                + "' when sending to fetch Bottlerocket Node"@,
            BottlerocketShadowRWError::UnableFetchBottlerocketShadow { node_name, source } => e.message()
                == "Error "@ + source@ + " when sending to fetch Bottlerocket Node "@ + node_name@,
        },
{
}

/// Errors of the agent, in words.
pub proof fn agents_fail_in_words(e: agentclient_error::Error)
    ensures
        match e {
            agentclient_error::Error::CordonAndDrainNode { source } => e.message()
                == "Unable to drain and cordon this node: '"@ + source@ + "'"@,
            agentclient_error::Error::MissingNodeUid => e.message()
                == "Unable to get Node uid because of missing Node `uid` value"@,
            agentclient_error::Error::ReflectorUnavailable { object } => e.message()
                == "Unable to fetch "@ + object@ + " store: Store unavailable: retries exhausted"@,
            agentclient_error::Error::UncordonNode { source } => e.message()
                == "Unable to uncordon this node: '"@ + source@ + "'"@,
            agentclient_error::Error::UpdateActions { action, source } => e.message()
                == "Unable to take action '"@ + action@ + "': '"@ + source.message() + "'"@,
            agentclient_error::Error::BottlerocketShadowError { error } => e.message()
                == "Unable to operate on BottlerocketShadow: '"@ + error.message() + "'"@,
            agentclient_error::Error::Assertion { message } => e.message()
                == "Agent client failed due to internal assertion issue: '"@ + message@ + "'"@,
        },
{
}

/// Errors of the update API, in words.
pub proof fn update_apis_fail_in_words(e: apiclient_error::Error)
    ensures
        match e {
            apiclient_error::Error::ApiClientRawCommand { args, source } => e.message()
                == "Failed to run apiclient command apiclient "@ + debug_text(joined(texts(args@)))
                + ": "@ + source@,
            apiclient_error::Error::OsContent { source } => e.message()
                == "Failed to deserialize Os info: "@ + source@,
            apiclient_error::Error::UpdateStatusContent { source } => e.message()
                == "Failed to deserialize update status: "@ + source@,
            apiclient_error::Error::RefreshUpdate => e.message()
                == "Failed to refresh updates or update action performed out of band"@,
            apiclient_error::Error::PrepareUpdate => e.message()
                == "Failed to prepare update or update action performed out of band"@,
            apiclient_error::Error::Update => e.message()
                == "Failed to activate update or update action performed out of band"@,
            apiclient_error::Error::UpdateStage { expect_state, update_state } => e.message()
                == "Unexpected update state: "@ + state_name(update_state)
                + ", expecting state to be "@ + expect_state@
                + ". Update action performed out of band?"@,
            apiclient_error::Error::BadHttpResponse { args, error_content, statuscode } => e.message()
                == "Bad http response when running command "@ + joined(texts(args@))
                + " due to status code "@ + statuscode@ + ". Error output: "@ + error_content@,
            apiclient_error::Error::UpdateApiUnavailable { args } => e.message()
                == "Unable to process command apiclient "@ + joined(texts(args@))
                + ": The lock for the update API is held by another process. Retries exhausted."@,
            apiclient_error::Error::VersionParseError { source } => e.message()
                == "Unable to parse version information: '"@ + source@ + "'"@,
        },
{
}

/// What ends the agent, in words.
pub proof fn agents_end_in_words(e: AgentError)
    ensures
        match e {
            AgentError::AgentError { source } => e.message()
                == "Error running agent server: '"@ + source@ + "'"@,
            AgentError::ClientCreate { source } => e.message()
                == "Unable to create client: '"@ + source@ + "'"@,
            AgentError::GetNodeName { source } => e.message()
                == "Unable to get associated node name: "@ + source@,
            AgentError::KubernetesWatcherFailed { object } => e.message()
                == "The Kubernetes WATCH on "@ + object@ + " objects has failed."@,
            AgentError::TracingConfiguration { source } => e.message()
                == "Error configuring tracing: '"@ + source@ + "'"@,
        },
{
}

/// Why a request is refused, in words.
pub proof fn requests_are_refused_in_words(e: AuthorizationError)
    ensures
        match e {
            AuthorizationError::TokenReviewCreate { err_msg } => e.message()
                == "Failed to create TokenReview request: '"@ + err_msg@ + "'"@,
            AuthorizationError::TokenReviewMissingStatus => e.message()
                == "The TokenReview Server returned a review without a status"@,
            AuthorizationError::TokenReviewServerError { err_msg } => e.message()
                == "The TokenReview Server indicated that an error occurred: '"@ + err_msg@ + "'"@,
            AuthorizationError::TokenNotAuthenticated => e.message()
                == "The TokenReview Server did not authenticate the provided token."@,
            AuthorizationError::TokenReviewServerNotAudienceAware => e.message()
                == "The TokenReview Server does not appear to be audience aware."@,
            AuthorizationError::AudienceMismatch => e.message()
                == "APIServer does not seem to be in the audience of the requester's token"@,
            AuthorizationError::TokenReviewMissingPodName => e.message()
                == "Returned TokenReview status does not contain pod metadata required to authorize"@,
            AuthorizationError::NoSuchPod { pod_name } => e.message()
                == "Could not find reference to Pod owning request token: '"@ + pod_name@ + "'"@,
            AuthorizationError::RequesterTargetMismatch { requesting_node, target_node } => e.message()
                == "Requesting pod's node ('"@ + requesting_node@
                + "') does not match brn selector ('"@ + target_node@ + "')"@,
        },
{
}

/// Why a request of the agent failed, in words.
pub proof fn causes_in_words(e: FailureCause)
    ensures
        match e {
            FailureCause::ErrorResponse { status_code, response } => e.message()
                == "API server responded with an error status code "@ + reported_status(status_code)
                + ": '"@ + response@ + "'"@,
            FailureCause::Other { message } => e.message() == message@,
        },
{
}

/// Failed requests of the agent, in words.
pub proof fn requests_fail_in_words(e: ClientError)
    ensures
        match e {
            ClientError::CreateBottlerocketShadowResource { source, selector } => e.message()
                == "Unable to create BottlerocketShadow"@ + " ("@ + selector@.node_name + ", "@
                + selector@.node_uid + "): '"@ + source.message() + "'"@,
            ClientError::UpdateBottlerocketShadowResource { source, selector } => e.message()
                == "Unable to update BottlerocketShadow status"@ + " ("@ + selector@.node_name
                + ", "@ + selector@.node_uid + "): '"@ + source.message() + "'"@,
            ClientError::CordonAndDrainNodeResource { source, selector } => e.message()
                == "Unable to drain and cordon Node status"@ + " ("@ + selector@.node_name + ", "@
                + selector@.node_uid + "): '"@ + source.message() + "'"@,
            ClientError::IOError { source } => e.message()
                == "IO error occurred while attempting to use APIServerClient: '"@ + source@ + "'"@,
        },
{
}

/// Failed conversions, in words.
pub proof fn conversions_fail_in_words(e: WebhookConvertError)
    ensures
        match e {
            WebhookConvertError::SourceVersionNotExistInRequest { source } => e.message()
                == "Source version does not exist in ConversionRequest: "@ + source@,
            WebhookConvertError::JsonToBottlerocketShadowConvertError { version } => e.message()
                == "Failed to convert json object to BottlerocketShadow "@ + version@,
            WebhookConvertError::InvalidDesiredVersionError { version } => e.message()
                == "Desired version "@ + version@ + " is not a valid BottlerocketShadow version"@,
            WebhookConvertError::InvalidVersionError { version } => e.message()
                == "Version "@ + version@ + " does not exist in converting logic"@,
            WebhookConvertError::ChainedConvertError { src_version, dst_version } => e.message()
                == "Failed to convert from "@ + src_version@ + " to "@ + dst_version@ + " version"@,
        },
{
}

/// Errors of the server, in words.
pub proof fn servers_fail_in_words(e: api_error::Error)
    ensures
        match e {
            api_error::Error::HTTPHeaderParse { missing_header } => e.message()
                == "Unable to parse HTTP header. Missing '"@ + missing_header@ + "'"@,
            api_error::Error::MissingClusterIPFamily { source } => e.message()
                == "Unable to detect cluster IP family. For '"@ + source@ + "'"@,
            api_error::Error::BottlerocketShadowCreate { source } => e.message()
                == "Error creating BottlerocketShadow: '"@ + source@ + "'"@,
            api_error::Error::BottlerocketShadowUpdate { source } => e.message()
                == "Error patching BottlerocketShadow: '"@ + source@ + "'"@,
            api_error::Error::HttpServerError { source } => e.message()
                == "Error running HTTP server: '"@ + source@ + "'"@,
            api_error::Error::KubernetesWatcherFailed => e.message()
                == "The Kubernetes WATCH on Pod objects has failed."@,
            api_error::Error::BottlerocketShadowCordon { source } => e.message()
                == "Failed to cordon Node: '"@ + source@ + "'"@,
            api_error::Error::BottlerocketShadowDrain { source } => e.message()
                == "Failed to drain Node: '"@ + source@ + "'"@,
            api_error::Error::ReadCertificateFailed { source: _ } => e.message()
                == "Failed to read certificate."@,
            api_error::Error::ReloadCertificateFailed => e.message()
                == "Failed to reload certificate."@,
            api_error::Error::FileOpen { path, source } => e.message()
                == "Failed to open file '"@ + path@ + "': "@ + source@,
            api_error::Error::CertExtract { path, source } => e.message()
                == "Failed to extract TLS cert from file "@ + path@ + ": "@ + source@,
            api_error::Error::CertStore { source } => e.message()
                == "Failed to add CA to cert store: "@ + source@,
            api_error::Error::TLSConfigBuild { source } => e.message()
                == "Failed to build TLS config from loaded certs: "@ + source@,
            api_error::Error::WebhookError { source } => e.message()
                == "Failed to serialize Webhook response: "@ + source@,
        },
{
}

/// Errors of the controller, in words.
pub proof fn controllers_fail_in_words(e: controllerclient_error::Error)
    ensures
        match e {
            controllerclient_error::Error::DeleteNode { source } => e.message()
                == "Failed to delete node via kubernetes API: '"@ + source@ + "'"@,
            controllerclient_error::Error::GetNodeName { source } => e.message()
                == "Unable to get host controller pod node name: "@ + source@,
            controllerclient_error::Error::GetCronSchedule { source } => e.message()
                == "Unable to get cron expression schedule: "@ + source.message(),
            controllerclient_error::Error::UpdateNodeSpec { source } => e.message()
                == "Failed to update node spec via kubernetes API: '"@ + source@ + "'"@,
            controllerclient_error::Error::NodeSelectorCreation { source } => e.message()
                == "Could not determine selector for node: '"@ + source.message() + "'"@,
            controllerclient_error::Error::MissingEnvVariable { source, variable } => e.message()
                == "Unable to get environment variable '"@ + variable@ + "' due to : '"@ + source@
                + "'"@,
            controllerclient_error::Error::MaxConcurrentUpdateParseError { source } => e.message()
                == "Unable to parse environment variable '"@ + "MAX_CONCURRENT_UPDATE"@ + "': '"@
                + source@ + "'"@,
            controllerclient_error::Error::MaintenanceTimeError { source } => e.message()
                == "Error creating maintenance time: '"@ + source.message() + "'"@,
            controllerclient_error::Error::MetricsCompute { source } => e.message()
                == "Failed to compute cluster metrics: '"@ + source.message() + "'"@,
            controllerclient_error::Error::SleepUntilNextSchedule { source } => e.message()
                == "Unable to find next scheduled time and sleep: '"@ + source.message() + "'"@,
        },
{
}

/// Errors of the schedule, in words.
pub proof fn schedules_fail_in_words(e: scheduler_error::Error)
    ensures
        match e {
            scheduler_error::Error::ConvertToStdDuration { source } => e.message()
                == "Unable convert to Std duration due to "@ + source@,
            scheduler_error::Error::GenerateScheduleFailed { cron, source } => e.message()
                == "Failed to generate corn expression '"@ + cron@ + "' due to `"@ + source@ + "`"@,
            scheduler_error::Error::GetScheduledDatetime => e.message()
                == "Unable to get cron expression schedule scheduled datetime"@,
            scheduler_error::Error::MissingEnvVariable { source, variable } => e.message()
                == "Unable to get environment variable '"@ + variable@ + "' due to : '"@ + source@
                + "'"@,
            scheduler_error::Error::MissingTimeWindowVariable { message } => e.message()
                == "Failed to find update time window due to '"@ + message@ + "'"@,
            scheduler_error::Error::DisallowSetTimeWindowAndScheduler => e.message()
                == "Update time window and scheduler are't allowed to be set simultaneously"@,
            scheduler_error::Error::InvalidTimeWindowSettings => e.message()
                == "Failed to generate update window settings due to invalid input, please follow HH:MM:SS format."@,
            scheduler_error::Error::UnableParseToU8 { variable, source } => e.message()
                == "Failed to parse "@ + variable@ + " to u8 due to "@ + source@ + "."@,
        },
{
}

/// Errors of the metrics, in words.
pub proof fn metrics_fail_in_words(e: MetricsError)
    ensures
        match e {
            MetricsError::SerializeState { source } => e.message()
                == "Failed to serialize Shadow state: '"@ + source@ + "'"@,
        },
{
}

/// Errors of the resource, in words.
pub proof fn resources_fail_in_words(e: crd_error::Error)
    ensures
        match e {
            crd_error::Error::MissingOwnerReference { name } => e.message()
                == "BottlerocketShadow object ('"@ + name@
                + "') is missing a reference to the owning Node."@,
            crd_error::Error::TimestampFormat { source } => e.message()
                == "BottlerocketShadow object must have valid rfc3339 timestamp: '"@ + source@
                + "'"@,
            crd_error::Error::IOError { source } => e.message()
                == "IO error occurred while attempting to use APIServerClient: '"@ + source@ + "'"@,
        },
{
}

/// Errors of nodes, in words.
pub proof fn nodes_fail_in_words(e: BottlerocketShadowError)
    ensures
        match e {
            BottlerocketShadowError::CreateBottlerocketShadow { source, selector } => e.message()
                == "Unable to create BottlerocketShadow"@ + " ("@ + selector@.node_name + ", "@
                + selector@.node_uid + ("): '"@ + source@ + "'"@),
            BottlerocketShadowError::UpdateBottlerocketShadowStatus { source, selector } => e.message()
                == "Unable to update BottlerocketShadow status"@ + " ("@ + selector@.node_name
                + ", "@ + selector@.node_uid + ("): '"@ + source@ + "'"@),
            BottlerocketShadowError::UpdateBottlerocketShadowSpec { source, selector } => e.message()
                == "Unable to update BottlerocketShadow spec"@ + " ("@ + selector@.node_name + ", "@
                + selector@.node_uid + ("): '"@ + source@ + "'"@),
            BottlerocketShadowError::CordonBottlerocketShadow { source, selector } => e.message()
                == "Unable to cordon BottlerocketShadow"@ + " ("@ + selector@.node_name + ", "@
                + selector@.node_uid + ("): '"@ + source@ + "'"@),
            BottlerocketShadowError::DrainBottlerocketShadow { source, selector } => e.message()
                == "Unable to drain BottlerocketShadow"@ + " ("@ + selector@.node_name + ", "@
                + selector@.node_uid + ("): '"@ + source@ + "'"@),
            BottlerocketShadowError::ExcludeNodeFromLB { source, selector } => e.message()
                == "Unable to exclude node from load balancer"@ + " ("@ + selector@.node_name
                + ", "@ + selector@.node_uid + ("): '"@ + source@ + "'"@),
            BottlerocketShadowError::IOError { source } => e.message()
                == "IO error occurred while attempting to use APIServerClient: '"@ + source@ + "'"@,
            BottlerocketShadowError::RemoveNodeExclusionFromLB { source, selector } => e.message()
                == "Unable to remove node exclusion from load balancer"@ + " ("@
                + selector@.node_name + ", "@ + selector@.node_uid + ("): '"@ + source@ + "'"@),
            BottlerocketShadowError::UncordonBottlerocketShadow { source, selector } => e.message()
                == "Unable to uncordon BottlerocketShadow"@ + " ("@ + selector@.node_name + ", "@
                + selector@.node_uid + ("): '"@ + source@ + "'"@),
            BottlerocketShadowError::NodeWithoutSpec { selector } => e.message()
                == "BottlerocketShadow does not have a k8s spec ("@ + selector@.node_name + ", "@
                + selector@.node_uid + ").'"@,
            BottlerocketShadowError::CreateK8SPatch { source } => e.message()
                == "Unable to create patch to send to Kubernetes API: '"@ + source@ + "'"@,
            BottlerocketShadowError::NodeSpecNotAchieved { current_state, desired_state } => e.message()
                == "Attempted to progress node state machine without achieving current desired state. Current state: '"@
                + current_state.name_text() + "'. Desired state: '"@ + desired_state.name_text()
                + "'"@,
            BottlerocketShadowError::NodeWithoutStatus { name } => e.message()
                == "Attempted to perform an operation on a statusless node ("@ + name@
                + ") which requires a status."@,
            BottlerocketShadowError::MissingOwnerReference { name } => e.message()
                == "BottlerocketShadow object ('"@ + name@
                + "') is missing a reference to the owning Node."@,
            BottlerocketShadowError::TimestampFormat { source } => e.message()
                == "BottlerocketShadow object must have valid rfc3339 timestamp: '"@ + source@
                + "'"@,
        },
{
}

/// Errors of the monitor, in words.
pub proof fn monitors_fail_in_words(e: MonitorError)
    ensures
        match e {
            MonitorError::FindBrupopPods { source } => e.message()
                == "Unable to find Brupop pods: "@ + source@,
            MonitorError::BrupopMonitor { object } => e.message()
                == "Failed to run brupop monitor because "@ + object@
                + ", please check brupop pods' logs"@,
            MonitorError::BottlerocketShadowName => e.message()
                == "Unable to get Bottlerocket name"@,
            MonitorError::MissingBottlerocketShadowStatus => e.message()
                == "Unable to get Bottlerocket node 'status' because of missing 'status' value"@,
            MonitorError::TimeElapsed => e.message()
                == "Unable to return the difference between the clock time when this system time was created, and the current clock time."@,
        },
{
}

/// Errors of the tool for resources, in words.
pub proof fn updates_fail_in_words(e: UpdateError)
    ensures
        match e {
            UpdateError::RunBrupop { action } => e.message()
                == "Failed to run brupop resources: \""@
                + action.name_text() + "\" brupop"@,
            UpdateError::ProcessPodsTest { action, .. } => e.message()
                == "Failed to \""@ + action.name_text()
                + "\" pods"@,
            UpdateError::PodsRun { action } => e.message() == "Failed to process pods test: \""@
                + action.name_text() + "\" pods"@,
            UpdateError::ConvertPathToStr => e.message()
                == "Unable to convert kubeconfig path to string path"@,
            UpdateError::FindNodes { source } => e.message()
                == "Fail to list EKS cluster nodes: "@ + source@,
            UpdateError::ProcessBrupop { source } => e.message()
                == "Failed to install brupop: "@ + source@,
            UpdateError::ProcessCertManager { source } => e.message()
                == "Failed to install cert manager: "@ + source@,
        },
{
}

/// Errors of the integration test, in words.
pub proof fn integration_tests_fail_in_words(e: run::Error)
    ensures
        match e {
            run::Error::GetClusterInfo { source } => e.message()
                == "Failed to get eks cluster info: "@ + source@.message(),
            run::Error::CreateDir { source } => e.message()
                == "Unable to create directory for storing kubeconfig file: "@ + source@,
            run::Error::CreatePod { source } => e.message()
                == "Failed to create pods on eks cluster: "@ + source.message(),
            run::Error::DeletePod { source } => e.message()
                == "Failed to delete pods on eks cluster: "@ + source.message(),
            run::Error::InvalidArchInput { input } => e.message()
                == "Invalid Arch input: "@ + input@,
            run::Error::CreateK8sClient { source } => e.message()
                == "Unable create K8s client from kubeconfig: "@ + source@,
            run::Error::CreateNodeGroup { source } => e.message()
                == "Failed to create node group: "@ + source@.message(),
            run::Error::LoadKubeConfig { source } => e.message()
                == "Unable load kubeconfig: "@ + source@,
            run::Error::ReadKubeConfig { source } => e.message()
                == "Unable to read kubeconfig: "@ + source@,
            run::Error::RunBrupop { source } => e.message()
                == "Failed to install brupop on eks cluster: "@ + source.message(),
            run::Error::MonitorBrupop { source } => e.message()
                == "Failed to monitor brupop on eks cluster: "@ + source.message(),
            run::Error::TerminateNodeGroup { source } => e.message()
                == "Failed to terminate node group: "@ + source@.message(),
            run::Error::DeleteClusterResources { source } => e.message()
                == "Failed to delete created eks cluster resources: "@ + source.message(),
            run::Error::DeleteTmpDir { source } => e.message()
                == "Failed to delete tmp directory and kubeconfig.yaml: "@ + source@,
            run::Error::FindTmpDir => e.message() == "Unable to find temp directory"@,
            run::Error::WriteKubeconfig { source } => e.message()
                == "Failed to write content to kubeconfig: "@ + source@.message(),
        },
{
}

/// The states of an update, in words.
pub proof fn names_of_update_states(state: UpdateState)
    ensures
        state is Idle ==> state_name(state) == "Idle"@,
        state is Available ==> state_name(state) == "Available"@,
        state is Staged ==> state_name(state) == "Staged"@,
        state is Ready ==> state_name(state) == "Ready"@,
{
}

/// A status is told by its name where it can have one, and else by its number.
pub proof fn statuses_in_words(code: u16)
    ensures
        code < 100 || code > 999 ==> reported_status(code) == decimal(code as nat),
        100 <= code <= 999 ==> reported_status(code) == http_status_text(code),
{
}

/// Pods that cannot be found, in words.
pub proof fn pods_are_missed_in_words(node: Seq<char>, source: Seq<char>)
    ensures
        find_target_pods_message(node, source) == "Unable to find drainable Pods for Node '"@ + node
            + "': '"@ + source + "'"@,
{
}

} // verus!
