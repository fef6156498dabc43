//! How the agent is set up on its node, and why it ends.

use vstd::prelude::*;
use vstd::string::*;

use crate::models::agent::agent_daemonset_manifest;
use crate::models::node::crd::selector::{brs_name, brs_name_from_node_name};
use crate::text::{concat2, concat3};

verus! {

/// Where the tokens of the pod are mounted.
pub const TOKEN_PROJECTION_MOUNT_PATH: &'static str = "/var/run/secrets/tokens";

/// The file of the agent's own token.
pub const AGENT_TOKEN_PATH: &'static str = "bottlerocket-agent-service-account-token";

/// Why the agent ends. What came from outside is held as its text.
#[derive(Debug)]
pub enum AgentError {
    AgentError { source: String },
    ClientCreate { source: String },
    GetNodeName { source: String },
    KubernetesWatcherFailed { object: String },
    TracingConfiguration { source: String },
}

impl AgentError {
    /// The error in words.
    pub open spec fn message(self) -> Seq<char> {
        match self {
            AgentError::AgentError { source } => "Error running agent server: '"@ + source@ + "'"@,
            AgentError::ClientCreate { source } => "Unable to create client: '"@ + source@ + "'"@,
            AgentError::GetNodeName { source } => "Unable to get associated node name: "@
                + source@,
            AgentError::KubernetesWatcherFailed { object } => "The Kubernetes WATCH on "@ + object@
                + " objects has failed."@,
            AgentError::TracingConfiguration { source } => "Error configuring tracing: '"@
                + source@ + "'"@,
        }
    }

    /// The error in words.
    pub fn to_text(&self) -> (r: String)
        ensures
            r@ == self.message(),
    {
        match self {
            Self::AgentError { source } => concat3(
                "Error running agent server: '",
                source.as_str(),
                "'",
            ),
            Self::ClientCreate { source } => concat3(
                "Unable to create client: '",
                source.as_str(),
                "'",
            ),
            Self::GetNodeName { source } => concat2(
                "Unable to get associated node name: ",
                source.as_str(),
            ),
            Self::KubernetesWatcherFailed { object } => concat3(
                "The Kubernetes WATCH on ",
                object.as_str(),
                " objects has failed.",
            ),
            Self::TracingConfiguration { source } => concat3(
                "Error configuring tracing: '",
                source.as_str(),
                "'",
            ),
        }
    }
}

/// How the agent is set up.
#[derive(Debug)]
pub struct AgentSetup {
    /// The file of the token with which the agent calls the apiserver.
    pub token_path: String,
    pub associated_node_name: String,
    pub associated_bottlerocketshadow_name: String,
    /// The filter by which the agent watches the object of its node alone.
    pub brs_fields: String,
    /// The filter by which the agent watches its node alone.
    pub node_fields: String,
}

/// The contents of an `AgentSetup`.
pub struct AgentSetupView {
    pub token_path: Seq<char>,
    pub associated_node_name: Seq<char>,
    pub associated_bottlerocketshadow_name: Seq<char>,
    pub brs_fields: Seq<char>,
    pub node_fields: Seq<char>,
}

impl View for AgentSetup {
    type V = AgentSetupView;

    open spec fn view(&self) -> AgentSetupView {
        AgentSetupView {
            token_path: self.token_path@,
            associated_node_name: self.associated_node_name@,
            associated_bottlerocketshadow_name: self.associated_bottlerocketshadow_name@,
            brs_fields: self.brs_fields@,
            node_fields: self.node_fields@,
        }
    }
}

/// The setup of the agent of a node.
pub open spec fn agent_setup(node_name: Seq<char>) -> AgentSetupView {
    AgentSetupView {
        token_path: TOKEN_PROJECTION_MOUNT_PATH@ + "/"@ + AGENT_TOKEN_PATH@,
        associated_node_name: node_name,
        associated_bottlerocketshadow_name: brs_name(node_name),
        brs_fields: "metadata.name="@ + brs_name(node_name),
        node_fields: "metadata.name="@ + node_name,
    }
}

/// The setup of the agent. `node_name` is the value of the environment variable that holds the
/// name of the node, or the text of the error of reading it.
pub fn run_agent(node_name: Result<String, String>) -> (r: Result<AgentSetup, AgentError>)
    ensures
        match node_name {
            Ok(name) => r is Ok && r->Ok_0@ == agent_setup(name@),
            Err(e) => r is Err && r->Err_0 is GetNodeName && r->Err_0->GetNodeName_source == e,
        },
{
    match node_name {
        Err(source) => Err(AgentError::GetNodeName { source }),
        Ok(associated_node_name) => {
            let brs = brs_name_from_node_name(associated_node_name.as_str());
            let brs_fields = concat2("metadata.name=", brs.as_str());
            let node_fields = concat2("metadata.name=", associated_node_name.as_str());
            Ok(
                AgentSetup {
                    token_path: concat3(TOKEN_PROJECTION_MOUNT_PATH, "/", AGENT_TOKEN_PATH),
                    associated_node_name,
                    associated_bottlerocketshadow_name: brs,
                    brs_fields,
                    node_fields,
                },
            )
        },
    }
}

/// What ended a run of the agent.
#[derive(Debug)]
pub enum Ended {
    /// The watch on `BottlerocketShadow` objects.
    BrsWatch,
    /// The watch on nodes.
    NodeWatch,
    /// The loop of the agent, perhaps with an error.
    Loop(Result<(), String>),
}

/// What a run of the agent comes to. A watch that ends is an error.
pub fn agent_ended(ended: Ended) -> (r: Result<(), AgentError>)
    ensures
        match ended {
            Ended::BrsWatch => r is Err && r->Err_0 is KubernetesWatcherFailed && r->Err_0->object@
                == "brs"@,
            Ended::NodeWatch => r is Err && r->Err_0 is KubernetesWatcherFailed
                && r->Err_0->object@ == "node"@,
            Ended::Loop(Ok(_)) => r is Ok,
            Ended::Loop(Err(e)) => r is Err && r->Err_0 is AgentError
                && r->Err_0->AgentError_source == e,
        },
{
    match ended {
        Ended::BrsWatch => Err(
            AgentError::KubernetesWatcherFailed { object: String::from_str("brs") },
        ),
        Ended::NodeWatch => Err(
            AgentError::KubernetesWatcherFailed { object: String::from_str("node") },
        ),
        Ended::Loop(Ok(_)) => Ok(()),
        Ended::Loop(Err(source)) => Err(AgentError::AgentError { source }),
    }
}

/// The agent reads its token from where its pod has it: the file of the token in the volume that
/// is mounted there.
pub proof fn agent_reads_the_mounted_token(
    node_name: Seq<char>,
    image: Seq<char>,
    secret: Option<Seq<char>>,
)
    ensures
        ({
            let pod = agent_daemonset_manifest(image, secret).template.spec;
            exists|i: int, j: int|
                {
                    &&& 0 <= i < pod.volumes.len()
                    &&& 0 <= j < pod.containers[0].volume_mounts.len()
                    &&& (#[trigger] pod.volumes[i]).name == (
                    #[trigger] pod.containers[0].volume_mounts[j]).name
                    &&& pod.volumes[i].source is ServiceAccountToken
                    &&& agent_setup(node_name).token_path
                        == pod.containers[0].volume_mounts[j].mount_path + "/"@
                        + pod.volumes[i].source->ServiceAccountToken_path
                }
        }),
{
    let pod = agent_daemonset_manifest(image, secret).template.spec;
    assert(pod.volumes[2].name == pod.containers[0].volume_mounts[2].name);
}

} // verus!
