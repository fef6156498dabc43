//! The objects that install the agent.

use vstd::prelude::*;
use vstd::string::*;

use crate::models::constants::{
    AGENT, AGENT_NAME, BRUPOP, BRUPOP_INTERFACE_VERSION, LABEL_BRUPOP_INTERFACE_NAME,
    LABEL_COMPONENT,
};
use crate::models::manifest::{
    brupop_labels, common_labels, component_label, entry, grants, has_volume, label_in, list1, list2, list3, new_label_in, new_object_meta, new_policy_rule, object_meta, plain_container, policy_rule,
    pull_secrets, role_binding, runs_as, selects_pods, service_account, strs, views,
    new_pull_secrets, new_role_binding, new_service_account, ClusterRole, ClusterRoleBinding,
    ClusterRoleBindingView, ClusterRoleView, Container, ContainerView, DaemonSet, DaemonSetView,
    EnvVar, EnvVarView, NodeSelectorTerm, NodeSelectorTermView, PodSpec, PodSpecView,
    PodTemplateSpec, PodTemplateSpecView, ResourceRequirements, ResourceRequirementsView,
    SELinuxOptions, SELinuxOptionsView, ServiceAccount, ServiceAccountView, Volume, VolumeMount,
    VolumeMountView, VolumeSource, VolumeSourceView, VolumeView,
};
use crate::models::meta::text_option;

verus! {

pub const BRUPOP_AGENT_SERVICE_ACCOUNT: &'static str = "brupop-agent-service-account";

pub const BRUPOP_AGENT_CLUSTER_ROLE: &'static str = "brupop-agent-role";

/// The service account of the agent.
pub open spec fn agent_service_account_manifest() -> ServiceAccountView {
    service_account(BRUPOP_AGENT_SERVICE_ACCOUNT@, None)
}

/// Defines the brupop-agent service account
pub fn agent_service_account() -> (r: ServiceAccount)
    ensures
        r@ == agent_service_account_manifest(),
{
    new_service_account(BRUPOP_AGENT_SERVICE_ACCOUNT, None)
}

/// What the agent may do: change its node, and read the custom resources.
pub open spec fn agent_cluster_role_manifest() -> ClusterRoleView {
    ClusterRoleView {
        metadata: object_meta(Some(BRUPOP_AGENT_CLUSTER_ROLE@), None, None),
        rules: seq![
            policy_rule(
                ""@,
                strs(seq!["nodes"]),
                strs(seq!["create", "get", "list", "patch", "update", "watch"]),
            ),
            policy_rule(
                "brupop.bottlerocket.aws"@,
                strs(seq!["bottlerocketnodes", "bottlerocketnodes/status"]),
                strs(seq!["get", "list", "watch"]),
            ),
        ],
    }
}

/// Defines the brupop-agent cluster role
pub fn agent_cluster_role() -> (r: ClusterRole)
    ensures
        r@ == agent_cluster_role_manifest(),
{
    let nodes = vec!["nodes"];
    let change = vec!["create", "get", "list", "patch", "update", "watch"];
    let custom = vec!["bottlerocketnodes", "bottlerocketnodes/status"];
    let read = vec!["get", "list", "watch"];
    proof {
        assert(nodes@ =~= seq!["nodes"]);
        assert(change@ =~= seq!["create", "get", "list", "patch", "update", "watch"]);
        assert(custom@ =~= seq!["bottlerocketnodes", "bottlerocketnodes/status"]);
        assert(read@ =~= seq!["get", "list", "watch"]);
    }
    ClusterRole {
        metadata: new_object_meta(
            Some(String::from_str(BRUPOP_AGENT_CLUSTER_ROLE)),
            None,
            None,
        ),
        rules: list2(
            new_policy_rule("", nodes, change),
            new_policy_rule("brupop.bottlerocket.aws", custom, read),
        ),
    }
}

/// The binding that grants the agent its role.
pub open spec fn agent_cluster_role_binding_manifest() -> ClusterRoleBindingView {
    role_binding(
        "brupop-agent-role-binding"@,
        None,
        BRUPOP_AGENT_CLUSTER_ROLE@,
        BRUPOP_AGENT_SERVICE_ACCOUNT@,
    )
}

/// Defines the brupop-agent cluster role binding
pub fn agent_cluster_role_binding() -> (r: ClusterRoleBinding)
    ensures
        r@ == agent_cluster_role_binding_manifest(),
{
    new_role_binding(
        "brupop-agent-role-binding",
        None,
        BRUPOP_AGENT_CLUSTER_ROLE,
        BRUPOP_AGENT_SERVICE_ACCOUNT,
    )
}

/// The nodes on which the agent runs: Linux nodes that offer the updater interface.
pub open spec fn agent_nodes() -> NodeSelectorTermView {
    NodeSelectorTermView {
        match_expressions: seq![
            label_in("kubernetes.io/os"@, strs(seq!["linux"])),
            label_in(LABEL_BRUPOP_INTERFACE_NAME@, strs(seq![BRUPOP_INTERFACE_VERSION])),
            label_in("kubernetes.io/arch"@, strs(seq!["amd64", "arm64"])),
        ],
    }
}

fn new_agent_nodes() -> (r: NodeSelectorTerm)
    ensures
        r@ == agent_nodes(),
{
    let os = vec!["linux"];
    let interface = vec![BRUPOP_INTERFACE_VERSION];
    let arch = vec!["amd64", "arm64"];
    proof {
        assert(os@ =~= seq!["linux"]);
        assert(interface@ =~= seq![BRUPOP_INTERFACE_VERSION]);
        assert(arch@ =~= seq!["amd64", "arm64"]);
    }
    NodeSelectorTerm {
        match_expressions: list3(
            new_label_in("kubernetes.io/os", os),
            new_label_in(LABEL_BRUPOP_INTERFACE_NAME, interface),
            new_label_in("kubernetes.io/arch", arch),
        ),
    }
}

/// A volume that is a path of the node.
pub open spec fn host_path(name: Seq<char>, path: Seq<char>, type_: Seq<char>) -> VolumeView {
    VolumeView { name, source: VolumeSourceView::HostPath { path, type_ } }
}

fn new_host_path(name: &str, path: &str, type_: &str) -> (r: Volume)
    ensures
        r@ == host_path(name@, path@, type_@),
{
    Volume {
        name: String::from_str(name),
        source: VolumeSource::HostPath {
            path: String::from_str(path),
            type_: String::from_str(type_),
        },
    }
}

fn new_mount(name: &str, mount_path: &str) -> (r: VolumeMount)
    ensures
        r@ == (VolumeMountView { name: name@, mount_path: mount_path@ }),
{
    VolumeMount { name: String::from_str(name), mount_path: String::from_str(mount_path) }
}

/// The volumes of the agent: the socket and the client of the node's API, and its own token.
pub open spec fn agent_volumes() -> Seq<VolumeView> {
    seq![
        host_path("bottlerocket-api-socket"@, "/run/api.sock"@, "Socket"@),
        host_path("bottlerocket-apiclient"@, "/bin/apiclient"@, "File"@),
        VolumeView {
            name: "bottlerocket-agent-service-account-token"@,
            source: VolumeSourceView::ServiceAccountToken {
                path: "bottlerocket-agent-service-account-token"@,
            },
        },
    ]
}

fn new_agent_volumes() -> (r: Vec<Volume>)
    ensures
        views(r@) == agent_volumes(),
{
    list3(
        new_host_path("bottlerocket-api-socket", "/run/api.sock", "Socket"),
        new_host_path("bottlerocket-apiclient", "/bin/apiclient", "File"),
        Volume {
            name: String::from_str("bottlerocket-agent-service-account-token"),
            source: VolumeSource::ServiceAccountToken {
                path: String::from_str("bottlerocket-agent-service-account-token"),
            },
        },
    )
}

/// Where the agent sees its volumes.
pub open spec fn agent_mounts() -> Seq<VolumeMountView> {
    seq![
        VolumeMountView { name: "bottlerocket-api-socket"@, mount_path: "/run/api.sock"@ },
        VolumeMountView { name: "bottlerocket-apiclient"@, mount_path: "/bin/apiclient"@ },
        VolumeMountView {
            name: "bottlerocket-agent-service-account-token"@,
            mount_path: "/var/run/secrets/tokens"@,
        },
    ]
}

fn new_agent_mounts() -> (r: Vec<VolumeMount>)
    ensures
        views(r@) == agent_mounts(),
{
    list3(
        new_mount("bottlerocket-api-socket", "/run/api.sock"),
        new_mount("bottlerocket-apiclient", "/bin/apiclient"),
        new_mount("bottlerocket-agent-service-account-token", "/var/run/secrets/tokens"),
    )
}

/// The container of the agent, which knows the name of its node.
pub open spec fn agent_container(image: Seq<char>) -> ContainerView {
    ContainerView {
        env: seq![EnvVarView { name: "MY_NODE_NAME"@, field_path: "spec.nodeName"@ }],
        resources: Some(
            ResourceRequirementsView {
                limits: map!["memory"@ => "50Mi"@],
                requests: map!["memory"@ => "50Mi"@, "cpu"@ => "10m"@],
            },
        ),
        volume_mounts: agent_mounts(),
        se_linux_options: Some(
            SELinuxOptionsView {
                role: "system_r"@,
                type_: "super_t"@,
                user: "system_u"@,
                level: "s0"@,
            },
        ),
        ..plain_container(image, "./agent"@)
    }
}

fn new_agent_container(image: String) -> (r: Container)
    ensures
        r@ == agent_container(image@),
{
    Container {
        image,
        name: String::from_str(BRUPOP),
        command: list1(String::from_str("./agent")),
        env: list1(
            EnvVar {
                name: String::from_str("MY_NODE_NAME"),
                field_path: String::from_str("spec.nodeName"),
            },
        ),
        resources: Some(
            ResourceRequirements {
                limits: entry("memory", "50Mi"),
                requests: entry("memory", "50Mi").with(
                    String::from_str("cpu"),
                    String::from_str("10m"),
                ),
            },
        ),
        volume_mounts: new_agent_mounts(),
        se_linux_options: Some(
            SELinuxOptions {
                role: String::from_str("system_r"),
                type_: String::from_str("super_t"),
                user: String::from_str("system_u"),
                level: String::from_str("s0"),
            },
        ),
        ports: Vec::new(),
        liveness_probe: None,
        readiness_probe: None,
    }
}

/// The daemon set that runs the agent on each node that offers the updater interface.
pub open spec fn agent_daemonset_manifest(
    image: Seq<char>,
    image_pull_secret: Option<Seq<char>>,
) -> DaemonSetView {
    DaemonSetView {
        metadata: object_meta(Some(AGENT_NAME@), Some(common_labels(AGENT@)), None),
        match_labels: component_label(AGENT@),
        template: PodTemplateSpecView {
            metadata: object_meta(None, Some(component_label(AGENT@)), None),
            spec: PodSpecView {
                node_selector_terms: seq![agent_nodes()],
                containers: seq![agent_container(image)],
                service_account_name: BRUPOP_AGENT_SERVICE_ACCOUNT@,
                image_pull_secrets: pull_secrets(image_pull_secret),
                volumes: agent_volumes(),
            },
        },
    }
}

/// Defines the brupop-agent DaemonSet
pub fn agent_daemonset(agent_image: String, image_pull_secret: Option<String>) -> (r: DaemonSet)
    ensures
        r@ == agent_daemonset_manifest(agent_image@, text_option(image_pull_secret)),
{
    DaemonSet {
        metadata: new_object_meta(
            Some(String::from_str(AGENT_NAME)),
            Some(brupop_labels(AGENT)),
            None,
        ),
        match_labels: entry(LABEL_COMPONENT, AGENT),
        template: PodTemplateSpec {
            metadata: new_object_meta(None, Some(entry(LABEL_COMPONENT, AGENT)), None),
            spec: PodSpec {
                node_selector_terms: list1(new_agent_nodes()),
                containers: list1(new_agent_container(agent_image)),
                service_account_name: String::from_str(BRUPOP_AGENT_SERVICE_ACCOUNT),
                image_pull_secrets: new_pull_secrets(image_pull_secret),
                volumes: new_agent_volumes(),
            },
        },
    }
}

/// The daemon set of the agent finds its own pods.
pub proof fn agent_daemonset_finds_its_pods(image: Seq<char>, secret: Option<Seq<char>>)
    ensures
        ({
            let m = agent_daemonset_manifest(image, secret);
            selects_pods(m.match_labels, m.template)
        }),
{
}

/// Each volume that the container of the agent mounts is a volume of its pod.
pub proof fn agent_mounts_have_volumes(image: Seq<char>, secret: Option<Seq<char>>)
    ensures
        ({
            let pod = agent_daemonset_manifest(image, secret).template.spec;
            forall|i: int, j: int|
                0 <= i < pod.containers.len() && 0 <= j
                    < pod.containers[i].volume_mounts.len() ==> has_volume(
                    pod,
                    (#[trigger] pod.containers[i].volume_mounts[j]).name,
                )
        }),
{
    let pod = agent_daemonset_manifest(image, secret).template.spec;
    assert forall|i: int, j: int|
        0 <= i < pod.containers.len() && 0 <= j < pod.containers[i].volume_mounts.len() implies
        has_volume(pod, (#[trigger] pod.containers[i].volume_mounts[j]).name) by {
        assert(i == 0);
        assert(pod.volumes[j].name == pod.containers[i].volume_mounts[j].name);
    }
}

/// The pods of the agent run as the service account that is installed, and the role that is
/// installed is granted to that account.
pub proof fn agent_role_is_granted(image: Seq<char>, secret: Option<Seq<char>>)
    ensures
        grants(
            agent_cluster_role_binding_manifest(),
            agent_cluster_role_manifest(),
            agent_service_account_manifest(),
        ),
        runs_as(
            agent_daemonset_manifest(image, secret).template.spec,
            agent_service_account_manifest(),
        ),
{
}

} // verus!
