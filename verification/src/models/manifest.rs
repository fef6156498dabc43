//! The Kubernetes objects that install the components, as far as they are set.

use vstd::prelude::*;
use vstd::string::*;

use crate::models::constants::{
    APP_COMPONENT, APP_MANAGED_BY, APP_PART_OF, BRUPOP, LABEL_COMPONENT, NAMESPACE,
};
use crate::models::meta::{text_option, ObjectMeta, ObjectMetaView};
use crate::string_map::StringMap;

verus! {

/// The contents of a list.
pub open spec fn views<T: View>(v: Seq<T>) -> Seq<T::V> {
    v.map_values(|x: T| x@)
}

/// The contents of an optional value.
pub open spec fn option_view<T: View>(o: Option<T>) -> Option<T::V> {
    match o {
        Some(x) => Some(x@),
        None => None,
    }
}

/// The contents of an optional list.
pub open spec fn list_option<T: View>(o: Option<Vec<T>>) -> Option<Seq<T::V>> {
    match o {
        Some(v) => Some(views(v@)),
        None => None,
    }
}

/// The texts of some literals.
pub open spec fn strs(v: Seq<&str>) -> Seq<Seq<char>> {
    v.map_values(|s: &str| s@)
}

/// Where a volume comes from.
#[derive(Debug)]
pub enum VolumeSource {
    /// A path of the node.
    HostPath { path: String, type_: String },
    /// A token of the pod's service account.
    ServiceAccountToken { path: String },
}

/// The contents of a `VolumeSource`.
pub enum VolumeSourceView {
    HostPath { path: Seq<char>, type_: Seq<char> },
    ServiceAccountToken { path: Seq<char> },
}

impl View for VolumeSource {
    type V = VolumeSourceView;

    open spec fn view(&self) -> VolumeSourceView {
        match *self {
            VolumeSource::HostPath { path, type_ } => VolumeSourceView::HostPath {
                path: path@,
                type_: type_@,
            },
            VolumeSource::ServiceAccountToken { path } => VolumeSourceView::ServiceAccountToken {
                path: path@,
            },
        }
    }
}

/// A service account.
#[derive(Debug)]
pub struct ServiceAccount {
    pub metadata: ObjectMeta,
}

/// The contents of a `ServiceAccount`.
pub struct ServiceAccountView {
    pub metadata: ObjectMetaView,
}

impl View for ServiceAccount {
    type V = ServiceAccountView;

    open spec fn view(&self) -> ServiceAccountView {
        ServiceAccountView {
            metadata: self.metadata@,
        }
    }
}

/// A namespace.
#[derive(Debug)]
pub struct Namespace {
    pub metadata: ObjectMeta,
}

/// The contents of a `Namespace`.
pub struct NamespaceView {
    pub metadata: ObjectMetaView,
}

impl View for Namespace {
    type V = NamespaceView;

    open spec fn view(&self) -> NamespaceView {
        NamespaceView {
            metadata: self.metadata@,
        }
    }
}

/// What a role may do with some resources.
#[derive(Debug)]
pub struct PolicyRule {
    pub api_groups: Vec<String>,
    pub resources: Vec<String>,
    pub verbs: Vec<String>,
}

/// The contents of a `PolicyRule`.
pub struct PolicyRuleView {
    pub api_groups: Seq<Seq<char>>,
    pub resources: Seq<Seq<char>>,
    pub verbs: Seq<Seq<char>>,
}

impl View for PolicyRule {
    type V = PolicyRuleView;

    open spec fn view(&self) -> PolicyRuleView {
        PolicyRuleView {
            api_groups: views(self.api_groups@),
            resources: views(self.resources@),
            verbs: views(self.verbs@),
        }
    }
}

/// A role that is not bound to a namespace.
#[derive(Debug)]
pub struct ClusterRole {
    pub metadata: ObjectMeta,
    pub rules: Vec<PolicyRule>,
}

/// The contents of a `ClusterRole`.
pub struct ClusterRoleView {
    pub metadata: ObjectMetaView,
    pub rules: Seq<PolicyRuleView>,
}

impl View for ClusterRole {
    type V = ClusterRoleView;

    open spec fn view(&self) -> ClusterRoleView {
        ClusterRoleView {
            metadata: self.metadata@,
            rules: views(self.rules@),
        }
    }
}

/// The role that a binding grants.
#[derive(Debug)]
pub struct RoleRef {
    pub api_group: String,
    pub kind: String,
    pub name: String,
}

/// The contents of a `RoleRef`.
pub struct RoleRefView {
    pub api_group: Seq<char>,
    pub kind: Seq<char>,
    pub name: Seq<char>,
}

impl View for RoleRef {
    type V = RoleRefView;

    open spec fn view(&self) -> RoleRefView {
        RoleRefView {
            api_group: self.api_group@,
            kind: self.kind@,
            name: self.name@,
        }
    }
}

/// Whom a binding grants a role.
#[derive(Debug)]
pub struct Subject {
    pub kind: String,
    pub name: String,
    pub namespace: String,
}

/// The contents of a `Subject`.
pub struct SubjectView {
    pub kind: Seq<char>,
    pub name: Seq<char>,
    pub namespace: Seq<char>,
}

impl View for Subject {
    type V = SubjectView;

    open spec fn view(&self) -> SubjectView {
        SubjectView {
            kind: self.kind@,
            name: self.name@,
            namespace: self.namespace@,
        }
    }
}

/// Grants a role.
#[derive(Debug)]
pub struct ClusterRoleBinding {
    pub metadata: ObjectMeta,
    pub role_ref: RoleRef,
    pub subjects: Vec<Subject>,
}

/// The contents of a `ClusterRoleBinding`.
pub struct ClusterRoleBindingView {
    pub metadata: ObjectMetaView,
    pub role_ref: RoleRefView,
    pub subjects: Seq<SubjectView>,
}

impl View for ClusterRoleBinding {
    type V = ClusterRoleBindingView;

    open spec fn view(&self) -> ClusterRoleBindingView {
        ClusterRoleBindingView {
            metadata: self.metadata@,
            role_ref: self.role_ref@,
            subjects: views(self.subjects@),
        }
    }
}

/// A condition on the labels of a node.
#[derive(Debug)]
pub struct NodeSelectorRequirement {
    pub key: String,
    pub operator: String,
    pub values: Vec<String>,
}

/// The contents of a `NodeSelectorRequirement`.
pub struct NodeSelectorRequirementView {
    pub key: Seq<char>,
    pub operator: Seq<char>,
    pub values: Seq<Seq<char>>,
}

impl View for NodeSelectorRequirement {
    type V = NodeSelectorRequirementView;

    open spec fn view(&self) -> NodeSelectorRequirementView {
        NodeSelectorRequirementView {
            key: self.key@,
            operator: self.operator@,
            values: views(self.values@),
        }
    }
}

/// Conditions that a node meets together.
#[derive(Debug)]
pub struct NodeSelectorTerm {
    pub match_expressions: Vec<NodeSelectorRequirement>,
}

/// The contents of a `NodeSelectorTerm`.
pub struct NodeSelectorTermView {
    pub match_expressions: Seq<NodeSelectorRequirementView>,
}

impl View for NodeSelectorTerm {
    type V = NodeSelectorTermView;

    open spec fn view(&self) -> NodeSelectorTermView {
        NodeSelectorTermView {
            match_expressions: views(self.match_expressions@),
        }
    }
}

/// An environment variable that holds a field of the pod.
#[derive(Debug)]
pub struct EnvVar {
    pub name: String,
    pub field_path: String,
}

/// The contents of a `EnvVar`.
pub struct EnvVarView {
    pub name: Seq<char>,
    pub field_path: Seq<char>,
}

impl View for EnvVar {
    type V = EnvVarView;

    open spec fn view(&self) -> EnvVarView {
        EnvVarView {
            name: self.name@,
            field_path: self.field_path@,
        }
    }
}

/// What a container asks for and what it may use.
#[derive(Debug)]
pub struct ResourceRequirements {
    pub limits: StringMap,
    pub requests: StringMap,
}

/// The contents of a `ResourceRequirements`.
pub struct ResourceRequirementsView {
    pub limits: Map<Seq<char>, Seq<char>>,
    pub requests: Map<Seq<char>, Seq<char>>,
}

impl View for ResourceRequirements {
    type V = ResourceRequirementsView;

    open spec fn view(&self) -> ResourceRequirementsView {
        ResourceRequirementsView {
            limits: self.limits@,
            requests: self.requests@,
        }
    }
}

/// Where a container sees a volume.
#[derive(Debug)]
pub struct VolumeMount {
    pub name: String,
    pub mount_path: String,
}

/// The contents of a `VolumeMount`.
pub struct VolumeMountView {
    pub name: Seq<char>,
    pub mount_path: Seq<char>,
}

impl View for VolumeMount {
    type V = VolumeMountView;

    open spec fn view(&self) -> VolumeMountView {
        VolumeMountView {
            name: self.name@,
            mount_path: self.mount_path@,
        }
    }
}

/// The SELinux context of a container.
#[derive(Debug)]
pub struct SELinuxOptions {
    pub role: String,
    pub type_: String,
    pub user: String,
    pub level: String,
}

/// The contents of a `SELinuxOptions`.
pub struct SELinuxOptionsView {
    pub role: Seq<char>,
    pub type_: Seq<char>,
    pub user: Seq<char>,
    pub level: Seq<char>,
}

impl View for SELinuxOptions {
    type V = SELinuxOptionsView;

    open spec fn view(&self) -> SELinuxOptionsView {
        SELinuxOptionsView {
            role: self.role@,
            type_: self.type_@,
            user: self.user@,
            level: self.level@,
        }
    }
}

/// A volume of a pod.
#[derive(Debug)]
pub struct Volume {
    pub name: String,
    pub source: VolumeSource,
}

/// The contents of a `Volume`.
pub struct VolumeView {
    pub name: Seq<char>,
    pub source: VolumeSourceView,
}

impl View for Volume {
    type V = VolumeView;

    open spec fn view(&self) -> VolumeView {
        VolumeView {
            name: self.name@,
            source: self.source@,
        }
    }
}

/// An HTTP request that tells how a container is.
#[derive(Debug)]
pub struct Probe {
    pub path: String,
    pub port: i32,
    pub initial_delay_seconds: i32,
}

/// The contents of a `Probe`.
pub struct ProbeView {
    pub path: Seq<char>,
    pub port: i32,
    pub initial_delay_seconds: i32,
}

impl View for Probe {
    type V = ProbeView;

    open spec fn view(&self) -> ProbeView {
        ProbeView {
            path: self.path@,
            port: self.port,
            initial_delay_seconds: self.initial_delay_seconds,
        }
    }
}

/// A container. What is an empty list here is left out of the manifest.
#[derive(Debug)]
pub struct Container {
    pub image: String,
    pub name: String,
    pub command: Vec<String>,
    pub env: Vec<EnvVar>,
    pub resources: Option<ResourceRequirements>,
    pub volume_mounts: Vec<VolumeMount>,
    pub se_linux_options: Option<SELinuxOptions>,
    pub ports: Vec<i32>,
    pub liveness_probe: Option<Probe>,
    pub readiness_probe: Option<Probe>,
}

/// The contents of a `Container`.
pub struct ContainerView {
    pub image: Seq<char>,
    pub name: Seq<char>,
    pub command: Seq<Seq<char>>,
    pub env: Seq<EnvVarView>,
    pub resources: Option<ResourceRequirementsView>,
    pub volume_mounts: Seq<VolumeMountView>,
    pub se_linux_options: Option<SELinuxOptionsView>,
    pub ports: Seq<i32>,
    pub liveness_probe: Option<ProbeView>,
    pub readiness_probe: Option<ProbeView>,
}

impl View for Container {
    type V = ContainerView;

    open spec fn view(&self) -> ContainerView {
        ContainerView {
            image: self.image@,
            name: self.name@,
            command: views(self.command@),
            env: views(self.env@),
            resources: option_view(self.resources),
            volume_mounts: views(self.volume_mounts@),
            se_linux_options: option_view(self.se_linux_options),
            ports: self.ports@,
            liveness_probe: option_view(self.liveness_probe),
            readiness_probe: option_view(self.readiness_probe),
        }
    }
}

/// What a pod runs. An empty list of volumes is left out of the manifest.
#[derive(Debug)]
pub struct PodSpec {
    pub node_selector_terms: Vec<NodeSelectorTerm>,
    pub containers: Vec<Container>,
    pub service_account_name: String,
    pub image_pull_secrets: Option<Vec<String>>,
    pub volumes: Vec<Volume>,
}

/// The contents of a `PodSpec`.
pub struct PodSpecView {
    pub node_selector_terms: Seq<NodeSelectorTermView>,
    pub containers: Seq<ContainerView>,
    pub service_account_name: Seq<char>,
    pub image_pull_secrets: Option<Seq<Seq<char>>>,
    pub volumes: Seq<VolumeView>,
}

impl View for PodSpec {
    type V = PodSpecView;

    open spec fn view(&self) -> PodSpecView {
        PodSpecView {
            node_selector_terms: views(self.node_selector_terms@),
            containers: views(self.containers@),
            service_account_name: self.service_account_name@,
            image_pull_secrets: list_option(self.image_pull_secrets),
            volumes: views(self.volumes@),
        }
    }
}

/// What the pods of a workload look like.
#[derive(Debug)]
pub struct PodTemplateSpec {
    pub metadata: ObjectMeta,
    pub spec: PodSpec,
}

/// The contents of a `PodTemplateSpec`.
pub struct PodTemplateSpecView {
    pub metadata: ObjectMetaView,
    pub spec: PodSpecView,
}

impl View for PodTemplateSpec {
    type V = PodTemplateSpecView;

    open spec fn view(&self) -> PodTemplateSpecView {
        PodTemplateSpecView {
            metadata: self.metadata@,
            spec: self.spec@,
        }
    }
}

/// Runs a pod on each node.
#[derive(Debug)]
pub struct DaemonSet {
    pub metadata: ObjectMeta,
    pub match_labels: StringMap,
    pub template: PodTemplateSpec,
}

/// The contents of a `DaemonSet`.
pub struct DaemonSetView {
    pub metadata: ObjectMetaView,
    pub match_labels: Map<Seq<char>, Seq<char>>,
    pub template: PodTemplateSpecView,
}

impl View for DaemonSet {
    type V = DaemonSetView;

    open spec fn view(&self) -> DaemonSetView {
        DaemonSetView {
            metadata: self.metadata@,
            match_labels: self.match_labels@,
            template: self.template@,
        }
    }
}

/// How the pods of a deployment are replaced.
#[derive(Debug)]
pub struct DeploymentStrategy {
    pub type_: Option<String>,
    pub max_unavailable: Option<String>,
}

/// The contents of a `DeploymentStrategy`.
pub struct DeploymentStrategyView {
    pub type_: Option<Seq<char>>,
    pub max_unavailable: Option<Seq<char>>,
}

impl View for DeploymentStrategy {
    type V = DeploymentStrategyView;

    open spec fn view(&self) -> DeploymentStrategyView {
        DeploymentStrategyView {
            type_: text_option(self.type_),
            max_unavailable: text_option(self.max_unavailable),
        }
    }
}

/// Runs a number of pods.
#[derive(Debug)]
pub struct Deployment {
    pub metadata: ObjectMeta,
    pub replicas: i32,
    pub match_labels: StringMap,
    pub strategy: DeploymentStrategy,
    pub template: PodTemplateSpec,
}

/// The contents of a `Deployment`.
pub struct DeploymentView {
    pub metadata: ObjectMetaView,
    pub replicas: i32,
    pub match_labels: Map<Seq<char>, Seq<char>>,
    pub strategy: DeploymentStrategyView,
    pub template: PodTemplateSpecView,
}

impl View for Deployment {
    type V = DeploymentView;

    open spec fn view(&self) -> DeploymentView {
        DeploymentView {
            metadata: self.metadata@,
            replicas: self.replicas,
            match_labels: self.match_labels@,
            strategy: self.strategy@,
            template: self.template@,
        }
    }
}

/// A port of a service and the port of the pods behind it.
#[derive(Debug)]
pub struct ServicePort {
    pub port: i32,
    pub target_port: i32,
}

/// The contents of a `ServicePort`.
pub struct ServicePortView {
    pub port: i32,
    pub target_port: i32,
}

impl View for ServicePort {
    type V = ServicePortView;

    open spec fn view(&self) -> ServicePortView {
        ServicePortView {
            port: self.port,
            target_port: self.target_port,
        }
    }
}

/// Routes requests to pods.
#[derive(Debug)]
pub struct Service {
    pub metadata: ObjectMeta,
    pub selector: StringMap,
    pub ports: Vec<ServicePort>,
}

/// The contents of a `Service`.
pub struct ServiceView {
    pub metadata: ObjectMetaView,
    pub selector: Map<Seq<char>, Seq<char>>,
    pub ports: Seq<ServicePortView>,
}

impl View for Service {
    type V = ServiceView;

    open spec fn view(&self) -> ServiceView {
        ServiceView {
            metadata: self.metadata@,
            selector: self.selector@,
            ports: views(self.ports@),
        }
    }
}

/// A list of one value.
pub fn list1<T: View>(a: T) -> (r: Vec<T>)
    ensures
        views(r@) == seq![a@],
{
    let mut v: Vec<T> = Vec::new();
    v.push(a);
    v
}

/// A list of two values.
pub fn list2<T: View>(a: T, b: T) -> (r: Vec<T>)
    ensures
        views(r@) == seq![a@, b@],
{
    let mut v: Vec<T> = Vec::new();
    v.push(a);
    v.push(b);
    v
}

/// A list of three values.
pub fn list3<T: View>(a: T, b: T, c: T) -> (r: Vec<T>)
    ensures
        views(r@) == seq![a@, b@, c@],
{
    let mut v: Vec<T> = Vec::new();
    v.push(a);
    v.push(b);
    v.push(c);
    v
}

/// A list of texts.
pub fn text_list(v: Vec<&'static str>) -> (r: Vec<String>)
    ensures
        views(r@) == strs(v@),
{
    let mut out: Vec<String> = Vec::new();
    let mut i: usize = 0;
    while i < v.len()
        invariant
            i <= v@.len(),
            out@.len() == i,
            forall|j: int| 0 <= j < i ==> (#[trigger] out@[j])@ == v@[j]@,
        decreases v@.len() - i,
    {
        out.push(String::from_str(v[i]));
        i = i + 1;
    }
    assert(views(out@) =~= strs(v@));
    out
}

/// A map of one entry.
pub fn entry(key: &str, value: &str) -> (r: StringMap)
    ensures
        r@ == map![key@ => value@],
{
    StringMap::new().with(String::from_str(key), String::from_str(value))
}

/// The label by which the pods of a component are found.
pub open spec fn component_label(component: Seq<char>) -> Map<Seq<char>, Seq<char>> {
    map![LABEL_COMPONENT@ => component]
}

/// The labels that the objects of a component carry.
pub open spec fn common_labels(component: Seq<char>) -> Map<Seq<char>, Seq<char>> {
    map![
        APP_COMPONENT@ => component,
        APP_MANAGED_BY@ => BRUPOP@,
        APP_PART_OF@ => BRUPOP@,
        LABEL_COMPONENT@ => component
    ]
}

/// The labels that the objects of a component carry.
pub fn brupop_labels(component: &str) -> (r: StringMap)
    ensures
        r@ == common_labels(component@),
{
    StringMap::new().with(String::from_str(APP_COMPONENT), String::from_str(component)).with(
        String::from_str(APP_MANAGED_BY),
        String::from_str(BRUPOP),
    ).with(String::from_str(APP_PART_OF), String::from_str(BRUPOP)).with(
        String::from_str(LABEL_COMPONENT),
        String::from_str(component),
    )
}

/// The metadata of an object in the namespace of the operator.
pub open spec fn object_meta(
    name: Option<Seq<char>>,
    labels: Option<Map<Seq<char>, Seq<char>>>,
    annotations: Option<Map<Seq<char>, Seq<char>>>,
) -> ObjectMetaView {
    ObjectMetaView {
        name,
        namespace: Some(NAMESPACE@),
        labels,
        annotations,
        ..ObjectMetaView::unset()
    }
}

/// The metadata of an object in the namespace of the operator.
pub fn new_object_meta(
    name: Option<String>,
    labels: Option<StringMap>,
    annotations: Option<StringMap>,
) -> (r: ObjectMeta)
    ensures
        r@ == object_meta(text_option(name), option_view(labels), option_view(annotations)),
{
    ObjectMeta {
        name,
        generate_name: None,
        namespace: Some(String::from_str(NAMESPACE)),
        uid: None,
        owner_references: None,
        labels,
        annotations,
    }
}

/// A service account whose annotation repeats its name.
pub open spec fn service_account(
    name: Seq<char>,
    labels: Option<Map<Seq<char>, Seq<char>>>,
) -> ServiceAccountView {
    ServiceAccountView {
        metadata: object_meta(
            Some(name),
            labels,
            Some(map!["kubernetes.io/service-account.name"@ => name]),
        ),
    }
}

/// A service account whose annotation repeats its name.
pub fn new_service_account(name: &str, labels: Option<StringMap>) -> (r: ServiceAccount)
    ensures
        r@ == service_account(name@, option_view(labels)),
{
    ServiceAccount {
        metadata: new_object_meta(
            Some(String::from_str(name)),
            labels,
            Some(entry("kubernetes.io/service-account.name", name)),
        ),
    }
}

/// A rule on resources of one API group.
pub open spec fn policy_rule(
    api_group: Seq<char>,
    resources: Seq<Seq<char>>,
    verbs: Seq<Seq<char>>,
) -> PolicyRuleView {
    PolicyRuleView { api_groups: seq![api_group], resources, verbs }
}

/// A rule on resources of one API group.
pub fn new_policy_rule(
    api_group: &str,
    resources: Vec<&'static str>,
    verbs: Vec<&'static str>,
) -> (r: PolicyRule)
    ensures
        r@ == policy_rule(api_group@, strs(resources@), strs(verbs@)),
{
    PolicyRule {
        api_groups: list1(String::from_str(api_group)),
        resources: text_list(resources),
        verbs: text_list(verbs),
    }
}

/// Grants a cluster role to a service account of the operator's namespace.
pub open spec fn role_binding(
    name: Seq<char>,
    labels: Option<Map<Seq<char>, Seq<char>>>,
    role: Seq<char>,
    account: Seq<char>,
) -> ClusterRoleBindingView {
    ClusterRoleBindingView {
        metadata: object_meta(Some(name), labels, None),
        role_ref: RoleRefView {
            api_group: "rbac.authorization.k8s.io"@,
            kind: "ClusterRole"@,
            name: role,
        },
        subjects: seq![
            SubjectView { kind: "ServiceAccount"@, name: account, namespace: NAMESPACE@ },
        ],
    }
}

/// Grants a cluster role to a service account of the operator's namespace.
pub fn new_role_binding(
    name: &str,
    labels: Option<StringMap>,
    role: &str,
    account: &str,
) -> (r: ClusterRoleBinding)
    ensures
        r@ == role_binding(name@, option_view(labels), role@, account@),
{
    ClusterRoleBinding {
        metadata: new_object_meta(Some(String::from_str(name)), labels, None),
        role_ref: RoleRef {
            api_group: String::from_str("rbac.authorization.k8s.io"),
            kind: String::from_str("ClusterRole"),
            name: String::from_str(role),
        },
        subjects: list1(
            Subject {
                kind: String::from_str("ServiceAccount"),
                name: String::from_str(account),
                namespace: String::from_str(NAMESPACE),
            },
        ),
    }
}

/// The condition that a label has one of some values.
pub open spec fn label_in(key: Seq<char>, values: Seq<Seq<char>>) -> NodeSelectorRequirementView {
    NodeSelectorRequirementView { key, operator: "In"@, values }
}

/// The condition that a label has one of some values.
pub fn new_label_in(key: &str, values: Vec<&'static str>) -> (r: NodeSelectorRequirement)
    ensures
        r@ == label_in(key@, strs(values@)),
{
    NodeSelectorRequirement {
        key: String::from_str(key),
        operator: String::from_str("In"),
        values: text_list(values),
    }
}

/// Linux nodes of the supported architectures.
pub open spec fn linux_nodes() -> NodeSelectorTermView {
    NodeSelectorTermView {
        match_expressions: seq![
            label_in("kubernetes.io/os"@, strs(seq!["linux"])),
            label_in("kubernetes.io/arch"@, strs(seq!["amd64", "arm64"])),
        ],
    }
}

/// Linux nodes of the supported architectures.
pub fn new_linux_nodes() -> (r: NodeSelectorTerm)
    ensures
        r@ == linux_nodes(),
{
    let os = vec!["linux"];
    let arch = vec!["amd64", "arm64"];
    proof {
        assert(os@ =~= seq!["linux"]);
        assert(arch@ =~= seq!["amd64", "arm64"]);
    }
    NodeSelectorTerm {
        match_expressions: list2(
            new_label_in("kubernetes.io/os", os),
            new_label_in("kubernetes.io/arch", arch),
        ),
    }
}

/// A service that routes one port to the pods of a component.
pub open spec fn service(
    name: Seq<char>,
    component: Seq<char>,
    port: i32,
    target_port: i32,
) -> ServiceView {
    ServiceView {
        metadata: object_meta(Some(name), Some(common_labels(component)), None),
        selector: component_label(component),
        ports: seq![ServicePortView { port, target_port }],
    }
}

/// A service that routes one port to the pods of a component.
pub fn new_service(name: &str, component: &str, port: i32, target_port: i32) -> (r: Service)
    ensures
        r@ == service(name@, component@, port, target_port),
{
    Service {
        metadata: new_object_meta(
            Some(String::from_str(name)),
            Some(brupop_labels(component)),
            None,
        ),
        selector: entry(LABEL_COMPONENT, component),
        ports: list1(ServicePort { port, target_port }),
    }
}

/// The secrets with which images are pulled.
pub open spec fn pull_secrets(secret: Option<Seq<char>>) -> Option<Seq<Seq<char>>> {
    match secret {
        Some(s) => Some(seq![s]),
        None => None,
    }
}

/// The secrets with which images are pulled.
pub fn new_pull_secrets(secret: Option<String>) -> (r: Option<Vec<String>>)
    ensures
        list_option(r) == pull_secrets(text_option(secret)),
{
    match secret {
        Some(s) => Some(list1(s)),
        None => None,
    }
}

/// A container that runs one command of an image, without anything else.
pub open spec fn plain_container(image: Seq<char>, command: Seq<char>) -> ContainerView {
    ContainerView {
        image,
        name: BRUPOP@,
        command: seq![command],
        env: seq![],
        resources: None,
        volume_mounts: seq![],
        se_linux_options: None,
        ports: seq![],
        liveness_probe: None,
        readiness_probe: None,
    }
}

/// Whether a map holds all entries of another one.
pub open spec fn includes(
    labels: Map<Seq<char>, Seq<char>>,
    selector: Map<Seq<char>, Seq<char>>,
) -> bool {
    forall|k: Seq<char>|
        #![trigger selector.contains_key(k)]
        selector.contains_key(k) ==> labels.contains_key(k) && labels[k] == selector[k]
}

/// Whether a selector finds the pods of a template.
pub open spec fn selects_pods(
    selector: Map<Seq<char>, Seq<char>>,
    template: PodTemplateSpecView,
) -> bool {
    &&& template.metadata.labels is Some
    &&& includes(template.metadata.labels->0, selector)
}

/// Whether a service routes to the pods of a template in the same namespace.
pub open spec fn routes_to(service: ServiceView, template: PodTemplateSpecView) -> bool {
    &&& selects_pods(service.selector, template)
    &&& service.metadata.namespace == template.metadata.namespace
}

/// Whether a pod has a volume of a name.
pub open spec fn has_volume(pod: PodSpecView, name: Seq<char>) -> bool {
    exists|i: int| 0 <= i < pod.volumes.len() && (#[trigger] pod.volumes[i]).name == name
}

/// Whether a binding grants a role to a service account.
pub open spec fn grants(
    binding: ClusterRoleBindingView,
    role: ClusterRoleView,
    account: ServiceAccountView,
) -> bool {
    &&& role.metadata.name == Some(binding.role_ref.name)
    &&& is_subject(binding, account)
}

/// Whether a binding names a service account.
pub open spec fn is_subject(binding: ClusterRoleBindingView, account: ServiceAccountView) -> bool {
    &&& binding.subjects.len() == 1
    &&& account.metadata.name == Some(binding.subjects[0].name)
    &&& account.metadata.namespace == Some(binding.subjects[0].namespace)
}

/// Whether a pod runs as a service account.
pub open spec fn runs_as(pod: PodSpecView, account: ServiceAccountView) -> bool {
    account.metadata.name == Some(pod.service_account_name)
}

} // verus!
