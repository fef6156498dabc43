//! The node group that an integration test launches: the role of its nodes, the template of its
//! instances, and when it is there or gone.

use vstd::prelude::*;
use vstd::string::*;

use super::cluster_info::ClusterInfo;
use super::ec2_provider::{
    ami_of, ami_parameter, ami_parameter_name, base64_encode, base64_text, find_ami_id,
    finish_wait, first_subnet, first_subnet_id, instance_tags, instance_type, instance_type_of,
    tag_specifications, tag_views, unit_result, waited, ImagesAnswer, ParameterAnswer, Wait,
    WaitAnswer, DEFAULT_INSTANCE_COUNT, POLL_MILLIS,
};
use super::eks_provider::{text_result, ClusterDnsIpInfo, IpFamily};
use super::error::{ProviderError, ProviderErrorView, ProviderResult};
use crate::models::constants::{BRUPOP_INTERFACE_VERSION, LABEL_BRUPOP_INTERFACE_NAME};
use crate::models::manifest::views;
use crate::models::meta::text_option;
use crate::text::{concat2, concat3, concat5, i64_text, signed_decimal, str_eq};

verus! {

pub const IAM_INSTANCE_PROFILE_NAME: &'static str = "brupop-integ-test-eksNodeRole";

pub const LAUNCH_TEMPLATE_NAME: &'static str = "brupop-integ-test";

pub const EKS_WORKER_NODE_POLICY_ARN: &'static str =
    "arn:aws:iam::aws:policy/AmazonEKSWorkerNodePolicy";

pub const EKS_CNI_ARN: &'static str = "arn:aws:iam::aws:policy/AmazonEKS_CNI_Policy";

pub const EC2_CONTAINER_REGISTRY_ARN: &'static str =
    "arn:aws:iam::aws:policy/AmazonEC2ContainerRegistryReadOnly";

pub const SSM_MANAGED_INSTANCE_CORE_ARN: &'static str =
    "arn:aws:iam::aws:policy/AmazonSSMManagedInstanceCore";

pub const EKS_ROLE_POLICY_DOCUMENT: &'static str =
    "{\n    \"Version\": \"2012-10-17\",\n    \"Statement\": [\n        {\n            \"Effect\": \"Allow\",\n            \"Principal\": {\n                \"Service\": \"ec2.amazonaws.com\"\n            },\n            \"Action\": \"sts:AssumeRole\"\n        }\n    ]\n}";

/// Seconds that a node group may take to become active.
pub const ACTIVE_TIMEOUT: u64 = 300;

/// Seconds that a node group may take to be deleted.
pub const DELETED_TIMEOUT: u64 = 500;

/// The name of the role and of the instance profile of a node group.
pub open spec fn profile_name(nodegroup_name: Seq<char>) -> Seq<char> {
    IAM_INSTANCE_PROFILE_NAME@ + "-"@ + nodegroup_name
}

/// The name of the role and of the instance profile of a node group.
pub fn iam_instance_profile_name(nodegroup_name: &str) -> (r: String)
    ensures
        r@ == profile_name(nodegroup_name@),
{
    concat3(IAM_INSTANCE_PROFILE_NAME, "-", nodegroup_name)
}

/// The name of the launch template of a node group.
pub open spec fn template_name(nodegroup_name: Seq<char>) -> Seq<char> {
    LAUNCH_TEMPLATE_NAME@ + "-"@ + nodegroup_name
}

/// The name of the launch template of a node group.
pub fn launch_template_name(nodegroup_name: &str) -> (r: String)
    ensures
        r@ == template_name(nodegroup_name@),
{
    concat3(LAUNCH_TEMPLATE_NAME, "-", nodegroup_name)
}

/// A change of identities and permissions. The role and the instance profile of a node group
/// have the same name.
#[derive(Copy, Clone, Debug, PartialEq, Eq)]
pub enum IamCall {
    CreateRole { assume_role_policy_document: &'static str },
    AttachRolePolicy { policy_arn: &'static str },
    CreateInstanceProfile,
    AddRoleToInstanceProfile,
    RemoveRoleFromInstanceProfile,
    DetachRolePolicy { policy_arn: &'static str },
    DeleteInstanceProfile,
    DeleteRole,
}

/// A change and what is said where it fails.
#[derive(Copy, Clone, Debug, PartialEq, Eq)]
pub struct IamStep {
    pub call: IamCall,
    pub failure: &'static str,
}

fn step(call: IamCall, failure: &'static str) -> (r: IamStep)
    ensures
        r == (IamStep { call, failure }),
{
    IamStep { call, failure }
}

/// The changes that make the role and the instance profile of a node group.
pub open spec fn create_profile_steps() -> Seq<IamStep> {
    seq![
        IamStep {
            call: IamCall::CreateRole { assume_role_policy_document: EKS_ROLE_POLICY_DOCUMENT },
            failure: "Unable to create new role.",
        },
        IamStep {
            call: IamCall::AttachRolePolicy { policy_arn: SSM_MANAGED_INSTANCE_CORE_ARN },
            failure: "Unable to attach AmazonSSM policy",
        },
        IamStep {
            call: IamCall::AttachRolePolicy { policy_arn: EKS_WORKER_NODE_POLICY_ARN },
            failure: "Unable to attach AmazonEKSWorkerNode policy",
        },
        IamStep {
            call: IamCall::AttachRolePolicy { policy_arn: EKS_CNI_ARN },
            failure: "Unable to attach AmazonEKS CNI policy",
        },
        IamStep {
            call: IamCall::AttachRolePolicy { policy_arn: EC2_CONTAINER_REGISTRY_ARN },
            failure: "Unable to attach AmazonEC2ContainerRegistry policy",
        },
        IamStep {
            call: IamCall::CreateInstanceProfile,
            failure: "Unable to create instance profile",
        },
        IamStep {
            call: IamCall::AddRoleToInstanceProfile,
            failure: "Unable to add role to instance profile",
        },
    ]
}

/// The changes that make the role and the instance profile of a node group.
pub fn create_iam_instance_profile() -> (r: Vec<IamStep>)
    ensures
        r@ == create_profile_steps(),
{
    let mut steps: Vec<IamStep> = Vec::new();
    steps.push(
        step(
            IamCall::CreateRole { assume_role_policy_document: EKS_ROLE_POLICY_DOCUMENT },
            "Unable to create new role.",
        ),
    );
    steps.push(
        step(
            IamCall::AttachRolePolicy { policy_arn: SSM_MANAGED_INSTANCE_CORE_ARN },
            "Unable to attach AmazonSSM policy",
        ),
    );
    steps.push(
        step(
            IamCall::AttachRolePolicy { policy_arn: EKS_WORKER_NODE_POLICY_ARN },
            "Unable to attach AmazonEKSWorkerNode policy",
        ),
    );
    steps.push(
        step(
            IamCall::AttachRolePolicy { policy_arn: EKS_CNI_ARN },
            "Unable to attach AmazonEKS CNI policy",
        ),
    );
    steps.push(
        step(
            IamCall::AttachRolePolicy { policy_arn: EC2_CONTAINER_REGISTRY_ARN },
            "Unable to attach AmazonEC2ContainerRegistry policy",
        ),
    );
    steps.push(step(IamCall::CreateInstanceProfile, "Unable to create instance profile"));
    steps.push(step(IamCall::AddRoleToInstanceProfile, "Unable to add role to instance profile"));
    assert(steps@ =~= create_profile_steps());
    steps
}

/// The changes that remove the role and the instance profile of a node group.
pub open spec fn delete_profile_steps() -> Seq<IamStep> {
    seq![
        IamStep {
            call: IamCall::RemoveRoleFromInstanceProfile,
            failure: "Unable to remove roles from instance profile.",
        },
        IamStep {
            call: IamCall::DetachRolePolicy { policy_arn: SSM_MANAGED_INSTANCE_CORE_ARN },
            failure: "Unable to detach AmazonSSM policy",
        },
        IamStep {
            call: IamCall::DetachRolePolicy { policy_arn: EKS_WORKER_NODE_POLICY_ARN },
            failure: "Unable to detach AmazonEKSWorkerNode policy",
        },
        IamStep {
            call: IamCall::DetachRolePolicy { policy_arn: EKS_CNI_ARN },
            failure: "Unable to detach AmazonEKS CNI policy",
        },
        IamStep {
            call: IamCall::DetachRolePolicy { policy_arn: EC2_CONTAINER_REGISTRY_ARN },
            failure: "Unable to detach AmazonEC2ContainerRegistry policy",
        },
        IamStep {
            call: IamCall::DeleteInstanceProfile,
            failure: "Unable to create instance profile",
        },
        IamStep { call: IamCall::DeleteRole, failure: "Unable to delete role." },
    ]
}

/// The changes that remove the role and the instance profile of a node group.
pub fn delete_iam_instance_profile() -> (r: Vec<IamStep>)
    ensures
        r@ == delete_profile_steps(),
{
    let mut steps: Vec<IamStep> = Vec::new();
    steps.push(
        step(
            IamCall::RemoveRoleFromInstanceProfile,
            "Unable to remove roles from instance profile.",
        ),
    );
    steps.push(
        step(
            IamCall::DetachRolePolicy { policy_arn: SSM_MANAGED_INSTANCE_CORE_ARN },
            "Unable to detach AmazonSSM policy",
        ),
    );
    steps.push(
        step(
            IamCall::DetachRolePolicy { policy_arn: EKS_WORKER_NODE_POLICY_ARN },
            "Unable to detach AmazonEKSWorkerNode policy",
        ),
    );
    steps.push(
        step(
            IamCall::DetachRolePolicy { policy_arn: EKS_CNI_ARN },
            "Unable to detach AmazonEKS CNI policy",
        ),
    );
    steps.push(
        step(
            IamCall::DetachRolePolicy { policy_arn: EC2_CONTAINER_REGISTRY_ARN },
            "Unable to detach AmazonEC2ContainerRegistry policy",
        ),
    );
    steps.push(step(IamCall::DeleteInstanceProfile, "Unable to create instance profile"));
    steps.push(step(IamCall::DeleteRole, "Unable to delete role."));
    assert(steps@ =~= delete_profile_steps());
    steps
}

/// The role and the instance profile of one name: the policies that are attached to the role, if
/// it is there, and whether the profile holds the role, if the profile is there.
pub struct IamState {
    pub policies: Option<Set<Seq<char>>>,
    pub holds_role: Option<bool>,
}

/// What a change makes of the role and the instance profile, if it can be made: nothing is made
/// twice, nothing is removed that is not there, and a role or a profile is only deleted when
/// nothing hangs on it.
pub open spec fn changed(state: IamState, call: IamCall) -> Option<IamState> {
    match call {
        IamCall::CreateRole { .. } => if state.policies is None {
            Some(IamState { policies: Some(Set::empty()), ..state })
        } else {
            None
        },
        IamCall::AttachRolePolicy { policy_arn } => match state.policies {
            Some(p) => Some(IamState { policies: Some(p.insert(policy_arn@)), ..state }),
            None => None,
        },
        IamCall::CreateInstanceProfile => if state.holds_role is None {
            Some(IamState { holds_role: Some(false), ..state })
        } else {
            None
        },
        IamCall::AddRoleToInstanceProfile => if state.holds_role == Some(false) && state.policies
            is Some {
            Some(IamState { holds_role: Some(true), ..state })
        } else {
            None
        },
        IamCall::RemoveRoleFromInstanceProfile => if state.holds_role == Some(true) {
            Some(IamState { holds_role: Some(false), ..state })
        } else {
            None
        },
        IamCall::DetachRolePolicy { policy_arn } => match state.policies {
            Some(p) => if p.contains(policy_arn@) {
                Some(IamState { policies: Some(p.remove(policy_arn@)), ..state })
            } else {
                None
            },
            None => None,
        },
        IamCall::DeleteInstanceProfile => if state.holds_role == Some(false) {
            Some(IamState { holds_role: None, ..state })
        } else {
            None
        },
        IamCall::DeleteRole => if state.policies == Some(Set::<Seq<char>>::empty())
            && state.holds_role != Some(true) {
            Some(IamState { policies: None, ..state })
        } else {
            None
        },
    }
}

/// What some changes make of the role and the instance profile, from change `i` on.
pub open spec fn changed_from(state: IamState, steps: Seq<IamStep>, i: int) -> Option<IamState>
    decreases steps.len() - i,
{
    if i < 0 || i >= steps.len() {
        Some(state)
    } else {
        match changed(state, steps[i].call) {
            Some(next) => changed_from(next, steps, i + 1),
            None => None,
        }
    }
}

/// The state in which neither a role nor an instance profile is there.
pub open spec fn nothing() -> IamState {
    IamState { policies: None, holds_role: None }
}

/// What some changes for one name make of the roles and instance profiles of an account, which
/// are held by name.
pub open spec fn account_after(
    account: Map<Seq<char>, IamState>,
    name: Seq<char>,
    steps: Seq<IamStep>,
) -> Option<Map<Seq<char>, IamState>> {
    let state = if account.contains_key(name) {
        account[name]
    } else {
        nothing()
    };
    match changed_from(state, steps, 0) {
        None => None,
        Some(next) => if next == nothing() {
            Some(account.remove(name))
        } else {
            Some(account.insert(name, next))
        },
    }
}

/// Removing the role and the instance profile of a node group undoes making them: in an account
/// that has neither, both sequences of changes can be made, and the account is left as it was.
pub proof fn removal_undoes_creation(account: Map<Seq<char>, IamState>, nodegroup_name: Seq<char>)
    requires
        !account.contains_key(profile_name(nodegroup_name)),
    ensures
        ({
            let name = profile_name(nodegroup_name);
            let made = account_after(account, name, create_profile_steps());
            &&& made is Some
            &&& account_after(made->0, name, delete_profile_steps()) == Some(account)
        }),
{
    reveal_strlit("arn:aws:iam::aws:policy/AmazonEKSWorkerNodePolicy");
    reveal_strlit("arn:aws:iam::aws:policy/AmazonEKS_CNI_Policy");
    reveal_strlit("arn:aws:iam::aws:policy/AmazonEC2ContainerRegistryReadOnly");
    reveal_strlit("arn:aws:iam::aws:policy/AmazonSSMManagedInstanceCore");
    let a = SSM_MANAGED_INSTANCE_CORE_ARN@;
    let b = EKS_WORKER_NODE_POLICY_ARN@;
    let c = EKS_CNI_ARN@;
    let d = EC2_CONTAINER_REGISTRY_ARN@;
    assert(a.len() != b.len() && a.len() != c.len() && a.len() != d.len() && b.len() != c.len()
        && b.len() != d.len() && c.len() != d.len());
    let none = Set::<Seq<char>>::empty();
    let all = none.insert(a).insert(b).insert(c).insert(d);
    let made = IamState { policies: Some(all), holds_role: Some(true) };
    assert(changed_from(nothing(), create_profile_steps(), 0) == Some(made)) by {
        reveal_with_fuel(changed_from, 8);
    }
    assert(all.remove(a).remove(b).remove(c).remove(d) =~= none);
    assert(changed_from(made, delete_profile_steps(), 0) == Some(nothing())) by {
        reveal_with_fuel(changed_from, 8);
    }
    let name = profile_name(nodegroup_name);
    assert(account.insert(name, made).remove(name) =~= account);
}

/// The error of a change that fails.
pub fn iam_failure(failed: &IamStep, source: String) -> (r: ProviderError)
    ensures
        r@ == ProviderErrorView::caused(failed.failure@, source@),
{
    ProviderError::new_with_source_and_context(String::from_str(failed.failure), source)
}

/// The outcome of looking an instance profile up.
#[derive(Copy, Clone, Debug, PartialEq, Eq, Structural)]
pub enum ProfileLookup {
    Found,
    /// The service says that there is none.
    NoSuchEntity,
    /// Any other error.
    Failed,
}

/// Whether an instance profile is taken to be there: unless the service says that it is not.
pub fn instance_profile_exists(result: ProfileLookup) -> (r: bool)
    ensures
        r == (result != ProfileLookup::NoSuchEntity),
{
    result != ProfileLookup::NoSuchEntity
}

/// The ids of the roles of an instance profile, or the text of the error of asking.
pub type RolesAnswer = Result<Option<Vec<Option<String>>>, String>;

/// The id of the first role of an instance profile.
pub open spec fn role_arn_of(answer: RolesAnswer) -> Result<Seq<char>, ProviderErrorView> {
    match answer {
        Err(e) => Err(ProviderErrorView::caused("Unable to get instance profile."@, e@)),
        Ok(Some(roles)) => if roles@.len() == 0 {
            Err(ProviderErrorView::because("Instance profile does not contain roles."@))
        } else {
            match roles@[0] {
                Some(arn) => Ok(arn@),
                None => Err(ProviderErrorView::because("Role does not contain an arn."@)),
            }
        },
        Ok(None) => Err(
            ProviderErrorView::because("Instance profile does not contain roles."@),
        ),
    }
}

/// The id of the first role of an instance profile.
pub fn instance_profile_arn(answer: &RolesAnswer) -> (r: ProviderResult<String>)
    ensures
        text_result(r) == role_arn_of(*answer),
{
    match answer {
        Err(e) => Err(
            ProviderError::new_with_source_and_context(
                String::from_str("Unable to get instance profile."),
                e.clone(),
            ),
        ),
        Ok(None) => Err(
            ProviderError::new_with_context(
                String::from_str("Instance profile does not contain roles."),
            ),
        ),
        Ok(Some(roles)) => {
            if roles.len() == 0 {
                return Err(
                    ProviderError::new_with_context(
                        String::from_str("Instance profile does not contain roles."),
                    ),
                );
            }
            match &roles[0] {
                Some(arn) => Ok(arn.clone()),
                None => Err(
                    ProviderError::new_with_context(
                        String::from_str("Role does not contain an arn."),
                    ),
                ),
            }
        },
    }
}

/// The arguments of `eksctl` that map the role of the nodes to a cluster.
pub open spec fn create_mapping_args(
    cluster_name: Seq<char>,
    region: Seq<char>,
    arn: Seq<char>,
) -> Seq<Seq<char>> {
    seq![
        "create"@,
        "iamidentitymapping"@,
        "--cluster"@,
        cluster_name,
        "--region"@,
        region,
        "--arn"@,
        arn,
        "--group"@,
        "system:bootstrappers,system:nodes"@,
        "--username"@,
        "system:node:{{EC2PrivateDNSName}}"@,
    ]
}

/// The arguments of `eksctl` that map the role of the nodes to a cluster.
pub fn cluster_iam_identity_mapping(cluster_name: &str, region: &str, arn: &str) -> (r: Vec<String>)
    ensures
        views(r@) == create_mapping_args(cluster_name@, region@, arn@),
{
    let mut args: Vec<String> = Vec::new();
    args.push(String::from_str("create"));
    args.push(String::from_str("iamidentitymapping"));
    args.push(String::from_str("--cluster"));
    args.push(String::from_str(cluster_name));
    args.push(String::from_str("--region"));
    args.push(String::from_str(region));
    args.push(String::from_str("--arn"));
    args.push(String::from_str(arn));
    args.push(String::from_str("--group"));
    args.push(String::from_str("system:bootstrappers,system:nodes"));
    args.push(String::from_str("--username"));
    args.push(String::from_str("system:node:{{EC2PrivateDNSName}}"));
    assert(views(args@) =~= create_mapping_args(cluster_name@, region@, arn@));
    args
}

/// The setting of the DNS address. A cluster with IPv6 addresses needs one.
pub open spec fn dns_setting(family: IpFamily, dns: Option<Seq<char>>) -> Result<
    Seq<char>,
    ProviderErrorView,
> {
    match (family, dns) {
        (IpFamily::Unknown, _) => Err(ProviderErrorView::because("Invalid dns ip"@)),
        (_, Some(d)) => Ok("cluster-dns-ip = \""@ + d + "\""@),
        (IpFamily::Ipv4, None) => Ok(""@),
        (IpFamily::Ipv6, None) => Err(ProviderErrorView::because("Missing IPv6 dns ip"@)),
    }
}

/// The settings with which the nodes of a group join a cluster.
pub open spec fn node_settings(
    endpoint: Seq<char>,
    cluster_name: Seq<char>,
    certificate: Seq<char>,
    dns: Seq<char>,
) -> Seq<char> {
    "[settings.updates]\n        ignore-waves = true\n\n        [settings.kubernetes]\n        api-server = \""@
        + endpoint + "\"\n        cluster-name = \""@ + cluster_name
        + "\"\n        cluster-certificate = \""@ + (certificate + "\"\n        "@ + dns
        + "\n        "@)
}

/// The settings with which the nodes of a group join a cluster.
pub open spec fn settings_of(
    endpoint: Seq<char>,
    cluster_name: Seq<char>,
    certificate: Seq<char>,
    family: IpFamily,
    dns: Option<Seq<char>>,
) -> Result<Seq<char>, ProviderErrorView> {
    match dns_setting(family, dns) {
        Err(e) => Err(e),
        Ok(setting) => Ok(node_settings(endpoint, cluster_name, certificate, setting)),
    }
}

/// The settings with which the nodes of a group join a cluster.
pub fn settings(
    endpoint: &str,
    cluster_name: &str,
    certificate: &str,
    dns_ip_info: &ClusterDnsIpInfo,
) -> (r: ProviderResult<String>)
    ensures
        text_result(r) == settings_of(
            endpoint@,
            cluster_name@,
            certificate@,
            dns_ip_info.0,
            text_option(dns_ip_info.1),
        ),
{
    let dns_ip_setting = match dns_ip_info.0 {
        // If IPv4 is missing, we just unset `cluster-dns-ip` and bottlerocket pluto will set it.
        IpFamily::Ipv4 => match &dns_ip_info.1 {
            Some(dns) => concat3("cluster-dns-ip = \"", dns.as_str(), "\""),
            None => String::from_str(""),
        },
        // If IPv6 is missing, the brupop ipv6 integration test will fail so we just error out.
        IpFamily::Ipv6 => match &dns_ip_info.1 {
            Some(dns) => concat3("cluster-dns-ip = \"", dns.as_str(), "\""),
            None => return Err(
                ProviderError::new_with_context(String::from_str("Missing IPv6 dns ip")),
            ),
        },
        IpFamily::Unknown => return Err(
            ProviderError::new_with_context(String::from_str("Invalid dns ip")),
        ),
    };
    let head = concat5(
        "[settings.updates]\n        ignore-waves = true\n\n        [settings.kubernetes]\n        api-server = \"",
        endpoint,
        "\"\n        cluster-name = \"",
        cluster_name,
        "\"\n        cluster-certificate = \"",
    );
    let middle = concat3(certificate, "\"\n        ", dns_ip_setting.as_str());
    let tail = concat2(middle.as_str(), "\n        ");
    Ok(concat2(head.as_str(), tail.as_str()))
}

/// The settings with which the nodes of a group join a cluster, as they are handed to them.
pub open spec fn userdata_of(
    endpoint: Seq<char>,
    cluster_name: Seq<char>,
    certificate: Seq<char>,
    family: IpFamily,
    dns: Option<Seq<char>>,
) -> Result<Seq<char>, ProviderErrorView> {
    match settings_of(endpoint, cluster_name, certificate, family, dns) {
        Err(e) => Err(e),
        Ok(text) => Ok(base64_text(text)),
    }
}

/// The settings with which the nodes of a group join a cluster, as they are handed to them.
pub fn userdata(
    endpoint: &str,
    cluster_name: &str,
    certificate: &str,
    dns_ip_info: &ClusterDnsIpInfo,
) -> (r: ProviderResult<String>)
    ensures
        text_result(r) == userdata_of(
            endpoint@,
            cluster_name@,
            certificate@,
            dns_ip_info.0,
            text_option(dns_ip_info.1),
        ),
{
    match settings(endpoint, cluster_name, certificate, dns_ip_info) {
        Ok(text) => Ok(base64_encode(text.as_str())),
        Err(e) => Err(e),
    }
}

/// A launch template as it was found or made.
#[derive(Debug)]
pub struct LaunchTemplate {
    pub launch_template_id: Option<String>,
    pub latest_version_number: Option<i64>,
}

/// The outcome of looking a launch template up.
#[derive(Debug)]
pub enum TemplateLookup {
    Found(Option<Vec<LaunchTemplate>>),
    /// An error that the service has no name for, which is how it says that there is none.
    Unhandled,
    /// Any other error.
    Failed(String),
}

/// Whether a launch template is taken to be there: unless the service says that it is not.
pub fn launch_template_exists(result: &TemplateLookup) -> (r: bool)
    ensures
        r == (*result !is Unhandled),
{
    match result {
        TemplateLookup::Unhandled => false,
        _ => true,
    }
}

/// The launch template of a node group.
#[derive(Debug)]
pub struct CreatedEc2LaunchTemplate {
    /// The ids of created template
    pub launch_template_id: String,
    /// The latest version of created template
    pub latest_version_number: i64,
}

/// A result with a launch template as its contents.
pub open spec fn template_result(r: ProviderResult<CreatedEc2LaunchTemplate>) -> Result<
    (Seq<char>, i64),
    ProviderErrorView,
> {
    match r {
        Ok(t) => Ok((t.launch_template_id@, t.latest_version_number)),
        Err(e) => Err(e@),
    }
}

/// What is made of a launch template.
pub open spec fn template_of(template: LaunchTemplate) -> Result<
    (Seq<char>, i64),
    ProviderErrorView,
> {
    match (template.launch_template_id, template.latest_version_number) {
        (None, _) => Err(ProviderErrorView::because("Failed to get launch template id"@)),
        (_, None) => Err(ProviderErrorView::because("Failed to get launch template version"@)),
        (Some(id), Some(version)) => Ok((id@, version)),
    }
}

fn read_template(template: &LaunchTemplate) -> (r: ProviderResult<CreatedEc2LaunchTemplate>)
    ensures
        template_result(r) == template_of(*template),
{
    match (&template.launch_template_id, template.latest_version_number) {
        (None, _) => Err(
            ProviderError::new_with_context(String::from_str("Failed to get launch template id")),
        ),
        (_, None) => Err(
            ProviderError::new_with_context(
                String::from_str("Failed to get launch template version"),
            ),
        ),
        (Some(id), Some(version)) => Ok(
            CreatedEc2LaunchTemplate {
                launch_template_id: id.clone(),
                latest_version_number: version,
            },
        ),
    }
}

/// A request for a launch template.
#[derive(Debug)]
pub struct TemplateRequest {
    pub launch_template_name: String,
    pub image_id: String,
    pub instance_type: String,
    pub user_data: String,
    pub tags: Vec<(String, String)>,
}

/// The contents of a `TemplateRequest`.
pub struct TemplateRequestView {
    pub launch_template_name: Seq<char>,
    pub image_id: Seq<char>,
    pub instance_type: Seq<char>,
    pub user_data: Seq<char>,
    pub tags: Seq<(Seq<char>, Seq<char>)>,
}

impl View for TemplateRequest {
    type V = TemplateRequestView;

    open spec fn view(&self) -> TemplateRequestView {
        TemplateRequestView {
            launch_template_name: self.launch_template_name@,
            image_id: self.image_id@,
            instance_type: self.instance_type@,
            user_data: self.user_data@,
            tags: tag_views(self.tags@),
        }
    }
}

/// The launch template that was made, or the text of the error of making it.
pub type TemplateAnswer = Result<Option<LaunchTemplate>, String>;

/// What to do next for the launch template of a node group.
#[derive(Debug)]
pub enum TemplateStep {
    Create(TemplateRequest),
    Finish(ProviderResult<CreatedEc2LaunchTemplate>),
}

/// The contents of a `TemplateStep`.
pub enum TemplateStepView {
    Create(TemplateRequestView),
    Finish(Result<(Seq<char>, i64), ProviderErrorView>),
}

impl View for TemplateStep {
    type V = TemplateStepView;

    open spec fn view(&self) -> TemplateStepView {
        match *self {
            TemplateStep::Create(q) => TemplateStepView::Create(q@),
            TemplateStep::Finish(r) => TemplateStepView::Finish(template_result(r)),
        }
    }
}

/// What to do next for the launch template of a node group, after it was looked up and perhaps
/// made: one that is there is used, else one is made from the image, the type and the settings
/// of the nodes.
pub open spec fn template_step(
    node_ami: Seq<char>,
    kind: Seq<char>,
    cluster: ClusterInfo,
    nodegroup_name: Seq<char>,
    lookup: TemplateLookup,
    answer: Option<TemplateAnswer>,
) -> TemplateStepView {
    match lookup {
        TemplateLookup::Failed(e) => TemplateStepView::Finish(
            Err(ProviderErrorView::caused("Failed to describe launch templates"@, e@)),
        ),
        TemplateLookup::Found(None) => TemplateStepView::Finish(
            Err(ProviderErrorView::because("Failed to describe launch templates"@)),
        ),
        TemplateLookup::Found(Some(templates)) => TemplateStepView::Finish(
            if templates@.len() == 0 {
                Err(ProviderErrorView::because("Failed to get launch template"@))
            } else {
                template_of(templates@[0])
            },
        ),
        TemplateLookup::Unhandled => match userdata_of(
            cluster@.endpoint,
            cluster@.name,
            cluster@.certificate,
            cluster@.dns_ip_info.0,
            cluster@.dns_ip_info.1,
        ) {
            Err(e) => TemplateStepView::Finish(Err(e)),
            Ok(user_data) => match answer {
                None => TemplateStepView::Create(
                    TemplateRequestView {
                        launch_template_name: template_name(nodegroup_name),
                        image_id: node_ami,
                        instance_type: kind,
                        user_data,
                        tags: instance_tags(cluster@.name),
                    },
                ),
                Some(Err(e)) => TemplateStepView::Finish(
                    Err(ProviderErrorView::caused("Failed to create launch template"@, e@)),
                ),
                Some(Ok(None)) => TemplateStepView::Finish(
                    Err(ProviderErrorView::because("Failed to get launch template"@)),
                ),
                Some(Ok(Some(template))) => TemplateStepView::Finish(template_of(template)),
            },
        },
    }
}

/// What to do next for the launch template of a node group.
pub fn create_launch_template(
    node_ami: &str,
    instance_type: &str,
    cluster: &ClusterInfo,
    nodegroup_name: &str,
    lookup: &TemplateLookup,
    answer: &Option<TemplateAnswer>,
) -> (r: TemplateStep)
    ensures
        r@ == template_step(
            node_ami@,
            instance_type@,
            *cluster,
            nodegroup_name@,
            *lookup,
            *answer,
        ),
{
    match lookup {
        TemplateLookup::Failed(e) => TemplateStep::Finish(
            Err(
                ProviderError::new_with_source_and_context(
                    String::from_str("Failed to describe launch templates"),
                    e.clone(),
                ),
            ),
        ),
        TemplateLookup::Found(None) => TemplateStep::Finish(
            Err(
                ProviderError::new_with_context(
                    String::from_str("Failed to describe launch templates"),
                ),
            ),
        ),
        TemplateLookup::Found(Some(templates)) => {
            if templates.len() == 0 {
                return TemplateStep::Finish(
                    Err(
                        ProviderError::new_with_context(
                            String::from_str("Failed to get launch template"),
                        ),
                    ),
                );
            }
            TemplateStep::Finish(read_template(&templates[0]))
        },
        TemplateLookup::Unhandled => {
            let user_data = match userdata(
                cluster.endpoint.as_str(),
                cluster.name.as_str(),
                cluster.certificate.as_str(),
                &cluster.dns_ip_info,
            ) {
                Ok(u) => u,
                Err(e) => return TemplateStep::Finish(Err(e)),
            };
            match answer {
                None => TemplateStep::Create(
                    TemplateRequest {
                        launch_template_name: launch_template_name(nodegroup_name),
                        image_id: String::from_str(node_ami),
                        instance_type: String::from_str(instance_type),
                        user_data,
                        tags: tag_specifications(cluster.name.as_str()),
                    },
                ),
                Some(Err(e)) => TemplateStep::Finish(
                    Err(
                        ProviderError::new_with_source_and_context(
                            String::from_str("Failed to create launch template"),
                            e.clone(),
                        ),
                    ),
                ),
                Some(Ok(None)) => TemplateStep::Finish(
                    Err(
                        ProviderError::new_with_context(
                            String::from_str("Failed to get launch template"),
                        ),
                    ),
                ),
                Some(Ok(Some(template))) => TemplateStep::Finish(read_template(template)),
            }
        },
    }
}

/// The status of a node group.
#[derive(Copy, Clone, Debug, PartialEq, Eq, Structural)]
pub enum NodegroupStatus {
    Active,
    /// Any other status.
    Inactive,
}

/// The status of a node group, or the text of the error of asking for it.
pub type NodegroupAnswer = Result<Option<Option<NodegroupStatus>>, String>;

/// Whether a node group has come to where an action should bring it. One that should be deleted
/// is there once it cannot be described any more.
pub open spec fn conforms(action: Seq<char>, answer: NodegroupAnswer) -> Result<
    bool,
    ProviderErrorView,
> {
    if action == "create"@ {
        match answer {
            Err(e) => Err(ProviderErrorView::caused("Unable to describe nodegroup"@, e@)),
            Ok(None) => Err(ProviderErrorView::because("Unable to extract nodegroup"@)),
            Ok(Some(None)) => Err(
                ProviderErrorView::because("Unable to extract nodegroup status"@),
            ),
            Ok(Some(Some(status))) => Ok(status == NodegroupStatus::Active),
        }
    } else if action == "delete"@ {
        Ok(answer is Err)
    } else {
        Err(ProviderErrorView::because("Invalid action input"@))
    }
}

/// Whether a node group that should be deleted is gone.
pub fn confirm_nodegroup_deleted(answer: &NodegroupAnswer) -> (r: bool)
    ensures
        r == (*answer is Err),
{
    match answer {
        Err(_) => true,
        Ok(_) => false,
    }
}

/// Whether a node group has come to where an action should bring it.
pub fn non_conforming_nodegroup(action: &str, answer: &NodegroupAnswer) -> (r: ProviderResult<bool>)
    ensures
        match r {
            Ok(b) => conforms(action@, *answer) == Ok::<bool, ProviderErrorView>(b),
            Err(e) => conforms(action@, *answer) == Err::<bool, ProviderErrorView>(e@),
        },
{
    if str_eq(action, "create") {
        match answer {
            Err(e) => Err(
                ProviderError::new_with_source_and_context(
                    String::from_str("Unable to describe nodegroup"),
                    e.clone(),
                ),
            ),
            Ok(None) => Err(
                ProviderError::new_with_context(String::from_str("Unable to extract nodegroup")),
            ),
            Ok(Some(None)) => Err(
                ProviderError::new_with_context(
                    String::from_str("Unable to extract nodegroup status"),
                ),
            ),
            Ok(Some(Some(status))) => Ok(*status == NodegroupStatus::Active),
        }
    } else if str_eq(action, "delete") {
        Ok(confirm_nodegroup_deleted(answer))
    } else {
        Err(ProviderError::new_with_context(String::from_str("Invalid action input")))
    }
}

/// What to do after a look at a node group: look again as long as it is not where it should be.
pub fn wait_for_conforming_nodegroup(action: &str, answer: &NodegroupAnswer) -> (r: Wait)
    ensures
        match conforms(action@, *answer) {
            Err(e) => r is Done && r->0 is Err && r->0->Err_0@ == e,
            Ok(true) => r is Done && r->0 is Ok,
            Ok(false) => r == (Wait::LookAgain { millis: POLL_MILLIS }),
        },
{
    match non_conforming_nodegroup(action, answer) {
        Err(e) => Wait::Done(Err(e)),
        Ok(true) => Wait::Done(Ok(())),
        Ok(false) => Wait::LookAgain { millis: POLL_MILLIS },
    }
}

/// A request for a node group.
#[derive(Debug)]
pub struct NodegroupRequest {
    pub launch_template_id: String,
    pub launch_template_version: String,
    pub label: (String, String),
    pub nodegroup_name: String,
    pub cluster_name: String,
    pub subnet: String,
    pub node_role: String,
    pub desired_size: i32,
}

/// The contents of a `NodegroupRequest`.
pub struct NodegroupRequestView {
    pub launch_template_id: Seq<char>,
    pub launch_template_version: Seq<char>,
    pub label: (Seq<char>, Seq<char>),
    pub nodegroup_name: Seq<char>,
    pub cluster_name: Seq<char>,
    pub subnet: Seq<char>,
    pub node_role: Seq<char>,
    pub desired_size: i32,
}

impl View for NodegroupRequest {
    type V = NodegroupRequestView;

    open spec fn view(&self) -> NodegroupRequestView {
        NodegroupRequestView {
            launch_template_id: self.launch_template_id@,
            launch_template_version: self.launch_template_version@,
            label: (self.label.0@, self.label.1@),
            nodegroup_name: self.nodegroup_name@,
            cluster_name: self.cluster_name@,
            subnet: self.subnet@,
            node_role: self.node_role@,
            desired_size: self.desired_size,
        }
    }
}

/// What is known while a node group is created: the answers so far. The role and the launch
/// template are the results of sequences of their own.
#[derive(Debug)]
pub struct NodegroupAnswers {
    pub parameter: Option<ParameterAnswer>,
    pub images: Option<ImagesAnswer>,
    pub node_role: Option<ProviderResult<String>>,
    pub mapped: Option<Result<(), String>>,
    pub template: Option<ProviderResult<CreatedEc2LaunchTemplate>>,
    pub created: Option<Result<(), String>>,
    pub active: Option<WaitAnswer>,
}

/// What to do next while a node group is created.
#[derive(Debug)]
pub enum NodegroupStep {
    GetParameter { name: String },
    DescribeImages { image_id: String },
    /// Make the role and the instance profile of this name, unless the profile is there, and
    /// tell the id of the role.
    PrepareRole { profile_name: String },
    /// Run `eksctl`.
    MapIdentity { args: Vec<String> },
    /// Find or make the launch template of this name.
    PrepareTemplate { template_name: String, node_ami: String, instance_type: String },
    CreateNodegroup(NodegroupRequest),
    /// Wait until the node group is active.
    AwaitActive { timeout_seconds: u64 },
    Finish(ProviderResult<()>),
}

/// The contents of a `NodegroupStep`.
pub enum NodegroupStepView {
    GetParameter { name: Seq<char> },
    DescribeImages { image_id: Seq<char> },
    PrepareRole { profile_name: Seq<char> },
    MapIdentity { args: Seq<Seq<char>> },
    PrepareTemplate { template_name: Seq<char>, node_ami: Seq<char>, instance_type: Seq<char> },
    CreateNodegroup(NodegroupRequestView),
    AwaitActive { timeout_seconds: u64 },
    Finish(Result<(), ProviderErrorView>),
}

impl View for NodegroupStep {
    type V = NodegroupStepView;

    open spec fn view(&self) -> NodegroupStepView {
        match *self {
            NodegroupStep::GetParameter { name } => NodegroupStepView::GetParameter { name: name@ },
            NodegroupStep::DescribeImages { image_id } => NodegroupStepView::DescribeImages {
                image_id: image_id@,
            },
            NodegroupStep::PrepareRole { profile_name } => NodegroupStepView::PrepareRole {
                profile_name: profile_name@,
            },
            NodegroupStep::MapIdentity { args } => NodegroupStepView::MapIdentity {
                args: views(args@),
            },
            NodegroupStep::PrepareTemplate { template_name, node_ami, instance_type } =>
            NodegroupStepView::PrepareTemplate {
                template_name: template_name@,
                node_ami: node_ami@,
                instance_type: instance_type@,
            },
            NodegroupStep::CreateNodegroup(q) => NodegroupStepView::CreateNodegroup(q@),
            NodegroupStep::AwaitActive { timeout_seconds } => NodegroupStepView::AwaitActive {
                timeout_seconds,
            },
            NodegroupStep::Finish(r) => NodegroupStepView::Finish(unit_result(r)),
        }
    }
}

/// What is said where a node group does not become active in time.
pub const ACTIVE_TIMED_OUT: &'static str =
    "Timed-out waiting for nodegroup to reach the `active` state.";

/// The request for the node group of a cluster. Its nodes carry the label that makes the agent
/// run on them.
pub open spec fn nodegroup_request(
    cluster: ClusterInfo,
    nodegroup_name: Seq<char>,
    node_role: Seq<char>,
    template: (Seq<char>, i64),
    subnet: Seq<char>,
) -> NodegroupRequestView {
    NodegroupRequestView {
        launch_template_id: template.0,
        launch_template_version: signed_decimal(template.1 as int),
        label: (LABEL_BRUPOP_INTERFACE_NAME@, BRUPOP_INTERFACE_VERSION@),
        nodegroup_name,
        cluster_name: cluster@.name,
        subnet,
        node_role,
        desired_size: DEFAULT_INSTANCE_COUNT,
    }
}

/// What to do next once the role of the nodes is mapped to the cluster.
pub open spec fn nodegroup_step_from_template(
    cluster: ClusterInfo,
    nodegroup_name: Seq<char>,
    node_ami: Seq<char>,
    kind: Seq<char>,
    node_role: Seq<char>,
    answers: NodegroupAnswers,
) -> NodegroupStepView {
    match answers.template {
        None => NodegroupStepView::PrepareTemplate {
            template_name: template_name(nodegroup_name),
            node_ami,
            instance_type: kind,
        },
        Some(template) => match template_result(template) {
            Err(e) => NodegroupStepView::Finish(Err(e)),
            Ok(found) => match first_subnet(cluster@.private_subnet_ids) {
                Err(e) => NodegroupStepView::Finish(Err(e)),
                Ok(subnet) => match answers.created {
                    None => NodegroupStepView::CreateNodegroup(
                        nodegroup_request(cluster, nodegroup_name, node_role, found, subnet),
                    ),
                    Some(Err(e)) => NodegroupStepView::Finish(
                        Err(ProviderErrorView::caused("Failed to create nodegroup"@, e@)),
                    ),
                    Some(Ok(_)) => match answers.active {
                        None => NodegroupStepView::AwaitActive { timeout_seconds: ACTIVE_TIMEOUT },
                        Some(active) => NodegroupStepView::Finish(
                            waited(active, ACTIVE_TIMED_OUT@),
                        ),
                    },
                },
            },
        },
    }
}

/// What to do next while a node group is created. The image is found first, then its
/// architecture tells the type, then the role of the nodes is made and mapped to the cluster,
/// then the launch template is prepared, and last the group is created and waited for; the first
/// answer that cannot be used ends it.
pub open spec fn nodegroup_step(
    cluster: ClusterInfo,
    nodegroup_name: Seq<char>,
    ami_arch: Seq<char>,
    bottlerocket_version: Seq<char>,
    answers: NodegroupAnswers,
) -> NodegroupStepView {
    match answers.parameter {
        None => NodegroupStepView::GetParameter {
            name: ami_parameter(ami_arch, bottlerocket_version, cluster@.version),
        },
        Some(parameter) => match ami_of(parameter) {
            Err(e) => NodegroupStepView::Finish(Err(e)),
            Ok(ami) => match answers.images {
                None => NodegroupStepView::DescribeImages { image_id: ami },
                Some(images) => match instance_type_of(images) {
                    Err(e) => NodegroupStepView::Finish(Err(e)),
                    Ok(kind) => match answers.node_role {
                        None => NodegroupStepView::PrepareRole {
                            profile_name: profile_name(nodegroup_name),
                        },
                        Some(Err(e)) => NodegroupStepView::Finish(Err(e@)),
                        Some(Ok(role)) => match answers.mapped {
                            None => NodegroupStepView::MapIdentity {
                                args: create_mapping_args(cluster@.name, cluster@.region, role@),
                            },
                            Some(Err(e)) => NodegroupStepView::Finish(
                                Err(ProviderErrorView::caused("Unable to map iam identity."@, e@)),
                            ),
                            Some(Ok(_)) => nodegroup_step_from_template(
                                cluster,
                                nodegroup_name,
                                ami,
                                kind,
                                role@,
                                answers,
                            ),
                        },
                    },
                },
            },
        },
    }
}

/// What to do next once the role of the nodes is mapped to the cluster.
fn continue_from_template(
    cluster: &ClusterInfo,
    nodegroup_name: &str,
    node_ami: String,
    instance_type: String,
    node_role: &String,
    answers: &NodegroupAnswers,
) -> (r: NodegroupStep)
    ensures
        r@ == nodegroup_step_from_template(
            *cluster,
            nodegroup_name@,
            node_ami@,
            instance_type@,
            node_role@,
            *answers,
        ),
{
    let template = match &answers.template {
        None => return NodegroupStep::PrepareTemplate {
            template_name: launch_template_name(nodegroup_name),
            node_ami,
            instance_type,
        },
        Some(Err(e)) => return NodegroupStep::Finish(Err(e.copy())),
        Some(Ok(t)) => t,
    };
    let subnet = match first_subnet_id(cluster.private_subnet_ids.as_slice()) {
        Ok(id) => id,
        Err(e) => return NodegroupStep::Finish(Err(e)),
    };
    match &answers.created {
        None => return NodegroupStep::CreateNodegroup(
            NodegroupRequest {
                launch_template_id: template.launch_template_id.clone(),
                launch_template_version: i64_text(template.latest_version_number),
                label: (
                    String::from_str(LABEL_BRUPOP_INTERFACE_NAME),
                    String::from_str(BRUPOP_INTERFACE_VERSION),
                ),
                nodegroup_name: String::from_str(nodegroup_name),
                cluster_name: cluster.name.clone(),
                subnet,
                node_role: node_role.clone(),
                desired_size: DEFAULT_INSTANCE_COUNT,
            },
        ),
        Some(Err(e)) => return NodegroupStep::Finish(
            Err(
                ProviderError::new_with_source_and_context(
                    String::from_str("Failed to create nodegroup"),
                    e.clone(),
                ),
            ),
        ),
        Some(Ok(_)) => {},
    }
    match &answers.active {
        None => NodegroupStep::AwaitActive { timeout_seconds: ACTIVE_TIMEOUT },
        Some(active) => NodegroupStep::Finish(finish_wait(active, ACTIVE_TIMED_OUT)),
    }
}

/// What to do next while a node group is created.
pub fn create_nodegroup(
    cluster: &ClusterInfo,
    nodegroup_name: &str,
    ami_arch: &str,
    bottlerocket_version: &str,
    answers: &NodegroupAnswers,
) -> (r: NodegroupStep)
    ensures
        r@ == nodegroup_step(
            *cluster,
            nodegroup_name@,
            ami_arch@,
            bottlerocket_version@,
            *answers,
        ),
{
    let node_ami = match &answers.parameter {
        None => return NodegroupStep::GetParameter {
            name: ami_parameter_name(ami_arch, bottlerocket_version, cluster.version.as_str()),
        },
        Some(parameter) => match find_ami_id(parameter) {
            Ok(ami) => ami,
            Err(e) => return NodegroupStep::Finish(Err(e)),
        },
    };
    let instance_type = match &answers.images {
        None => return NodegroupStep::DescribeImages { image_id: node_ami },
        Some(images) => match instance_type(images) {
            Ok(t) => t,
            Err(e) => return NodegroupStep::Finish(Err(e)),
        },
    };
    let node_role = match &answers.node_role {
        None => return NodegroupStep::PrepareRole {
            profile_name: iam_instance_profile_name(nodegroup_name),
        },
        Some(Err(e)) => return NodegroupStep::Finish(Err(e.copy())),
        Some(Ok(role)) => role,
    };
    match &answers.mapped {
        None => NodegroupStep::MapIdentity {
            args: cluster_iam_identity_mapping(
                cluster.name.as_str(),
                cluster.region.as_str(),
                node_role.as_str(),
            ),
        },
        Some(Err(e)) => NodegroupStep::Finish(
            Err(
                ProviderError::new_with_source_and_context(
                    String::from_str("Unable to map iam identity."),
                    e.clone(),
                ),
            ),
        ),
        Some(Ok(_)) => continue_from_template(
            cluster,
            nodegroup_name,
            node_ami,
            instance_type,
            node_role,
            answers,
        ),
    }
}

/// What is known while a node group is terminated: the answers so far. The removal of the role
/// is the result of a sequence of its own.
#[derive(Debug)]
pub struct RemovalAnswers {
    pub deleted: Option<Result<(), String>>,
    pub gone: Option<WaitAnswer>,
    pub role_removed: Option<ProviderResult<()>>,
    pub template_deleted: Option<Result<(), String>>,
}

/// What to do next while a node group is terminated.
#[derive(Debug)]
pub enum RemovalStep {
    DeleteNodegroup,
    /// Wait until the node group is gone.
    AwaitDeleted { timeout_seconds: u64 },
    /// Remove the role and the instance profile of this name.
    RemoveRole { profile_name: String },
    DeleteTemplate { template_name: String },
    Finish(ProviderResult<()>),
}

/// The contents of a `RemovalStep`.
pub enum RemovalStepView {
    DeleteNodegroup,
    AwaitDeleted { timeout_seconds: u64 },
    RemoveRole { profile_name: Seq<char> },
    DeleteTemplate { template_name: Seq<char> },
    Finish(Result<(), ProviderErrorView>),
}

impl View for RemovalStep {
    type V = RemovalStepView;

    open spec fn view(&self) -> RemovalStepView {
        match *self {
            RemovalStep::DeleteNodegroup => RemovalStepView::DeleteNodegroup,
            RemovalStep::AwaitDeleted { timeout_seconds } => RemovalStepView::AwaitDeleted {
                timeout_seconds,
            },
            RemovalStep::RemoveRole { profile_name } => RemovalStepView::RemoveRole {
                profile_name: profile_name@,
            },
            RemovalStep::DeleteTemplate { template_name } => RemovalStepView::DeleteTemplate {
                template_name: template_name@,
            },
            RemovalStep::Finish(r) => RemovalStepView::Finish(unit_result(r)),
        }
    }
}

/// What is said where a node group is not deleted in time.
pub const DELETED_TIMED_OUT: &'static str =
    "Timed-out waiting for instances to be fully deleted";

/// What to do next while a node group is terminated: the group goes first, then its role, then
/// its launch template.
pub open spec fn removal_step(nodegroup_name: Seq<char>, answers: RemovalAnswers) -> RemovalStepView {
    match answers.deleted {
        None => RemovalStepView::DeleteNodegroup,
        Some(Err(e)) => RemovalStepView::Finish(
            Err(ProviderErrorView::caused("Failed to delete nodegroup"@, e@)),
        ),
        Some(Ok(_)) => match answers.gone {
            None => RemovalStepView::AwaitDeleted { timeout_seconds: DELETED_TIMEOUT },
            Some(gone) => match waited(gone, DELETED_TIMED_OUT@) {
                Err(e) => RemovalStepView::Finish(Err(e)),
                Ok(_) => match answers.role_removed {
                    None => RemovalStepView::RemoveRole {
                        profile_name: profile_name(nodegroup_name),
                    },
                    Some(Err(e)) => RemovalStepView::Finish(Err(e@)),
                    Some(Ok(_)) => match answers.template_deleted {
                        None => RemovalStepView::DeleteTemplate {
                            template_name: template_name(nodegroup_name),
                        },
                        Some(Err(e)) => RemovalStepView::Finish(
                            Err(ProviderErrorView::caused("Failed to delete launch template"@, e@)),
                        ),
                        Some(Ok(_)) => RemovalStepView::Finish(Ok(())),
                    },
                },
            },
        },
    }
}

/// What to do next while a node group is terminated.
pub fn terminate_nodegroup(nodegroup_name: &str, answers: &RemovalAnswers) -> (r: RemovalStep)
    ensures
        r@ == removal_step(nodegroup_name@, *answers),
{
    match &answers.deleted {
        None => return RemovalStep::DeleteNodegroup,
        Some(Err(e)) => return RemovalStep::Finish(
            Err(
                ProviderError::new_with_source_and_context(
                    String::from_str("Failed to delete nodegroup"),
                    e.clone(),
                ),
            ),
        ),
        Some(Ok(_)) => {},
    }
    match &answers.gone {
        None => return RemovalStep::AwaitDeleted { timeout_seconds: DELETED_TIMEOUT },
        Some(gone) => match finish_wait(gone, DELETED_TIMED_OUT) {
            Err(e) => return RemovalStep::Finish(Err(e)),
            Ok(_) => {},
        },
    }
    match &answers.role_removed {
        None => return RemovalStep::RemoveRole {
            profile_name: iam_instance_profile_name(nodegroup_name),
        },
        Some(Err(e)) => return RemovalStep::Finish(Err(e.copy())),
        Some(Ok(_)) => {},
    }
    match &answers.template_deleted {
        None => RemovalStep::DeleteTemplate { template_name: launch_template_name(nodegroup_name) },
        Some(Err(e)) => RemovalStep::Finish(
            Err(
                ProviderError::new_with_source_and_context(
                    String::from_str("Failed to delete launch template"),
                    e.clone(),
                ),
            ),
        ),
        Some(Ok(_)) => RemovalStep::Finish(Ok(())),
    }
}

/// What is removed with a node group is what was made for it: the role and the launch template
/// of the same names.
pub proof fn removal_names_what_was_made(
    cluster: ClusterInfo,
    nodegroup_name: Seq<char>,
    ami_arch: Seq<char>,
    bottlerocket_version: Seq<char>,
    made: NodegroupAnswers,
    removed: RemovalAnswers,
)
    ensures
        ({
            let a = nodegroup_step(cluster, nodegroup_name, ami_arch, bottlerocket_version, made);
            let b = removal_step(nodegroup_name, removed);
            &&& a is PrepareRole && b is RemoveRole ==> a->PrepareRole_profile_name
                == b->RemoveRole_profile_name
            &&& a is PrepareTemplate && b is DeleteTemplate ==> a->PrepareTemplate_template_name
                == b->DeleteTemplate_template_name
        }),
{
}

} // verus!
