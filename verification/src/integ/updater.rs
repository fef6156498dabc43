//! The `kubectl` commands that install and remove what an integration test needs on a cluster.

use vstd::prelude::*;
use vstd::string::*;

use crate::models::manifest::views;
use crate::text::{concat2, concat3};

verus! {

pub const KUBECTL_BINARY: &'static str = "kubectl";

pub const PODS_TEMPLATE_PATH: &'static str = "integ/src/pods-template.yaml";

pub const BRUPOP_YAML: &'static str = "yamlgen/deploy/bottlerocket-update-operator.yaml";

pub const CERT_MANAGER_YAML: &'static str =
    "https://github.com/cert-manager/cert-manager/releases/download/v1.8.2/cert-manager.yaml";

/// Whether resources are installed or removed.
#[derive(Copy, Clone, Debug, PartialEq, Eq, Structural)]
pub enum Action {
    Apply,
    Delete,
}

/// Resources that are installed together.
#[derive(Copy, Clone, Debug, PartialEq, Eq, Structural)]
pub enum Resources {
    /// The operator.
    Brupop,
    /// Stateful and stateless pods, and pods with disruption budgets.
    TestPods,
    CertManager,
}

/// Why resources could not be installed or removed. What came from outside is held as its text.
#[derive(Debug)]
pub enum UpdateError {
    RunBrupop { action: Action },
    ProcessPodsTest { action: Action, source: String },
    PodsRun { action: Action },
    ConvertPathToStr,
    FindNodes { source: String },
    ProcessBrupop { source: String },
    ProcessCertManager { source: String },
}

impl Action {
    /// The name of the action.
    pub open spec fn name_text(self) -> Seq<char> {
        match self {
            Action::Apply => "Apply"@,
            Action::Delete => "Delete"@,
        }
    }

    /// The name of the action.
    pub fn name(&self) -> (r: &'static str)
        ensures
            r@ == self.name_text(),
    {
        match self {
            Action::Apply => "Apply",
            Action::Delete => "Delete",
        }
    }

    /// The `kubectl` command of the action.
    pub open spec fn command(self) -> Seq<char> {
        match self {
            Action::Apply => "apply"@,
            Action::Delete => "delete"@,
        }
    }
}

impl Resources {
    /// Where the manifests of the resources are.
    pub open spec fn manifest(self) -> Seq<char> {
        match self {
            Resources::Brupop => BRUPOP_YAML@,
            Resources::TestPods => PODS_TEMPLATE_PATH@,
            Resources::CertManager => CERT_MANAGER_YAML@,
        }
    }
}

impl UpdateError {
    /// The error in words.
    pub open spec fn message(self) -> Seq<char> {
        match self {
            UpdateError::RunBrupop { action } => "Failed to run brupop resources: \""@
                + action.name_text() + "\" brupop"@,
            UpdateError::ProcessPodsTest { action, .. } => "Failed to \""@ + action.name_text()
                + "\" pods"@,
            UpdateError::PodsRun { action } => "Failed to process pods test: \""@
                + action.name_text() + "\" pods"@,
            UpdateError::ConvertPathToStr => "Unable to convert kubeconfig path to string path"@,
            UpdateError::FindNodes { source } => "Fail to list EKS cluster nodes: "@ + source@,
            UpdateError::ProcessBrupop { source } => "Failed to install brupop: "@ + source@,
            UpdateError::ProcessCertManager { source } => "Failed to install cert manager: "@
                + source@,
        }
    }

    /// The error in words.
    pub fn to_text(&self) -> (r: String)
        ensures
            r@ == self.message(),
    {
        match self {
            Self::RunBrupop { action } => concat3(
                "Failed to run brupop resources: \"",
                action.name(),
                "\" brupop",
            ),
            Self::ProcessPodsTest { action, .. } => concat3(
                "Failed to \"",
                action.name(),
                "\" pods",
            ),
            Self::PodsRun { action } => concat3(
                "Failed to process pods test: \"",
                action.name(),
                "\" pods",
            ),
            Self::ConvertPathToStr => String::from_str(
                "Unable to convert kubeconfig path to string path",
            ),
            Self::FindNodes { source } => concat2(
                "Fail to list EKS cluster nodes: ",
                source.as_str(),
            ),
            Self::ProcessBrupop { source } => concat2(
                "Failed to install brupop: ",
                source.as_str(),
            ),
            Self::ProcessCertManager { source } => concat2(
                "Failed to install cert manager: ",
                source.as_str(),
            ),
        }
    }
}

/// The arguments of `kubectl` that install or remove resources.
pub open spec fn kubectl_args(
    action: Action,
    resources: Resources,
    kube_config_path: Seq<char>,
) -> Seq<Seq<char>> {
    seq![action.command(), "-f"@, resources.manifest(), "--kubeconfig"@, kube_config_path]
}

/// The arguments of `kubectl` that install or remove resources.
pub fn process_resources(action: Action, resources: Resources, kube_config_path: &str) -> (r: Vec<
    String,
>)
    ensures
        views(r@) == kubectl_args(action, resources, kube_config_path@),
{
    let mut args: Vec<String> = Vec::new();
    args.push(
        String::from_str(
            match action {
                Action::Apply => "apply",
                Action::Delete => "delete",
            },
        ),
    );
    args.push(String::from_str("-f"));
    args.push(
        String::from_str(
            match resources {
                Resources::Brupop => BRUPOP_YAML,
                Resources::TestPods => PODS_TEMPLATE_PATH,
                Resources::CertManager => CERT_MANAGER_YAML,
            },
        ),
    );
    args.push(String::from_str("--kubeconfig"));
    args.push(String::from_str(kube_config_path));
    assert(views(args@) =~= kubectl_args(action, resources, kube_config_path@));
    args
}

/// install or destroy all brupop resources
pub fn process_brupop_resources(action: Action, kube_config_path: &str) -> (r: Vec<String>)
    ensures
        views(r@) == kubectl_args(action, Resources::Brupop, kube_config_path@),
{
    process_resources(action, Resources::Brupop, kube_config_path)
}

/// create or delete statefulset pods, stateless nginx pods, and pods with PDBs on EKS cluster
pub fn process_pods_test(action: Action, kube_config_path: &str) -> (r: Vec<String>)
    ensures
        views(r@) == kubectl_args(action, Resources::TestPods, kube_config_path@),
{
    process_resources(action, Resources::TestPods, kube_config_path)
}

/// install or destroy cert-manager
pub fn process_cert_manager(action: Action, kube_config_path: &str) -> (r: Vec<String>)
    ensures
        views(r@) == kubectl_args(action, Resources::CertManager, kube_config_path@),
{
    process_resources(action, Resources::CertManager, kube_config_path)
}

/// What a run of `kubectl` came to: an error where it could not be started or did not succeed.
pub fn check_processed(
    action: Action,
    resources: Resources,
    status: Result<bool, String>,
) -> (r: Result<(), UpdateError>)
    ensures
        r is Ok <==> status == Ok::<bool, String>(true),
        match (resources, status) {
            (Resources::TestPods, Ok(false)) => r is Err && r->Err_0 == (UpdateError::PodsRun {
                action,
            }),
            (_, Ok(false)) => r is Err && r->Err_0 == (UpdateError::RunBrupop { action }),
            (_, Ok(true)) => true,
            (Resources::TestPods, Err(source)) => r is Err && r->Err_0
                == (UpdateError::ProcessPodsTest { action, source }),
            (Resources::Brupop, Err(source)) => r is Err && r->Err_0
                == (UpdateError::ProcessBrupop { source }),
            (Resources::CertManager, Err(source)) => r is Err && r->Err_0
                == (UpdateError::ProcessCertManager { source }),
        },
{
    match status {
        Ok(true) => Ok(()),
        Ok(false) => match resources {
            Resources::TestPods => Err(UpdateError::PodsRun { action }),
            _ => Err(UpdateError::RunBrupop { action }),
        },
        Err(source) => match resources {
            Resources::TestPods => Err(UpdateError::ProcessPodsTest { action, source }),
            Resources::Brupop => Err(UpdateError::ProcessBrupop { source }),
            Resources::CertManager => Err(UpdateError::ProcessCertManager { source }),
        },
    }
}

/// Find if any node is running in the cluster
pub fn nodes_exist(nodes: Result<usize, String>) -> (r: Result<bool, UpdateError>)
    ensures
        match nodes {
            Ok(n) => r == Ok::<bool, UpdateError>(n > 0),
            Err(source) => r is Err && r->Err_0 == (UpdateError::FindNodes { source }),
        },
{
    match nodes {
        Ok(n) => Ok(n > 0),
        Err(source) => Err(UpdateError::FindNodes { source }),
    }
}

/// What is removed is what was installed: the two commands differ in the action alone.
pub proof fn removal_names_what_was_installed(resources: Resources, kube_config_path: Seq<char>)
    ensures
        kubectl_args(Action::Delete, resources, kube_config_path) == kubectl_args(
            Action::Apply,
            resources,
            kube_config_path,
        ).update(0, "delete"@),
{
    assert(kubectl_args(Action::Delete, resources, kube_config_path) =~= kubectl_args(
        Action::Apply,
        resources,
        kube_config_path,
    ).update(0, "delete"@));
}

} // verus!
