//! What the subcommands of the integration test tool do, in which order, and what is said when
//! something fails.

use vstd::prelude::*;
use vstd::string::*;
use vstd::std_specs::convert::FromSpecImpl;

use super::error::ProviderError;
use super::monitor::MonitorError;
use super::updater::{Action, Resources, UpdateError};
use crate::models::constants::NAMESPACE;
use crate::models::meta::text_option;
use crate::text::{concat2, concat3, str_eq};

verus! {

/// The default path for kubeconfig file
pub const DEFAULT_KUBECONFIG_FILE_NAME: &'static str = "kubeconfig.yaml";

/// The default region for the cluster.
pub const DEFAULT_REGION: &'static str = "us-west-2";

pub const CLUSTER_NAME: &'static str = "brupop-integration-test";

/// The default architecture of the image.
pub const AMI_ARCH: &'static str = "x86_64";

/// The default name for the nodegroup
pub const NODEGROUP_NAME: &'static str = "brupop-integ-test-nodegroup";

/// Seconds that cert-manager is given to come up.
pub const WAIT_CERT_MANAGER_COMPLETE: u64 = 90;

/// monitor an ongoing integration test
#[derive(Debug)]
pub struct MonitorArgs {
    /// name of the cluster that tests run in
    pub cluster_name: String,
    /// the region that the cluster is in
    pub region: String,
    /// path to the kubeconfig for this cluster
    pub kube_config_path: String,
}

/// clean up nodegroups after testing
#[derive(Debug)]
pub struct CleanArgs {
    /// name of the cluster that tests run in
    pub cluster_name: String,
    /// the region that the cluster is in
    pub region: String,
    /// the nodegroup to create for the test
    pub nodegroup_name: String,
    /// path to the kubeconfig for this cluster
    pub kube_config_path: String,
}

/// starts integration tests
#[derive(Debug)]
pub struct IntegrationTestArgs {
    /// name of the cluster that tests run in
    pub cluster_name: String,
    /// the region that the cluster is in
    pub region: String,
    /// the nodegroup to create for the test
    pub nodegroup_name: String,
    /// path to the kubeconfig for this cluster
    pub kube_config_path: String,
    /// the version of bottlerocket to test
    pub bottlerocket_version: String,
    /// the architecture of the given AMI
    pub ami_arch: String,
}

/// What the tool is asked to do.
#[derive(Debug)]
pub enum SubCommand {
    IntegrationTest(IntegrationTestArgs),
    Monitor(MonitorArgs),
    Clean(CleanArgs),
}

/// the brupop integration test
#[derive(Debug)]
pub struct Arguments {
    pub subcommand: SubCommand,
}

/// Arguments shared by most subcommands
#[derive(Debug)]
pub struct CommonArgs {
    pub cluster_name: String,
    pub region: String,
    pub kube_config_path: String,
}

impl FromSpecImpl<&MonitorArgs> for CommonArgs {
    open spec fn obeys_from_spec() -> bool {
        true
    }

    open spec fn from_spec(monitor_args: &MonitorArgs) -> CommonArgs {
        CommonArgs {
            cluster_name: monitor_args.cluster_name,
            region: monitor_args.region,
            kube_config_path: monitor_args.kube_config_path,
        }
    }
}

impl From<&MonitorArgs> for CommonArgs {
    fn from(monitor_args: &MonitorArgs) -> (r: Self) {
        CommonArgs {
            cluster_name: monitor_args.cluster_name.clone(),
            region: monitor_args.region.clone(),
            kube_config_path: monitor_args.kube_config_path.clone(),
        }
    }
}

impl FromSpecImpl<&CleanArgs> for CommonArgs {
    open spec fn obeys_from_spec() -> bool {
        true
    }

    open spec fn from_spec(clean_args: &CleanArgs) -> CommonArgs {
        CommonArgs {
            cluster_name: clean_args.cluster_name,
            region: clean_args.region,
            kube_config_path: clean_args.kube_config_path,
        }
    }
}

impl From<&CleanArgs> for CommonArgs {
    fn from(clean_args: &CleanArgs) -> (r: Self) {
        CommonArgs {
            cluster_name: clean_args.cluster_name.clone(),
            region: clean_args.region.clone(),
            kube_config_path: clean_args.kube_config_path.clone(),
        }
    }
}

impl FromSpecImpl<&IntegrationTestArgs> for CommonArgs {
    open spec fn obeys_from_spec() -> bool {
        true
    }

    open spec fn from_spec(integ_args: &IntegrationTestArgs) -> CommonArgs {
        CommonArgs {
            cluster_name: integ_args.cluster_name,
            region: integ_args.region,
            kube_config_path: integ_args.kube_config_path,
        }
    }
}

impl From<&IntegrationTestArgs> for CommonArgs {
    fn from(integ_args: &IntegrationTestArgs) -> (r: Self) {
        CommonArgs {
            cluster_name: integ_args.cluster_name.clone(),
            region: integ_args.region.clone(),
            kube_config_path: integ_args.kube_config_path.clone(),
        }
    }
}

/// The arguments that all subcommands have.
pub open spec fn common_args(arguments: Arguments) -> CommonArgs {
    match arguments.subcommand {
        SubCommand::IntegrationTest(args) => CommonArgs {
            cluster_name: args.cluster_name,
            region: args.region,
            kube_config_path: args.kube_config_path,
        },
        SubCommand::Monitor(args) => CommonArgs {
            cluster_name: args.cluster_name,
            region: args.region,
            kube_config_path: args.kube_config_path,
        },
        SubCommand::Clean(args) => CommonArgs {
            cluster_name: args.cluster_name,
            region: args.region,
            kube_config_path: args.kube_config_path,
        },
    }
}

impl FromSpecImpl<&Arguments> for CommonArgs {
    open spec fn obeys_from_spec() -> bool {
        true
    }

    open spec fn from_spec(arguments: &Arguments) -> CommonArgs {
        common_args(*arguments)
    }
}

impl From<&Arguments> for CommonArgs {
    fn from(arguments: &Arguments) -> (r: Self) {
        match &arguments.subcommand {
            SubCommand::IntegrationTest(args) => CommonArgs::from(args),
            SubCommand::Monitor(args) => CommonArgs::from(args),
            SubCommand::Clean(args) => CommonArgs::from(args),
        }
    }
}

/// Why the tool fails. What came from outside is held as its text.
#[derive(Debug)]
pub enum Error {
    GetClusterInfo { source: ProviderError },
    CreateDir { source: String },
    CreatePod { source: UpdateError },
    DeletePod { source: UpdateError },
    InvalidArchInput { input: String },
    CreateK8sClient { source: String },
    CreateNodeGroup { source: ProviderError },
    LoadKubeConfig { source: String },
    ReadKubeConfig { source: String },
    RunBrupop { source: UpdateError },
    MonitorBrupop { source: MonitorError },
    TerminateNodeGroup { source: ProviderError },
    DeleteClusterResources { source: UpdateError },
    DeleteTmpDir { source: String },
    FindTmpDir,
    WriteKubeconfig { source: ProviderError },
}

impl Error {
    /// The error in words.
    pub open spec fn message(self) -> Seq<char> {
        match self {
            Error::GetClusterInfo { source } => "Failed to get eks cluster info: "@
                + source@.message(),
            Error::CreateDir { source } =>
            "Unable to create directory for storing kubeconfig file: "@ + source@,
            Error::CreatePod { source } => "Failed to create pods on eks cluster: "@
                + source.message(),
            Error::DeletePod { source } => "Failed to delete pods on eks cluster: "@
                + source.message(),
            Error::InvalidArchInput { input } => "Invalid Arch input: "@ + input@,
            Error::CreateK8sClient { source } => "Unable create K8s client from kubeconfig: "@
                + source@,
            Error::CreateNodeGroup { source } => "Failed to create node group: "@
                + source@.message(),
            Error::LoadKubeConfig { source } => "Unable load kubeconfig: "@ + source@,
            Error::ReadKubeConfig { source } => "Unable to read kubeconfig: "@ + source@,
            Error::RunBrupop { source } => "Failed to install brupop on eks cluster: "@
                + source.message(),
            Error::MonitorBrupop { source } => "Failed to monitor brupop on eks cluster: "@
                + source.message(),
            Error::TerminateNodeGroup { source } => "Failed to terminate node group: "@
                + source@.message(),
            Error::DeleteClusterResources { source } =>
            "Failed to delete created eks cluster resources: "@ + source.message(),
            Error::DeleteTmpDir { source } =>
            "Failed to delete tmp directory and kubeconfig.yaml: "@ + source@,
            Error::FindTmpDir => "Unable to find temp directory"@,
            Error::WriteKubeconfig { source } => "Failed to write content to kubeconfig: "@
                + source@.message(),
        }
    }

    /// The error in words.
    pub fn to_text(&self) -> (r: String)
        ensures
            r@ == self.message(),
    {
        match self {
            Self::GetClusterInfo { source } => concat2(
                "Failed to get eks cluster info: ",
                source.to_text().as_str(),
            ),
            Self::CreateDir { source } => concat2(
                "Unable to create directory for storing kubeconfig file: ",
                source.as_str(),
            ),
            Self::CreatePod { source } => concat2(
                "Failed to create pods on eks cluster: ",
                source.to_text().as_str(),
            ),
            Self::DeletePod { source } => concat2(
                "Failed to delete pods on eks cluster: ",
                source.to_text().as_str(),
            ),
            Self::InvalidArchInput { input } => concat2("Invalid Arch input: ", input.as_str()),
            Self::CreateK8sClient { source } => concat2(
                "Unable create K8s client from kubeconfig: ",
                source.as_str(),
            ),
            Self::CreateNodeGroup { source } => concat2(
                "Failed to create node group: ",
                source.to_text().as_str(),
            ),
            Self::LoadKubeConfig { source } => concat2("Unable load kubeconfig: ", source.as_str()),
            Self::ReadKubeConfig { source } => concat2(
                "Unable to read kubeconfig: ",
                source.as_str(),
            ),
            Self::RunBrupop { source } => concat2(
                "Failed to install brupop on eks cluster: ",
                source.to_text().as_str(),
            ),
            Self::MonitorBrupop { source } => concat2(
                "Failed to monitor brupop on eks cluster: ",
                source.to_text().as_str(),
            ),
            Self::TerminateNodeGroup { source } => concat2(
                "Failed to terminate node group: ",
                source.to_text().as_str(),
            ),
            Self::DeleteClusterResources { source } => concat2(
                "Failed to delete created eks cluster resources: ",
                source.to_text().as_str(),
            ),
            Self::DeleteTmpDir { source } => concat2(
                "Failed to delete tmp directory and kubeconfig.yaml: ",
                source.as_str(),
            ),
            Self::FindTmpDir => String::from_str("Unable to find temp directory"),
            Self::WriteKubeconfig { source } => concat2(
                "Failed to write content to kubeconfig: ",
                source.to_text().as_str(),
            ),
        }
    }
}

/// The error of a run that could not install or remove resources.
pub fn process_error(action: Action, resources: Resources, source: UpdateError) -> (r: Error)
    ensures
        r == match (action, resources) {
            (Action::Apply, Resources::TestPods) => Error::CreatePod { source },
            (Action::Apply, _) => Error::RunBrupop { source },
            (Action::Delete, Resources::TestPods) => Error::DeletePod { source },
            (Action::Delete, _) => Error::DeleteClusterResources { source },
        },
{
    match (action, resources) {
        (Action::Apply, Resources::TestPods) => Error::CreatePod { source },
        (Action::Apply, _) => Error::RunBrupop { source },
        (Action::Delete, Resources::TestPods) => Error::DeletePod { source },
        (Action::Delete, _) => Error::DeleteClusterResources { source },
    }
}

/// The architecture of an integration test, where instances cannot be launched for it.
pub open spec fn invalid_arch(arguments: Arguments) -> Option<Seq<char>> {
    match arguments.subcommand {
        SubCommand::IntegrationTest(args) => if args.ami_arch@ == "arm64"@ || args.ami_arch@
            == "x86_64"@ {
            None
        } else {
            Some(args.ami_arch@)
        },
        _ => None,
    }
}

/// Checks the arguments: the architecture of an image must be one of the two that instances can
/// be launched for.
pub fn args_validation(args: &Arguments) -> (r: Result<(), Error>)
    ensures
        match invalid_arch(*args) {
            None => r is Ok,
            Some(arch) => r is Err && r->Err_0 is InvalidArchInput && r->Err_0->input@ == arch,
        },
{
    match &args.subcommand {
        SubCommand::IntegrationTest(a) => {
            if str_eq(a.ami_arch.as_str(), "arm64") || str_eq(a.ami_arch.as_str(), "x86_64") {
                Ok(())
            } else {
                Err(Error::InvalidArchInput { input: a.ami_arch.clone() })
            }
        },
        _ => Ok(()),
    }
}

/// The directory of the kubeconfig file of a cluster, below the directory for temporary files.
pub open spec fn temp_dir_path(args: CommonArgs, temp_dir: Seq<char>) -> Seq<char> {
    temp_dir + "/"@ + (args.cluster_name@ + "-"@ + args.region@)
}

/// The directory of the kubeconfig file of a cluster. `temp_dir` is the directory for temporary
/// files, if its name is text.
pub fn get_kube_config_temp_dir_path(args: &CommonArgs, temp_dir: &Option<String>) -> (r: Result<
    String,
    Error,
>)
    ensures
        match text_option(*temp_dir) {
            Some(dir) => r is Ok && r->Ok_0@ == temp_dir_path(*args, dir),
            None => r is Err && r->Err_0 is FindTmpDir,
        },
{
    match temp_dir {
        None => Err(Error::FindTmpDir),
        Some(dir) => {
            let unique = concat3(args.cluster_name.as_str(), "-", args.region.as_str());
            Ok(concat3(dir.as_str(), "/", unique.as_str()))
        },
    }
}

/// The kubeconfig file in a directory.
pub open spec fn kubeconfig_in(dir: Seq<char>) -> Seq<char> {
    dir + "/"@ + DEFAULT_KUBECONFIG_FILE_NAME@
}

/// The kubeconfig file in a directory.
pub fn kubeconfig_file_path(dir: &str) -> (r: String)
    ensures
        r@ == kubeconfig_in(dir@),
{
    concat3(dir, "/", DEFAULT_KUBECONFIG_FILE_NAME)
}

/// Something that a run of the tool does. A run does one after the other and ends at the first
/// that fails.
#[derive(Debug)]
pub enum Task {
    /// End the run with the error that there are no instances of an architecture.
    FailWithInvalidArch { input: String },
    GetClusterInfo { cluster_name: String, region: String },
    CreateDir { path: String },
    WriteKubeconfig { cluster_name: String, region: String, path: String },
    CreateNodegroup { nodegroup_name: String, ami_arch: String, bottlerocket_version: String },
    /// Install or remove resources with `kubectl`.
    Process { action: Action, resources: Resources, kube_config_path: String },
    Sleep { seconds: u64 },
    /// Make a client from the kubeconfig file.
    Connect { kube_config_path: String },
    Monitor { namespace: String },
    TerminateNodegroup { nodegroup_name: String },
    /// End the run well where the cluster still has nodes.
    StopIfNodesExist,
    RemoveDir { path: String },
    /// End the run with the error that there is no directory for temporary files.
    FailWithoutTmpDir,
}

/// The contents of a `Task`.
pub enum TaskView {
    FailWithInvalidArch { input: Seq<char> },
    GetClusterInfo { cluster_name: Seq<char>, region: Seq<char> },
    CreateDir { path: Seq<char> },
    WriteKubeconfig { cluster_name: Seq<char>, region: Seq<char>, path: Seq<char> },
    CreateNodegroup {
        nodegroup_name: Seq<char>,
        ami_arch: Seq<char>,
        bottlerocket_version: Seq<char>,
    },
    Process { action: Action, resources: Resources, kube_config_path: Seq<char> },
    Sleep { seconds: u64 },
    Connect { kube_config_path: Seq<char> },
    Monitor { namespace: Seq<char> },
    TerminateNodegroup { nodegroup_name: Seq<char> },
    StopIfNodesExist,
    RemoveDir { path: Seq<char> },
    FailWithoutTmpDir,
}

impl View for Task {
    type V = TaskView;

    open spec fn view(&self) -> TaskView {
        match *self {
            Task::FailWithInvalidArch { input } => TaskView::FailWithInvalidArch {
                input: input@,
            },
            Task::GetClusterInfo { cluster_name, region } => TaskView::GetClusterInfo {
                cluster_name: cluster_name@,
                region: region@,
            },
            Task::CreateDir { path } => TaskView::CreateDir { path: path@ },
            Task::WriteKubeconfig { cluster_name, region, path } => TaskView::WriteKubeconfig {
                cluster_name: cluster_name@,
                region: region@,
                path: path@,
            },
            Task::CreateNodegroup { nodegroup_name, ami_arch, bottlerocket_version } =>
            TaskView::CreateNodegroup {
                nodegroup_name: nodegroup_name@,
                ami_arch: ami_arch@,
                bottlerocket_version: bottlerocket_version@,
            },
            Task::Process { action, resources, kube_config_path } => TaskView::Process {
                action,
                resources,
                kube_config_path: kube_config_path@,
            },
            Task::Sleep { seconds } => TaskView::Sleep { seconds },
            Task::Connect { kube_config_path } => TaskView::Connect {
                kube_config_path: kube_config_path@,
            },
            Task::Monitor { namespace } => TaskView::Monitor { namespace: namespace@ },
            Task::TerminateNodegroup { nodegroup_name } => TaskView::TerminateNodegroup {
                nodegroup_name: nodegroup_name@,
            },
            Task::StopIfNodesExist => TaskView::StopIfNodesExist,
            Task::RemoveDir { path } => TaskView::RemoveDir { path: path@ },
            Task::FailWithoutTmpDir => TaskView::FailWithoutTmpDir,
        }
    }
}

/// A list of tasks as their contents.
pub open spec fn task_views(v: Seq<Task>) -> Seq<TaskView> {
    v.map_values(|t: Task| t@)
}

/// Whether the path of the kubeconfig file was left to the tool.
pub open spec fn path_is_default(args: CommonArgs) -> bool {
    args.kube_config_path@ == DEFAULT_KUBECONFIG_FILE_NAME@
}

/// The path of the kubeconfig file: the one that was given, else one below the directory for
/// temporary files.
pub open spec fn kubeconfig_path(args: CommonArgs, temp_dir: Option<Seq<char>>) -> Option<
    Seq<char>,
> {
    if !path_is_default(args) {
        Some(args.kube_config_path@)
    } else {
        match temp_dir {
            Some(dir) => Some(kubeconfig_in(temp_dir_path(args, dir))),
            None => None,
        }
    }
}

/// The tasks that make the directory of the kubeconfig file where the path was left to the tool,
/// and write the file where that is asked for.
pub open spec fn kubeconfig_tasks(
    args: CommonArgs,
    temp_dir: Option<Seq<char>>,
    write: bool,
) -> Seq<TaskView> {
    if !path_is_default(args) {
        seq![]
    } else {
        match temp_dir {
            None => seq![TaskView::FailWithoutTmpDir],
            Some(dir) => {
                let make = TaskView::CreateDir { path: temp_dir_path(args, dir) };
                if write {
                    seq![
                        make,
                        TaskView::WriteKubeconfig {
                            cluster_name: args.cluster_name@,
                            region: args.region@,
                            path: kubeconfig_in(temp_dir_path(args, dir)),
                        },
                    ]
                } else {
                    seq![make]
                }
            },
        }
    }
}

/// The task that installs or removes resources.
pub open spec fn process(action: Action, resources: Resources, path: Seq<char>) -> TaskView {
    TaskView::Process { action, resources, kube_config_path: path }
}

/// The tasks of an integration test once there is a kubeconfig file.
pub open spec fn test_tasks(args: IntegrationTestArgs, path: Seq<char>) -> Seq<TaskView> {
    seq![
        TaskView::CreateNodegroup {
            nodegroup_name: args.nodegroup_name@,
            ami_arch: args.ami_arch@,
            bottlerocket_version: args.bottlerocket_version@,
        },
        process(Action::Apply, Resources::TestPods, path),
        process(Action::Apply, Resources::CertManager, path),
        TaskView::Sleep { seconds: WAIT_CERT_MANAGER_COMPLETE },
        process(Action::Apply, Resources::Brupop, path),
    ]
}

/// The tasks of a monitor once there is a kubeconfig file.
pub open spec fn monitor_tasks(path: Seq<char>) -> Seq<TaskView> {
    seq![
        TaskView::Connect { kube_config_path: path },
        TaskView::Monitor { namespace: NAMESPACE@ },
    ]
}

/// The tasks of cleaning up once the path of the kubeconfig file is known. Resources are only
/// removed from a cluster without nodes, and the directory of the kubeconfig file only where the
/// tool made it.
pub open spec fn clean_tasks(
    args: CleanArgs,
    common: CommonArgs,
    temp_dir: Option<Seq<char>>,
    path: Seq<char>,
) -> Seq<TaskView> {
    seq![
        TaskView::Connect { kube_config_path: path },
        TaskView::TerminateNodegroup { nodegroup_name: args.nodegroup_name@ },
        TaskView::StopIfNodesExist,
        process(Action::Delete, Resources::Brupop, path),
        process(Action::Delete, Resources::CertManager, path),
        process(Action::Delete, Resources::TestPods, path),
    ] + (if path_is_default(common) && temp_dir is Some {
        seq![TaskView::RemoveDir { path: temp_dir_path(common, temp_dir->0) }]
    } else {
        seq![]
    })
}

/// What a run of the tool does. Where the arguments are not valid it fails before anything else.
pub open spec fn plan(arguments: Arguments, temp_dir: Option<Seq<char>>) -> Seq<TaskView> {
    match invalid_arch(arguments) {
        Some(input) => seq![TaskView::FailWithInvalidArch { input }],
        None => valid_plan(arguments, temp_dir),
    }
}

/// What a run of the tool does where its arguments are valid.
pub open spec fn valid_plan(arguments: Arguments, temp_dir: Option<Seq<char>>) -> Seq<TaskView> {
    let common = common_args(arguments);
    let first = seq![
        TaskView::GetClusterInfo { cluster_name: common.cluster_name@, region: common.region@ },
    ];
    let write = arguments.subcommand is IntegrationTest;
    let prepare = kubeconfig_tasks(common, temp_dir, write);
    match kubeconfig_path(common, temp_dir) {
        None => first + prepare,
        Some(path) => first + prepare + match arguments.subcommand {
            SubCommand::IntegrationTest(args) => test_tasks(args, path),
            SubCommand::Monitor(_) => monitor_tasks(path),
            SubCommand::Clean(args) => clean_tasks(args, common, temp_dir, path),
        },
    }
}

/// A task that installs or removes resources.
fn new_process(action: Action, resources: Resources, path: &String) -> (r: Task)
    ensures
        r@ == process(action, resources, path@),
{
    Task::Process { action, resources, kube_config_path: path.clone() }
}

/// The tasks of an integration test once there is a kubeconfig file.
fn new_test_tasks(args: &IntegrationTestArgs, path: &String) -> (r: Vec<Task>)
    ensures
        task_views(r@) == test_tasks(*args, path@),
{
    let mut tasks: Vec<Task> = Vec::new();
    tasks.push(
        Task::CreateNodegroup {
            nodegroup_name: args.nodegroup_name.clone(),
            ami_arch: args.ami_arch.clone(),
            bottlerocket_version: args.bottlerocket_version.clone(),
        },
    );
    tasks.push(new_process(Action::Apply, Resources::TestPods, path));
    tasks.push(new_process(Action::Apply, Resources::CertManager, path));
    tasks.push(Task::Sleep { seconds: WAIT_CERT_MANAGER_COMPLETE });
    tasks.push(new_process(Action::Apply, Resources::Brupop, path));
    assert(task_views(tasks@) =~= test_tasks(*args, path@));
    tasks
}

/// The tasks of a monitor once there is a kubeconfig file.
fn new_monitor_tasks(path: &String) -> (r: Vec<Task>)
    ensures
        task_views(r@) == monitor_tasks(path@),
{
    let mut tasks: Vec<Task> = Vec::new();
    tasks.push(Task::Connect { kube_config_path: path.clone() });
    tasks.push(Task::Monitor { namespace: String::from_str(NAMESPACE) });
    assert(task_views(tasks@) =~= monitor_tasks(path@));
    tasks
}

/// The tasks of cleaning up once the path of the kubeconfig file is known. `made` is the
/// directory that the tool made for it, if it did.
fn new_clean_tasks(args: &CleanArgs, path: &String, made: Option<String>) -> (r: Vec<Task>)
    ensures
        task_views(r@) == seq![
            TaskView::Connect { kube_config_path: path@ },
            TaskView::TerminateNodegroup { nodegroup_name: args.nodegroup_name@ },
            TaskView::StopIfNodesExist,
            process(Action::Delete, Resources::Brupop, path@),
            process(Action::Delete, Resources::CertManager, path@),
            process(Action::Delete, Resources::TestPods, path@),
        ] + match text_option(made) {
            Some(dir) => seq![TaskView::RemoveDir { path: dir }],
            None => seq![],
        },
{
    let mut tasks: Vec<Task> = Vec::new();
    tasks.push(Task::Connect { kube_config_path: path.clone() });
    tasks.push(Task::TerminateNodegroup { nodegroup_name: args.nodegroup_name.clone() });
    tasks.push(Task::StopIfNodesExist);
    tasks.push(new_process(Action::Delete, Resources::Brupop, path));
    tasks.push(new_process(Action::Delete, Resources::CertManager, path));
    tasks.push(new_process(Action::Delete, Resources::TestPods, path));
    let ghost head = seq![
        TaskView::Connect { kube_config_path: path@ },
        TaskView::TerminateNodegroup { nodegroup_name: args.nodegroup_name@ },
        TaskView::StopIfNodesExist,
        process(Action::Delete, Resources::Brupop, path@),
        process(Action::Delete, Resources::CertManager, path@),
        process(Action::Delete, Resources::TestPods, path@),
    ];
    assert(task_views(tasks@) =~= head);
    match made {
        Some(dir) => {
            let ghost was = tasks@;
            let ghost last = TaskView::RemoveDir { path: dir@ };
            tasks.push(Task::RemoveDir { path: dir });
            assert(task_views(tasks@) =~= task_views(was) + seq![last]);
        },
        None => {
            assert(task_views(tasks@) =~= head + seq![]);
        },
    }
    tasks
}

/// What a run of the tool does, one after the other. `temp_dir` is the directory for temporary
/// files, if its name is text.
pub fn run(arguments: &Arguments, temp_dir: &Option<String>) -> (r: Vec<Task>)
    ensures
        task_views(r@) == plan(*arguments, text_option(*temp_dir)),
{
    let mut tasks: Vec<Task> = Vec::new();
    if let Err(Error::InvalidArchInput { input }) = args_validation(arguments) {
        tasks.push(Task::FailWithInvalidArch { input });
        assert(task_views(tasks@) =~= plan(*arguments, text_option(*temp_dir)));
        return tasks;
    }
    let args = CommonArgs::from(arguments);
    let ghost temp = text_option(*temp_dir);
    tasks.push(
        Task::GetClusterInfo {
            cluster_name: args.cluster_name.clone(),
            region: args.region.clone(),
        },
    );
    let ghost first = seq![
        TaskView::GetClusterInfo { cluster_name: args.cluster_name@, region: args.region@ },
    ];
    assert(task_views(tasks@) =~= first);
    let write = match &arguments.subcommand {
        SubCommand::IntegrationTest(_) => true,
        _ => false,
    };
    let ghost prepare = kubeconfig_tasks(args, temp, write);
    let mut made: Option<String> = None;
    let path: String;
    if str_eq(args.kube_config_path.as_str(), DEFAULT_KUBECONFIG_FILE_NAME) {
        let dir = match get_kube_config_temp_dir_path(&args, temp_dir) {
            Ok(dir) => dir,
            Err(_) => {
                tasks.push(Task::FailWithoutTmpDir);
                assert(task_views(tasks@) =~= first + prepare);
                return tasks;
            },
        };
        path = kubeconfig_file_path(dir.as_str());
        tasks.push(Task::CreateDir { path: dir.clone() });
        if write {
            tasks.push(
                Task::WriteKubeconfig {
                    cluster_name: args.cluster_name.clone(),
                    region: args.region.clone(),
                    path: path.clone(),
                },
            );
        }
        made = Some(dir);
        assert(task_views(tasks@) =~= first + prepare);
    } else {
        path = args.kube_config_path.clone();
        assert(task_views(tasks@) =~= first + prepare);
    }
    let ghost was = tasks@;
    let mut rest = match &arguments.subcommand {
        SubCommand::IntegrationTest(a) => new_test_tasks(a, &path),
        SubCommand::Monitor(_) => new_monitor_tasks(&path),
        SubCommand::Clean(a) => new_clean_tasks(a, &path, made),
    };
    let ghost more = rest@;
    tasks.append(&mut rest);
    assert(task_views(was + more) =~= task_views(was) + task_views(more));
    tasks
}

/// Cleaning up undoes an integration test on the same cluster with the same kubeconfig file and
/// node group: for everything that the test installs, the plan of cleaning up removes it with
/// the same file, and it terminates the node group that the test created.
pub proof fn cleaning_undoes_the_test(
    test: IntegrationTestArgs,
    clean: CleanArgs,
    temp_dir: Option<Seq<char>>,
    resources: Resources,
    path: Seq<char>,
)
    requires
        test.cluster_name@ == clean.cluster_name@,
        test.region@ == clean.region@,
        test.kube_config_path@ == clean.kube_config_path@,
        test.nodegroup_name@ == clean.nodegroup_name@,
        plan(
            (Arguments { subcommand: SubCommand::IntegrationTest(test) }),
            temp_dir,
        ).contains(process(Action::Apply, resources, path)),
    ensures
        plan((Arguments { subcommand: SubCommand::Clean(clean) }), temp_dir).contains(
            process(Action::Delete, resources, path),
        ),
        plan((Arguments { subcommand: SubCommand::Clean(clean) }), temp_dir).contains(
            TaskView::TerminateNodegroup { nodegroup_name: test.nodegroup_name@ },
        ),
{
    let installing = Arguments { subcommand: SubCommand::IntegrationTest(test) };
    let cleaning = Arguments { subcommand: SubCommand::Clean(clean) };
    let common = common_args(cleaning);
    let p = plan(installing, temp_dir);
    let i = choose|i: int| 0 <= i < p.len() && p[i] == process(Action::Apply, resources, path);
    assert(p[i] == process(Action::Apply, resources, path));
    assert(invalid_arch(installing) is None);
    assert(kubeconfig_path(common_args(installing), temp_dir) is Some);
    let found = kubeconfig_path(common_args(installing), temp_dir)->0;
    assert(kubeconfig_path(common, temp_dir) == Some(found));
    let n: int = 1 + kubeconfig_tasks(common_args(installing), temp_dir, true).len() as int;
    assert(p[i] == test_tasks(test, found)[i - n]);
    assert(path == found);
    let q = plan(cleaning, temp_dir);
    let m: int = 1 + kubeconfig_tasks(common, temp_dir, false).len() as int;
    let tail = clean_tasks(clean, common, temp_dir, found);
    assert forall|k: int| 0 <= k < tail.len() implies #[trigger] tail[k] == q[m + k] by {}
    assert(tail[1] == TaskView::TerminateNodegroup { nodegroup_name: test.nodegroup_name@ });
    assert(q[m + 1] == tail[1]);
    assert(tail[3] == process(Action::Delete, Resources::Brupop, path));
    assert(tail[4] == process(Action::Delete, Resources::CertManager, path));
    assert(tail[5] == process(Action::Delete, Resources::TestPods, path));
    assert(q[m + 3] == tail[3]);
    assert(q[m + 4] == tail[4]);
    assert(q[m + 5] == tail[5]);
}

/// Nothing is removed from a cluster before it is known that it has no nodes left.
pub proof fn nothing_is_removed_under_nodes(
    args: CleanArgs,
    common: CommonArgs,
    temp_dir: Option<Seq<char>>,
    path: Seq<char>,
    i: int,
)
    requires
        0 <= i < clean_tasks(args, common, temp_dir, path).len(),
        ({
            let task = clean_tasks(args, common, temp_dir, path)[i];
            task is Process || task is RemoveDir
        }),
    ensures
        exists|j: int|
            0 <= j < i && clean_tasks(args, common, temp_dir, path)[j]
                == TaskView::StopIfNodesExist,
{
    assert(clean_tasks(args, common, temp_dir, path)[2] == TaskView::StopIfNodesExist);
}

} // verus!
