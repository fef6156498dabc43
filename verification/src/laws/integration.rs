//! The tasks of an integration test: what each command does, and in which order.

use vstd::prelude::*;

use crate::integ::run::{
    args_validation, common_args, get_kube_config_temp_dir_path, invalid_arch, kubeconfig_in,
    kubeconfig_path, path_is_default, plan, process_error, run, task_views, temp_dir_path,
    Arguments, CleanArgs, CommonArgs, Error, IntegrationTestArgs, MonitorArgs, SubCommand, Task,
    TaskView,
};
use crate::integ::updater::{
    check_processed, kubectl_args, nodes_exist, process_resources, Action, Resources, UpdateError,
};
use crate::models::manifest::views;

verus! {

/// The cluster, its region and the path of its file are those that the command gives.
pub proof fn commands_give_the_cluster(
    test: IntegrationTestArgs,
    monitor: MonitorArgs,
    clean: CleanArgs,
)
    ensures
        ({
            let a = common_args((Arguments { subcommand: SubCommand::IntegrationTest(test) }));
            let b = common_args((Arguments { subcommand: SubCommand::Monitor(monitor) }));
            let c = common_args((Arguments { subcommand: SubCommand::Clean(clean) }));
            &&& a.cluster_name@ == test.cluster_name@ && a.region@ == test.region@
                && a.kube_config_path@ == test.kube_config_path@
            &&& b.cluster_name@ == monitor.cluster_name@ && b.region@ == monitor.region@
                && b.kube_config_path@ == monitor.kube_config_path@
            &&& c.cluster_name@ == clean.cluster_name@ && c.region@ == clean.region@
                && c.kube_config_path@ == clean.kube_config_path@
        }),
{
}

/// A test is made on one of two architectures; a test on any other one ends before it begins.
pub proof fn tests_need_an_architecture(
    test: IntegrationTestArgs,
    temp_dir: Option<Seq<char>>,
)
    ensures
        ({
            let arguments = Arguments { subcommand: SubCommand::IntegrationTest(test) };
            let known = test.ami_arch@ == "arm64"@ || test.ami_arch@ == "x86_64"@;
            &&& known <==> invalid_arch(arguments) is None
            &&& !known ==> invalid_arch(arguments) == Some(test.ami_arch@)
            &&& !known ==> plan(arguments, temp_dir) == seq![
                TaskView::FailWithInvalidArch { input: test.ami_arch@ },
            ]
        }),
{
}

/// The architecture is checked for tests alone.
pub proof fn architectures_are_checked(args: &Arguments, r: Result<(), Error>)
    requires
        call_ensures(args_validation, (args,), r),
    ensures
        !(args.subcommand is IntegrationTest) ==> r is Ok,
        args.subcommand is IntegrationTest ==> {
            let arch = args.subcommand->IntegrationTest_0.ami_arch@;
            &&& r is Ok <==> arch == "arm64"@ || arch == "x86_64"@
            &&& r is Err ==> r->Err_0 is InvalidArchInput && r->Err_0->input@ == arch
        },
{
}

/// The file of the cluster is the given one, or, where the default is given, one in a directory for
/// the cluster and the region.
pub proof fn file_of_the_cluster(args: CommonArgs, temp_dir: Seq<char>)
    ensures
        ({
            let dir = temp_dir + "/"@ + (args.cluster_name@ + "-"@ + args.region@);
            &&& path_is_default(args) <==> args.kube_config_path@ == "kubeconfig.yaml"@
            &&& temp_dir_path(args, temp_dir) == dir
            &&& kubeconfig_in(dir) == dir + "/"@ + "kubeconfig.yaml"@
            &&& args.kube_config_path@ != "kubeconfig.yaml"@ ==> kubeconfig_path(
                args,
                Some(temp_dir),
            ) == Some(args.kube_config_path@) && kubeconfig_path(args, None) == Some(
                args.kube_config_path@,
            )
            &&& args.kube_config_path@ == "kubeconfig.yaml"@ ==> kubeconfig_path(
                args,
                Some(temp_dir),
            ) == Some(dir + "/"@ + "kubeconfig.yaml"@) && kubeconfig_path(args, None) is None
        }),
{
}

/// The directory is told where there is one for temporary files.
pub proof fn directory_of_the_cluster(
    args: &CommonArgs,
    temp_dir: &Option<String>,
    r: Result<String, Error>,
)
    requires
        call_ensures(get_kube_config_temp_dir_path, (args, temp_dir), r),
    ensures
        r is Ok <==> *temp_dir is Some,
        r is Ok ==> r->Ok_0@ == temp_dir->0@ + "/"@ + (args.cluster_name@ + "-"@ + args.region@),
        r is Err ==> r->Err_0 is FindTmpDir,
{
}

/// A test with a file of its own learns of the cluster, makes the nodes, installs the pods and the
/// manager of certificates, waits for it for ninety seconds, and installs the operator.
pub proof fn test_installs_the_operator(test: IntegrationTestArgs, temp_dir: Option<Seq<char>>)
    requires
        test.ami_arch@ == "arm64"@ || test.ami_arch@ == "x86_64"@,
        test.kube_config_path@ != "kubeconfig.yaml"@,
    ensures
        plan((Arguments { subcommand: SubCommand::IntegrationTest(test) }), temp_dir) =~= seq![
            TaskView::GetClusterInfo { cluster_name: test.cluster_name@, region: test.region@ },
            TaskView::CreateNodegroup {
                nodegroup_name: test.nodegroup_name@,
                ami_arch: test.ami_arch@,
                bottlerocket_version: test.bottlerocket_version@,
            },
            TaskView::Process {
                action: Action::Apply,
                resources: Resources::TestPods,
                kube_config_path: test.kube_config_path@,
            },
            TaskView::Process {
                action: Action::Apply,
                resources: Resources::CertManager,
                kube_config_path: test.kube_config_path@,
            },
            TaskView::Sleep { seconds: 90 },
            TaskView::Process {
                action: Action::Apply,
                resources: Resources::Brupop,
                kube_config_path: test.kube_config_path@,
            },
        ],
{
}

/// A test with the default file writes it first, into a directory that it makes, and then does the
/// same.
pub proof fn test_writes_the_default_file(test: IntegrationTestArgs, temp_dir: Seq<char>)
    requires
        test.ami_arch@ == "arm64"@ || test.ami_arch@ == "x86_64"@,
        test.kube_config_path@ == "kubeconfig.yaml"@,
    ensures
        ({
            let dir = temp_dir + "/"@ + (test.cluster_name@ + "-"@ + test.region@);
            let path = dir + "/"@ + "kubeconfig.yaml"@;
            plan(
                (Arguments { subcommand: SubCommand::IntegrationTest(test) }),
                Some(temp_dir),
            ) =~= seq![
                TaskView::GetClusterInfo { cluster_name: test.cluster_name@, region: test.region@ },
                TaskView::CreateDir { path: dir },
                TaskView::WriteKubeconfig {
                    cluster_name: test.cluster_name@,
                    region: test.region@,
                    path,
                },
                TaskView::CreateNodegroup {
                    nodegroup_name: test.nodegroup_name@,
                    ami_arch: test.ami_arch@,
                    bottlerocket_version: test.bottlerocket_version@,
                },
                TaskView::Process {
                    action: Action::Apply,
                    resources: Resources::TestPods,
                    kube_config_path: path,
                },
                TaskView::Process {
                    action: Action::Apply,
                    resources: Resources::CertManager,
                    kube_config_path: path,
                },
                TaskView::Sleep { seconds: 90 },
                TaskView::Process {
                    action: Action::Apply,
                    resources: Resources::Brupop,
                    kube_config_path: path,
                },
            ]
        }),
{
}

/// Monitoring learns of the cluster and watches the namespace of the operator, by the given file or
/// the one in the directory, which it makes.
pub proof fn monitoring_watches_the_operator(
    monitor: MonitorArgs,
    temp_dir: Option<Seq<char>>,
    made_in: Seq<char>,
)
    ensures
        ({
            let arguments = Arguments { subcommand: SubCommand::Monitor(monitor) };
            let learn = TaskView::GetClusterInfo {
                cluster_name: monitor.cluster_name@,
                region: monitor.region@,
            };
            let watch = TaskView::Monitor { namespace: "brupop-bottlerocket-aws"@ };
            let dir = made_in + "/"@ + (monitor.cluster_name@ + "-"@ + monitor.region@);
            &&& monitor.kube_config_path@ != "kubeconfig.yaml"@ ==> plan(arguments, temp_dir)
                =~= seq![
                learn,
                TaskView::Connect { kube_config_path: monitor.kube_config_path@ },
                watch,
            ]
            &&& monitor.kube_config_path@ == "kubeconfig.yaml"@ ==> plan(arguments, Some(made_in))
                =~= seq![
                learn,
                TaskView::CreateDir { path: dir },
                TaskView::Connect { kube_config_path: dir + "/"@ + "kubeconfig.yaml"@ },
                watch,
            ]
        }),
{
}

/// Cleaning with a file of its own learns of the cluster, removes the nodes, stops while nodes are
/// left, and then removes the operator, the manager of certificates and the pods.
pub proof fn cleaning_removes_the_operator(clean: CleanArgs, temp_dir: Option<Seq<char>>)
    requires
        clean.kube_config_path@ != "kubeconfig.yaml"@,
    ensures
        plan((Arguments { subcommand: SubCommand::Clean(clean) }), temp_dir) =~= seq![
            TaskView::GetClusterInfo { cluster_name: clean.cluster_name@, region: clean.region@ },
            TaskView::Connect { kube_config_path: clean.kube_config_path@ },
            TaskView::TerminateNodegroup { nodegroup_name: clean.nodegroup_name@ },
            TaskView::StopIfNodesExist,
            TaskView::Process {
                action: Action::Delete,
                resources: Resources::Brupop,
                kube_config_path: clean.kube_config_path@,
            },
            TaskView::Process {
                action: Action::Delete,
                resources: Resources::CertManager,
                kube_config_path: clean.kube_config_path@,
            },
            TaskView::Process {
                action: Action::Delete,
                resources: Resources::TestPods,
                kube_config_path: clean.kube_config_path@,
            },
        ],
{
}

/// Cleaning with the default file does the same by the one in the directory, and removes that
/// directory at the end.
pub proof fn cleaning_removes_the_directory(clean: CleanArgs, temp_dir: Seq<char>)
    requires
        clean.kube_config_path@ == "kubeconfig.yaml"@,
    ensures
        ({
            let dir = temp_dir + "/"@ + (clean.cluster_name@ + "-"@ + clean.region@);
            let path = dir + "/"@ + "kubeconfig.yaml"@;
            plan((Arguments { subcommand: SubCommand::Clean(clean) }), Some(temp_dir)) =~= seq![
                TaskView::GetClusterInfo { cluster_name: clean.cluster_name@, region: clean.region@ },
                TaskView::CreateDir { path: dir },
                TaskView::Connect { kube_config_path: path },
                TaskView::TerminateNodegroup { nodegroup_name: clean.nodegroup_name@ },
                TaskView::StopIfNodesExist,
                TaskView::Process {
                    action: Action::Delete,
                    resources: Resources::Brupop,
                    kube_config_path: path,
                },
                TaskView::Process {
                    action: Action::Delete,
                    resources: Resources::CertManager,
                    kube_config_path: path,
                },
                TaskView::Process {
                    action: Action::Delete,
                    resources: Resources::TestPods,
                    kube_config_path: path,
                },
                TaskView::RemoveDir { path: dir },
            ]
        }),
{
}

/// Without a directory for temporary files a command with the default file fails once it has learned
/// of the cluster.
pub proof fn default_file_needs_a_directory(arguments: Arguments)
    requires
        invalid_arch(arguments) is None,
        common_args(arguments).kube_config_path@ == "kubeconfig.yaml"@,
    ensures
        plan(arguments, None) =~= seq![
            TaskView::GetClusterInfo {
                cluster_name: common_args(arguments).cluster_name@,
                region: common_args(arguments).region@,
            },
            TaskView::FailWithoutTmpDir,
        ],
{
}

/// How resources are installed and removed.
pub proof fn resources_are_processed(action: Action, resources: Resources, path: Seq<char>)
    ensures
        ({
            let args = kubectl_args(action, resources, path);
            &&& args.len() == 5
            &&& action is Apply ==> args[0] == "apply"@ && action.name_text() == "Apply"@
            &&& action is Delete ==> args[0] == "delete"@ && action.name_text() == "Delete"@
            &&& args[1] == "-f"@
            &&& resources is Brupop ==> args[2]
                == "yamlgen/deploy/bottlerocket-update-operator.yaml"@
            &&& resources is TestPods ==> args[2] == "integ/src/pods-template.yaml"@
            &&& resources is CertManager ==> args[2]
                == "https://github.com/cert-manager/cert-manager/releases/download/v1.8.2/cert-manager.yaml"@
            &&& args[3] == "--kubeconfig"@
            &&& args[4] == path
        }),
{
}

/// Resources are processed where the tool succeeds. A tool that fails or cannot be run is told.
pub proof fn processed_resources_are_checked(
    action: Action,
    resources: Resources,
    status: Result<bool, String>,
    r: Result<(), UpdateError>,
)
    requires
        call_ensures(check_processed, (action, resources, status), r),
    ensures
        r is Ok <==> status is Ok && status->Ok_0,
        status is Ok && !status->Ok_0 && resources is TestPods ==> r->Err_0 == (
        UpdateError::PodsRun { action }),
        status is Ok && !status->Ok_0 && !(resources is TestPods) ==> r->Err_0 == (
        UpdateError::RunBrupop { action }),
        status is Err && resources is TestPods ==> r->Err_0 == (UpdateError::ProcessPodsTest {
            action,
            source: status->Err_0,
        }),
        status is Err && resources is Brupop ==> r->Err_0 == (UpdateError::ProcessBrupop {
            source: status->Err_0,
        }),
        status is Err && resources is CertManager ==> r->Err_0 == (
        UpdateError::ProcessCertManager { source: status->Err_0 }),
{
}

/// Nodes are left where any are listed.
pub proof fn nodes_are_left(nodes: Result<usize, String>, r: Result<bool, UpdateError>)
    requires
        call_ensures(nodes_exist, (nodes,), r),
    ensures
        nodes is Ok ==> r is Ok && (r->Ok_0 <==> nodes->Ok_0 >= 1),
        nodes is Err ==> r is Err && r->Err_0 == (UpdateError::FindNodes { source: nodes->Err_0 }),
{
}

/// A failure in installing or removing resources is told with what was to be done.
pub proof fn failed_resources_are_told(
    action: Action,
    resources: Resources,
    source: UpdateError,
    r: Error,
)
    requires
        call_ensures(process_error, (action, resources, source), r),
    ensures
        action is Apply && resources is TestPods ==> r == (Error::CreatePod { source }),
        action is Apply && !(resources is TestPods) ==> r == (Error::RunBrupop { source }),
        action is Delete && resources is TestPods ==> r == (Error::DeletePod { source }),
        action is Delete && !(resources is TestPods) ==> r == (Error::DeleteClusterResources {
            source,
        }),
{
}

/// The tasks of a command are those of its plan, and resources are processed by the calls of it.
pub proof fn commands_perform_their_plan(
    arguments: &Arguments,
    temp_dir: &Option<String>,
    tasks: Vec<Task>,
    action: Action,
    resources: Resources,
    path: &str,
    args: Vec<String>,
)
    requires
        call_ensures(run, (arguments, temp_dir), tasks),
        call_ensures(process_resources, (action, resources, path), args),
    ensures
        *temp_dir is Some ==> task_views(tasks@) == plan(*arguments, Some(temp_dir->0@)),
        *temp_dir is None ==> task_views(tasks@) == plan(*arguments, None),
        views(args@) == kubectl_args(action, resources, path@),
{
}

} // verus!
