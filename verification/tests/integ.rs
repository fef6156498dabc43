use brupop::integ::cluster_info::{get_cluster_info, Answer, ClusterInfo, Request};
use brupop::integ::ec2_provider::{
    create_ec2_instance, created_instances, find_ami_id, first_subnet_id, get_instances_by_tag,
    instance_type, non_conforming_instances, settings, tag_specifications, terminate_ec2_instance,
    userdata, wait_for_conforming_instances, ArchitectureValues, CreationAnswers, CreationStep,
    DesiredInstanceState, Instance, TerminationAnswers, TerminationStep, Wait,
};
use brupop::integ::eks_provider::{
    certificate, check_kubeconfig_written, cluster_iam_identity_mapping, dns_ip, eks_subnet_ids,
    eks_version, endpoint, instance_profile, mapped_role, present_ids, security_group, subnet_ids,
    transform_dns_ip, write_kubeconfig, Cluster, InstanceProfile, IpFamily,
    KubernetesNetworkConfig, SecurityGroupType, SubnetType, IPV4_DIVIDER, IPV4_OCTET,
    IPV6_DIVIDER, IPV6_HEXTET,
};
use brupop::integ::error::{IntoProviderError, ProviderError};
use brupop::integ::monitor::{
    estimate_expire_time, is_pod_running, BrupopMonitor, Monitor, MonitorError, MonitorStep, Pod,
    PodStatus, NUM_RETRIES,
};
use brupop::integ::nodegroup_provider::{
    self, create_iam_instance_profile, create_launch_template, create_nodegroup,
    delete_iam_instance_profile, iam_failure, instance_profile_arn, instance_profile_exists,
    launch_template_exists, non_conforming_nodegroup, terminate_nodegroup,
    wait_for_conforming_nodegroup, CreatedEc2LaunchTemplate, IamCall, LaunchTemplate,
    NodegroupAnswers, NodegroupStatus, NodegroupStep, ProfileLookup, RemovalAnswers, RemovalStep,
    TemplateLookup, TemplateStep,
};
use brupop::integ::run::{
    args_validation, get_kube_config_temp_dir_path, process_error, run, Arguments, CleanArgs,
    CommonArgs, Error, IntegrationTestArgs, MonitorArgs, SubCommand, Task,
};
use brupop::integ::updater::{
    check_processed, nodes_exist, process_brupop_resources, process_cert_manager,
    process_pods_test, Action, Resources, UpdateError,
};
use brupop::models::meta::ObjectMeta;
use brupop::models::node::crd::{
    BottlerocketShadow, BottlerocketShadowSpec, BottlerocketShadowState, BottlerocketShadowStatus,
};
use brupop::time::Timestamp;
use brupop::version::Version;

fn s(text: &str) -> String {
    text.to_string()
}

#[test]
fn test_transform_dns_ip_ipv4() {
    let mut ipv4_test_cases = vec![
        ("10.100.10.10/16".to_string(), "10.100.10.10"),
        ("10.100.10.0/16".to_string(), "10.100.10.10"),
        ("7815.1546.784.8/16".to_string(), "7815.1546.784.10"),
    ];

    for (ipv4_cidr, expected_ipv4) in ipv4_test_cases.drain(..) {
        let ipv4 = transform_dns_ip(ipv4_cidr, IPV4_DIVIDER, IPV4_OCTET);
        assert_eq!(ipv4, expected_ipv4);
    }
}

#[test]
fn test_transform_dns_ip_ipv6() {
    let mut ipv6_test_cases = vec![
        ("fd6c:fc5c:05ed::/108".to_string(), "fd6c:fc5c:05ed::a"),
        ("xxxx:xxxx:xxxx::/xxx".to_string(), "xxxx:xxxx:xxxx::a"),
        (
            "d43f3:f34fe1546:4fs4::/16".to_string(),
            "d43f3:f34fe1546:4fs4::a",
        ),
    ];

    for (ipv6_cidr, expected_ipv6) in ipv6_test_cases.drain(..) {
        let ipv6 = transform_dns_ip(ipv6_cidr, IPV6_DIVIDER, IPV6_HEXTET);
        assert_eq!(ipv6, expected_ipv6);
    }
}

#[test]
fn last_parts_are_replaced_for_any_divider() {
    let texts = ["", "a", "a.b", ".", "aaa", "aXbXc", "x--y--", "\u{f6}.\u{fc}"];
    for text in texts {
        for divider in ["", ".", "aa", "X", "--", "\u{f6}"] {
            let mut parts: Vec<&str> = text.split(divider).collect();
            let last = parts.len() - 1;
            parts[last] = "N";
            assert_eq!(
                transform_dns_ip(s(text), divider, "N"),
                parts.join(divider),
                "{:?} {:?}",
                text,
                divider
            );
        }
    }
}

fn cluster() -> Cluster {
    Cluster {
        version: Some(s("1.28")),
        endpoint: Some(s("https://endpoint")),
        certificate_authority: Some(Some(s("cert"))),
        resources_vpc_config: Some(Some(vec![s("subnet-1"), s("subnet-2")])),
        kubernetes_network_config: Some(KubernetesNetworkConfig {
            ip_family: Some(IpFamily::Ipv4),
            service_ipv4_cidr: Some(s("10.100.0.0/16")),
            service_ipv6_cidr: None,
        }),
    }
}

fn error_of<T: std::fmt::Debug>(r: Result<T, ProviderError>) -> String {
    r.unwrap_err().to_text()
}

#[test]
fn cluster_descriptions_are_read() {
    let answer = Ok(Some(cluster()));
    assert_eq!(eks_version(&answer).unwrap(), "1.28");
    assert_eq!(endpoint(&answer).unwrap(), "https://endpoint");
    assert_eq!(certificate(&answer).unwrap(), "cert");
    assert_eq!(eks_subnet_ids(&answer).unwrap(), ["subnet-1", "subnet-2"]);
    assert_eq!(
        dns_ip(&answer).unwrap(),
        (IpFamily::Ipv4, Some(s("10.100.0.10")))
    );

    let failed = Err(s("denied"));
    assert_eq!(
        error_of(eks_version(&failed)),
        ", Unable to get eks describe cluster: denied"
    );
    let missing = Ok(None);
    assert_eq!(error_of(eks_version(&missing)), ", Response missing cluster field");
    assert_eq!(error_of(endpoint(&missing)), ", Results missing cluster field");
    assert_eq!(
        error_of(dns_ip(&missing)),
        ", Cluster missing kubernetes_network_config field"
    );
    let mut c = cluster();
    c.version = None;
    c.endpoint = None;
    c.certificate_authority = Some(None);
    c.resources_vpc_config = Some(None);
    c.kubernetes_network_config.as_mut().unwrap().ip_family = Some(IpFamily::Unknown);
    let empty = Ok(Some(c));
    assert_eq!(error_of(eks_version(&empty)), ", Cluster missing version field");
    assert_eq!(error_of(endpoint(&empty)), ", Cluster missing endpoint field");
    assert_eq!(
        error_of(certificate(&empty)),
        ", Certificate authority missing data"
    );
    assert_eq!(
        error_of(eks_subnet_ids(&empty)),
        ", resources_vpc_config missing subnet ids"
    );
    assert_eq!(error_of(dns_ip(&empty)), ", Invalid dns ip");
    let mut c = cluster();
    c.kubernetes_network_config = Some(KubernetesNetworkConfig {
        ip_family: Some(IpFamily::Ipv6),
        service_ipv4_cidr: None,
        service_ipv6_cidr: Some(s("fd00::/108")),
    });
    assert_eq!(
        dns_ip(&Ok(Some(c))).unwrap(),
        (IpFamily::Ipv6, Some(s("fd00::a")))
    );
}

#[test]
fn tags_and_ids() {
    assert_eq!(SubnetType::Public.tag("c"), "eksctl-c-cluster*Public*");
    assert_eq!(SubnetType::Private.tag("c"), "eksctl-c-cluster*Private*");
    assert_eq!(SecurityGroupType::NodeGroup.tag("c"), "*c*nodegroup*");
    assert_eq!(
        SecurityGroupType::ClusterShared.tag("c"),
        "*c*ClusterSharedNodeSecurityGroup*"
    );
    assert_eq!(
        SecurityGroupType::ControlPlane.tag("c"),
        "*c*ControlPlaneSecurityGroup*"
    );
    assert_eq!(present_ids(&vec![Some(s("a")), None, Some(s("b"))]), ["a", "b"]);
    assert_eq!(subnet_ids(&Ok(Some(vec![Some(s("a"))]))).unwrap(), ["a"]);
    assert_eq!(error_of(subnet_ids(&Ok(None))), ", Results missing subnets field");
    assert_eq!(
        error_of(security_group(&Err(s("x")), SecurityGroupType::ControlPlane)),
        ", Unable to get ControlPlane security group: x"
    );
    let profiles = || {
        vec![
            InstanceProfile { arn: Some(s("p1")), roles: None },
            InstanceProfile { arn: Some(s("p2")), roles: Some(vec![None, Some(s("r2"))]) },
            InstanceProfile { arn: None, roles: Some(vec![Some(s("r3"))]) },
        ]
    };
    assert_eq!(instance_profile(&Ok(Some(profiles())), "r2").unwrap(), "p2");
    assert_eq!(
        error_of(instance_profile(&Ok(Some(profiles())), "r3")),
        ", Node instance profile missing arn field"
    );
    assert_eq!(
        error_of(instance_profile(&Ok(Some(profiles())), "r4")),
        ", Node instance profile not found"
    );
    assert_eq!(
        error_of(instance_profile(&Ok(None), "r4")),
        ", No instance profiles found"
    );
}

#[test]
fn identity_mappings_are_read() {
    let read = |text: &str| cluster_iam_identity_mapping(&Ok(s(text)));
    assert_eq!(
        read(r#"[{"rolearn": "arn:1"}, {"rolearn": "arn:2"}]"#).unwrap(),
        "arn:1"
    );
    assert_eq!(error_of(read("[]")), ", No profiles found.");
    assert_eq!(error_of(read("[{}]")), ", Profile does not contain rolearn.");
    assert_eq!(error_of(read(r#"[{"rolearn": 1}]"#)), ", Rolearn is not a string.");
    assert!(error_of(read("nonsense"))
        .starts_with(", Unable to deserialize iam identity mapping: "));
    assert_eq!(
        error_of(cluster_iam_identity_mapping(&Err(s("x")))),
        ", Unable to get iam identity mapping.: x"
    );
    assert_eq!(mapped_role(Ok(Some(Some(Some(s("a")))))).unwrap(), "a");
}

#[test]
fn kubeconfig_is_written_by_eksctl() {
    assert_eq!(
        write_kubeconfig("c", "us-west-2", "/tmp/k"),
        [
            "utils",
            "write-kubeconfig",
            "-r",
            "us-west-2",
            "--cluster=c",
            "--kubeconfig=/tmp/k"
        ]
    );
    assert!(check_kubeconfig_written(Ok((true, s("0")))).is_ok());
    assert_eq!(
        error_of(check_kubeconfig_written(Ok((false, s("exit status: 1"))))),
        ", Failed write kubeconfig with status code exit status: 1"
    );
    assert_eq!(
        error_of(check_kubeconfig_written(Err(s("gone")))),
        ", Unable to generate and write kubeconfig: gone"
    );
}

fn gather() -> ClusterInfo {
    let mut gathering = get_cluster_info("c", "r");
    let mut requests = 0;
    while let Some(request) = gathering.next_request() {
        let answer = match request {
            Request::DescribeCluster => Answer::Cluster(Ok(Some(cluster()))),
            Request::DescribeSubnets { subnet_ids, tag } => {
                assert_eq!(subnet_ids, ["subnet-1", "subnet-2"]);
                Answer::Ids(Ok(Some(vec![Some(tag)])))
            }
            Request::DescribeSecurityGroups { tag } => Answer::Ids(Ok(Some(vec![Some(tag)]))),
            Request::IdentityMapping { args } => {
                assert_eq!(
                    args,
                    [
                        "get",
                        "iamidentitymapping",
                        "--cluster",
                        "c",
                        "--region",
                        "r",
                        "--output",
                        "json"
                    ]
                );
                Answer::Output(Ok(s(r#"[{"rolearn": "role"}]"#)))
            }
            Request::ListInstanceProfiles => Answer::Profiles(Ok(Some(vec![InstanceProfile {
                arn: Some(s("profile")),
                roles: Some(vec![Some(s("role"))]),
            }]))),
        };
        gathering = gathering.record(answer).unwrap();
        requests += 1;
    }
    assert_eq!(requests, 12);
    gathering.finish().unwrap()
}

#[test]
fn a_cluster_is_described_by_its_answers() {
    let info = gather();
    assert_eq!(info.name, "c");
    assert_eq!(info.version, "1.28");
    assert_eq!(info.public_subnet_ids, ["eksctl-c-cluster*Public*"]);
    assert_eq!(info.private_subnet_ids, ["eksctl-c-cluster*Private*"]);
    assert_eq!(info.nodegroup_sg, ["*c*nodegroup*"]);
    assert_eq!(info.controlplane_sg, ["*c*ControlPlaneSecurityGroup*"]);
    assert_eq!(info.clustershared_sg, ["*c*ClusterSharedNodeSecurityGroup*"]);
    assert_eq!(info.iam_instance_profile_arn, "profile");
    assert_eq!(info.dns_ip_info, (IpFamily::Ipv4, Some(s("10.100.0.10"))));
    assert!(get_cluster_info("c", "r").finish().is_none());
    assert!(get_cluster_info("c", "r")
        .record(Answer::Cluster(Ok(None)))
        .is_err());
}

#[test]
fn provider_errors_are_written_out() {
    assert_eq!(
        ProviderError::new_with_source_and_context(s("ctx"), s("src")).to_text(),
        ", ctx: src"
    );
    assert_eq!(ProviderError::new_with_source(s("src")).to_text(), ": src");
    let e = ProviderError::new_with_context(s("ctx"));
    assert_eq!(e.to_text(), ", ctx");
    assert_eq!(e.context(), Some("ctx"));
    assert_eq!(e.inner(), None);
    let ok: Result<u8, String> = Ok(1);
    assert_eq!(ok.context("m").unwrap(), 1);
    let err: Result<u8, String> = Err(s("e"));
    assert_eq!(error_of(err.context("m")), ", m: e");
    assert_eq!(error_of(None::<u8>.context("m")), ", m");
}

#[test]
fn instances_are_described() {
    assert_eq!(find_ami_id(&Ok(Some(Some(s("ami"))))).unwrap(), "ami");
    assert_eq!(error_of(find_ami_id(&Ok(Some(None)))), ", ami id is missing");
    let images = |a| Ok(Some(vec![a]));
    assert_eq!(
        instance_type(&images(Some(ArchitectureValues::X8664))).unwrap(),
        "m5.large"
    );
    assert_eq!(
        instance_type(&images(Some(ArchitectureValues::Arm64))).unwrap(),
        "m6g.large"
    );
    assert_eq!(
        instance_type(&images(Some(ArchitectureValues::Unsupported))).unwrap(),
        "m6g.large"
    );
    assert_eq!(error_of(instance_type(&images(None))), ", Ami has no architecture");
    assert_eq!(
        error_of(instance_type(&Ok(Some(vec![])))),
        ", Unable to get ami architecture"
    );
    assert_eq!(first_subnet_id(&[s("a"), s("b")]).unwrap(), "a");
    assert_eq!(
        error_of(first_subnet_id(&[])),
        ", There are no private subnet ids"
    );
    assert_eq!(
        tag_specifications("c"),
        [
            (s("Name"), s("c_node")),
            (s("kubernetes.io/cluster/c"), s("owned")),
            (s("brupop"), s("integration-test"))
        ]
    );
    assert_eq!(
        settings("E", "C", "X"),
        "[settings.updates]\nignore-waves = true\n    \n[settings.kubernetes]\napi-server = \"E\"\ncluster-name = \"C\"\ncluster-certificate = \"X\""
    );
    assert_eq!(
        userdata("E", "C", "X"),
        "W3NldHRpbmdzLnVwZGF0ZXNdCmlnbm9yZS13YXZlcyA9IHRydWUKICAgIApbc2V0dGluZ3Mua3ViZXJuZXRlc10KYXBpLXNlcnZlciA9ICJFIgpjbHVzdGVyLW5hbWUgPSAiQyIKY2x1c3Rlci1jZXJ0aWZpY2F0ZSA9ICJYIg=="
    );
    let instance = |id: Option<&str>, name: Option<&str>| Instance {
        instance_id: id.map(s),
        private_dns_name: name.map(s),
    };
    let created = created_instances(&Ok(Some(vec![
        instance(Some("i1"), Some("n1")),
        instance(Some("i1"), Some("n2")),
    ])))
    .unwrap();
    assert_eq!(created.instance_ids, ["i1"]);
    assert_eq!(created.private_dns_name, ["n1", "n2"]);
    assert_eq!(
        error_of(created_instances(&Ok(Some(vec![instance(None, None)])))),
        ", Instance missing instance_id field"
    );
    assert_eq!(
        error_of(created_instances(&Ok(Some(vec![instance(Some("i"), None)])))),
        ", Instance missing private_dns_name field"
    );
    let (name, values) = DesiredInstanceState::Running.filter();
    assert_eq!(name, "instance-state-name");
    assert_eq!(
        values,
        ["pending", "shutting-down", "stopping", "stopped", "terminated"]
    );
    assert_eq!(DesiredInstanceState::Terminated.filter().1[4], "running");
    assert_eq!(
        error_of(non_conforming_instances(&Err(s("x")), DesiredInstanceState::Running)),
        ", Unable to list instances in the 'Running' state.: x"
    );
    assert!(matches!(
        wait_for_conforming_instances(
            &Ok(Some(vec![Some(s("i"))])),
            DesiredInstanceState::Running
        ),
        Wait::LookAgain { millis: 1000 }
    ));
    assert!(matches!(
        wait_for_conforming_instances(&Ok(Some(vec![None])), DesiredInstanceState::Running),
        Wait::Done(Ok(()))
    ));
    assert_eq!(
        get_instances_by_tag(&Ok(Some(vec![
            Some(vec![Some(s("a")), None]),
            None,
            Some(vec![Some(s("b")), Some(s("a"))])
        ])))
        .unwrap(),
        ["a", "b"]
    );
}

#[test]
fn instances_are_created_and_terminated() {
    let cluster = gather();
    let mut answers = CreationAnswers {
        parameter: None,
        images: None,
        instances: None,
        running: None,
    };
    let step = |a: &CreationAnswers| create_ec2_instance(&cluster, "arm64", "1.8.0", a);
    assert!(matches!(
        step(&answers),
        CreationStep::GetParameter { name }
            if name == "/aws/service/bottlerocket/aws-k8s-1.28/arm64/1.8.0/image_id"
    ));
    answers.parameter = Some(Ok(Some(Some(s("ami")))));
    assert!(matches!(
        step(&answers),
        CreationStep::DescribeImages { image_id } if image_id == "ami"
    ));
    answers.images = Some(Ok(Some(vec![Some(ArchitectureValues::Arm64)])));
    match step(&answers) {
        CreationStep::RunInstances(q) => {
            assert_eq!((q.min_count, q.max_count), (3, 3));
            assert_eq!(
                q.security_group_ids,
                ["*c*nodegroup*", "*c*ClusterSharedNodeSecurityGroup*"]
            );
            assert_eq!(q.instance_type, "m6g.large");
            assert_eq!(q.subnet_id, "eksctl-c-cluster*Private*");
        }
        other => panic!("{:?}", other),
    }
    answers.instances = Some(Ok(Some(vec![Instance {
        instance_id: Some(s("i")),
        private_dns_name: Some(s("n")),
    }])));
    assert!(matches!(
        step(&answers),
        CreationStep::AwaitRunning { instance_ids, timeout_seconds: 60 } if instance_ids == ["i"]
    ));
    answers.running = Some(Ok(Ok(())));
    assert!(matches!(
        step(&answers),
        CreationStep::Finish(Ok(c)) if c.private_dns_name == ["n"]
    ));
    answers.running = Some(Err(s("deadline")));
    match step(&answers) {
        CreationStep::Finish(Err(e)) => assert_eq!(
            e.to_text(),
            ", Timed-out waiting for instances to reach the `running` state.: deadline"
        ),
        other => panic!("{:?}", other),
    }

    let mut answers = TerminationAnswers { tagged: None, terminated: None, gone: None };
    assert!(matches!(
        terminate_ec2_instance(&answers),
        TerminationStep::FindTagged { tag } if tag == "brupop"
    ));
    answers.tagged = Some(Ok(Some(vec![Some(vec![Some(s("i"))])])));
    assert!(matches!(
        terminate_ec2_instance(&answers),
        TerminationStep::Terminate { instance_ids } if instance_ids == ["i"]
    ));
    answers.terminated = Some(Ok(()));
    assert!(matches!(
        terminate_ec2_instance(&answers),
        TerminationStep::AwaitTerminated { timeout_seconds: 300, .. }
    ));
    answers.gone = Some(Ok(Ok(())));
    assert!(matches!(
        terminate_ec2_instance(&answers),
        TerminationStep::Finish(Ok(()))
    ));
}

#[test]
fn a_role_is_made_and_removed() {
    let create = create_iam_instance_profile();
    let delete = delete_iam_instance_profile();
    assert_eq!(create.len(), 7);
    assert_eq!(delete.len(), 7);
    let attached: Vec<&str> = create
        .iter()
        .filter_map(|step| match step.call {
            IamCall::AttachRolePolicy { policy_arn } => Some(policy_arn),
            _ => None,
        })
        .collect();
    let detached: Vec<&str> = delete
        .iter()
        .filter_map(|step| match step.call {
            IamCall::DetachRolePolicy { policy_arn } => Some(policy_arn),
            _ => None,
        })
        .collect();
    assert_eq!(attached, detached);
    assert_eq!(
        iam_failure(&create[0], s("x")).to_text(),
        ", Unable to create new role.: x"
    );
    assert!(instance_profile_exists(ProfileLookup::Found));
    assert!(instance_profile_exists(ProfileLookup::Failed));
    assert!(!instance_profile_exists(ProfileLookup::NoSuchEntity));
    assert_eq!(
        instance_profile_arn(&Ok(Some(vec![Some(s("arn"))]))).unwrap(),
        "arn"
    );
    assert_eq!(
        error_of(instance_profile_arn(&Ok(Some(vec![])))),
        ", Instance profile does not contain roles."
    );
    assert_eq!(
        error_of(instance_profile_arn(&Ok(Some(vec![None])))),
        ", Role does not contain an arn."
    );
}

#[test]
fn node_settings_name_the_dns_address() {
    let with = |info| nodegroup_provider::settings("E", "C", "X", &info);
    assert_eq!(
        with((IpFamily::Ipv4, Some(s("10.0.0.10")))).unwrap(),
        "[settings.updates]\n        ignore-waves = true\n\n        [settings.kubernetes]\n        api-server = \"E\"\n        cluster-name = \"C\"\n        cluster-certificate = \"X\"\n        cluster-dns-ip = \"10.0.0.10\"\n        "
    );
    assert!(with((IpFamily::Ipv4, None)).unwrap().ends_with("\"X\"\n        \n        "));
    assert_eq!(error_of(with((IpFamily::Ipv6, None))), ", Missing IPv6 dns ip");
    assert_eq!(
        error_of(with((IpFamily::Unknown, Some(s("x"))))),
        ", Invalid dns ip"
    );
    assert!(nodegroup_provider::userdata("E", "C", "X", &(IpFamily::Ipv4, None))
        .unwrap()
        .starts_with("W3NldHRpbmdzLnVwZGF0ZXNd"));
}

#[test]
fn launch_templates_are_found_or_made() {
    let cluster = gather();
    let template = |id: Option<&str>, version| LaunchTemplate {
        launch_template_id: id.map(s),
        latest_version_number: version,
    };
    let step = |lookup: TemplateLookup, answer| {
        create_launch_template("ami", "m5.large", &cluster, "g", &lookup, &answer)
    };
    assert!(launch_template_exists(&TemplateLookup::Found(None)));
    assert!(!launch_template_exists(&TemplateLookup::Unhandled));
    assert!(matches!(
        step(TemplateLookup::Found(Some(vec![template(Some("t"), Some(2))])), None),
        TemplateStep::Finish(Ok(t)) if t.launch_template_id == "t" && t.latest_version_number == 2
    ));
    match step(TemplateLookup::Unhandled, None) {
        TemplateStep::Create(q) => {
            assert_eq!(q.launch_template_name, "brupop-integ-test-g");
            assert_eq!(q.image_id, "ami");
            assert_eq!(q.tags, tag_specifications("c"));
        }
        other => panic!("{:?}", other),
    }
    let failures = vec![
        (
            step(TemplateLookup::Failed(s("x")), None),
            ", Failed to describe launch templates: x",
        ),
        (
            step(TemplateLookup::Found(None), None),
            ", Failed to describe launch templates",
        ),
        (
            step(TemplateLookup::Found(Some(vec![])), None),
            ", Failed to get launch template",
        ),
        (
            step(TemplateLookup::Unhandled, Some(Err(s("y")))),
            ", Failed to create launch template: y",
        ),
        (
            step(TemplateLookup::Unhandled, Some(Ok(Some(template(None, None))))),
            ", Failed to get launch template id",
        ),
        (
            step(TemplateLookup::Unhandled, Some(Ok(Some(template(Some("t"), None))))),
            ", Failed to get launch template version",
        ),
    ];
    for (step, text) in failures {
        match step {
            TemplateStep::Finish(Err(e)) => assert_eq!(e.to_text(), text),
            other => panic!("{:?}", other),
        }
    }
}

#[test]
fn a_nodegroup_is_created_and_terminated() {
    let cluster = gather();
    let mut answers = NodegroupAnswers {
        parameter: Some(Ok(Some(Some(s("ami"))))),
        images: Some(Ok(Some(vec![Some(ArchitectureValues::X8664)]))),
        node_role: None,
        mapped: None,
        template: None,
        created: None,
        active: None,
    };
    let step = |a: &NodegroupAnswers| create_nodegroup(&cluster, "g", "x86_64", "1.8.0", a);
    assert!(matches!(
        step(&answers),
        NodegroupStep::PrepareRole { profile_name }
            if profile_name == "brupop-integ-test-eksNodeRole-g"
    ));
    answers.node_role = Some(Ok(s("role")));
    match step(&answers) {
        NodegroupStep::MapIdentity { args } => {
            assert_eq!(args[0], "create");
            assert_eq!(args[7], "role");
            assert_eq!(args[11], "system:node:{{EC2PrivateDNSName}}");
        }
        other => panic!("{:?}", other),
    }
    answers.mapped = Some(Ok(()));
    assert!(matches!(
        step(&answers),
        NodegroupStep::PrepareTemplate { instance_type, .. } if instance_type == "m5.large"
    ));
    answers.template = Some(Ok(CreatedEc2LaunchTemplate {
        launch_template_id: s("t"),
        latest_version_number: 12,
    }));
    match step(&answers) {
        NodegroupStep::CreateNodegroup(q) => {
            assert_eq!(q.launch_template_version, "12");
            assert_eq!(
                q.label,
                (s("bottlerocket.aws/updater-interface-version"), s("2.0.0"))
            );
            assert_eq!(q.node_role, "role");
            assert_eq!(q.desired_size, 3);
        }
        other => panic!("{:?}", other),
    }
    answers.created = Some(Ok(()));
    assert!(matches!(
        step(&answers),
        NodegroupStep::AwaitActive { timeout_seconds: 300 }
    ));
    answers.active = Some(Ok(Ok(())));
    assert!(matches!(step(&answers), NodegroupStep::Finish(Ok(()))));

    let mut removal = RemovalAnswers {
        deleted: None,
        gone: None,
        role_removed: None,
        template_deleted: None,
    };
    assert!(matches!(
        terminate_nodegroup("g", &removal),
        RemovalStep::DeleteNodegroup
    ));
    removal.deleted = Some(Ok(()));
    assert!(matches!(
        terminate_nodegroup("g", &removal),
        RemovalStep::AwaitDeleted { timeout_seconds: 500 }
    ));
    removal.gone = Some(Ok(Ok(())));
    assert!(matches!(
        terminate_nodegroup("g", &removal),
        RemovalStep::RemoveRole { profile_name } if profile_name == "brupop-integ-test-eksNodeRole-g"
    ));
    removal.role_removed = Some(Ok(()));
    assert!(matches!(
        terminate_nodegroup("g", &removal),
        RemovalStep::DeleteTemplate { template_name } if template_name == "brupop-integ-test-g"
    ));
    removal.template_deleted = Some(Err(s("z")));
    match terminate_nodegroup("g", &removal) {
        RemovalStep::Finish(Err(e)) => {
            assert_eq!(e.to_text(), ", Failed to delete launch template: z")
        }
        other => panic!("{:?}", other),
    }
    removal.template_deleted = Some(Ok(()));
    assert!(matches!(
        terminate_nodegroup("g", &removal),
        RemovalStep::Finish(Ok(()))
    ));

    let active = Ok(Some(Some(NodegroupStatus::Active)));
    let inactive = Ok(Some(Some(NodegroupStatus::Inactive)));
    assert!(non_conforming_nodegroup("create", &active).unwrap());
    assert!(!non_conforming_nodegroup("create", &inactive).unwrap());
    assert!(!non_conforming_nodegroup("delete", &active).unwrap());
    assert!(non_conforming_nodegroup("delete", &Err(s("gone"))).unwrap());
    assert_eq!(
        error_of(non_conforming_nodegroup("move", &active)),
        ", Invalid action input"
    );
    assert_eq!(
        error_of(non_conforming_nodegroup("create", &Ok(None))),
        ", Unable to extract nodegroup"
    );
    assert!(matches!(
        wait_for_conforming_nodegroup("create", &inactive),
        Wait::LookAgain { millis: 1000 }
    ));
}

fn fake_pod(pod_status: String) -> Pod {
    Pod {
        status: Some(PodStatus { phase: Some(pod_status) }),
    }
}

#[test]
fn test_check_brupop_pods_health() {
    let brupop_monitor = BrupopMonitor::new();
    let test_cases = vec![
        (
            vec![
                fake_pod("Running".to_string()),
                fake_pod("Running".to_string()),
                fake_pod("Running".to_string()),
            ],
            true,
        ),
        (
            vec![
                fake_pod("Failed".to_string()),
                fake_pod("Running".to_string()),
                fake_pod("Failed".to_string()),
            ],
            false,
        ),
        (vec![], false),
    ];
    for (pods, is_healthy) in test_cases {
        let result = brupop_monitor.check_pods_health(&pods);
        assert_eq!(result, is_healthy);
    }
    assert!(!is_pod_running(&Pod { status: None }));
    assert!(!is_pod_running(&Pod { status: Some(PodStatus { phase: None }) }));
}

fn fake_shadow(
    name: String,
    current_version: String,
    target_version: String,
    current_state: BottlerocketShadowState,
) -> BottlerocketShadow {
    BottlerocketShadow {
        status: Some(BottlerocketShadowStatus::new(
            Version::from_str(&current_version).unwrap(),
            Version::from_str(&target_version).unwrap(),
            current_state,
            0,
            Some(Timestamp::now()),
        )),
        metadata: ObjectMeta {
            name: Some(name),
            ..Default::default()
        },
        spec: BottlerocketShadowSpec::default(),
    }
}

fn empty_shadow() -> BottlerocketShadow {
    BottlerocketShadow {
        status: None,
        metadata: ObjectMeta::default(),
        spec: BottlerocketShadowSpec::default(),
    }
}

fn three_shadows(cases: [(&str, BottlerocketShadowState); 3]) -> Vec<BottlerocketShadow> {
    cases
        .into_iter()
        .enumerate()
        .map(|(i, (target, state))| {
            fake_shadow(
                format!("brs-ip-{}.us-west-2.compute.internal", i + 1),
                "1.6.0".to_string(),
                target.to_string(),
                state,
            )
        })
        .collect()
}

#[test]
fn test_check_shadows_health() {
    let brupop_monitor = BrupopMonitor::new();
    let idle = BottlerocketShadowState::Idle;
    let test_cases = vec![
        (
            three_shadows([("1.5.0", idle), ("1.5.0", idle), ("1.5.0", idle)]),
            true,
        ),
        (vec![empty_shadow(), empty_shadow(), empty_shadow()], false),
        (vec![], false),
    ];

    for (brss, is_healthy) in test_cases {
        let result = brupop_monitor.check_shadows_health(&brss);
        assert_eq!(result, is_healthy);
    }
}

#[test]
fn test_confirm_update_success() {
    let brupop_monitor = BrupopMonitor::new();
    let idle = BottlerocketShadowState::Idle;
    let staged = BottlerocketShadowState::StagedAndPerformedUpdate;
    let test_cases = vec![
        (
            three_shadows([("1.5.0", idle), ("1.5.0", staged), ("1.5.0", idle)]),
            false,
        ),
        (
            three_shadows([("1.6.0", idle), ("1.6.0", idle), ("1.6.0", idle)]),
            true,
        ),
        (
            three_shadows([("1.6.0", idle), ("1.5.0", staged), ("1.5.0", idle)]),
            false,
        ),
    ];

    for (brss, is_update_complete) in test_cases {
        assert!(brupop_monitor.versions_are_readable(&brss));
        let result = brupop_monitor.confirm_update_success(&brss).unwrap();
        assert_eq!(result, is_update_complete);
    }
}

#[test]
fn the_monitor_waits_and_gives_up() {
    let monitor = BrupopMonitor::new();
    let idle = BottlerocketShadowState::Idle;
    let pods = vec![fake_pod("Running".to_string())];
    let done = three_shadows([("1.6.0", idle), ("1.6.0", idle), ("1.6.0", idle)]);
    let behind = three_shadows([("1.7.0", idle), ("1.6.0", idle), ("1.6.0", idle)]);
    assert!(matches!(
        monitor.run_monitor(0, &done, &pods, Some(0)),
        MonitorStep::Complete
    ));
    assert!(matches!(
        monitor.run_monitor(2, &behind, &pods, Some(1199)),
        MonitorStep::LookAgain { seconds: 30, retry_count: 2 }
    ));
    assert!(matches!(
        monitor.run_monitor(2, &behind, &pods, Some(1200)),
        MonitorStep::Fail(MonitorError::BrupopMonitor { .. })
    ));
    assert!(matches!(
        monitor.run_monitor(2, &behind, &pods, None),
        MonitorStep::Fail(MonitorError::TimeElapsed)
    ));
    assert!(matches!(
        monitor.run_monitor(4, &behind, &vec![], Some(0)),
        MonitorStep::LookAgain { retry_count: 5, .. }
    ));
    match monitor.run_monitor(NUM_RETRIES, &behind, &vec![], Some(0)) {
        MonitorStep::Fail(e) => assert_eq!(
            e.to_text(),
            "Failed to run brupop monitor because Brupop pods (agent, apisever, controller or BottlerocketShadows) aren't on healthy status, please check brupop pods' logs"
        ),
        other => panic!("{:?}", other),
    }
    assert_eq!(estimate_expire_time(3), 1200);
    let mut unnamed = done.iter().map(|b| b.copy()).collect::<Vec<_>>();
    unnamed[1].metadata.name = None;
    assert!(matches!(
        monitor.confirm_update_success(&unnamed),
        Err(MonitorError::BottlerocketShadowName)
    ));
    assert!(matches!(
        monitor.confirm_update_success(&vec![empty_shadow()]),
        Err(MonitorError::MissingBottlerocketShadowStatus)
    ));
    let mut bad = done;
    bad[0].status.as_mut().unwrap().current_version = s("x");
    assert!(monitor.checked_run_monitor(0, &bad, &pods, Some(0)).is_none());
}

#[test]
fn kubectl_installs_and_removes() {
    assert_eq!(
        process_brupop_resources(Action::Apply, "/k"),
        [
            "apply",
            "-f",
            "yamlgen/deploy/bottlerocket-update-operator.yaml",
            "--kubeconfig",
            "/k"
        ]
    );
    assert_eq!(
        process_pods_test(Action::Delete, "/k")[..3],
        ["delete", "-f", "integ/src/pods-template.yaml"]
    );
    assert!(process_cert_manager(Action::Apply, "/k")[2].ends_with("v1.8.2/cert-manager.yaml"));
    assert!(check_processed(Action::Apply, Resources::Brupop, Ok(true)).is_ok());
    let text = |resources, status| {
        check_processed(Action::Apply, resources, status)
            .unwrap_err()
            .to_text()
    };
    assert_eq!(
        text(Resources::Brupop, Ok(false)),
        "Failed to run brupop resources: \"Apply\" brupop"
    );
    assert_eq!(
        text(Resources::TestPods, Ok(false)),
        "Failed to process pods test: \"Apply\" pods"
    );
    assert_eq!(text(Resources::TestPods, Err(s("x"))), "Failed to \"Apply\" pods");
    assert_eq!(
        text(Resources::CertManager, Err(s("x"))),
        "Failed to install cert manager: x"
    );
    assert_eq!(
        text(Resources::Brupop, Err(s("x"))),
        "Failed to install brupop: x"
    );
    assert!(nodes_exist(Ok(1)).unwrap());
    assert!(!nodes_exist(Ok(0)).unwrap());
    assert!(matches!(nodes_exist(Err(s("x"))), Err(UpdateError::FindNodes { .. })));
}

fn test_args(arch: &str, path: &str) -> Arguments {
    Arguments {
        subcommand: SubCommand::IntegrationTest(IntegrationTestArgs {
            cluster_name: s("c"),
            region: s("r"),
            nodegroup_name: s("g"),
            kube_config_path: s(path),
            bottlerocket_version: s("1.8.0"),
            ami_arch: s(arch),
        }),
    }
}

#[test]
fn arguments_are_checked() {
    assert!(args_validation(&test_args("arm64", "k")).is_ok());
    assert!(args_validation(&test_args("x86_64", "k")).is_ok());
    let e = args_validation(&test_args("riscv", "k")).unwrap_err();
    assert_eq!(e.to_text(), "Invalid Arch input: riscv");
    let common = CommonArgs::from(&test_args("arm64", "k"));
    assert_eq!(common.cluster_name, "c");
    assert_eq!(
        get_kube_config_temp_dir_path(&common, &Some(s("/tmp"))).unwrap(),
        "/tmp/c-r"
    );
    assert!(matches!(
        get_kube_config_temp_dir_path(&common, &None),
        Err(Error::FindTmpDir)
    ));
    assert!(matches!(
        process_error(Action::Delete, Resources::TestPods, UpdateError::ConvertPathToStr),
        Error::DeletePod { .. }
    ));
}

#[test]
fn run_with_an_invalid_architecture_does_nothing() {
    for (path, temp_dir) in [("kubeconfig.yaml", Some(s("/tmp"))), ("/my/config", None)] {
        let tasks = run(&test_args("riscv64", path), &temp_dir);
        assert_eq!(tasks.len(), 1);
        assert!(matches!(&tasks[0], Task::FailWithInvalidArch { input } if input == "riscv64"));
    }
}

#[test]
fn runs_follow_their_plan() {
    let tasks = run(&test_args("arm64", "kubeconfig.yaml"), &Some(s("/tmp")));
    assert_eq!(tasks.len(), 8);
    assert!(matches!(&tasks[0], Task::GetClusterInfo { .. }));
    assert!(matches!(&tasks[1], Task::CreateDir { path } if path == "/tmp/c-r"));
    assert!(matches!(
        &tasks[2],
        Task::WriteKubeconfig { path, .. } if path == "/tmp/c-r/kubeconfig.yaml"
    ));
    assert!(matches!(&tasks[3], Task::CreateNodegroup { .. }));
    assert!(matches!(
        &tasks[4],
        Task::Process { action: Action::Apply, resources: Resources::TestPods, .. }
    ));
    assert!(matches!(&tasks[6], Task::Sleep { seconds: 90 }));

    let given = run(&test_args("arm64", "/my/config"), &None);
    assert_eq!(given.len(), 6);
    assert!(matches!(
        &given[5],
        Task::Process { kube_config_path, .. } if kube_config_path == "/my/config"
    ));

    let lost = run(&test_args("arm64", "kubeconfig.yaml"), &None);
    assert!(matches!(&lost[1], Task::FailWithoutTmpDir));

    let monitor = Arguments {
        subcommand: SubCommand::Monitor(MonitorArgs {
            cluster_name: s("c"),
            region: s("r"),
            kube_config_path: s("/k"),
        }),
    };
    let tasks = run(&monitor, &None);
    assert!(matches!(&tasks[1], Task::Connect { .. }));
    assert!(matches!(
        &tasks[2],
        Task::Monitor { namespace } if namespace == "brupop-bottlerocket-aws"
    ));

    let clean = Arguments {
        subcommand: SubCommand::Clean(CleanArgs {
            cluster_name: s("c"),
            region: s("r"),
            nodegroup_name: s("g"),
            kube_config_path: s("kubeconfig.yaml"),
        }),
    };
    let tasks = run(&clean, &Some(s("/tmp")));
    assert_eq!(tasks.len(), 9);
    assert!(matches!(&tasks[3], Task::TerminateNodegroup { .. }));
    assert!(matches!(&tasks[4], Task::StopIfNodesExist));
    assert!(matches!(
        &tasks[5],
        Task::Process { action: Action::Delete, resources: Resources::Brupop, .. }
    ));
    assert!(matches!(&tasks[8], Task::RemoveDir { path } if path == "/tmp/c-r"));
}
