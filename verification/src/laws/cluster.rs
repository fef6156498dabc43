//! What an integration test learns of its cluster.

use vstd::prelude::*;

use crate::integ::cluster_info::{
    fits, found_groups, found_subnets, get_cluster_info, group_tag, subnet_tag, Answer, ClusterInfo,
    Gathering, GatheringView, Request, RequestView,
};
use crate::integ::eks_provider::{
    certificate_of, check_kubeconfig_written, dns_of, endpoint_of, first_with_role,
    get_mapping_args, has_role, identity_of, ids_of, json_first_member, kubeconfig_args, present,
    profile_of, role_of, subnets_of, transform_replaces_last_part, version_of, Cluster,
    ClusterAnswer, IdsAnswer, InstanceProfile, IpFamily, KubernetesNetworkConfig, OutputAnswer,
    ProfilesAnswer, SecurityGroupType, SubnetType,
};
use crate::integ::error::{IntoProviderError, ProviderError, ProviderErrorView};
use crate::models::meta::text_option;
use crate::text::texts;

verus! {

/// An error says why, and carries what caused it, if anything did.
pub proof fn errors_say_why(context: Seq<char>, source: Seq<char>)
    ensures
        ProviderErrorView::because(context).context == Some(context),
        ProviderErrorView::because(context).inner is None,
        ProviderErrorView::caused(context, source).context == Some(context),
        ProviderErrorView::caused(context, source).inner == Some(source),
        ProviderErrorView::because(context).message() == ", "@ + context,
        ProviderErrorView::caused(context, source).message() == ", "@ + context + (": "@ + source),
        (ProviderErrorView { context: None, inner: Some(source) }).message() == ": "@ + source,
{
    assert(ProviderErrorView::because(context).message() =~= ", "@ + context);
    assert((ProviderErrorView { context: None, inner: Some(source) }).message() =~= ": "@ + source);
}

/// A result becomes an error that carries its text, and a missing value one that carries none.
pub proof fn results_and_options_become_errors<T>(v: T, e: String)
    ensures
        Ok::<T, String>(v).value() == Some(v),
        Ok::<T, String>(v).cause() is None,
        Err::<T, String>(e).value() is None,
        Err::<T, String>(e).cause() == Some(e@),
        Some(v).value() == Some(v),
        None::<T>.value() is None,
        None::<T>.cause() is None,
{
}

/// The version, endpoint, certificate and subnets of a cluster are those of its description.
pub proof fn description_tells_the_cluster(cluster: Cluster)
    ensures
        ({
            let answer: ClusterAnswer = Ok(Some(cluster));
            &&& version_of(answer) is Ok <==> cluster.version is Some
            &&& cluster.version is Some ==> version_of(answer)->Ok_0 == cluster.version->0@
            &&& endpoint_of(answer) is Ok <==> cluster.endpoint is Some
            &&& cluster.endpoint is Some ==> endpoint_of(answer)->Ok_0 == cluster.endpoint->0@
            &&& certificate_of(answer) is Ok <==> cluster.certificate_authority is Some
                && cluster.certificate_authority->0 is Some
            &&& certificate_of(answer) is Ok ==> certificate_of(answer)->Ok_0
                == cluster.certificate_authority->0->0@
            &&& subnets_of(answer) is Ok <==> cluster.resources_vpc_config is Some
                && cluster.resources_vpc_config->0 is Some
            &&& subnets_of(answer) is Ok ==> subnets_of(answer)->Ok_0 == texts(
                cluster.resources_vpc_config->0->0@,
            )
        }),
{
}

/// What is missing in the description of a cluster is told.
pub proof fn missing_parts_are_told(cluster: Cluster)
    ensures
        ({
            let answer: ClusterAnswer = Ok(Some(cluster));
            &&& cluster.version is None ==> version_of(answer)->Err_0 == ProviderErrorView::because(
                "Cluster missing version field"@,
            )
            &&& cluster.endpoint is None ==> endpoint_of(answer)->Err_0
                == ProviderErrorView::because("Cluster missing endpoint field"@)
            &&& cluster.certificate_authority is None ==> certificate_of(answer)->Err_0
                == ProviderErrorView::because("Cluster missing certificate_authority field"@)
            &&& cluster.certificate_authority == Some(None::<String>) ==> certificate_of(
                answer,
            )->Err_0 == ProviderErrorView::because("Certificate authority missing data"@)
            &&& cluster.resources_vpc_config is None ==> subnets_of(answer)->Err_0
                == ProviderErrorView::because("Cluster missing resources_vpc_config field"@)
            &&& cluster.resources_vpc_config == Some(None::<Vec<String>>) ==> subnets_of(
                answer,
            )->Err_0 == ProviderErrorView::because("resources_vpc_config missing subnet ids"@)
            &&& cluster.kubernetes_network_config is None ==> dns_of(answer) is Err && dns_of(
                answer,
            )->Err_0 == ProviderErrorView::because(
                "Cluster missing kubernetes_network_config field"@,
            )
        }),
{
}

/// A cluster that cannot be described is told, with the reason.
pub proof fn unknown_clusters_are_told(e: String)
    ensures
        ({
            let failed: ClusterAnswer = Err(e);
            let none: ClusterAnswer = Ok(None);
            let why = ProviderErrorView::caused("Unable to get eks describe cluster"@, e@);
            &&& version_of(failed) is Err && version_of(failed)->Err_0 == why
            &&& endpoint_of(failed) is Err && endpoint_of(failed)->Err_0 == why
            &&& certificate_of(failed) is Err && certificate_of(failed)->Err_0 == why
            &&& subnets_of(failed) is Err && subnets_of(failed)->Err_0 == why
            &&& dns_of(failed) is Err && dns_of(failed)->Err_0 == why
            &&& version_of(none) is Err && version_of(none)->Err_0 == ProviderErrorView::because(
                "Response missing cluster field"@,
            )
            &&& subnets_of(none) is Err && subnets_of(none)->Err_0 == ProviderErrorView::because(
                "Response missing cluster field"@,
            )
            &&& endpoint_of(none) is Err && endpoint_of(none)->Err_0 == ProviderErrorView::because(
                "Results missing cluster field"@,
            )
            &&& certificate_of(none) is Err && certificate_of(none)->Err_0
                == ProviderErrorView::because("Results missing cluster field"@)
            &&& dns_of(none) is Err && dns_of(none)->Err_0 == ProviderErrorView::because(
                "Cluster missing kubernetes_network_config field"@,
            )
        }),
{
}

/// The address of the name server is that of the services with its last part replaced: by 10 behind
/// the last point, or by a behind the last colon.
pub proof fn name_server_is_the_tenth_address(
    cluster: Cluster,
    network: KubernetesNetworkConfig,
    head: Seq<char>,
    tail: Seq<char>,
)
    requires
        cluster.kubernetes_network_config == Some(network),
    ensures
        ({
            let answer: ClusterAnswer = Ok(Some(cluster));
            let four = network.service_ipv4_cidr;
            let six = network.service_ipv6_cidr;
            &&& network.ip_family == Some(IpFamily::Ipv4) ==> {
                &&& dns_of(answer) is Ok && (dns_of(answer)->Ok_0).0 is Ipv4
                &&& four is None ==> (dns_of(answer)->Ok_0).1 is None
                &&& four is Some && four->0@ == head + seq!['.'] + tail && !tail.contains('.')
                    ==> (dns_of(answer)->Ok_0).1 == Some(head + seq!['.'] + seq!['1', '0'])
            }
            &&& network.ip_family == Some(IpFamily::Ipv6) ==> {
                &&& dns_of(answer) is Ok && (dns_of(answer)->Ok_0).0 is Ipv6
                &&& six is None ==> (dns_of(answer)->Ok_0).1 is None
                &&& six is Some && six->0@ == head + seq![':'] + tail && !tail.contains(':')
                    ==> (dns_of(answer)->Ok_0).1 == Some(head + seq![':'] + seq!['a'])
            }
            &&& network.ip_family == Some(IpFamily::Unknown) ==> dns_of(answer) is Err && dns_of(
                answer,
            )->Err_0 == ProviderErrorView::because("Invalid dns ip"@)
            &&& network.ip_family is None ==> dns_of(answer) is Err && dns_of(answer)->Err_0
                == ProviderErrorView::because("IP family missing data"@)
        }),
{
    reveal_strlit("10");
    reveal_strlit("a");
    reveal_strlit(".");
    reveal_strlit(":");
    assert("10"@ =~= seq!['1', '0']);
    assert("a"@ =~= seq!['a']);
    assert("."@ =~= seq!['.']);
    assert(":"@ =~= seq![':']);
    if !tail.contains('.') {
        transform_replaces_last_part(head, '.', tail, "10"@);
    }
    if !tail.contains(':') {
        transform_replaces_last_part(head, ':', tail, "a"@);
    }
}

/// Of listed ids those are taken that are there, in their order.
pub proof fn ids_are_taken_one_by_one(
    first: Seq<Option<String>>,
    second: Seq<Option<String>>,
    id: String,
)
    ensures
        present(first + second) == present(first) + present(second),
        present(seq![Some(id)]) == seq![id@],
        present(seq![None::<String>]) == Seq::<Seq<char>>::empty(),
    decreases second.len(),
{
    reveal_with_fuel(present, 2);
    assert(seq![Some(id)].drop_last() =~= Seq::<Option<String>>::empty());
    assert(seq![None::<String>].drop_last() =~= Seq::<Option<String>>::empty());
    assert(present(seq![Some(id)]) =~= seq![id@]);
    if second.len() == 0 {
        assert(first + second =~= first);
        assert(present(first) + present(second) =~= present(first));
    } else {
        ids_are_taken_one_by_one(first, second.drop_last(), id);
        assert((first + second).drop_last() =~= first + second.drop_last());
        assert(present(first + second) =~= present(first) + present(second));
    }
}

/// Ids are those of the answer. An answer without ids and a failure are told.
pub proof fn ids_are_those_of_the_answer(
    answer: IdsAnswer,
    failed: Seq<char>,
    missing: Seq<char>,
    kind: SecurityGroupType,
)
    ensures
        answer is Ok && answer->Ok_0 is Some ==> {
            let ids = present(answer->Ok_0->0@);
            &&& ids_of(answer, failed, missing) == Ok::<Seq<Seq<char>>, ProviderErrorView>(ids)
            &&& found_subnets(answer) == Ok::<Seq<Seq<char>>, ProviderErrorView>(ids)
            &&& found_groups(answer, kind) == Ok::<Seq<Seq<char>>, ProviderErrorView>(ids)
        },
        answer is Ok && answer->Ok_0 is None ==> {
            &&& ids_of(answer, failed, missing)->Err_0 == ProviderErrorView::because(missing)
            &&& ids_of(answer, failed, missing) is Err
            &&& found_subnets(answer) is Err && found_subnets(answer)->Err_0
                == ProviderErrorView::because("Results missing subnets field"@)
            &&& found_groups(answer, kind) is Err && found_groups(answer, kind)->Err_0
                == ProviderErrorView::because("Results missing security_groups field"@)
        },
        answer is Err ==> {
            &&& ids_of(answer, failed, missing) is Err
            &&& ids_of(answer, failed, missing)->Err_0 == ProviderErrorView::caused(
                failed,
                answer->Err_0@,
            )
            &&& found_subnets(answer) is Err && found_subnets(answer)->Err_0
                == ProviderErrorView::caused("Unable to get private subnet ids"@, answer->Err_0@)
            &&& found_groups(answer, kind) is Err && found_groups(answer, kind)->Err_0
                == ProviderErrorView::caused(
                "Unable to get "@ + kind.name_text() + " security group"@,
                answer->Err_0@,
            )
        },
{
}

/// A profile has a role where it lists it.
pub proof fn profiles_list_their_roles(profile: InstanceProfile, role: Seq<char>, i: int)
    ensures
        profile.roles is None ==> !has_role(profile, role),
        profile.roles is Some && 0 <= i < profile.roles->0@.len() && profile.roles->0@[i] is Some
            && profile.roles->0@[i]->0@ == role ==> has_role(profile, role),
        profile.roles is Some && (forall|j: int|
            0 <= j < profile.roles->0@.len() && (#[trigger] profile.roles->0@[j]) is Some
                ==> profile.roles->0@[j]->0@ != role) ==> !has_role(profile, role),
{
    if profile.roles is Some && 0 <= i < profile.roles->0@.len() {
        let entries = profile.roles->0@;
        assert(text_option(entries[i]) == if entries[i] is Some {
            Some(entries[i]->0@)
        } else {
            None
        });
    }
}

/// The profile of the nodes is the first one that has their role, and it is known by its arn.
pub proof fn first_profile_of_a_role_counts(
    profiles: Vec<InstanceProfile>,
    role: Seq<char>,
    k: int,
)
    requires
        0 <= k <= profiles@.len(),
        forall|j: int| 0 <= j < k ==> !has_role(#[trigger] profiles@[j], role),
        k < profiles@.len() ==> has_role(profiles@[k], role),
    ensures
        ({
            let answer: ProfilesAnswer = Ok(Some(profiles));
            &&& k < profiles@.len() && profiles@[k].arn is Some ==> profile_of(answer, role) == Ok::<
                Seq<char>,
                ProviderErrorView,
            >(profiles@[k].arn->0@)
            &&& k < profiles@.len() && profiles@[k].arn is None ==> profile_of(answer, role) is Err
                && profile_of(answer, role)->Err_0 == ProviderErrorView::because(
                "Node instance profile missing arn field"@,
            )
            &&& k == profiles@.len() ==> profile_of(answer, role) is Err && profile_of(
                answer,
                role,
            )->Err_0 == ProviderErrorView::because("Node instance profile not found"@)
        }),
{
    lemma_first_with_role(profiles@, role, 0, k);
}

proof fn lemma_first_with_role(profiles: Seq<InstanceProfile>, role: Seq<char>, i: int, k: int)
    requires
        0 <= i <= k <= profiles.len(),
        forall|j: int| i <= j < k ==> !has_role(#[trigger] profiles[j], role),
        k < profiles.len() ==> has_role(profiles[k], role),
    ensures
        k < profiles.len() ==> first_with_role(profiles, role, i) == Some(profiles[k]),
        k == profiles.len() ==> first_with_role(profiles, role, i) is None,
    decreases k - i,
{
    if i < k {
        assert(!has_role(profiles[i], role));
        lemma_first_with_role(profiles, role, i + 1, k);
    }
}

/// Profiles that cannot be listed are told.
pub proof fn missing_profiles_are_told(e: String, role: Seq<char>)
    ensures
        ({
            let failed: ProfilesAnswer = Err(e);
            let none: ProfilesAnswer = Ok(None);
            &&& profile_of(failed, role) is Err && profile_of(failed, role)->Err_0
                == ProviderErrorView::caused("Unable to list instance profiles"@, e@)
            &&& profile_of(none, role) is Err && profile_of(none, role)->Err_0
                == ProviderErrorView::because("No instance profiles found"@)
        }),
{
}

/// The role of the nodes is the first one that the mapping names; what is wrong with it is told.
pub proof fn role_is_the_first_of_the_mapping(output: String, e: String, why: Seq<char>, arn: Seq<char>)
    ensures
        ({
            let printed: OutputAnswer = Ok(output);
            let failed: OutputAnswer = Err(e);
            &&& identity_of(printed) == role_of(json_first_member(output@, "rolearn"@))
            &&& identity_of(failed) is Err && identity_of(failed)->Err_0
                == ProviderErrorView::caused("Unable to get iam identity mapping."@, e@)
            &&& role_of(Ok(Some(Some(Some(arn))))) == Ok::<Seq<char>, ProviderErrorView>(arn)
            &&& role_of(Err(why)) is Err && role_of(Err(why))->Err_0 == ProviderErrorView::caused(
                "Unable to deserialize iam identity mapping"@,
                why,
            )
            &&& role_of(Ok(None)) is Err && role_of(Ok(None))->Err_0 == ProviderErrorView::because(
                "No profiles found."@,
            )
            &&& role_of(Ok(Some(None))) is Err && role_of(Ok(Some(None)))->Err_0
                == ProviderErrorView::because("Profile does not contain rolearn."@)
            &&& role_of(Ok(Some(Some(None)))) is Err && role_of(Ok(Some(Some(None))))->Err_0
                == ProviderErrorView::because("Rolearn is not a string."@)
        }),
{
}

/// How the tool for clusters is called.
pub proof fn calls_of_the_cluster_tool(cluster: Seq<char>, region: Seq<char>, path: Seq<char>)
    ensures
        get_mapping_args(cluster, region) == seq![
            "get"@,
            "iamidentitymapping"@,
            "--cluster"@,
            cluster,
            "--region"@,
            region,
            "--output"@,
            "json"@,
        ],
        kubeconfig_args(cluster, region, path) == seq![
            "utils"@,
            "write-kubeconfig"@,
            "-r"@,
            region,
            "--cluster="@ + cluster,
            "--kubeconfig="@ + path,
        ],
{
}

/// The file of the cluster is written where the tool succeeds; a failure is told.
pub proof fn written_files_are_checked(
    status: Result<(bool, String), String>,
    r: Result<(), ProviderError>,
)
    requires
        call_ensures(check_kubeconfig_written, (status,), r),
    ensures
        r is Ok <==> status is Ok && (status->Ok_0).0,
        status is Ok && r is Err ==> r->Err_0@ == ProviderErrorView::because(
            "Failed write kubeconfig with status code "@ + (status->Ok_0).1@,
        ),
        status is Err ==> r->Err_0@ == ProviderErrorView::caused(
            "Unable to generate and write kubeconfig"@,
            status->Err_0@,
        ),
{
}

/// Subnets and groups are found by the names that the tool gives them.
pub proof fn names_of_the_parts_of_a_cluster(cluster: Seq<char>)
    ensures
        subnet_tag(cluster, SubnetType::Public) == "eksctl-"@ + cluster + "-cluster*"@ + "Public"@
            + "*"@,
        subnet_tag(cluster, SubnetType::Private) == "eksctl-"@ + cluster + "-cluster*"@ + "Private"@
            + "*"@,
        group_tag(cluster, SecurityGroupType::NodeGroup) == "*"@ + cluster + "*"@ + "nodegroup"@
            + "*"@,
        group_tag(cluster, SecurityGroupType::ClusterShared) == "*"@ + cluster + "*"@
            + "ClusterSharedNodeSecurityGroup"@ + "*"@,
        group_tag(cluster, SecurityGroupType::ControlPlane) == "*"@ + cluster + "*"@
            + "ControlPlaneSecurityGroup"@ + "*"@,
        SecurityGroupType::NodeGroup.name_text() == "NodeGroup"@,
        SecurityGroupType::ClusterShared.name_text() == "ClusterShared"@,
        SecurityGroupType::ControlPlane.name_text() == "ControlPlane"@,
{
}

/// What is known of a cluster stays known, and is not asked for again.
pub proof fn known_parts_stay_known(g: GatheringView, answer: Answer)
    requires
        g.recorded(answer) is Ok,
    ensures
        ({
            let next = g.recorded(answer)->Ok_0;
            &&& next.name == g.name && next.region == g.region
            &&& g.version is Some ==> next.version == g.version
            &&& g.subnet_ids is Some ==> next.subnet_ids == g.subnet_ids
            &&& g.endpoint is Some ==> next.endpoint == g.endpoint
            &&& g.certificate is Some ==> next.certificate == g.certificate
            &&& g.public_subnet_ids is Some ==> next.public_subnet_ids == g.public_subnet_ids
            &&& g.private_subnet_ids is Some ==> next.private_subnet_ids == g.private_subnet_ids
            &&& g.nodegroup_sg is Some ==> next.nodegroup_sg == g.nodegroup_sg
            &&& g.controlplane_sg is Some ==> next.controlplane_sg == g.controlplane_sg
            &&& g.clustershared_sg is Some ==> next.clustershared_sg == g.clustershared_sg
            &&& g.node_instance_role is Some ==> next.node_instance_role == g.node_instance_role
            &&& g.iam_instance_profile_arn is Some ==> next.iam_instance_profile_arn
                == g.iam_instance_profile_arn
            &&& g.dns_ip_info is Some ==> next.dns_ip_info == g.dns_ip_info
        }),
{
}

/// The cluster itself is described to learn its version, then its subnets, its endpoint and its
/// certificate, and at the end its name server.
pub proof fn cluster_is_described_in_order(g: GatheringView, answer: ClusterAnswer)
    requires
        g.in_order(),
    ensures
        ({
            let next = g.recorded(Answer::Cluster(answer));
            let asks = g.request() == Some(RequestView::DescribeCluster);
            &&& g.version is None ==> asks && (next is Ok <==> version_of(answer) is Ok) && (
            next is Ok ==> next->Ok_0.version == Some(version_of(answer)->Ok_0)) && (next is Err
                ==> next->Err_0 == version_of(answer)->Err_0)
            &&& g.version is Some && g.subnet_ids is None ==> asks && (next is Ok <==> subnets_of(
                answer,
            ) is Ok) && (next is Ok ==> next->Ok_0.subnet_ids == Some(subnets_of(answer)->Ok_0)) && (
            next is Err ==> next->Err_0 == subnets_of(answer)->Err_0)
            &&& g.subnet_ids is Some && g.endpoint is None ==> asks && (next is Ok <==> endpoint_of(
                answer,
            ) is Ok) && (next is Ok ==> next->Ok_0.endpoint == Some(endpoint_of(answer)->Ok_0)) && (
            next is Err ==> next->Err_0 == endpoint_of(answer)->Err_0)
            &&& g.endpoint is Some && g.certificate is None ==> asks && (next is Ok
                <==> certificate_of(answer) is Ok) && (next is Ok ==> next->Ok_0.certificate == Some(
                certificate_of(answer)->Ok_0,
            )) && (next is Err ==> next->Err_0 == certificate_of(answer)->Err_0)
            &&& g.iam_instance_profile_arn is Some && g.dns_ip_info is None ==> asks && (next is Ok
                <==> dns_of(answer) is Ok) && (next is Ok ==> next->Ok_0.dns_ip_info == Some(
                dns_of(answer)->Ok_0,
            )) && (next is Err ==> next->Err_0 == dns_of(answer)->Err_0)
        }),
{
}

/// The subnets are looked for among those of the cluster, the public ones first; then the groups of
/// the nodes, of the control plane, and those that are shared.
pub proof fn subnets_and_groups_are_looked_for(g: GatheringView, answer: IdsAnswer)
    requires
        g.in_order(),
    ensures
        ({
            let next = g.recorded(Answer::Ids(answer));
            let groups = SecurityGroupType::NodeGroup;
            &&& g.certificate is Some && g.public_subnet_ids is None ==> g.request() == Some(
                RequestView::DescribeSubnets {
                    subnet_ids: g.subnet_ids->0,
                    tag: subnet_tag(g.name, SubnetType::Public),
                },
            ) && (next is Ok <==> found_subnets(answer) is Ok) && (next is Ok
                ==> next->Ok_0.public_subnet_ids == Some(found_subnets(answer)->Ok_0))
            &&& g.public_subnet_ids is Some && g.private_subnet_ids is None ==> g.request() == Some(
                RequestView::DescribeSubnets {
                    subnet_ids: g.subnet_ids->0,
                    tag: subnet_tag(g.name, SubnetType::Private),
                },
            ) && (next is Ok <==> found_subnets(answer) is Ok) && (next is Ok
                ==> next->Ok_0.private_subnet_ids == Some(found_subnets(answer)->Ok_0))
            &&& g.private_subnet_ids is Some && g.nodegroup_sg is None ==> g.request() == Some(
                RequestView::DescribeSecurityGroups { tag: group_tag(g.name, groups) },
            ) && (next is Ok <==> found_groups(answer, groups) is Ok) && (next is Ok
                ==> next->Ok_0.nodegroup_sg == Some(found_groups(answer, groups)->Ok_0))
            &&& g.nodegroup_sg is Some && g.controlplane_sg is None ==> g.request() == Some(
                RequestView::DescribeSecurityGroups {
                    tag: group_tag(g.name, SecurityGroupType::ControlPlane),
                },
            ) && (next is Ok <==> found_groups(answer, SecurityGroupType::ControlPlane) is Ok) && (
            next is Ok ==> next->Ok_0.controlplane_sg == Some(
                found_groups(answer, SecurityGroupType::ControlPlane)->Ok_0,
            ))
            &&& g.controlplane_sg is Some && g.clustershared_sg is None ==> g.request() == Some(
                RequestView::DescribeSecurityGroups {
                    tag: group_tag(g.name, SecurityGroupType::ClusterShared),
                },
            ) && (next is Ok <==> found_groups(answer, SecurityGroupType::ClusterShared) is Ok) && (
            next is Ok ==> next->Ok_0.clustershared_sg == Some(
                found_groups(answer, SecurityGroupType::ClusterShared)->Ok_0,
            ))
        }),
{
}

/// The role of the nodes is looked for, and then the profile that has it.
pub proof fn role_and_profile_are_looked_for(
    g: GatheringView,
    output: OutputAnswer,
    profiles: ProfilesAnswer,
)
    requires
        g.in_order(),
    ensures
        g.clustershared_sg is Some && g.node_instance_role is None ==> {
            let next = g.recorded(Answer::Output(output));
            &&& g.request() == Some(
                RequestView::IdentityMapping { args: get_mapping_args(g.name, g.region) },
            )
            &&& next is Ok <==> identity_of(output) is Ok
            &&& next is Ok ==> next->Ok_0.node_instance_role == Some(identity_of(output)->Ok_0)
            &&& next is Err ==> next->Err_0 == identity_of(output)->Err_0
        },
        g.node_instance_role is Some && g.iam_instance_profile_arn is None ==> {
            let next = g.recorded(Answer::Profiles(profiles));
            let found = profile_of(profiles, g.node_instance_role->0);
            &&& g.request() == Some(RequestView::ListInstanceProfiles)
            &&& next is Ok <==> found is Ok
            &&& next is Ok ==> next->Ok_0.iam_instance_profile_arn == Some(found->Ok_0)
            &&& next is Err ==> next->Err_0 == found->Err_0
        },
        g.dns_ip_info is Some ==> g.request() is None,
{
}

/// Each request has its kind of answer.
pub proof fn requests_have_their_answers(request: RequestView, answer: Answer)
    ensures
        request is DescribeCluster ==> (fits(request, answer) <==> answer is Cluster),
        request is DescribeSubnets || request is DescribeSecurityGroups ==> (fits(request, answer)
            <==> answer is Ids),
        request is IdentityMapping ==> (fits(request, answer) <==> answer is Output),
        request is ListInstanceProfiles ==> (fits(request, answer) <==> answer is Profiles),
{
}

/// What is told of a cluster is what was learned, part by part.
pub proof fn cluster_is_told_as_learned(g: GatheringView)
    ensures
        g.info().name == g.name,
        g.info().region == g.region,
        g.version is Some ==> g.info().version == g.version->0,
        g.endpoint is Some ==> g.info().endpoint == g.endpoint->0,
        g.certificate is Some ==> g.info().certificate == g.certificate->0,
        g.public_subnet_ids is Some ==> g.info().public_subnet_ids == g.public_subnet_ids->0,
        g.private_subnet_ids is Some ==> g.info().private_subnet_ids == g.private_subnet_ids->0,
        g.nodegroup_sg is Some ==> g.info().nodegroup_sg == g.nodegroup_sg->0,
        g.controlplane_sg is Some ==> g.info().controlplane_sg == g.controlplane_sg->0,
        g.clustershared_sg is Some ==> g.info().clustershared_sg == g.clustershared_sg->0,
        g.iam_instance_profile_arn is Some ==> g.info().iam_instance_profile_arn
            == g.iam_instance_profile_arn->0,
        g.dns_ip_info is Some ==> g.info().dns_ip_info == g.dns_ip_info->0,
{
}

/// At the start nothing is known but the name and the region.
pub proof fn nothing_is_known_at_the_start(name: Seq<char>, region: Seq<char>)
    ensures
        ({
            let g = GatheringView::start(name, region);
            &&& g.name == name && g.region == region
            &&& g.version is None && g.subnet_ids is None && g.endpoint is None
                && g.certificate is None && g.public_subnet_ids is None && g.private_subnet_ids is None
            &&& g.nodegroup_sg is None && g.controlplane_sg is None && g.clustershared_sg is None
                && g.node_instance_role is None && g.iam_instance_profile_arn is None
                && g.dns_ip_info is None
        }),
{
}

/// A cluster is learned of from the start on, request by request and answer by answer, until nothing
/// is missing.
pub proof fn clusters_are_learned_of(
    name: &str,
    region: &str,
    begun: Gathering,
    g: Gathering,
    request: Option<Request>,
    answer: Answer,
    next: Result<Gathering, ProviderError>,
    told: Option<ClusterInfo>,
)
    requires
        g@.in_order(),
        call_ensures(get_cluster_info, (name, region), begun),
        call_ensures(Gathering::next_request, (&g,), request),
        g@.request() is Some ==> fits(g@.request()->0, answer),
        call_ensures(Gathering::record, (g, answer), next),
        call_ensures(Gathering::finish, (g,), told),
    ensures
        begun@ == GatheringView::start(name@, region@),
        request is Some <==> g@.request() is Some,
        request is Some ==> request->0@ == g@.request()->0,
        request is Some ==> (next is Ok <==> g@.recorded(answer) is Ok),
        request is Some && next is Ok ==> next->Ok_0@ == g@.recorded(answer)->Ok_0,
        request is Some && next is Err ==> next->Err_0@ == g@.recorded(answer)->Err_0,
        told is Some <==> g@.missing() == 0,
        told is Some ==> told->0@ == g@.info(),
{
}

} // verus!
