//! The node group of an integration test: how it is made and removed.

use vstd::prelude::*;

use crate::integ::cluster_info::ClusterInfo;
use crate::integ::ec2_provider::{
    ami_of, ami_parameter, base64_text, first_subnet, instance_tags, instance_type_of, waited, Wait,
};
use crate::integ::eks_provider::IpFamily;
use crate::integ::error::{ProviderError, ProviderErrorView};
use crate::integ::nodegroup_provider::{
    confirm_nodegroup_deleted, conforms, create_launch_template, create_mapping_args,
    create_nodegroup, create_profile_steps, delete_profile_steps, dns_setting, iam_failure,
    instance_profile_exists, launch_template_exists, node_settings, nodegroup_request,
    nodegroup_step, profile_name, removal_step, role_arn_of, settings_of, template_name,
    template_of, template_result, template_step, terminate_nodegroup, userdata_of,
    wait_for_conforming_nodegroup, IamStep, LaunchTemplate, NodegroupAnswer, NodegroupAnswers,
    NodegroupStep, NodegroupStepView, ProfileLookup, RemovalAnswers, RemovalStep, RemovalStepView,
    RolesAnswer, TemplateAnswer, TemplateLookup, TemplateRequestView, TemplateStep,
    TemplateStepView,
};
use crate::text::signed_decimal;

verus! {

/// The profile and the template of a node group are named after it.
pub proof fn parts_are_named_after_the_group(group: Seq<char>)
    ensures
        profile_name(group) == "brupop-integ-test-eksNodeRole"@ + "-"@ + group,
        template_name(group) == "brupop-integ-test"@ + "-"@ + group,
{
}

/// Whether a step is a call that attaches or detaches a policy.
pub open spec fn is_policy_step(step: IamStep, attach: bool, arn: Seq<char>, why: Seq<char>) -> bool {
    &&& step.failure@ == why
    &&& if attach {
        step.call is AttachRolePolicy && step.call->AttachRolePolicy_policy_arn@ == arn
    } else {
        step.call is DetachRolePolicy && step.call->DetachRolePolicy_policy_arn@ == arn
    }
}

/// The role of the nodes is made first, then given its four policies, and then put into a profile.
pub proof fn role_is_made_in_order()
    ensures
        ({
            let steps = create_profile_steps();
            &&& steps.len() == 7
            &&& steps[0].call is CreateRole && steps[0].failure@ == "Unable to create new role."@
            &&& is_policy_step(
                steps[1],
                true,
                "arn:aws:iam::aws:policy/AmazonSSMManagedInstanceCore"@,
                "Unable to attach AmazonSSM policy"@,
            )
            &&& is_policy_step(
                steps[2],
                true,
                "arn:aws:iam::aws:policy/AmazonEKSWorkerNodePolicy"@,
                "Unable to attach AmazonEKSWorkerNode policy"@,
            )
            &&& is_policy_step(
                steps[3],
                true,
                "arn:aws:iam::aws:policy/AmazonEKS_CNI_Policy"@,
                "Unable to attach AmazonEKS CNI policy"@,
            )
            &&& is_policy_step(
                steps[4],
                true,
                "arn:aws:iam::aws:policy/AmazonEC2ContainerRegistryReadOnly"@,
                "Unable to attach AmazonEC2ContainerRegistry policy"@,
            )
            &&& steps[5].call is CreateInstanceProfile && steps[5].failure@
                == "Unable to create instance profile"@
            &&& steps[6].call is AddRoleToInstanceProfile && steps[6].failure@
                == "Unable to add role to instance profile"@
        }),
{
}

/// The role is taken out of its profile first, then loses its policies, and then both are deleted.
pub proof fn role_is_removed_in_order()
    ensures
        ({
            let steps = delete_profile_steps();
            &&& steps.len() == 7
            &&& steps[0].call is RemoveRoleFromInstanceProfile && steps[0].failure@
                == "Unable to remove roles from instance profile."@
            &&& is_policy_step(
                steps[1],
                false,
                "arn:aws:iam::aws:policy/AmazonSSMManagedInstanceCore"@,
                "Unable to detach AmazonSSM policy"@,
            )
            &&& is_policy_step(
                steps[2],
                false,
                "arn:aws:iam::aws:policy/AmazonEKSWorkerNodePolicy"@,
                "Unable to detach AmazonEKSWorkerNode policy"@,
            )
            &&& is_policy_step(
                steps[3],
                false,
                "arn:aws:iam::aws:policy/AmazonEKS_CNI_Policy"@,
                "Unable to detach AmazonEKS CNI policy"@,
            )
            &&& is_policy_step(
                steps[4],
                false,
                "arn:aws:iam::aws:policy/AmazonEC2ContainerRegistryReadOnly"@,
                "Unable to detach AmazonEC2ContainerRegistry policy"@,
            )
            &&& steps[5].call is DeleteInstanceProfile && steps[5].failure@
                == "Unable to create instance profile"@
            &&& steps[6].call is DeleteRole && steps[6].failure@ == "Unable to delete role."@
        }),
{
}

/// Instances alone may take on the role.
pub proof fn instances_take_on_the_role()
    ensures
        create_profile_steps()[0].call->assume_role_policy_document@
            == "{\n    \"Version\": \"2012-10-17\",\n    \"Statement\": [\n        {\n            \"Effect\": \"Allow\",\n            \"Principal\": {\n                \"Service\": \"ec2.amazonaws.com\"\n            },\n            \"Action\": \"sts:AssumeRole\"\n        }\n    ]\n}"@,
{
}

/// A failed step is told by what it was to do, and carries the reason.
pub proof fn failed_steps_are_told(failed: &IamStep, source: String, r: ProviderError)
    requires
        call_ensures(iam_failure, (failed, source), r),
    ensures
        r@.context == Some(failed.failure@),
        r@.inner == Some(source@),
{
}

/// A profile and a template exist unless the service says that they do not.
pub proof fn parts_exist_unless_denied(
    profile: ProfileLookup,
    template: &TemplateLookup,
    has_profile: bool,
    has_template: bool,
)
    requires
        call_ensures(instance_profile_exists, (profile,), has_profile),
        call_ensures(launch_template_exists, (template,), has_template),
    ensures
        has_profile <==> profile is Found || profile is Failed,
        has_template <==> *template is Found || *template is Failed,
{
}

/// The role of a profile is its first one, known by its arn; what is missing is told.
pub proof fn role_of_a_profile(roles: Vec<Option<String>>, e: String)
    ensures
        ({
            let found: RolesAnswer = Ok(Some(roles));
            let none: RolesAnswer = Ok(None);
            let failed: RolesAnswer = Err(e);
            let no_roles = ProviderErrorView::because("Instance profile does not contain roles."@);
            &&& role_arn_of(found) is Ok <==> roles@.len() > 0 && roles@[0] is Some
            &&& role_arn_of(found) is Ok ==> role_arn_of(found)->Ok_0 == roles@[0]->0@
            &&& roles@.len() == 0 ==> role_arn_of(found)->Err_0 == no_roles
            &&& roles@.len() > 0 && roles@[0] is None ==> role_arn_of(found)->Err_0
                == ProviderErrorView::because("Role does not contain an arn."@)
            &&& role_arn_of(none) is Err && role_arn_of(none)->Err_0 == no_roles
            &&& role_arn_of(failed) is Err && role_arn_of(failed)->Err_0
                == ProviderErrorView::caused("Unable to get instance profile."@, e@)
        }),
{
}

/// The role is mapped to the groups of nodes.
pub proof fn role_is_mapped_to_nodes(cluster: Seq<char>, region: Seq<char>, arn: Seq<char>)
    ensures
        create_mapping_args(cluster, region, arn) == seq![
            "create"@,
            "iamidentitymapping"@,
            "--cluster"@,
            cluster,
            "--region"@,
            region,
            "--arn"@,
            arn,
            "--group"@,
            "system:bootstrappers,system:nodes"@,
            "--username"@,
            "system:node:{{EC2PrivateDNSName}}"@,
        ],
{
}

/// The nodes are told their name server where it is known. It may be left out only in a cluster of the
/// older family.
pub proof fn name_server_is_told(dns: Seq<char>, given: Option<Seq<char>>)
    ensures
        dns_setting(IpFamily::Ipv4, Some(dns)) == Ok::<Seq<char>, ProviderErrorView>(
            "cluster-dns-ip = \""@ + dns + "\""@,
        ),
        dns_setting(IpFamily::Ipv6, Some(dns)) == Ok::<Seq<char>, ProviderErrorView>(
            "cluster-dns-ip = \""@ + dns + "\""@,
        ),
        dns_setting(IpFamily::Ipv4, None) == Ok::<Seq<char>, ProviderErrorView>(""@),
        dns_setting(IpFamily::Ipv6, None) is Err,
        dns_setting(IpFamily::Ipv6, None)->Err_0 == ProviderErrorView::because(
            "Missing IPv6 dns ip"@,
        ),
        dns_setting(IpFamily::Unknown, given) is Err,
        dns_setting(IpFamily::Unknown, given)->Err_0 == ProviderErrorView::because(
            "Invalid dns ip"@,
        ),
{
}

/// The nodes are told to update at once, the endpoint, the name and the certificate of their cluster,
/// and the setting for the name server. All of it is encoded.
pub proof fn nodes_are_told_their_cluster(
    endpoint: Seq<char>,
    cluster: Seq<char>,
    certificate: Seq<char>,
    family: IpFamily,
    dns: Option<Seq<char>>,
)
    ensures
        ({
            let setting = dns_setting(family, dns);
            let told = settings_of(endpoint, cluster, certificate, family, dns);
            let encoded = userdata_of(endpoint, cluster, certificate, family, dns);
            &&& told is Ok <==> setting is Ok
            &&& encoded is Ok <==> setting is Ok
            &&& setting is Err ==> told->Err_0 == setting->Err_0 && encoded->Err_0 == setting->Err_0
            &&& setting is Ok ==> told->Ok_0 == node_settings(
                endpoint,
                cluster,
                certificate,
                setting->Ok_0,
            )
            &&& setting is Ok ==> encoded->Ok_0 == base64_text(told->Ok_0)
            &&& setting is Ok ==> told->Ok_0
                == "[settings.updates]\n        ignore-waves = true\n\n        [settings.kubernetes]\n        api-server = \""@
                + endpoint + "\"\n        cluster-name = \""@ + cluster
                + "\"\n        cluster-certificate = \""@ + (certificate + "\"\n        "@
                + setting->Ok_0 + "\n        "@)
        }),
{
}

/// A template is known by its id and its latest version; what is missing is told.
pub proof fn template_is_known_by_id_and_version(template: LaunchTemplate)
    ensures
        ({
            let known = template_of(template);
            &&& known is Ok <==> template.launch_template_id is Some
                && template.latest_version_number is Some
            &&& known is Ok ==> (known->Ok_0).0 == template.launch_template_id->0@ && (known->Ok_0).1
                == template.latest_version_number->0
            &&& template.launch_template_id is None ==> known->Err_0 == ProviderErrorView::because(
                "Failed to get launch template id"@,
            )
            &&& template.launch_template_id is Some && template.latest_version_number is None
                ==> known->Err_0 == ProviderErrorView::because(
                "Failed to get launch template version"@,
            )
        }),
{
}

/// A template that exists is used, the first one where there are more; what is wrong with it is told.
pub proof fn existing_template_is_used(
    ami: Seq<char>,
    kind: Seq<char>,
    cluster: ClusterInfo,
    group: Seq<char>,
    lookup: TemplateLookup,
    answer: Option<TemplateAnswer>,
)
    requires
        !(lookup is Unhandled),
    ensures
        ({
            let step = template_step(ami, kind, cluster, group, lookup, answer);
            &&& step is Finish
            &&& lookup is Failed ==> step->Finish_0 is Err && step->Finish_0->Err_0
                == ProviderErrorView::caused(
                "Failed to describe launch templates"@,
                lookup->Failed_0@,
            )
            &&& lookup is Found && lookup->Found_0 is None ==> step->Finish_0 is Err
                && step->Finish_0->Err_0 == ProviderErrorView::because(
                "Failed to describe launch templates"@,
            )
            &&& lookup is Found && lookup->Found_0 is Some && lookup->Found_0->0@.len() == 0
                ==> step->Finish_0 is Err && step->Finish_0->Err_0 == ProviderErrorView::because(
                "Failed to get launch template"@,
            )
            &&& lookup is Found && lookup->Found_0 is Some && lookup->Found_0->0@.len() > 0
                ==> step->Finish_0 == template_of(lookup->Found_0->0@[0])
        }),
{
}

/// A template that does not exist is made, of the image and the type, and told the cluster.
pub proof fn missing_template_is_made(
    ami: Seq<char>,
    kind: Seq<char>,
    cluster: ClusterInfo,
    group: Seq<char>,
    answer: Option<TemplateAnswer>,
)
    ensures
        ({
            let c = cluster@;
            let step = template_step(ami, kind, cluster, group, TemplateLookup::Unhandled, answer);
            let data = userdata_of(
                c.endpoint,
                c.name,
                c.certificate,
                c.dns_ip_info.0,
                c.dns_ip_info.1,
            );
            &&& data is Err ==> step is Finish && step->Finish_0 is Err && step->Finish_0->Err_0
                == data->Err_0
            &&& data is Ok && answer is None ==> step == TemplateStepView::Create(
                TemplateRequestView {
                    launch_template_name: template_name(group),
                    image_id: ami,
                    instance_type: kind,
                    user_data: data->Ok_0,
                    tags: instance_tags(c.name),
                },
            )
            &&& data is Ok && answer is Some && answer->0 is Err ==> step is Finish
                && step->Finish_0 is Err && step->Finish_0->Err_0 == ProviderErrorView::caused(
                "Failed to create launch template"@,
                answer->0->Err_0@,
            )
            &&& data is Ok && answer is Some && answer->0 is Ok && answer->0->Ok_0 is None
                ==> step is Finish && step->Finish_0 is Err && step->Finish_0->Err_0
                == ProviderErrorView::because("Failed to get launch template"@)
            &&& data is Ok && answer is Some && answer->0 is Ok && answer->0->Ok_0 is Some
                ==> step is Finish && step->Finish_0 == template_of(answer->0->Ok_0->0)
        }),
{
}

/// A node group that is being made is as it should be once it is active; one that is being removed is,
/// once it cannot be described. Nothing else can be waited for.
pub proof fn groups_become_as_they_should(action: Seq<char>, answer: NodegroupAnswer)
    ensures
        ({
            let r = conforms(action, answer);
            &&& action == "create"@ ==> {
                &&& r is Ok <==> answer is Ok && answer->Ok_0 is Some && answer->Ok_0->0 is Some
                &&& r is Ok ==> (r->Ok_0 <==> answer->Ok_0->0->0 is Active)
                &&& answer is Err ==> r->Err_0 == ProviderErrorView::caused(
                    "Unable to describe nodegroup"@,
                    answer->Err_0@,
                )
                &&& answer is Ok && answer->Ok_0 is None ==> r->Err_0 == ProviderErrorView::because(
                    "Unable to extract nodegroup"@,
                )
                &&& answer is Ok && answer->Ok_0 is Some && answer->Ok_0->0 is None ==> r->Err_0
                    == ProviderErrorView::because("Unable to extract nodegroup status"@)
            }
            &&& action == "delete"@ ==> r is Ok && (r->Ok_0 <==> answer is Err)
            &&& action != "create"@ && action != "delete"@ ==> r is Err && r->Err_0
                == ProviderErrorView::because("Invalid action input"@)
        }),
{
    reveal_strlit("create");
    reveal_strlit("delete");
    assert("create"@[0] == 'c');
    assert("delete"@[0] == 'd');
}

/// A node group is waited for, with a look each second, until it is as it should be.
pub proof fn groups_are_waited_for(action: &str, answer: &NodegroupAnswer, r: Wait, gone: bool)
    requires
        call_ensures(wait_for_conforming_nodegroup, (action, answer), r),
        call_ensures(confirm_nodegroup_deleted, (answer,), gone),
    ensures
        ({
            let c = conforms(action@, *answer);
            &&& r is LookAgain <==> c == Ok::<bool, ProviderErrorView>(false)
            &&& r is LookAgain ==> r->millis == 1000
            &&& c == Ok::<bool, ProviderErrorView>(true) ==> r is Done && r->0 is Ok
            &&& c is Err ==> r is Done && r->0 is Err && r->0->Err_0@ == c->Err_0
        }),
        gone <==> *answer is Err,
{
}

/// A node group is asked for with its template, three nodes that bear the label of the interface, one
/// subnet and the role.
pub proof fn groups_are_asked_for(
    cluster: ClusterInfo,
    group: Seq<char>,
    role: Seq<char>,
    template: (Seq<char>, i64),
    subnet: Seq<char>,
)
    ensures
        ({
            let q = nodegroup_request(cluster, group, role, template, subnet);
            &&& q.launch_template_id == template.0
            &&& q.launch_template_version == signed_decimal(template.1 as int)
            &&& q.label == ("bottlerocket.aws/updater-interface-version"@, "2.0.0"@)
            &&& q.nodegroup_name == group
            &&& q.cluster_name == cluster@.name
            &&& q.subnet == subnet
            &&& q.node_role == role
            &&& q.desired_size == 3
        }),
{
}

/// The first steps to a node group: the image is looked for, then described; then the role is made,
/// and mapped. The first step that fails ends the creation.
pub proof fn group_begins_with_image_and_role(
    cluster: ClusterInfo,
    group: Seq<char>,
    arch: Seq<char>,
    version: Seq<char>,
    answers: NodegroupAnswers,
)
    ensures
        ({
            let step = nodegroup_step(cluster, group, arch, version, answers);
            let ami = ami_of(answers.parameter->0);
            let kind = instance_type_of(answers.images->0);
            let role = answers.node_role;
            let mapped = answers.mapped;
            let has_image = answers.parameter is Some && ami is Ok;
            let has_kind = has_image && answers.images is Some && kind is Ok;
            let has_role = has_kind && role is Some && role->0 is Ok;
            &&& answers.parameter is None ==> step == (NodegroupStepView::GetParameter {
                name: ami_parameter(arch, version, cluster@.version),
            })
            &&& answers.parameter is Some && ami is Err ==> step == NodegroupStepView::Finish(
                Err(ami->Err_0),
            )
            &&& has_image && answers.images is None ==> step == (NodegroupStepView::DescribeImages {
                image_id: ami->Ok_0,
            })
            &&& has_image && answers.images is Some && kind is Err ==> step
                == NodegroupStepView::Finish(Err(kind->Err_0))
            &&& has_kind && role is None ==> step == (NodegroupStepView::PrepareRole {
                profile_name: profile_name(group),
            })
            &&& has_kind && role is Some && role->0 is Err ==> step == NodegroupStepView::Finish(
                Err(role->0->Err_0@),
            )
            &&& has_role && mapped is None ==> step == (NodegroupStepView::MapIdentity {
                args: create_mapping_args(cluster@.name, cluster@.region, role->0->Ok_0@),
            })
            &&& has_role && mapped is Some && mapped->0 is Err ==> step
                == NodegroupStepView::Finish(
                Err(
                    ProviderErrorView::caused("Unable to map iam identity."@, mapped->0->Err_0@),
                ),
            )
        }),
{
}

/// The last steps to a node group: its template is made, then the group in the first private subnet,
/// and then it is waited for, for five minutes. The first step that fails ends the creation.
pub proof fn group_ends_with_its_nodes(
    cluster: ClusterInfo,
    group: Seq<char>,
    arch: Seq<char>,
    version: Seq<char>,
    answers: NodegroupAnswers,
)
    requires
        answers.parameter is Some && ami_of(answers.parameter->0) is Ok,
        answers.images is Some && instance_type_of(answers.images->0) is Ok,
        answers.node_role is Some && answers.node_role->0 is Ok,
        answers.mapped is Some && answers.mapped->0 is Ok,
    ensures
        ({
            let step = nodegroup_step(cluster, group, arch, version, answers);
            let template = template_result(answers.template->0);
            let subnet = first_subnet(cluster@.private_subnet_ids);
            let created = answers.created;
            let has_template = answers.template is Some && template is Ok;
            let has_subnet = has_template && subnet is Ok;
            &&& answers.template is None ==> step == (NodegroupStepView::PrepareTemplate {
                template_name: template_name(group),
                node_ami: ami_of(answers.parameter->0)->Ok_0,
                instance_type: instance_type_of(answers.images->0)->Ok_0,
            })
            &&& answers.template is Some && template is Err ==> step == NodegroupStepView::Finish(
                Err(template->Err_0),
            )
            &&& has_template && subnet is Err ==> step == NodegroupStepView::Finish(
                Err(subnet->Err_0),
            )
            &&& has_subnet && created is None ==> step == NodegroupStepView::CreateNodegroup(
                nodegroup_request(
                    cluster,
                    group,
                    answers.node_role->0->Ok_0@,
                    template->Ok_0,
                    subnet->Ok_0,
                ),
            )
            &&& has_subnet && created is Some && created->0 is Err ==> step
                == NodegroupStepView::Finish(
                Err(ProviderErrorView::caused("Failed to create nodegroup"@, created->0->Err_0@)),
            )
            &&& has_subnet && created is Some && created->0 is Ok && answers.active is None ==> step
                == (NodegroupStepView::AwaitActive { timeout_seconds: 300 })
            &&& has_subnet && created is Some && created->0 is Ok && answers.active is Some ==> step
                == NodegroupStepView::Finish(
                waited(
                    answers.active->0,
                    "Timed-out waiting for nodegroup to reach the `active` state."@,
                ),
            )
        }),
{
}

/// A node group is removed in four steps: it is deleted, waited for, for 500 seconds, then its role is
/// removed, and then its template is deleted. The first step that fails ends the removal.
pub proof fn group_is_removed_in_order(group: Seq<char>, answers: RemovalAnswers)
    ensures
        ({
            let step = removal_step(group, answers);
            let gone = waited(
                answers.gone->0,
                "Timed-out waiting for instances to be fully deleted"@,
            );
            let deleted = answers.deleted is Some && answers.deleted->0 is Ok;
            let is_gone = deleted && answers.gone is Some && gone is Ok;
            let no_role = is_gone && answers.role_removed is Some && answers.role_removed->0 is Ok;
            let template = answers.template_deleted;
            &&& answers.deleted is None <==> step == RemovalStepView::DeleteNodegroup
            &&& answers.deleted is Some && answers.deleted->0 is Err ==> step
                == RemovalStepView::Finish(
                Err(
                    ProviderErrorView::caused(
                        "Failed to delete nodegroup"@,
                        answers.deleted->0->Err_0@,
                    ),
                ),
            )
            &&& deleted && answers.gone is None ==> step == (RemovalStepView::AwaitDeleted {
                timeout_seconds: 500,
            })
            &&& deleted && answers.gone is Some && gone is Err ==> step == RemovalStepView::Finish(
                Err(gone->Err_0),
            )
            &&& is_gone && answers.role_removed is None ==> step == (RemovalStepView::RemoveRole {
                profile_name: profile_name(group),
            })
            &&& is_gone && answers.role_removed is Some && answers.role_removed->0 is Err ==> step
                == RemovalStepView::Finish(Err(answers.role_removed->0->Err_0@))
            &&& no_role && template is None ==> step == (RemovalStepView::DeleteTemplate {
                template_name: template_name(group),
            })
            &&& no_role && template is Some && template->0 is Err ==> step
                == RemovalStepView::Finish(
                Err(
                    ProviderErrorView::caused(
                        "Failed to delete launch template"@,
                        template->0->Err_0@,
                    ),
                ),
            )
            &&& no_role && template is Some && template->0 is Ok ==> step
                == RemovalStepView::Finish(Ok(()))
        }),
{
}

/// Node groups and templates are made and removed step by step, as the laws say.
pub proof fn groups_are_made_and_removed(
    cluster: &ClusterInfo,
    group: &str,
    arch: &str,
    version: &str,
    answers: &NodegroupAnswers,
    made: NodegroupStep,
    removals: &RemovalAnswers,
    removed: RemovalStep,
    ami: &str,
    kind: &str,
    lookup: &TemplateLookup,
    answer: &Option<TemplateAnswer>,
    template: TemplateStep,
)
    requires
        call_ensures(create_nodegroup, (cluster, group, arch, version, answers), made),
        call_ensures(terminate_nodegroup, (group, removals), removed),
        call_ensures(create_launch_template, (ami, kind, cluster, group, lookup, answer), template),
    ensures
        made@ == nodegroup_step(*cluster, group@, arch@, version@, *answers),
        removed@ == removal_step(group@, *removals),
        template@ == template_step(ami@, kind@, *cluster, group@, *lookup, *answer),
{
}

} // verus!
