//! The instances of an integration test: how they are launched, waited for and terminated.

use vstd::prelude::*;

use crate::integ::cluster_info::ClusterInfo;
use crate::integ::ec2_provider::{
    ami_of, ami_parameter, base64_text, create_ec2_instance, created_from, created_of,
    creation_step, first_subnet, ids_are_kept_once, ids_once, instance_settings, instance_tags,
    instance_type_of, non_conforming, reserved, run_request, tagged_of, terminate_ec2_instance,
    termination_step, wait_for_conforming_instances, waited, ArchitectureValues, CreationAnswers,
    CreationStep, CreationStepView, DesiredInstanceState, ImagesAnswer, Instance, InstancesAnswer,
    ParameterAnswer, ReservationsAnswer, StatusesAnswer, TerminationAnswers, TerminationStep,
    TerminationStepView, Wait, WaitAnswer,
};
use crate::integ::eks_provider::present;
use crate::integ::error::ProviderErrorView;

verus! {

/// The image is the one that the parameter for the two versions and the architecture names.
pub proof fn images_are_named_by_parameters(
    arch: Seq<char>,
    version: Seq<char>,
    cluster_version: Seq<char>,
    id: String,
    e: String,
)
    ensures
        ami_parameter(arch, version, cluster_version) == "/aws/service/bottlerocket/aws-k8s-"@
            + cluster_version + "/"@ + arch + "/"@ + version + "/image_id"@,
        ({
            let found: ParameterAnswer = Ok(Some(Some(id)));
            let empty: ParameterAnswer = Ok(Some(None));
            let none: ParameterAnswer = Ok(None);
            let failed: ParameterAnswer = Err(e);
            &&& ami_of(found) == Ok::<Seq<char>, ProviderErrorView>(id@)
            &&& ami_of(empty) is Err && ami_of(empty)->Err_0 == ProviderErrorView::because(
                "ami id is missing"@,
            )
            &&& ami_of(none) is Err && ami_of(none)->Err_0 == ProviderErrorView::because(
                "Unable to get ami id"@,
            )
            &&& ami_of(failed) is Err && ami_of(failed)->Err_0 == ProviderErrorView::caused(
                "Unable to get ami id"@,
                e@,
            )
        }),
{
}

/// Instances are of the type that suits the architecture of the first image.
pub proof fn instances_suit_their_image(images: Vec<Option<ArchitectureValues>>, e: String)
    ensures
        ({
            let found: ImagesAnswer = Ok(Some(images));
            let none: ImagesAnswer = Ok(None);
            let failed: ImagesAnswer = Err(e);
            &&& instance_type_of(found) is Ok <==> images@.len() > 0 && images@[0] is Some
            &&& images@.len() > 0 && images@[0] == Some(ArchitectureValues::X8664)
                ==> instance_type_of(found)->Ok_0 == "m5.large"@
            &&& images@.len() > 0 && images@[0] is Some && images@[0]
                != Some(ArchitectureValues::X8664) ==> instance_type_of(found)->Ok_0 == "m6g.large"@
            &&& images@.len() > 0 && images@[0] is None ==> instance_type_of(found)->Err_0
                == ProviderErrorView::because("Ami has no architecture"@)
            &&& images@.len() == 0 ==> instance_type_of(found)->Err_0 == ProviderErrorView::because(
                "Unable to get ami architecture"@,
            )
            &&& instance_type_of(none) is Err && instance_type_of(none)->Err_0
                == ProviderErrorView::because("Unable to get ami architecture"@)
            &&& instance_type_of(failed) is Err && instance_type_of(failed)->Err_0
                == ProviderErrorView::caused("Unable to get ami architecture"@, e@)
        }),
{
}

/// Three instances are asked for, in the first private subnet, with the groups of the nodes and the
/// shared ones, and with the profile of the nodes. They are told the cluster that they join.
pub proof fn instances_join_the_cluster(cluster: ClusterInfo, ami: Seq<char>, kind: Seq<char>)
    ensures
        ({
            let c = cluster@;
            let asked = run_request(cluster, ami, kind);
            &&& asked is Ok <==> c.private_subnet_ids.len() > 0
            &&& asked is Err ==> asked->Err_0 == ProviderErrorView::because(
                "There are no private subnet ids"@,
            )
            &&& asked is Ok ==> {
                let q = asked->Ok_0;
                &&& q.min_count == 3 && q.max_count == 3
                &&& q.subnet_id == c.private_subnet_ids[0]
                &&& q.security_group_ids == c.nodegroup_sg + c.clustershared_sg
                &&& q.image_id == ami
                &&& q.instance_type == kind
                &&& q.tags == instance_tags(c.name)
                &&& q.user_data == base64_text(
                    instance_settings(c.endpoint, c.name, c.certificate),
                )
                &&& q.iam_instance_profile_arn == c.iam_instance_profile_arn
            }
        }),
{
}

/// The first of some subnets is taken; without any there is an error.
pub proof fn first_subnet_is_taken(subnets: Seq<Seq<char>>)
    ensures
        subnets.len() > 0 ==> first_subnet(subnets) == Ok::<Seq<char>, ProviderErrorView>(subnets[0]),
        subnets.len() == 0 ==> first_subnet(subnets) is Err && first_subnet(subnets)->Err_0
            == ProviderErrorView::because("There are no private subnet ids"@),
{
}

/// Instances bear a name, the tag of their cluster and that of the test.
pub proof fn instances_are_tagged(cluster: Seq<char>)
    ensures
        instance_tags(cluster).len() == 3,
        instance_tags(cluster)[0] == ("Name"@, cluster + "_node"@),
        instance_tags(cluster)[1] == ("kubernetes.io/cluster/"@ + cluster, "owned"@),
        instance_tags(cluster)[2] == ("brupop"@, "integration-test"@),
{
}

/// Instances are told to update at once, and the endpoint, the name and the certificate of their
/// cluster.
pub proof fn instances_are_told_their_cluster(
    endpoint: Seq<char>,
    cluster: Seq<char>,
    certificate: Seq<char>,
)
    ensures
        instance_settings(endpoint, cluster, certificate)
            == "[settings.updates]\nignore-waves = true\n    \n[settings.kubernetes]\napi-server = \""@
            + endpoint + "\"\ncluster-name = \""@ + cluster + "\"\ncluster-certificate = \""@ + (
        certificate + "\""@),
{
}

/// An id is kept where it was not kept before, behind those that were.
pub proof fn ids_are_kept_in_order(found: Seq<Seq<char>>, id: Seq<char>)
    ensures
        ids_once(Seq::empty()) == Seq::<Seq<char>>::empty(),
        found.contains(id) ==> ids_once(found.push(id)) == ids_once(found),
        !found.contains(id) ==> ids_once(found.push(id)) == ids_once(found).push(id),
{
    ids_are_kept_once(found);
    assert(found.push(id).drop_last() =~= found);
    assert(ids_once(found).contains(id) <==> found.contains(id));
}

/// Whether an instance is complete: its id and its name are known.
pub open spec fn is_complete(i: Instance) -> bool {
    i.instance_id is Some && i.private_dns_name is Some
}

/// The ids of complete instances, in their order.
pub open spec fn instance_ids(instances: Seq<Instance>) -> Seq<Seq<char>> {
    instances.map_values(|i: Instance| i.instance_id->0@)
}

/// Instances are taken as they are listed: their ids, each once, and their names, one for each. That
/// is so where all of them are complete.
pub proof fn complete_instances_are_taken(instances: Seq<Instance>)
    requires
        forall|i: int| 0 <= i < instances.len() ==> is_complete(#[trigger] instances[i]),
    ensures
        created_from(instances) is Ok,
        (created_from(instances)->Ok_0).0 == ids_once(instance_ids(instances)),
        (created_from(instances)->Ok_0).1.len() == instances.len(),
        forall|i: int|
            0 <= i < instances.len() ==> #[trigger] (created_from(instances)->Ok_0).1[i]
                == instances[i].private_dns_name->0@,
    decreases instances.len(),
{
    if instances.len() > 0 {
        let rest = instances.drop_last();
        assert forall|i: int| 0 <= i < rest.len() implies is_complete(#[trigger] rest[i]) by {
            assert(is_complete(instances[i]));
        }
        complete_instances_are_taken(rest);
        assert(is_complete(instances[instances.len() - 1]));
        assert(instance_ids(instances).drop_last() =~= instance_ids(rest));
        assert(instance_ids(instances).last() == instances.last().instance_id->0@);
        let before = (created_from(rest)->Ok_0).1;
        assert forall|i: int| 0 <= i < instances.len() implies #[trigger] (created_from(
            instances,
        )->Ok_0).1[i] == instances[i].private_dns_name->0@ by {
            if i < rest.len() {
                assert(before[i] == rest[i].private_dns_name->0@);
            }
        }
    } else {
        assert(instance_ids(instances) =~= Seq::<Seq<char>>::empty());
    }
}

/// The first instance that is not complete is told: it lacks its id, or else its name.
pub proof fn incomplete_instances_are_told(instances: Seq<Instance>, k: int)
    requires
        0 <= k < instances.len(),
        forall|i: int| 0 <= i < k ==> is_complete(#[trigger] instances[i]),
        !is_complete(instances[k]),
    ensures
        created_from(instances) is Err,
        created_from(instances)->Err_0 == ProviderErrorView::because(
            if instances[k].instance_id is None {
                "Instance missing instance_id field"@
            } else {
                "Instance missing private_dns_name field"@
            },
        ),
    decreases instances.len(),
{
    let rest = instances.drop_last();
    if k < instances.len() - 1 {
        assert forall|i: int| 0 <= i < k implies is_complete(#[trigger] rest[i]) by {
            assert(is_complete(instances[i]));
        }
        incomplete_instances_are_told(rest, k);
    } else {
        assert forall|i: int| 0 <= i < rest.len() implies is_complete(#[trigger] rest[i]) by {
            assert(is_complete(instances[i]));
        }
        complete_instances_are_taken(rest);
    }
}

/// The created instances are those of the answer; an answer without any and a failure are told.
pub proof fn created_instances_are_told(instances: Vec<Instance>, e: String)
    ensures
        ({
            let made: InstancesAnswer = Ok(Some(instances));
            let none: InstancesAnswer = Ok(None);
            let failed: InstancesAnswer = Err(e);
            &&& created_of(made) == created_from(instances@)
            &&& created_of(none) is Err && created_of(none)->Err_0 == ProviderErrorView::because(
                "Results missing instances field"@,
            )
            &&& created_of(failed) is Err && created_of(failed)->Err_0
                == ProviderErrorView::caused("Failed to create instances"@, e@)
        }),
{
}

/// The instances that are not yet as desired are those in any other state.
pub proof fn other_states_are_asked_for(desired: DesiredInstanceState)
    ensures
        desired is Running ==> desired.name_text() == "Running"@ && desired.other_states() =~= seq![
            "pending"@,
            "shutting-down"@,
            "stopping"@,
            "stopped"@,
            "terminated"@,
        ],
        desired is Terminated ==> desired.name_text() == "Terminated"@
            && desired.other_states() =~= seq![
            "pending"@,
            "shutting-down"@,
            "stopping"@,
            "stopped"@,
            "running"@,
        ],
{
}

/// Instances are waited for, with a look each second, until none is left that is not as desired. A
/// failure ends the wait.
pub proof fn instances_are_waited_for(
    answer: &StatusesAnswer,
    desired: DesiredInstanceState,
    r: Wait,
)
    requires
        call_ensures(wait_for_conforming_instances, (answer, desired), r),
    ensures
        *answer is Ok && answer->Ok_0 is Some ==> {
            let left = present(answer->Ok_0->0@);
            &&& left.len() > 0 <==> r is LookAgain
            &&& left.len() > 0 ==> r->millis == 1000
            &&& left.len() == 0 ==> r is Done && r->0 is Ok
            &&& non_conforming(*answer, desired) == Ok::<Seq<Seq<char>>, ProviderErrorView>(left)
        },
        *answer is Ok && answer->Ok_0 is None ==> r is Done && r->0 is Err && r->0->Err_0@
            == ProviderErrorView::because("No instance statuses were provided."@),
        *answer is Err ==> r is Done && r->0 is Err && r->0->Err_0@ == ProviderErrorView::caused(
            "Unable to list instances in the '"@ + desired.name_text() + "' state."@,
            answer->Err_0@,
        ),
{
}

/// A wait that ends in time ends as it ended; one that does not is an error.
pub proof fn waits_end_in_time(answer: WaitAnswer, message: Seq<char>)
    ensures
        waited(answer, message) is Ok <==> answer is Ok && answer->Ok_0 is Ok,
        answer is Ok && answer->Ok_0 is Err ==> waited(answer, message)->Err_0
            == answer->Ok_0->Err_0@,
        answer is Err ==> waited(answer, message)->Err_0 == ProviderErrorView::caused(
            message,
            answer->Err_0@,
        ),
{
}

/// Tagged instances are found in all reservations, one after the other.
pub proof fn reservations_are_searched_one_by_one(
    first: Seq<Option<Vec<Option<String>>>>,
    second: Seq<Option<Vec<Option<String>>>>,
    entries: Vec<Option<String>>,
)
    ensures
        reserved(first + second) == reserved(first) + reserved(second),
        reserved(seq![Some(entries)]) == present(entries@),
        reserved(seq![None::<Vec<Option<String>>>]) == Seq::<Seq<char>>::empty(),
    decreases second.len(),
{
    reveal_with_fuel(reserved, 2);
    assert(seq![Some(entries)].drop_last() =~= Seq::<Option<Vec<Option<String>>>>::empty());
    assert(seq![None::<Vec<Option<String>>>].drop_last() =~= Seq::<
        Option<Vec<Option<String>>>,
    >::empty());
    assert(reserved(seq![Some(entries)]) =~= present(entries@));
    assert(reserved(seq![None::<Vec<Option<String>>>]) =~= Seq::<Seq<char>>::empty());
    if second.len() == 0 {
        assert(first + second =~= first);
        assert(reserved(first) + reserved(second) =~= reserved(first));
    } else {
        reservations_are_searched_one_by_one(first, second.drop_last(), entries);
        assert((first + second).drop_last() =~= first + second.drop_last());
        assert(reserved(first + second) =~= reserved(first) + reserved(second));
    }
}

/// The tagged instances are those of the answer, each once; an answer without any and a failure are
/// told.
pub proof fn tagged_instances_are_told(reservations: Vec<Option<Vec<Option<String>>>>, e: String)
    ensures
        ({
            let found: ReservationsAnswer = Ok(Some(reservations));
            let none: ReservationsAnswer = Ok(None);
            let failed: ReservationsAnswer = Err(e);
            &&& tagged_of(found) == Ok::<Seq<Seq<char>>, ProviderErrorView>(
                ids_once(reserved(reservations@)),
            )
            &&& tagged_of(none) is Err && tagged_of(none)->Err_0 == ProviderErrorView::because(
                "No instances were provided."@,
            )
            &&& tagged_of(failed) is Err && tagged_of(failed)->Err_0 == ProviderErrorView::caused(
                "Unable to get instances."@,
                e@,
            )
        }),
{
}

/// Instances are created in four steps: the image is looked for, then described, then instances of it
/// are run, and then they are waited for, for a minute. The first step that fails ends the creation,
/// and the created instances are told at the end.
pub proof fn instances_are_created_in_order(
    cluster: ClusterInfo,
    arch: Seq<char>,
    version: Seq<char>,
    answers: CreationAnswers,
)
    ensures
        ({
            let step = creation_step(cluster, arch, version, answers);
            let ami = ami_of(answers.parameter->0);
            let kind = instance_type_of(answers.images->0);
            let asked = run_request(cluster, ami->Ok_0, kind->Ok_0);
            let created = created_of(answers.instances->0);
            let running = waited(
                answers.running->0,
                "Timed-out waiting for instances to reach the `running` state."@,
            );
            let has_image = answers.parameter is Some && ami is Ok;
            let has_kind = has_image && answers.images is Some && kind is Ok;
            let has_request = has_kind && asked is Ok;
            let has_created = has_request && answers.instances is Some && created is Ok;
            &&& answers.parameter is None ==> step == (CreationStepView::GetParameter {
                name: ami_parameter(arch, version, cluster@.version),
            })
            &&& answers.parameter is Some && ami is Err ==> step == CreationStepView::Finish(
                Err(ami->Err_0),
            )
            &&& has_image && answers.images is None ==> step == (CreationStepView::DescribeImages {
                image_id: ami->Ok_0,
            })
            &&& has_image && answers.images is Some && kind is Err ==> step
                == CreationStepView::Finish(Err(kind->Err_0))
            &&& has_kind && asked is Err ==> step == CreationStepView::Finish(Err(asked->Err_0))
            &&& has_request && answers.instances is None ==> step == CreationStepView::RunInstances(
                asked->Ok_0,
            )
            &&& has_request && answers.instances is Some && created is Err ==> step
                == CreationStepView::Finish(Err(created->Err_0))
            &&& has_created && answers.running is None ==> step == (CreationStepView::AwaitRunning {
                instance_ids: (created->Ok_0).0,
                timeout_seconds: 60,
            })
            &&& has_created && answers.running is Some && running is Err ==> step
                == CreationStepView::Finish(Err(running->Err_0))
            &&& has_created && answers.running is Some && running is Ok ==> step
                == CreationStepView::Finish(Ok(created->Ok_0))
        }),
{
}

/// Instances are terminated in three steps: those with the tag of the test are looked for, then
/// terminated, and then waited for, for five minutes. The first step that fails ends the termination.
pub proof fn instances_are_terminated_in_order(answers: TerminationAnswers)
    ensures
        ({
            let step = termination_step(answers);
            let ids = tagged_of(answers.tagged->0);
            let found = answers.tagged is Some && ids is Ok;
            let done = answers.terminated;
            &&& answers.tagged is None ==> step == (TerminationStepView::FindTagged {
                tag: "brupop"@,
            })
            &&& answers.tagged is Some && ids is Err ==> step == TerminationStepView::Finish(
                Err(ids->Err_0),
            )
            &&& found && done is None ==> step == (TerminationStepView::Terminate {
                instance_ids: ids->Ok_0,
            })
            &&& found && done is Some && done->0 is Err ==> step == TerminationStepView::Finish(
                Err(
                    ProviderErrorView::caused("Failed to terminate instances"@, done->0->Err_0@),
                ),
            )
            &&& found && done is Some && done->0 is Ok && answers.gone is None ==> step == (
            TerminationStepView::AwaitTerminated { instance_ids: ids->Ok_0, timeout_seconds: 300 })
            &&& found && done is Some && done->0 is Ok && answers.gone is Some ==> step
                == TerminationStepView::Finish(
                waited(
                    answers.gone->0,
                    "Timed-out waiting for instances to reach the `terminated` state."@,
                ),
            )
        }),
{
}

/// Instances are created and terminated step by step, as the laws say.
pub proof fn instances_are_created_and_terminated(
    cluster: &ClusterInfo,
    arch: &str,
    version: &str,
    answers: &CreationAnswers,
    created: CreationStep,
    ends: &TerminationAnswers,
    terminated: TerminationStep,
)
    requires
        call_ensures(create_ec2_instance, (cluster, arch, version, answers), created),
        call_ensures(terminate_ec2_instance, (ends,), terminated),
    ensures
        created@ == creation_step(*cluster, arch@, version@, *answers),
        terminated@ == termination_step(*ends),
{
}

} // verus!
