//! The instances that an integration test launches: which image and type they have, how they
//! join the cluster, and when they are there or gone.

use vstd::prelude::*;
use vstd::string::*;

use super::cluster_info::ClusterInfo;
use super::eks_provider::{present, present_ids, text_result};
use super::error::{ProviderError, ProviderErrorView, ProviderResult};
use crate::models::manifest::views;
use crate::text::{concat2, concat3, concat5, contains_text, copy_texts, texts};

verus! {

/// The default number of instances to spin up.
pub const DEFAULT_INSTANCE_COUNT: i32 = 3;

/// The tag name used to create instances.
pub const INSTANCE_TAG_NAME: &'static str = "brupop";

pub const INSTANCE_TAG_VALUE: &'static str = "integration-test";

/// Seconds that instances may take to run.
pub const RUNNING_TIMEOUT: u64 = 60;

/// Seconds that instances may take to terminate.
pub const TERMINATED_TIMEOUT: u64 = 300;

/// Milliseconds between two looks at instances.
pub const POLL_MILLIS: u64 = 1000;

/// The instances that were created.
#[derive(Debug)]
pub struct CreatedEc2Instances {
    /// The ids of all created instances, each once
    pub instance_ids: Vec<String>,
    /// The private dns name (node name) of all created instances
    pub private_dns_name: Vec<String>,
}

/// Launches instances.
#[derive(Copy, Clone, Debug, PartialEq, Eq)]
pub struct Ec2Creator {}

/// The architecture of an image.
#[derive(Copy, Clone, Debug, PartialEq, Eq, Structural)]
pub enum ArchitectureValues {
    X8664,
    Arm64,
    /// An architecture on which no instances are launched.
    Unsupported,
}

/// The name of the parameter that holds the id of an image.
pub open spec fn ami_parameter(
    arch: Seq<char>,
    br_version: Seq<char>,
    eks_version: Seq<char>,
) -> Seq<char> {
    "/aws/service/bottlerocket/aws-k8s-"@ + eks_version + "/"@ + arch + "/"@ + br_version
        + "/image_id"@
}

/// The name of the parameter that holds the id of an image.
pub fn ami_parameter_name(arch: &str, br_version: &str, eks_version: &str) -> (r: String)
    ensures
        r@ == ami_parameter(arch@, br_version@, eks_version@),
{
    let head = concat5("/aws/service/bottlerocket/aws-k8s-", eks_version, "/", arch, "/");
    concat3(head.as_str(), br_version, "/image_id")
}

/// The parameter and its value, or the text of the error of asking for it.
pub type ParameterAnswer = Result<Option<Option<String>>, String>;

/// What is made of an answer on the id of an image.
pub open spec fn ami_of(answer: ParameterAnswer) -> Result<Seq<char>, ProviderErrorView> {
    match answer {
        Err(e) => Err(ProviderErrorView::caused("Unable to get ami id"@, e@)),
        Ok(None) => Err(ProviderErrorView::because("Unable to get ami id"@)),
        Ok(Some(None)) => Err(ProviderErrorView::because("ami id is missing"@)),
        Ok(Some(Some(id))) => Ok(id@),
    }
}

/// Find the node ami id to use.
pub fn find_ami_id(answer: &ParameterAnswer) -> (r: ProviderResult<String>)
    ensures
        text_result(r) == ami_of(*answer),
{
    match answer {
        Err(e) => Err(
            ProviderError::new_with_source_and_context(
                String::from_str("Unable to get ami id"),
                e.clone(),
            ),
        ),
        Ok(None) => Err(ProviderError::new_with_context(String::from_str("Unable to get ami id"))),
        Ok(Some(None)) => Err(
            ProviderError::new_with_context(String::from_str("ami id is missing")),
        ),
        Ok(Some(Some(id))) => Ok(id.clone()),
    }
}

/// The architectures of the images that were found, or the text of the error of asking.
pub type ImagesAnswer = Result<Option<Vec<Option<ArchitectureValues>>>, String>;

/// The type of the instances that run an image.
pub open spec fn instance_type_of(answer: ImagesAnswer) -> Result<Seq<char>, ProviderErrorView> {
    match answer {
        Err(e) => Err(ProviderErrorView::caused("Unable to get ami architecture"@, e@)),
        Ok(None) => Err(ProviderErrorView::because("Unable to get ami architecture"@)),
        Ok(Some(images)) => if images@.len() == 0 {
            Err(ProviderErrorView::because("Unable to get ami architecture"@))
        } else {
            match images@[0] {
                None => Err(ProviderErrorView::because("Ami has no architecture"@)),
                Some(ArchitectureValues::X8664) => Ok("m5.large"@),
                Some(_) => Ok("m6g.large"@),
            }
        },
    }
}

/// Determine the instance type to use: for `x86_64` use `m5.large`, else `m6g.large`
pub fn instance_type(answer: &ImagesAnswer) -> (r: ProviderResult<String>)
    ensures
        text_result(r) == instance_type_of(*answer),
{
    match answer {
        Err(e) => Err(
            ProviderError::new_with_source_and_context(
                String::from_str("Unable to get ami architecture"),
                e.clone(),
            ),
        ),
        Ok(None) => Err(
            ProviderError::new_with_context(String::from_str("Unable to get ami architecture")),
        ),
        Ok(Some(images)) => {
            if images.len() == 0 {
                return Err(
                    ProviderError::new_with_context(
                        String::from_str("Unable to get ami architecture"),
                    ),
                );
            }
            match images[0] {
                None => Err(
                    ProviderError::new_with_context(String::from_str("Ami has no architecture")),
                ),
                Some(ArchitectureValues::X8664) => Ok(String::from_str("m5.large")),
                Some(ArchitectureValues::Arm64) => Ok(String::from_str("m6g.large")),
                Some(ArchitectureValues::Unsupported) => Ok(String::from_str("m6g.large")),
            }
        },
    }
}

/// The first of some subnets.
pub open spec fn first_subnet(subnet_ids: Seq<Seq<char>>) -> Result<Seq<char>, ProviderErrorView> {
    if subnet_ids.len() == 0 {
        Err(ProviderErrorView::because("There are no private subnet ids"@))
    } else {
        Ok(subnet_ids[0])
    }
}

/// The first of some subnets.
pub fn first_subnet_id(subnet_ids: &[String]) -> (r: ProviderResult<String>)
    ensures
        text_result(r) == first_subnet(views(subnet_ids@)),
{
    if subnet_ids.len() == 0 {
        Err(ProviderError::new_with_context(String::from_str("There are no private subnet ids")))
    } else {
        Ok(subnet_ids[0].clone())
    }
}

/// The tags of the instances of a cluster.
pub open spec fn instance_tags(cluster_name: Seq<char>) -> Seq<(Seq<char>, Seq<char>)> {
    seq![
        ("Name"@, cluster_name + "_node"@),
        ("kubernetes.io/cluster/"@ + cluster_name, "owned"@),
        (INSTANCE_TAG_NAME@, INSTANCE_TAG_VALUE@),
    ]
}

/// A list of tags as texts.
pub open spec fn tag_views(v: Seq<(String, String)>) -> Seq<(Seq<char>, Seq<char>)> {
    v.map_values(|t: (String, String)| (t.0@, t.1@))
}

/// The tags of the instances of a cluster.
pub fn tag_specifications(cluster_name: &str) -> (r: Vec<(String, String)>)
    ensures
        tag_views(r@) == instance_tags(cluster_name@),
{
    let mut tags: Vec<(String, String)> = Vec::new();
    tags.push((String::from_str("Name"), concat2(cluster_name, "_node")));
    tags.push((concat2("kubernetes.io/cluster/", cluster_name), String::from_str("owned")));
    tags.push((String::from_str(INSTANCE_TAG_NAME), String::from_str(INSTANCE_TAG_VALUE)));
    assert(tag_views(tags@) =~= instance_tags(cluster_name@));
    tags
}

/// What `base64::encode` makes of a text.
pub uninterp spec fn base64_text(text: Seq<char>) -> Seq<char>;

/// Calls `base64::encode` on the bytes of a text; `base64_text` names the result.
#[verifier::external_body]
pub(crate) fn base64_encode(text: &str) -> (r: String)
    ensures
        r@ == base64_text(text@),
{
    base64::encode(text)
}

/// The settings with which an instance joins a cluster.
pub open spec fn instance_settings(
    endpoint: Seq<char>,
    cluster_name: Seq<char>,
    certificate: Seq<char>,
) -> Seq<char> {
    "[settings.updates]\nignore-waves = true\n    \n[settings.kubernetes]\napi-server = \""@
        + endpoint + "\"\ncluster-name = \""@ + cluster_name + "\"\ncluster-certificate = \""@ + (
    certificate + "\""@)
}

/// The settings with which an instance joins a cluster.
pub fn settings(endpoint: &str, cluster_name: &str, certificate: &str) -> (r: String)
    ensures
        r@ == instance_settings(endpoint@, cluster_name@, certificate@),
{
    let head = concat5(
        "[settings.updates]\nignore-waves = true\n    \n[settings.kubernetes]\napi-server = \"",
        endpoint,
        "\"\ncluster-name = \"",
        cluster_name,
        "\"\ncluster-certificate = \"",
    );
    let tail = concat2(certificate, "\"");
    concat2(head.as_str(), tail.as_str())
}

/// The settings with which an instance joins a cluster, as they are handed to it.
pub fn userdata(endpoint: &str, cluster_name: &str, certificate: &str) -> (r: String)
    ensures
        r@ == base64_text(instance_settings(endpoint@, cluster_name@, certificate@)),
{
    base64_encode(settings(endpoint, cluster_name, certificate).as_str())
}

/// A request for instances.
#[derive(Debug)]
pub struct RunInstances {
    pub min_count: i32,
    pub max_count: i32,
    pub subnet_id: String,
    pub security_group_ids: Vec<String>,
    pub image_id: String,
    pub instance_type: String,
    pub tags: Vec<(String, String)>,
    pub user_data: String,
    pub iam_instance_profile_arn: String,
}

/// The contents of a `RunInstances`.
pub struct RunInstancesView {
    pub min_count: i32,
    pub max_count: i32,
    pub subnet_id: Seq<char>,
    pub security_group_ids: Seq<Seq<char>>,
    pub image_id: Seq<char>,
    pub instance_type: Seq<char>,
    pub tags: Seq<(Seq<char>, Seq<char>)>,
    pub user_data: Seq<char>,
    pub iam_instance_profile_arn: Seq<char>,
}

impl View for RunInstances {
    type V = RunInstancesView;

    open spec fn view(&self) -> RunInstancesView {
        RunInstancesView {
            min_count: self.min_count,
            max_count: self.max_count,
            subnet_id: self.subnet_id@,
            security_group_ids: texts(self.security_group_ids@),
            image_id: self.image_id@,
            instance_type: self.instance_type@,
            tags: tag_views(self.tags@),
            user_data: self.user_data@,
            iam_instance_profile_arn: self.iam_instance_profile_arn@,
        }
    }
}

/// The request for instances of a cluster. They get the security groups of the node group and
/// those that the cluster shares.
pub open spec fn run_request(
    cluster: ClusterInfo,
    node_ami: Seq<char>,
    instance_type: Seq<char>,
) -> Result<RunInstancesView, ProviderErrorView> {
    match first_subnet(cluster@.private_subnet_ids) {
        Err(e) => Err(e),
        Ok(subnet_id) => Ok(
            RunInstancesView {
                min_count: DEFAULT_INSTANCE_COUNT,
                max_count: DEFAULT_INSTANCE_COUNT,
                subnet_id,
                security_group_ids: cluster@.nodegroup_sg + cluster@.clustershared_sg,
                image_id: node_ami,
                instance_type,
                tags: instance_tags(cluster@.name),
                user_data: base64_text(
                    instance_settings(cluster@.endpoint, cluster@.name, cluster@.certificate),
                ),
                iam_instance_profile_arn: cluster@.iam_instance_profile_arn,
            },
        ),
    }
}

/// The request for instances of a cluster.
pub fn run_instances(cluster: &ClusterInfo, node_ami: String, instance_type: String) -> (r:
    ProviderResult<RunInstances>)
    ensures
        match r {
            Ok(q) => run_request(*cluster, node_ami@, instance_type@) == Ok::<
                RunInstancesView,
                ProviderErrorView,
            >(q@),
            Err(e) => run_request(*cluster, node_ami@, instance_type@) == Err::<
                RunInstancesView,
                ProviderErrorView,
            >(e@),
        },
{
    let subnet_id = match first_subnet_id(cluster.private_subnet_ids.as_slice()) {
        Ok(id) => id,
        Err(e) => return Err(e),
    };
    let mut security_group_ids = copy_texts(&cluster.nodegroup_sg);
    let mut shared = copy_texts(&cluster.clustershared_sg);
    let ghost first = security_group_ids@;
    let ghost second = shared@;
    security_group_ids.append(&mut shared);
    proof {
        assert(texts(first + second) =~= texts(first) + texts(second));
        assert(texts(cluster.nodegroup_sg@) =~= cluster@.nodegroup_sg);
        assert(texts(cluster.clustershared_sg@) =~= cluster@.clustershared_sg);
    }
    Ok(
        RunInstances {
            min_count: DEFAULT_INSTANCE_COUNT,
            max_count: DEFAULT_INSTANCE_COUNT,
            subnet_id,
            security_group_ids,
            image_id: node_ami,
            instance_type,
            tags: tag_specifications(cluster.name.as_str()),
            user_data: userdata(
                cluster.endpoint.as_str(),
                cluster.name.as_str(),
                cluster.certificate.as_str(),
            ),
            iam_instance_profile_arn: cluster.iam_instance_profile_arn.clone(),
        },
    )
}

/// An instance: its id and its private DNS name.
#[derive(Debug)]
pub struct Instance {
    pub instance_id: Option<String>,
    pub private_dns_name: Option<String>,
}

/// The instances that were launched, or the text of the error of launching them.
pub type InstancesAnswer = Result<Option<Vec<Instance>>, String>;

/// A list with an entry added where it is not in it yet.
pub open spec fn with_entry(s: Seq<Seq<char>>, x: Seq<char>) -> Seq<Seq<char>> {
    if s.contains(x) {
        s
    } else {
        s.push(x)
    }
}

/// The ids and names of instances; the first instance that lacks either is an error.
pub open spec fn created_from(instances: Seq<Instance>) -> Result<
    (Seq<Seq<char>>, Seq<Seq<char>>),
    ProviderErrorView,
>
    decreases instances.len(),
{
    if instances.len() == 0 {
        Ok((Seq::empty(), Seq::empty()))
    } else {
        match created_from(instances.drop_last()) {
            Err(e) => Err(e),
            Ok((ids, names)) => match (
                instances.last().instance_id,
                instances.last().private_dns_name,
            ) {
                (None, _) => Err(
                    ProviderErrorView::because("Instance missing instance_id field"@),
                ),
                (_, None) => Err(
                    ProviderErrorView::because("Instance missing private_dns_name field"@),
                ),
                (Some(id), Some(name)) => Ok((with_entry(ids, id@), names.push(name@))),
            },
        }
    }
}

/// What is made of an answer on launched instances.
pub open spec fn created_of(answer: InstancesAnswer) -> Result<
    (Seq<Seq<char>>, Seq<Seq<char>>),
    ProviderErrorView,
> {
    match answer {
        Err(e) => Err(ProviderErrorView::caused("Failed to create instances"@, e@)),
        Ok(None) => Err(ProviderErrorView::because("Results missing instances field"@)),
        Ok(Some(instances)) => created_from(instances@),
    }
}

/// Adds an entry to a list that does not hold it yet.
fn add_entry(list: &mut Vec<String>, entry: &String)
    ensures
        texts(final(list)@) == with_entry(texts(old(list)@), entry@),
{
    if !contains_text(list, entry.as_str()) {
        let ghost was = list@;
        list.push(entry.clone());
        assert(texts(list@) =~= texts(was).push(entry@));
    }
}

/// If some of the instances give an error, so do all of them.
proof fn lemma_created_error(instances: Seq<Instance>, i: int)
    requires
        0 <= i <= instances.len(),
        created_from(instances.take(i)) is Err,
    ensures
        created_from(instances) == created_from(instances.take(i)),
    decreases instances.len() - i,
{
    if i < instances.len() {
        assert(instances.take(i + 1).drop_last() =~= instances.take(i));
        lemma_created_error(instances, i + 1);
    } else {
        assert(instances.take(i) =~= instances);
    }
}

/// The ids and names of the instances that were launched.
pub fn created_instances(answer: &InstancesAnswer) -> (r: ProviderResult<CreatedEc2Instances>)
    ensures
        match r {
            Ok(c) => created_of(*answer) == Ok::<
                (Seq<Seq<char>>, Seq<Seq<char>>),
                ProviderErrorView,
            >((texts(c.instance_ids@), texts(c.private_dns_name@))),
            Err(e) => created_of(*answer) == Err::<
                (Seq<Seq<char>>, Seq<Seq<char>>),
                ProviderErrorView,
            >(e@),
        },
{
    match answer {
        Err(e) => Err(
            ProviderError::new_with_source_and_context(
                String::from_str("Failed to create instances"),
                e.clone(),
            ),
        ),
        Ok(None) => Err(
            ProviderError::new_with_context(String::from_str("Results missing instances field")),
        ),
        Ok(Some(instances)) => {
            let mut instance_ids: Vec<String> = Vec::new();
            let mut private_dns_name: Vec<String> = Vec::new();
            let mut i: usize = 0;
            proof {
                assert(texts(instance_ids@) =~= Seq::empty());
                assert(texts(private_dns_name@) =~= Seq::empty());
            }
            while i < instances.len()
                invariant
                    i <= instances@.len(),
                    *answer == Ok::<Option<Vec<Instance>>, String>(Some(*instances)),
                    created_from(instances@.take(i as int)) == Ok::<
                        (Seq<Seq<char>>, Seq<Seq<char>>),
                        ProviderErrorView,
                    >((texts(instance_ids@), texts(private_dns_name@))),
                decreases instances@.len() - i,
            {
                proof {
                    assert(instances@.take(i + 1).drop_last() =~= instances@.take(i as int));
                    assert(instances@.take(i + 1).last() == instances@[i as int]);
                }
                match &instances[i].instance_id {
                    None => {
                        proof {
                            lemma_created_error(instances@, i + 1);
                        }
                        return Err(
                            ProviderError::new_with_context(
                                String::from_str("Instance missing instance_id field"),
                            ),
                        );
                    },
                    Some(id) => {
                        add_entry(&mut instance_ids, id);
                    },
                }
                match &instances[i].private_dns_name {
                    None => {
                        proof {
                            lemma_created_error(instances@, i + 1);
                        }
                        return Err(
                            ProviderError::new_with_context(
                                String::from_str("Instance missing private_dns_name field"),
                            ),
                        );
                    },
                    Some(name) => {
                        let ghost was = private_dns_name@;
                        private_dns_name.push(name.clone());
                        assert(texts(private_dns_name@) =~= texts(was).push(name@));
                    },
                }
                i = i + 1;
            }
            assert(instances@.take(i as int) =~= instances@);
            Ok(CreatedEc2Instances { instance_ids, private_dns_name })
        },
    }
}

/// The state that instances should come to.
#[derive(Copy, Clone, Debug, PartialEq, Eq, Structural)]
pub enum DesiredInstanceState {
    Running,
    Terminated,
}

impl DesiredInstanceState {
    /// The name of the state.
    pub open spec fn name_text(self) -> Seq<char> {
        match self {
            DesiredInstanceState::Running => "Running"@,
            DesiredInstanceState::Terminated => "Terminated"@,
        }
    }

    /// The states of instances that are not where they should be.
    pub open spec fn other_states(self) -> Seq<Seq<char>> {
        seq![
            "pending"@,
            "shutting-down"@,
            "stopping"@,
            "stopped"@,
            match self {
                DesiredInstanceState::Running => "terminated"@,
                DesiredInstanceState::Terminated => "running"@,
            },
        ]
    }

    /// The filter for instances that are not where they should be: its name and its values.
    pub fn filter(&self) -> (r: (String, Vec<String>))
        ensures
            r.0@ == "instance-state-name"@,
            texts(r.1@) == self.other_states(),
    {
        let mut values: Vec<String> = Vec::new();
        values.push(String::from_str("pending"));
        values.push(String::from_str("shutting-down"));
        values.push(String::from_str("stopping"));
        values.push(String::from_str("stopped"));
        values.push(
            String::from_str(
                match self {
                    DesiredInstanceState::Running => "terminated",
                    DesiredInstanceState::Terminated => "running",
                },
            ),
        );
        assert(texts(values@) =~= self.other_states());
        (String::from_str("instance-state-name"), values)
    }
}

/// The ids of the instances that match a filter, or the text of the error of asking.
pub type StatusesAnswer = Result<Option<Vec<Option<String>>>, String>;

/// What is made of an answer on instances that are not where they should be.
pub open spec fn non_conforming(answer: StatusesAnswer, desired: DesiredInstanceState) -> Result<
    Seq<Seq<char>>,
    ProviderErrorView,
> {
    match answer {
        Err(e) => Err(
            ProviderErrorView::caused(
                "Unable to list instances in the '"@ + desired.name_text() + "' state."@,
                e@,
            ),
        ),
        Ok(None) => Err(ProviderErrorView::because("No instance statuses were provided."@)),
        Ok(Some(entries)) => Ok(present(entries@)),
    }
}

/// The instances that are not where they should be.
pub fn non_conforming_instances(
    answer: &StatusesAnswer,
    desired_instance_state: DesiredInstanceState,
) -> (r: ProviderResult<Vec<String>>)
    ensures
        match r {
            Ok(v) => non_conforming(*answer, desired_instance_state) == Ok::<
                Seq<Seq<char>>,
                ProviderErrorView,
            >(texts(v@)),
            Err(e) => non_conforming(*answer, desired_instance_state) == Err::<
                Seq<Seq<char>>,
                ProviderErrorView,
            >(e@),
        },
{
    match answer {
        Err(e) => {
            let state = match desired_instance_state {
                DesiredInstanceState::Running => "Running",
                DesiredInstanceState::Terminated => "Terminated",
            };
            Err(
                ProviderError::new_with_source_and_context(
                    concat3("Unable to list instances in the '", state, "' state."),
                    e.clone(),
                ),
            )
        },
        Ok(None) => Err(
            ProviderError::new_with_context(
                String::from_str("No instance statuses were provided."),
            ),
        ),
        Ok(Some(entries)) => Ok(present_ids(entries)),
    }
}

/// What to do after a look.
#[derive(Debug)]
pub enum Wait {
    /// Look again after some milliseconds.
    LookAgain { millis: u64 },
    Done(ProviderResult<()>),
}

/// What to do after a look at instances: look again as long as one is not where it should be.
pub fn wait_for_conforming_instances(
    answer: &StatusesAnswer,
    desired_instance_state: DesiredInstanceState,
) -> (r: Wait)
    ensures
        match non_conforming(*answer, desired_instance_state) {
            Err(e) => r is Done && r->0 is Err && r->0->Err_0@ == e,
            Ok(ids) => if ids.len() > 0 {
                r == (Wait::LookAgain { millis: POLL_MILLIS })
            } else {
                r is Done && r->0 is Ok
            },
        },
{
    match non_conforming_instances(answer, desired_instance_state) {
        Err(e) => Wait::Done(Err(e)),
        Ok(ids) => {
            if ids.len() > 0 {
                Wait::LookAgain { millis: POLL_MILLIS }
            } else {
                Wait::Done(Ok(()))
            }
        },
    }
}

/// The outcome of waiting: what the wait came to, or the text of the error of its timing out.
pub type WaitAnswer = Result<ProviderResult<()>, String>;

/// What a wait comes to.
pub open spec fn waited(answer: WaitAnswer, message: Seq<char>) -> Result<(), ProviderErrorView> {
    match answer {
        Err(e) => Err(ProviderErrorView::caused(message, e@)),
        Ok(Err(e)) => Err(e@),
        Ok(Ok(_)) => Ok(()),
    }
}

/// A result without a value as its contents.
pub open spec fn unit_result(r: ProviderResult<()>) -> Result<(), ProviderErrorView> {
    match r {
        Ok(_) => Ok(()),
        Err(e) => Err(e@),
    }
}

/// What a wait comes to.
pub fn finish_wait(answer: &WaitAnswer, message: &str) -> (r: ProviderResult<()>)
    ensures
        unit_result(r) == waited(*answer, message@),
{
    match answer {
        Err(e) => Err(
            ProviderError::new_with_source_and_context(String::from_str(message), e.clone()),
        ),
        Ok(Err(e)) => Err(e.copy()),
        Ok(Ok(_)) => Ok(()),
    }
}

/// The reservations with the ids of their instances, or the text of the error of asking.
pub type ReservationsAnswer = Result<Option<Vec<Option<Vec<Option<String>>>>>, String>;

/// All ids of some lists, each once, in the order in which they are found.
pub open spec fn ids_once(found: Seq<Seq<char>>) -> Seq<Seq<char>>
    decreases found.len(),
{
    if found.len() == 0 {
        Seq::empty()
    } else {
        with_entry(ids_once(found.drop_last()), found.last())
    }
}

/// All ids in some reservations.
pub open spec fn reserved(reservations: Seq<Option<Vec<Option<String>>>>) -> Seq<Seq<char>>
    decreases reservations.len(),
{
    if reservations.len() == 0 {
        Seq::empty()
    } else {
        reserved(reservations.drop_last()) + match reservations.last() {
            Some(entries) => present(entries@),
            None => Seq::empty(),
        }
    }
}

/// What is made of an answer on instances with a tag.
pub open spec fn tagged_of(answer: ReservationsAnswer) -> Result<
    Seq<Seq<char>>,
    ProviderErrorView,
> {
    match answer {
        Err(e) => Err(ProviderErrorView::caused("Unable to get instances."@, e@)),
        Ok(None) => Err(ProviderErrorView::because("No instances were provided."@)),
        Ok(Some(reservations)) => Ok(ids_once(reserved(reservations@))),
    }
}

/// All entries of a list, each once.
fn once(found: &Vec<String>) -> (r: Vec<String>)
    ensures
        texts(r@) == ids_once(texts(found@)),
{
    let mut out: Vec<String> = Vec::new();
    let mut i: usize = 0;
    assert(texts(out@) =~= ids_once(texts(found@).take(0)));
    while i < found.len()
        invariant
            i <= found@.len(),
            texts(out@) == ids_once(texts(found@).take(i as int)),
        decreases found@.len() - i,
    {
        proof {
            assert(texts(found@).take(i + 1).drop_last() =~= texts(found@).take(i as int));
            assert(texts(found@).take(i + 1).last() == found@[i as int]@);
        }
        add_entry(&mut out, &found[i]);
        i = i + 1;
    }
    assert(texts(found@).take(i as int) =~= texts(found@));
    out
}

/// Find all running instances with the tag for this resource.
pub fn get_instances_by_tag(answer: &ReservationsAnswer) -> (r: ProviderResult<Vec<String>>)
    ensures
        match r {
            Ok(v) => tagged_of(*answer) == Ok::<Seq<Seq<char>>, ProviderErrorView>(texts(v@)),
            Err(e) => tagged_of(*answer) == Err::<Seq<Seq<char>>, ProviderErrorView>(e@),
        },
{
    match answer {
        Err(e) => Err(
            ProviderError::new_with_source_and_context(
                String::from_str("Unable to get instances."),
                e.clone(),
            ),
        ),
        Ok(None) => Err(
            ProviderError::new_with_context(String::from_str("No instances were provided.")),
        ),
        Ok(Some(reservations)) => {
            let mut found: Vec<String> = Vec::new();
            let mut i: usize = 0;
            assert(texts(found@) =~= reserved(reservations@.take(0)));
            while i < reservations.len()
                invariant
                    i <= reservations@.len(),
                    texts(found@) == reserved(reservations@.take(i as int)),
                decreases reservations@.len() - i,
            {
                proof {
                    assert(reservations@.take(i + 1).drop_last() =~= reservations@.take(i as int));
                    assert(reservations@.take(i + 1).last() == reservations@[i as int]);
                }
                if let Some(entries) = &reservations[i] {
                    let mut ids = present_ids(entries);
                    let ghost first = found@;
                    let ghost second = ids@;
                    found.append(&mut ids);
                    assert(texts(first + second) =~= texts(first) + texts(second));
                } else {
                    assert(texts(found@) =~= texts(found@) + Seq::<Seq<char>>::empty());
                }
                i = i + 1;
            }
            assert(reservations@.take(i as int) =~= reservations@);
            Ok(once(&found))
        },
    }
}

/// What is known while instances are created: the answers so far.
#[derive(Debug)]
pub struct CreationAnswers {
    pub parameter: Option<ParameterAnswer>,
    pub images: Option<ImagesAnswer>,
    pub instances: Option<InstancesAnswer>,
    pub running: Option<WaitAnswer>,
}

/// What to do next while instances are created.
#[derive(Debug)]
pub enum CreationStep {
    GetParameter { name: String },
    DescribeImages { image_id: String },
    RunInstances(RunInstances),
    /// Wait until the instances run.
    AwaitRunning { instance_ids: Vec<String>, timeout_seconds: u64 },
    Finish(ProviderResult<CreatedEc2Instances>),
}

/// The contents of a `CreationStep`.
pub enum CreationStepView {
    GetParameter { name: Seq<char> },
    DescribeImages { image_id: Seq<char> },
    RunInstances(RunInstancesView),
    AwaitRunning { instance_ids: Seq<Seq<char>>, timeout_seconds: u64 },
    Finish(Result<(Seq<Seq<char>>, Seq<Seq<char>>), ProviderErrorView>),
}

impl View for CreationStep {
    type V = CreationStepView;

    open spec fn view(&self) -> CreationStepView {
        match *self {
            CreationStep::GetParameter { name } => CreationStepView::GetParameter { name: name@ },
            CreationStep::DescribeImages { image_id } => CreationStepView::DescribeImages {
                image_id: image_id@,
            },
            CreationStep::RunInstances(q) => CreationStepView::RunInstances(q@),
            CreationStep::AwaitRunning { instance_ids, timeout_seconds } =>
            CreationStepView::AwaitRunning {
                instance_ids: texts(instance_ids@),
                timeout_seconds,
            },
            CreationStep::Finish(r) => CreationStepView::Finish(
                match r {
                    Ok(c) => Ok((texts(c.instance_ids@), texts(c.private_dns_name@))),
                    Err(e) => Err(e@),
                },
            ),
        }
    }
}

/// What is said where instances do not come to run in time.
pub const RUNNING_TIMED_OUT: &'static str =
    "Timed-out waiting for instances to reach the `running` state.";

/// What to do next while instances are created. The image is found first, then its architecture
/// tells the type, then the instances are launched and waited for; the first answer that cannot
/// be used ends it.
pub open spec fn creation_step(
    cluster: ClusterInfo,
    ami_arch: Seq<char>,
    bottlerocket_version: Seq<char>,
    answers: CreationAnswers,
) -> CreationStepView {
    match answers.parameter {
        None => CreationStepView::GetParameter {
            name: ami_parameter(ami_arch, bottlerocket_version, cluster@.version),
        },
        Some(parameter) => match ami_of(parameter) {
            Err(e) => CreationStepView::Finish(Err(e)),
            Ok(ami) => match answers.images {
                None => CreationStepView::DescribeImages { image_id: ami },
                Some(images) => match instance_type_of(images) {
                    Err(e) => CreationStepView::Finish(Err(e)),
                    Ok(kind) => match run_request(cluster, ami, kind) {
                        Err(e) => CreationStepView::Finish(Err(e)),
                        Ok(q) => match answers.instances {
                            None => CreationStepView::RunInstances(q),
                            Some(instances) => match created_of(instances) {
                                Err(e) => CreationStepView::Finish(Err(e)),
                                Ok(created) => match answers.running {
                                    None => CreationStepView::AwaitRunning {
                                        instance_ids: created.0,
                                        timeout_seconds: RUNNING_TIMEOUT,
                                    },
                                    Some(running) => match waited(running, RUNNING_TIMED_OUT@) {
                                        Err(e) => CreationStepView::Finish(Err(e)),
                                        Ok(_) => CreationStepView::Finish(Ok(created)),
                                    },
                                },
                            },
                        },
                    },
                },
            },
        },
    }
}

/// What to do next while instances are created.
pub fn create_ec2_instance(
    cluster: &ClusterInfo,
    ami_arch: &str,
    bottlerocket_version: &str,
    answers: &CreationAnswers,
) -> (r: CreationStep)
    ensures
        r@ == creation_step(*cluster, ami_arch@, bottlerocket_version@, *answers),
{
    let node_ami = match &answers.parameter {
        None => return CreationStep::GetParameter {
            name: ami_parameter_name(ami_arch, bottlerocket_version, cluster.version.as_str()),
        },
        Some(parameter) => match find_ami_id(parameter) {
            Ok(ami) => ami,
            Err(e) => return CreationStep::Finish(Err(e)),
        },
    };
    let instance_type = match &answers.images {
        None => return CreationStep::DescribeImages { image_id: node_ami },
        Some(images) => match instance_type(images) {
            Ok(t) => t,
            Err(e) => return CreationStep::Finish(Err(e)),
        },
    };
    let request = match run_instances(cluster, node_ami, instance_type) {
        Ok(q) => q,
        Err(e) => return CreationStep::Finish(Err(e)),
    };
    let created = match &answers.instances {
        None => return CreationStep::RunInstances(request),
        Some(instances) => match created_instances(instances) {
            Ok(c) => c,
            Err(e) => return CreationStep::Finish(Err(e)),
        },
    };
    match &answers.running {
        None => CreationStep::AwaitRunning {
            instance_ids: created.instance_ids,
            timeout_seconds: RUNNING_TIMEOUT,
        },
        Some(running) => match finish_wait(running, RUNNING_TIMED_OUT) {
            Ok(_) => CreationStep::Finish(Ok(created)),
            Err(e) => CreationStep::Finish(Err(e)),
        },
    }
}

/// What is known while instances are terminated: the answers so far.
#[derive(Debug)]
pub struct TerminationAnswers {
    pub tagged: Option<ReservationsAnswer>,
    pub terminated: Option<Result<(), String>>,
    pub gone: Option<WaitAnswer>,
}

/// What to do next while instances are terminated.
#[derive(Debug)]
pub enum TerminationStep {
    /// Find the instances that have a tag.
    FindTagged { tag: String },
    Terminate { instance_ids: Vec<String> },
    /// Wait until the instances are terminated.
    AwaitTerminated { instance_ids: Vec<String>, timeout_seconds: u64 },
    Finish(ProviderResult<()>),
}

/// The contents of a `TerminationStep`.
pub enum TerminationStepView {
    FindTagged { tag: Seq<char> },
    Terminate { instance_ids: Seq<Seq<char>> },
    AwaitTerminated { instance_ids: Seq<Seq<char>>, timeout_seconds: u64 },
    Finish(Result<(), ProviderErrorView>),
}

impl View for TerminationStep {
    type V = TerminationStepView;

    open spec fn view(&self) -> TerminationStepView {
        match *self {
            TerminationStep::FindTagged { tag } => TerminationStepView::FindTagged { tag: tag@ },
            TerminationStep::Terminate { instance_ids } => TerminationStepView::Terminate {
                instance_ids: texts(instance_ids@),
            },
            TerminationStep::AwaitTerminated { instance_ids, timeout_seconds } =>
            TerminationStepView::AwaitTerminated {
                instance_ids: texts(instance_ids@),
                timeout_seconds,
            },
            TerminationStep::Finish(r) => TerminationStepView::Finish(unit_result(r)),
        }
    }
}

/// What is said where instances do not terminate in time.
pub const TERMINATED_TIMED_OUT: &'static str =
    "Timed-out waiting for instances to reach the `terminated` state.";

/// What to do next while instances are terminated: those that have the tag of the tool are
/// found, terminated and waited for.
pub open spec fn termination_step(answers: TerminationAnswers) -> TerminationStepView {
    match answers.tagged {
        None => TerminationStepView::FindTagged { tag: INSTANCE_TAG_NAME@ },
        Some(tagged) => match tagged_of(tagged) {
            Err(e) => TerminationStepView::Finish(Err(e)),
            Ok(ids) => match answers.terminated {
                None => TerminationStepView::Terminate { instance_ids: ids },
                Some(Err(e)) => TerminationStepView::Finish(
                    Err(ProviderErrorView::caused("Failed to terminate instances"@, e@)),
                ),
                Some(Ok(_)) => match answers.gone {
                    None => TerminationStepView::AwaitTerminated {
                        instance_ids: ids,
                        timeout_seconds: TERMINATED_TIMEOUT,
                    },
                    Some(gone) => TerminationStepView::Finish(waited(gone, TERMINATED_TIMED_OUT@)),
                },
            },
        },
    }
}

/// What to do next while instances are terminated.
pub fn terminate_ec2_instance(answers: &TerminationAnswers) -> (r: TerminationStep)
    ensures
        r@ == termination_step(*answers),
{
    let instance_ids = match &answers.tagged {
        None => return TerminationStep::FindTagged { tag: String::from_str(INSTANCE_TAG_NAME) },
        Some(tagged) => match get_instances_by_tag(tagged) {
            Ok(ids) => ids,
            Err(e) => return TerminationStep::Finish(Err(e)),
        },
    };
    match &answers.terminated {
        None => return TerminationStep::Terminate { instance_ids },
        Some(Err(e)) => return TerminationStep::Finish(
            Err(
                ProviderError::new_with_source_and_context(
                    String::from_str("Failed to terminate instances"),
                    e.clone(),
                ),
            ),
        ),
        Some(Ok(_)) => {},
    }
    match &answers.gone {
        None => TerminationStep::AwaitTerminated {
            instance_ids,
            timeout_seconds: TERMINATED_TIMEOUT,
        },
        Some(gone) => TerminationStep::Finish(finish_wait(gone, TERMINATED_TIMED_OUT)),
    }
}

/// Instances that the tool launches carry the tag by which it finds them again to terminate
/// them.
pub proof fn launched_instances_are_found(
    cluster: ClusterInfo,
    node_ami: Seq<char>,
    kind: Seq<char>,
    answers: TerminationAnswers,
)
    requires
        run_request(cluster, node_ami, kind) is Ok,
        termination_step(answers) is FindTagged,
    ensures
        ({
            let tags = run_request(cluster, node_ami, kind)->Ok_0.tags;
            exists|i: int|
                0 <= i < tags.len() && (#[trigger] tags[i]).0 == termination_step(answers)->tag
        }),
{
    let tags = run_request(cluster, node_ami, kind)->Ok_0.tags;
    assert(tags[2].0 == INSTANCE_TAG_NAME@);
}

/// Ids that are kept once hold each id that was found, and no id twice.
pub proof fn ids_are_kept_once(found: Seq<Seq<char>>)
    ensures
        ids_once(found).no_duplicates(),
        forall|id: Seq<char>|
            #![trigger ids_once(found).contains(id)]
            #![trigger found.contains(id)]
            ids_once(found).contains(id) <==> found.contains(id),
    decreases found.len(),
{
    if found.len() > 0 {
        let head = found.drop_last();
        ids_are_kept_once(head);
        let kept = ids_once(head);
        let all = ids_once(found);
        assert forall|id: Seq<char>|
            #![trigger all.contains(id)]
            #![trigger found.contains(id)]
            all.contains(id) <==> found.contains(id) by {
            if all.contains(id) {
                let i = choose|i: int| 0 <= i < all.len() && all[i] == id;
                if i < kept.len() {
                    assert(kept[i] == id);
                    assert(kept.contains(id) && head.contains(id));
                    let j = choose|j: int| 0 <= j < head.len() && head[j] == id;
                    assert(found[j] == id);
                } else {
                    assert(found[found.len() - 1] == id);
                }
            }
            if found.contains(id) {
                let j = choose|j: int| 0 <= j < found.len() && found[j] == id;
                if j < head.len() {
                    assert(head[j] == id);
                    assert(head.contains(id));
                    assert(kept.contains(id));
                    let i = choose|i: int| 0 <= i < kept.len() && kept[i] == id;
                    assert(all[i] == id);
                } else {
                    if !kept.contains(id) {
                        assert(all[kept.len() as int] == id);
                    }
                }
            }
        }
    }
}

} // verus!
