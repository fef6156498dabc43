//! The sequence of requests by which the target cluster of an integration test is described.
//! Each request waits for the answer to the one before, and the first answer that cannot be used
//! ends the sequence.

use vstd::prelude::*;
use vstd::string::*;

use super::eks_provider::{
    certificate, certificate_of, cluster_iam_identity_mapping, dns_ip, dns_of, eks_subnet_ids,
    eks_version, endpoint, endpoint_of, get_mapping_args, iam_identity_mapping_args, identity_of,
    ids_of, instance_profile, no_security_groups, profile_of, security_group, subnet_ids,
    subnets_of, version_of, ClusterAnswer, ClusterDnsIpInfo, IdsAnswer, IpFamily, OutputAnswer,
    ProfilesAnswer, SecurityGroupType, SubnetType,
};
use super::error::{ProviderErrorView, ProviderResult};
use crate::models::manifest::{list_option, views};
use crate::models::meta::text_option;
use crate::text::{copy_texts, texts};

verus! {

/// What is known of a cluster.
#[derive(Debug)]
pub struct ClusterInfo {
    pub name: String,
    pub region: String,
    pub version: String,
    pub endpoint: String,
    pub certificate: String,
    pub public_subnet_ids: Vec<String>,
    pub private_subnet_ids: Vec<String>,
    pub nodegroup_sg: Vec<String>,
    pub controlplane_sg: Vec<String>,
    pub clustershared_sg: Vec<String>,
    pub iam_instance_profile_arn: String,
    pub dns_ip_info: ClusterDnsIpInfo,
}

/// The contents of a `ClusterInfo`.
pub struct ClusterInfoView {
    pub name: Seq<char>,
    pub region: Seq<char>,
    pub version: Seq<char>,
    pub endpoint: Seq<char>,
    pub certificate: Seq<char>,
    pub public_subnet_ids: Seq<Seq<char>>,
    pub private_subnet_ids: Seq<Seq<char>>,
    pub nodegroup_sg: Seq<Seq<char>>,
    pub controlplane_sg: Seq<Seq<char>>,
    pub clustershared_sg: Seq<Seq<char>>,
    pub iam_instance_profile_arn: Seq<char>,
    pub dns_ip_info: (IpFamily, Option<Seq<char>>),
}

impl View for ClusterInfo {
    type V = ClusterInfoView;

    open spec fn view(&self) -> ClusterInfoView {
        ClusterInfoView {
            name: self.name@,
            region: self.region@,
            version: self.version@,
            endpoint: self.endpoint@,
            certificate: self.certificate@,
            public_subnet_ids: views(self.public_subnet_ids@),
            private_subnet_ids: views(self.private_subnet_ids@),
            nodegroup_sg: views(self.nodegroup_sg@),
            controlplane_sg: views(self.controlplane_sg@),
            clustershared_sg: views(self.clustershared_sg@),
            iam_instance_profile_arn: self.iam_instance_profile_arn@,
            dns_ip_info: (self.dns_ip_info.0, text_option(self.dns_ip_info.1)),
        }
    }
}

/// The contents of optional information on DNS.
pub open spec fn dns_option(o: Option<ClusterDnsIpInfo>) -> Option<
    (IpFamily, Option<Seq<char>>),
> {
    match o {
        Some(d) => Some((d.0, text_option(d.1))),
        None => None,
    }
}

/// A request of the sequence.
#[derive(Debug)]
pub enum Request {
    DescribeCluster,
    /// The subnets among some whose name matches a pattern.
    DescribeSubnets { subnet_ids: Vec<String>, tag: String },
    /// The security groups whose name matches a pattern.
    DescribeSecurityGroups { tag: String },
    /// A run of `eksctl`.
    IdentityMapping { args: Vec<String> },
    ListInstanceProfiles,
}

/// The contents of a `Request`.
pub enum RequestView {
    DescribeCluster,
    DescribeSubnets { subnet_ids: Seq<Seq<char>>, tag: Seq<char> },
    DescribeSecurityGroups { tag: Seq<char> },
    IdentityMapping { args: Seq<Seq<char>> },
    ListInstanceProfiles,
}

impl View for Request {
    type V = RequestView;

    open spec fn view(&self) -> RequestView {
        match *self {
            Request::DescribeCluster => RequestView::DescribeCluster,
            Request::DescribeSubnets { subnet_ids, tag } => RequestView::DescribeSubnets {
                subnet_ids: views(subnet_ids@),
                tag: tag@,
            },
            Request::DescribeSecurityGroups { tag } => RequestView::DescribeSecurityGroups {
                tag: tag@,
            },
            Request::IdentityMapping { args } => RequestView::IdentityMapping {
                args: views(args@),
            },
            Request::ListInstanceProfiles => RequestView::ListInstanceProfiles,
        }
    }
}

/// An answer to a request.
#[derive(Debug)]
pub enum Answer {
    Cluster(ClusterAnswer),
    Ids(IdsAnswer),
    Output(OutputAnswer),
    Profiles(ProfilesAnswer),
}

/// Whether an answer is one to a request.
pub open spec fn fits(request: RequestView, answer: Answer) -> bool {
    match request {
        RequestView::DescribeCluster => answer is Cluster,
        RequestView::DescribeSubnets { .. } => answer is Ids,
        RequestView::DescribeSecurityGroups { .. } => answer is Ids,
        RequestView::IdentityMapping { .. } => answer is Output,
        RequestView::ListInstanceProfiles => answer is Profiles,
    }
}

/// What the answers so far have told of a cluster.
#[derive(Debug)]
pub struct Gathering {
    pub name: String,
    pub region: String,
    pub version: Option<String>,
    pub subnet_ids: Option<Vec<String>>,
    pub endpoint: Option<String>,
    pub certificate: Option<String>,
    pub public_subnet_ids: Option<Vec<String>>,
    pub private_subnet_ids: Option<Vec<String>>,
    pub nodegroup_sg: Option<Vec<String>>,
    pub controlplane_sg: Option<Vec<String>>,
    pub clustershared_sg: Option<Vec<String>>,
    pub node_instance_role: Option<String>,
    pub iam_instance_profile_arn: Option<String>,
    pub dns_ip_info: Option<ClusterDnsIpInfo>,
}

/// The contents of a `Gathering`.
pub struct GatheringView {
    pub name: Seq<char>,
    pub region: Seq<char>,
    pub version: Option<Seq<char>>,
    pub subnet_ids: Option<Seq<Seq<char>>>,
    pub endpoint: Option<Seq<char>>,
    pub certificate: Option<Seq<char>>,
    pub public_subnet_ids: Option<Seq<Seq<char>>>,
    pub private_subnet_ids: Option<Seq<Seq<char>>>,
    pub nodegroup_sg: Option<Seq<Seq<char>>>,
    pub controlplane_sg: Option<Seq<Seq<char>>>,
    pub clustershared_sg: Option<Seq<Seq<char>>>,
    pub node_instance_role: Option<Seq<char>>,
    pub iam_instance_profile_arn: Option<Seq<char>>,
    pub dns_ip_info: Option<(IpFamily, Option<Seq<char>>)>,
}

impl View for Gathering {
    type V = GatheringView;

    open spec fn view(&self) -> GatheringView {
        GatheringView {
            name: self.name@,
            region: self.region@,
            version: text_option(self.version),
            subnet_ids: list_option(self.subnet_ids),
            endpoint: text_option(self.endpoint),
            certificate: text_option(self.certificate),
            public_subnet_ids: list_option(self.public_subnet_ids),
            private_subnet_ids: list_option(self.private_subnet_ids),
            nodegroup_sg: list_option(self.nodegroup_sg),
            controlplane_sg: list_option(self.controlplane_sg),
            clustershared_sg: list_option(self.clustershared_sg),
            node_instance_role: text_option(self.node_instance_role),
            iam_instance_profile_arn: text_option(self.iam_instance_profile_arn),
            dns_ip_info: dns_option(self.dns_ip_info),
        }
    }
}

/// The pattern of the names of the subnets of a kind.
pub open spec fn subnet_tag(cluster_name: Seq<char>, kind: SubnetType) -> Seq<char> {
    "eksctl-"@ + cluster_name + "-cluster*"@ + kind.name_text() + "*"@
}

/// The pattern of the names of the security groups of a kind.
pub open spec fn group_tag(cluster_name: Seq<char>, kind: SecurityGroupType) -> Seq<char> {
    "*"@ + cluster_name + "*"@ + kind.group_text() + "*"@
}

/// What is made of an answer on subnets.
pub open spec fn found_subnets(answer: IdsAnswer) -> Result<Seq<Seq<char>>, ProviderErrorView> {
    ids_of(answer, "Unable to get private subnet ids"@, "Results missing subnets field"@)
}

/// What is made of an answer on security groups.
pub open spec fn found_groups(answer: IdsAnswer, kind: SecurityGroupType) -> Result<
    Seq<Seq<char>>,
    ProviderErrorView,
> {
    ids_of(answer, no_security_groups(kind), "Results missing security_groups field"@)
}

impl GatheringView {
    /// Nothing is known but the name and the region.
    pub open spec fn start(name: Seq<char>, region: Seq<char>) -> GatheringView {
        GatheringView {
            name,
            region,
            version: None,
            subnet_ids: None,
            endpoint: None,
            certificate: None,
            public_subnet_ids: None,
            private_subnet_ids: None,
            nodegroup_sg: None,
            controlplane_sg: None,
            clustershared_sg: None,
            node_instance_role: None,
            iam_instance_profile_arn: None,
            dns_ip_info: None,
        }
    }

    /// The next request: on the first thing that is not known yet.
    pub open spec fn request(self) -> Option<RequestView> {
        if self.version is None {
            Some(RequestView::DescribeCluster)
        } else if self.subnet_ids is None {
            Some(RequestView::DescribeCluster)
        } else if self.endpoint is None {
            Some(RequestView::DescribeCluster)
        } else if self.certificate is None {
            Some(RequestView::DescribeCluster)
        } else if self.public_subnet_ids is None {
            Some(
                RequestView::DescribeSubnets {
                    subnet_ids: self.subnet_ids->0,
                    tag: subnet_tag(self.name, SubnetType::Public),
                },
            )
        } else if self.private_subnet_ids is None {
            Some(
                RequestView::DescribeSubnets {
                    subnet_ids: self.subnet_ids->0,
                    tag: subnet_tag(self.name, SubnetType::Private),
                },
            )
        } else if self.nodegroup_sg is None {
            Some(
                RequestView::DescribeSecurityGroups {
                    tag: group_tag(self.name, SecurityGroupType::NodeGroup),
                },
            )
        } else if self.controlplane_sg is None {
            Some(
                RequestView::DescribeSecurityGroups {
                    tag: group_tag(self.name, SecurityGroupType::ControlPlane),
                },
            )
        } else if self.clustershared_sg is None {
            Some(
                RequestView::DescribeSecurityGroups {
                    tag: group_tag(self.name, SecurityGroupType::ClusterShared),
                },
            )
        } else if self.node_instance_role is None {
            Some(
                RequestView::IdentityMapping { args: get_mapping_args(self.name, self.region) },
            )
        } else if self.iam_instance_profile_arn is None {
            Some(RequestView::ListInstanceProfiles)
        } else if self.dns_ip_info is None {
            Some(RequestView::DescribeCluster)
        } else {
            None
        }
    }

    /// What is known after an answer to the next request, or why the answer cannot be used.
    pub open spec fn recorded(self, answer: Answer) -> Result<GatheringView, ProviderErrorView> {
        if self.version is None {
            match version_of(answer->Cluster_0) {
                Ok(v) => Ok(GatheringView { version: Some(v), ..self }),
                Err(e) => Err(e),
            }
        } else if self.subnet_ids is None {
            match subnets_of(answer->Cluster_0) {
                Ok(v) => Ok(GatheringView { subnet_ids: Some(v), ..self }),
                Err(e) => Err(e),
            }
        } else if self.endpoint is None {
            match endpoint_of(answer->Cluster_0) {
                Ok(v) => Ok(GatheringView { endpoint: Some(v), ..self }),
                Err(e) => Err(e),
            }
        } else if self.certificate is None {
            match certificate_of(answer->Cluster_0) {
                Ok(v) => Ok(GatheringView { certificate: Some(v), ..self }),
                Err(e) => Err(e),
            }
        } else if self.public_subnet_ids is None {
            match found_subnets(answer->Ids_0) {
                Ok(v) => Ok(GatheringView { public_subnet_ids: Some(v), ..self }),
                Err(e) => Err(e),
            }
        } else if self.private_subnet_ids is None {
            match found_subnets(answer->Ids_0) {
                Ok(v) => Ok(GatheringView { private_subnet_ids: Some(v), ..self }),
                Err(e) => Err(e),
            }
        } else if self.nodegroup_sg is None {
            match found_groups(answer->Ids_0, SecurityGroupType::NodeGroup) {
                Ok(v) => Ok(GatheringView { nodegroup_sg: Some(v), ..self }),
                Err(e) => Err(e),
            }
        } else if self.controlplane_sg is None {
            match found_groups(answer->Ids_0, SecurityGroupType::ControlPlane) {
                Ok(v) => Ok(GatheringView { controlplane_sg: Some(v), ..self }),
                Err(e) => Err(e),
            }
        } else if self.clustershared_sg is None {
            match found_groups(answer->Ids_0, SecurityGroupType::ClusterShared) {
                Ok(v) => Ok(GatheringView { clustershared_sg: Some(v), ..self }),
                Err(e) => Err(e),
            }
        } else if self.node_instance_role is None {
            match identity_of(answer->Output_0) {
                Ok(v) => Ok(GatheringView { node_instance_role: Some(v), ..self }),
                Err(e) => Err(e),
            }
        } else if self.iam_instance_profile_arn is None {
            match profile_of(answer->Profiles_0, self.node_instance_role->0) {
                Ok(v) => Ok(GatheringView { iam_instance_profile_arn: Some(v), ..self }),
                Err(e) => Err(e),
            }
        } else if self.dns_ip_info is None {
            match dns_of(answer->Cluster_0) {
                Ok(v) => Ok(GatheringView { dns_ip_info: Some(v), ..self }),
                Err(e) => Err(e),
            }
        } else {
            Ok(self)
        }
    }

    /// How many things are not known yet.
    pub open spec fn missing(self) -> int {
        unknown(self.version)
            + unknown(self.subnet_ids)
            + unknown(self.endpoint)
            + unknown(self.certificate)
            + unknown(self.public_subnet_ids)
            + unknown(self.private_subnet_ids)
            + unknown(self.nodegroup_sg)
            + unknown(self.controlplane_sg)
            + unknown(self.clustershared_sg)
            + unknown(self.node_instance_role)
            + unknown(self.iam_instance_profile_arn)
            + unknown(self.dns_ip_info)
    }

    /// Whether things are known in the order in which they are asked for.
    pub open spec fn in_order(self) -> bool {
        &&& self.subnet_ids is Some ==> self.version is Some
        &&& self.endpoint is Some ==> self.subnet_ids is Some
        &&& self.certificate is Some ==> self.endpoint is Some
        &&& self.public_subnet_ids is Some ==> self.certificate is Some
        &&& self.private_subnet_ids is Some ==> self.public_subnet_ids is Some
        &&& self.nodegroup_sg is Some ==> self.private_subnet_ids is Some
        &&& self.controlplane_sg is Some ==> self.nodegroup_sg is Some
        &&& self.clustershared_sg is Some ==> self.controlplane_sg is Some
        &&& self.node_instance_role is Some ==> self.clustershared_sg is Some
        &&& self.iam_instance_profile_arn is Some ==> self.node_instance_role is Some
        &&& self.dns_ip_info is Some ==> self.iam_instance_profile_arn is Some
    }

    /// The description of the cluster, once everything is known.
    pub open spec fn info(self) -> ClusterInfoView {
        ClusterInfoView {
            name: self.name,
            region: self.region,
            version: self.version->0,
            endpoint: self.endpoint->0,
            certificate: self.certificate->0,
            public_subnet_ids: self.public_subnet_ids->0,
            private_subnet_ids: self.private_subnet_ids->0,
            nodegroup_sg: self.nodegroup_sg->0,
            controlplane_sg: self.controlplane_sg->0,
            clustershared_sg: self.clustershared_sg->0,
            iam_instance_profile_arn: self.iam_instance_profile_arn->0,
            dns_ip_info: self.dns_ip_info->0,
        }
    }
}

/// One for what is not known.
pub open spec fn unknown<T>(o: Option<T>) -> int {
    if o is None {
        1
    } else {
        0
    }
}

/// Starts to ask about a cluster.
pub fn get_cluster_info(cluster_name: &str, region: &str) -> (r: Gathering)
    ensures
        r@ == GatheringView::start(cluster_name@, region@),
        r@.in_order(),
{
    Gathering {
        name: String::from_str(cluster_name),
        region: String::from_str(region),
        version: None,
        subnet_ids: None,
        endpoint: None,
        certificate: None,
        public_subnet_ids: None,
        private_subnet_ids: None,
        nodegroup_sg: None,
        controlplane_sg: None,
        clustershared_sg: None,
        node_instance_role: None,
        iam_instance_profile_arn: None,
        dns_ip_info: None,
    }
}

/// A request for the subnets of a kind.
fn subnet_request(name: &str, ids: &Vec<String>, kind: SubnetType) -> (r: Request)
    ensures
        r@ == (RequestView::DescribeSubnets {
            subnet_ids: views(ids@),
            tag: subnet_tag(name@, kind),
        }),
{
    let subnet_ids = copy_texts(ids);
    proof {
        assert(views(subnet_ids@) =~= texts(subnet_ids@));
        assert(views(ids@) =~= texts(ids@));
    }
    Request::DescribeSubnets { subnet_ids, tag: kind.tag(name) }
}

/// A request for the security groups of a kind.
fn group_request(name: &str, kind: SecurityGroupType) -> (r: Request)
    ensures
        r@ == (RequestView::DescribeSecurityGroups { tag: group_tag(name@, kind) }),
{
    Request::DescribeSecurityGroups { tag: kind.tag(name) }
}

impl Gathering {
    /// The next request, if something is not known yet.
    pub fn next_request(&self) -> (r: Option<Request>)
        requires
            self@.in_order(),
        ensures
            self@.request() == match r {
                Some(q) => Some(q@),
                None => None,
            },
    {
        if self.version.is_none() {
            return Some(Request::DescribeCluster);
        }
        if self.subnet_ids.is_none() {
            return Some(Request::DescribeCluster);
        }
        if self.endpoint.is_none() {
            return Some(Request::DescribeCluster);
        }
        if self.certificate.is_none() {
            return Some(Request::DescribeCluster);
        }
        if self.public_subnet_ids.is_none() {
            if let Some(ids) = &self.subnet_ids {
                return Some(subnet_request(self.name.as_str(), ids, SubnetType::Public));
            }
        }
        if self.private_subnet_ids.is_none() {
            if let Some(ids) = &self.subnet_ids {
                return Some(subnet_request(self.name.as_str(), ids, SubnetType::Private));
            }
        }
        if self.nodegroup_sg.is_none() {
            return Some(group_request(self.name.as_str(), SecurityGroupType::NodeGroup));
        }
        if self.controlplane_sg.is_none() {
            return Some(group_request(self.name.as_str(), SecurityGroupType::ControlPlane));
        }
        if self.clustershared_sg.is_none() {
            return Some(group_request(self.name.as_str(), SecurityGroupType::ClusterShared));
        }
        if self.node_instance_role.is_none() {
            return Some(
                Request::IdentityMapping {
                    args: iam_identity_mapping_args(self.name.as_str(), self.region.as_str()),
                },
            );
        }
        if self.iam_instance_profile_arn.is_none() {
            return Some(Request::ListInstanceProfiles);
        }
        if self.dns_ip_info.is_none() {
            return Some(Request::DescribeCluster);
        }
        None
    }

    /// Uses an answer to the next request.
    pub fn record(self, answer: Answer) -> (r: ProviderResult<Gathering>)
        requires
            self@.in_order(),
            self@.request() is Some,
            fits(self@.request()->0, answer),
        ensures
            match r {
                Ok(g) => self@.recorded(answer) == Ok::<GatheringView, ProviderErrorView>(g@)
                    && g@.in_order(),
                Err(e) => self@.recorded(answer) == Err::<GatheringView, ProviderErrorView>(e@),
            },
    {
        match answer {
            Answer::Cluster(a) => {
                if self.version.is_none() {
                    match eks_version(&a) {
                        Ok(v) => Ok(Gathering { version: Some(v), ..self }),
                        Err(e) => Err(e),
                    }
                } else if self.subnet_ids.is_none() {
                    match eks_subnet_ids(&a) {
                        Ok(v) => Ok(Gathering { subnet_ids: Some(v), ..self }),
                        Err(e) => Err(e),
                    }
                } else if self.endpoint.is_none() {
                    match endpoint(&a) {
                        Ok(v) => Ok(Gathering { endpoint: Some(v), ..self }),
                        Err(e) => Err(e),
                    }
                } else if self.certificate.is_none() {
                    match certificate(&a) {
                        Ok(v) => Ok(Gathering { certificate: Some(v), ..self }),
                        Err(e) => Err(e),
                    }
                } else {
                    match dns_ip(&a) {
                        Ok(v) => Ok(Gathering { dns_ip_info: Some(v), ..self }),
                        Err(e) => Err(e),
                    }
                }
            },
            Answer::Ids(a) => {
                if self.public_subnet_ids.is_none() {
                    match subnet_ids(&a) {
                        Ok(v) => Ok(Gathering { public_subnet_ids: Some(v), ..self }),
                        Err(e) => Err(e),
                    }
                } else if self.private_subnet_ids.is_none() {
                    match subnet_ids(&a) {
                        Ok(v) => Ok(Gathering { private_subnet_ids: Some(v), ..self }),
                        Err(e) => Err(e),
                    }
                } else if self.nodegroup_sg.is_none() {
                    match security_group(&a, SecurityGroupType::NodeGroup) {
                        Ok(v) => Ok(Gathering { nodegroup_sg: Some(v), ..self }),
                        Err(e) => Err(e),
                    }
                } else if self.controlplane_sg.is_none() {
                    match security_group(&a, SecurityGroupType::ControlPlane) {
                        Ok(v) => Ok(Gathering { controlplane_sg: Some(v), ..self }),
                        Err(e) => Err(e),
                    }
                } else {
                    match security_group(&a, SecurityGroupType::ClusterShared) {
                        Ok(v) => Ok(Gathering { clustershared_sg: Some(v), ..self }),
                        Err(e) => Err(e),
                    }
                }
            },
            Answer::Output(a) => {
                match cluster_iam_identity_mapping(&a) {
                    Ok(v) => Ok(Gathering { node_instance_role: Some(v), ..self }),
                    Err(e) => Err(e),
                }
            },
            Answer::Profiles(a) => {
                let role = self.node_instance_role.as_ref().unwrap();
                match instance_profile(&a, role.as_str()) {
                    Ok(v) => Ok(Gathering { iam_instance_profile_arn: Some(v), ..self }),
                    Err(e) => Err(e),
                }
            },
        }
    }

    /// The description of the cluster, if everything is known.
    pub fn finish(self) -> (r: Option<ClusterInfo>)
        ensures
            match r {
                Some(info) => self@.missing() == 0 && info@ == self@.info(),
                None => self@.missing() > 0,
            },
    {
        match self {
            Gathering {
                name,
                region,
                version: Some(version),
                subnet_ids: Some(_),
                endpoint: Some(endpoint),
                certificate: Some(certificate),
                public_subnet_ids: Some(public_subnet_ids),
                private_subnet_ids: Some(private_subnet_ids),
                nodegroup_sg: Some(nodegroup_sg),
                controlplane_sg: Some(controlplane_sg),
                clustershared_sg: Some(clustershared_sg),
                node_instance_role: Some(_),
                iam_instance_profile_arn: Some(iam_instance_profile_arn),
                dns_ip_info: Some(dns_ip_info),
            } => Some(
                ClusterInfo {
                    name,
                    region,
                    version,
                    endpoint,
                    certificate,
                    public_subnet_ids,
                    private_subnet_ids,
                    nodegroup_sg,
                    controlplane_sg,
                    clustershared_sg,
                    iam_instance_profile_arn,
                    dns_ip_info,
                },
            ),
            _ => None,
        }
    }
}

/// Twelve requests describe a cluster: that many things are unknown at the start, each answer
/// that can be used tells one of them, and there is a next request as long as something is
/// unknown.
pub proof fn requests_come_to_an_end(
    name: Seq<char>,
    region: Seq<char>,
    g: GatheringView,
    answer: Answer,
)
    requires
        g.in_order(),
    ensures
        GatheringView::start(name, region).missing() == 12,
        g.request() is None <==> g.missing() == 0,
        g.missing() > 0 && g.recorded(answer) is Ok ==> g.recorded(answer)->Ok_0.missing()
            == g.missing() - 1,
{
}

} // verus!
