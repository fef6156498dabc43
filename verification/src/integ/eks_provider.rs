//! What is asked about the target cluster of an integration test, and what is made of the
//! answers.

use vstd::prelude::*;
use vstd::string::*;

use super::error::{ProviderError, ProviderErrorView, ProviderResult};
use crate::models::manifest::views;
use crate::models::meta::text_option;
use crate::text::{concat2, concat5, copy_texts, str_eq, texts};

verus! {

pub const IPV4_OCTET: &'static str = "10";

pub const IPV6_HEXTET: &'static str = "a";

pub const IPV4_DIVIDER: &'static str = ".";

pub const IPV6_DIVIDER: &'static str = ":";

/// The kind of addresses that a cluster uses.
#[derive(Copy, Clone, Debug, PartialEq, Eq, Structural)]
pub enum IpFamily {
    Ipv4,
    Ipv6,
    /// A kind that is not known here.
    Unknown,
}

/// The kind of addresses of a cluster and the address of its DNS service.
pub type ClusterDnsIpInfo = (IpFamily, Option<String>);

/// Whether a divider stands at a place of a text.
pub open spec fn divider_at(s: Seq<char>, divider: Seq<char>, i: int) -> bool {
    0 <= i && i + divider.len() <= s.len() && s.subrange(i, i + divider.len()) == divider
}

/// Where the last part of a text starts, when dividers are looked for from place `i` on and the
/// last one before ended at `end`.
pub open spec fn last_part_from(s: Seq<char>, divider: Seq<char>, i: int, end: int) -> int
    decreases s.len() - i,
{
    if i >= s.len() || divider.len() == 0 {
        end
    } else if divider_at(s, divider, i) {
        last_part_from(s, divider, i + divider.len(), i + divider.len())
    } else {
        last_part_from(s, divider, i + 1, end)
    }
}

/// Where the last part of a text starts. An empty divider parts a text after each character.
pub open spec fn last_part(s: Seq<char>, divider: Seq<char>) -> int {
    if divider.len() == 0 {
        s.len() as int
    } else {
        last_part_from(s, divider, 0, 0)
    }
}

/// A text whose last part is replaced.
pub open spec fn with_last_part(
    s: Seq<char>,
    divider: Seq<char>,
    replacement: Seq<char>,
) -> Seq<char> {
    s.take(last_part(s, divider)) + replacement
}

/// Tells whether a divider stands at a place of a text.
fn is_divider_at(s: &str, divider: &str, i: usize) -> (r: bool)
    requires
        i <= s@.len(),
    ensures
        r == divider_at(s@, divider@, i as int),
{
    let n: usize = s.unicode_len();
    let m: usize = divider.unicode_len();
    if m > n - i {
        return false;
    }
    let mut k: usize = 0;
    while k < m
        invariant
            k <= m,
            m == divider@.len(),
            n == s@.len(),
            i <= n,
            m <= n - i,
            forall|j: int| 0 <= j < k ==> s@[i + j] == divider@[j],
        decreases m - k,
    {
        if s.get_char(i + k) != divider.get_char(k) {
            proof {
                let part = s@.subrange(i as int, i + m);
                assert(part[k as int] == s@[i + k]);
                assert(part[k as int] != divider@[k as int]);
            }
            return false;
        }
        k = k + 1;
    }
    assert(s@.subrange(i as int, i + m) =~= divider@);
    true
}

/// transform ip_cidr to dns ip for different IpFamily.
/// IPv4: EKS clusters derive the cluster dns IP by setting the last octet of the IPv4 CIDR to `10`.
/// IPv6: EKS clusters derive the cluster dns IP by setting the last hextet of the IPv6 CIDR to `a`.
pub fn transform_dns_ip(ip_cidr: String, divider: &str, number_system: &str) -> (r: String)
    ensures
        r@ == with_last_part(ip_cidr@, divider@, number_system@),
{
    let s = ip_cidr.as_str();
    let n: usize = s.unicode_len();
    let m: usize = divider.unicode_len();
    let mut end: usize = 0;
    if m == 0 {
        end = n;
    } else {
        let mut i: usize = 0;
        while i < n
            invariant
                i <= n,
                end <= i,
                n == s@.len(),
                s@ == ip_cidr@,
                m == divider@.len(),
                m > 0,
                last_part(s@, divider@) == last_part_from(s@, divider@, i as int, end as int),
            decreases n - i,
        {
            if is_divider_at(s, divider, i) {
                i = i + m;
                end = i;
            } else {
                i = i + 1;
            }
        }
    }
    let head = s.substring_char(0, end);
    assert(head@ =~= ip_cidr@.take(last_part(ip_cidr@, divider@)));
    concat2(head, number_system)
}

/// Setting the last part of an address keeps all parts before it: what follows the last divider
/// is replaced.
pub proof fn transform_replaces_last_part(
    head: Seq<char>,
    divider: char,
    tail: Seq<char>,
    replacement: Seq<char>,
)
    requires
        !tail.contains(divider),
    ensures
        with_last_part(head + seq![divider] + tail, seq![divider], replacement) == head
            + seq![divider] + replacement,
{
    let s = head + seq![divider] + tail;
    lemma_last_part(s, divider, head.len() as int, 0, 0);
    assert(s.take(head.len() as int + 1) =~= head + seq![divider]);
}

/// An address without a divider is replaced whole.
pub proof fn transform_without_divider(s: Seq<char>, divider: char, replacement: Seq<char>)
    requires
        !s.contains(divider),
    ensures
        with_last_part(s, seq![divider], replacement) == replacement,
{
    lemma_no_divider(s, divider, 0, 0);
    assert(s.take(0) + replacement =~= replacement);
}

/// Looking from a place after which no divider stands finds none.
proof fn lemma_no_divider(s: Seq<char>, divider: char, i: int, end: int)
    requires
        0 <= i,
        forall|j: int| i <= j < s.len() ==> s[j] != divider,
    ensures
        last_part_from(s, seq![divider], i, end) == end,
    decreases s.len() - i,
{
    if i < s.len() {
        if divider_at(s, seq![divider], i) {
            assert(s.subrange(i, i + 1)[0] == s[i]);
        }
        lemma_no_divider(s, divider, i + 1, end);
    }
}

/// Looking from a place before the last divider ends behind that divider.
proof fn lemma_last_part(s: Seq<char>, divider: char, at: int, i: int, end: int)
    requires
        0 <= i <= at < s.len(),
        s[at] == divider,
        forall|j: int| at < j < s.len() ==> s[j] != divider,
    ensures
        last_part_from(s, seq![divider], i, end) == at + 1,
    decreases s.len() - i,
{
    let d = seq![divider];
    if i == at {
        assert(s.subrange(i, i + 1) =~= d);
        lemma_no_divider(s, divider, i + 1, i + 1);
    } else {
        if divider_at(s, d, i) {
            lemma_last_part(s, divider, at, i + 1, i + 1);
        } else {
            lemma_last_part(s, divider, at, i + 1, end);
        }
    }
}

/// The network settings of a cluster.
#[derive(Debug)]
pub struct KubernetesNetworkConfig {
    pub ip_family: Option<IpFamily>,
    pub service_ipv4_cidr: Option<String>,
    pub service_ipv6_cidr: Option<String>,
}

/// The description of a cluster, as far as it is read.
#[derive(Debug)]
pub struct Cluster {
    pub version: Option<String>,
    pub endpoint: Option<String>,
    /// The data of the certificate authority, where there is one.
    pub certificate_authority: Option<Option<String>>,
    /// The subnets of the network settings, where there are any.
    pub resources_vpc_config: Option<Option<Vec<String>>>,
    pub kubernetes_network_config: Option<KubernetesNetworkConfig>,
}

/// A description, or the text of the error of asking for it.
pub type ClusterAnswer = Result<Option<Cluster>, String>;

/// A message on a missing answer, on a missing cluster, or on a missing field of it.
pub open spec fn cluster_error(
    answer: ClusterAnswer,
    no_cluster: Seq<char>,
    no_field: Seq<char>,
) -> ProviderErrorView {
    match answer {
        Err(e) => ProviderErrorView::caused("Unable to get eks describe cluster"@, e@),
        Ok(None) => ProviderErrorView::because(no_cluster),
        Ok(Some(_)) => ProviderErrorView::because(no_field),
    }
}

/// The cluster of an answer.
fn described<'a>(answer: &'a ClusterAnswer, no_cluster: &str) -> (r: ProviderResult<&'a Cluster>)
    ensures
        match r {
            Ok(c) => *answer matches Ok(Some(d)) && *c == d,
            Err(e) => match *answer {
                Err(s) => e@ == ProviderErrorView::caused(
                    "Unable to get eks describe cluster"@,
                    s@,
                ),
                Ok(None) => e@ == ProviderErrorView::because(no_cluster@),
                Ok(Some(_)) => false,
            },
        },
{
    match answer {
        Err(e) => Err(
            ProviderError::new_with_source_and_context(
                String::from_str("Unable to get eks describe cluster"),
                e.clone(),
            ),
        ),
        Ok(None) => Err(ProviderError::new_with_context(String::from_str(no_cluster))),
        Ok(Some(c)) => Ok(c),
    }
}

/// The text of a field, or an error.
fn field(value: &Option<String>, message: &str) -> (r: ProviderResult<String>)
    ensures
        match r {
            Ok(v) => text_option(*value) == Some(v@),
            Err(e) => *value is None && e@ == ProviderErrorView::because(message@),
        },
{
    match value {
        Some(v) => Ok(v.clone()),
        None => Err(ProviderError::new_with_context(String::from_str(message))),
    }
}

/// The version of a cluster.
pub open spec fn version_of(answer: ClusterAnswer) -> Result<Seq<char>, ProviderErrorView> {
    match answer {
        Ok(Some(Cluster { version: Some(v), .. })) => Ok(v@),
        _ => Err(
            cluster_error(
                answer,
                "Response missing cluster field"@,
                "Cluster missing version field"@,
            ),
        ),
    }
}

/// A result as its contents.
pub open spec fn text_result(r: ProviderResult<String>) -> Result<Seq<char>, ProviderErrorView> {
    match r {
        Ok(s) => Ok(s@),
        Err(e) => Err(e@),
    }
}

/// A result with a list of texts as its contents.
pub open spec fn texts_result(r: ProviderResult<Vec<String>>) -> Result<
    Seq<Seq<char>>,
    ProviderErrorView,
> {
    match r {
        Ok(v) => Ok(texts(v@)),
        Err(e) => Err(e@),
    }
}

/// Extract the eks version from the cluster.
pub fn eks_version(answer: &ClusterAnswer) -> (r: ProviderResult<String>)
    ensures
        text_result(r) == version_of(*answer),
{
    match described(answer, "Response missing cluster field") {
        Ok(c) => field(&c.version, "Cluster missing version field"),
        Err(e) => Err(e),
    }
}

/// The endpoint of a cluster.
pub open spec fn endpoint_of(answer: ClusterAnswer) -> Result<Seq<char>, ProviderErrorView> {
    match answer {
        Ok(Some(Cluster { endpoint: Some(v), .. })) => Ok(v@),
        _ => Err(
            cluster_error(
                answer,
                "Results missing cluster field"@,
                "Cluster missing endpoint field"@,
            ),
        ),
    }
}

/// Extract the apiserver endpoint from the cluster.
pub fn endpoint(answer: &ClusterAnswer) -> (r: ProviderResult<String>)
    ensures
        text_result(r) == endpoint_of(*answer),
{
    match described(answer, "Results missing cluster field") {
        Ok(c) => field(&c.endpoint, "Cluster missing endpoint field"),
        Err(e) => Err(e),
    }
}

/// The certificate of a cluster.
pub open spec fn certificate_of(answer: ClusterAnswer) -> Result<Seq<char>, ProviderErrorView> {
    match answer {
        Ok(Some(Cluster { certificate_authority: Some(Some(v)), .. })) => Ok(v@),
        Ok(Some(Cluster { certificate_authority: Some(None), .. })) => Err(
            ProviderErrorView::because("Certificate authority missing data"@),
        ),
        _ => Err(
            cluster_error(
                answer,
                "Results missing cluster field"@,
                "Cluster missing certificate_authority field"@,
            ),
        ),
    }
}

/// Extract the certificate authority from the cluster.
pub fn certificate(answer: &ClusterAnswer) -> (r: ProviderResult<String>)
    ensures
        text_result(r) == certificate_of(*answer),
{
    match described(answer, "Results missing cluster field") {
        Err(e) => Err(e),
        Ok(c) => match &c.certificate_authority {
            None => Err(
                ProviderError::new_with_context(
                    String::from_str("Cluster missing certificate_authority field"),
                ),
            ),
            Some(data) => field(data, "Certificate authority missing data"),
        },
    }
}

/// The subnets of a cluster.
pub open spec fn subnets_of(answer: ClusterAnswer) -> Result<Seq<Seq<char>>, ProviderErrorView> {
    match answer {
        Ok(Some(Cluster { resources_vpc_config: Some(Some(v)), .. })) => Ok(texts(v@)),
        Ok(Some(Cluster { resources_vpc_config: Some(None), .. })) => Err(
            ProviderErrorView::because("resources_vpc_config missing subnet ids"@),
        ),
        _ => Err(
            cluster_error(
                answer,
                "Response missing cluster field"@,
                "Cluster missing resources_vpc_config field"@,
            ),
        ),
    }
}

/// Extract the subnet ids from the cluster.
pub fn eks_subnet_ids(answer: &ClusterAnswer) -> (r: ProviderResult<Vec<String>>)
    ensures
        texts_result(r) == subnets_of(*answer),
{
    match described(answer, "Response missing cluster field") {
        Err(e) => Err(e),
        Ok(c) => match &c.resources_vpc_config {
            None => Err(
                ProviderError::new_with_context(
                    String::from_str("Cluster missing resources_vpc_config field"),
                ),
            ),
            Some(None) => Err(
                ProviderError::new_with_context(
                    String::from_str("resources_vpc_config missing subnet ids"),
                ),
            ),
            Some(Some(ids)) => Ok(copy_texts(ids)),
        },
    }
}

/// The kind of addresses of a cluster and the address of its DNS service.
pub open spec fn dns_of(answer: ClusterAnswer) -> Result<
    (IpFamily, Option<Seq<char>>),
    ProviderErrorView,
> {
    match answer {
        Ok(Some(Cluster { kubernetes_network_config: Some(network), .. })) => match network.ip_family {
            Some(IpFamily::Ipv4) => Ok(
                (
                    IpFamily::Ipv4,
                    match network.service_ipv4_cidr {
                        Some(c) => Some(with_last_part(c@, IPV4_DIVIDER@, IPV4_OCTET@)),
                        None => None,
                    },
                ),
            ),
            Some(IpFamily::Ipv6) => Ok(
                (
                    IpFamily::Ipv6,
                    match network.service_ipv6_cidr {
                        Some(c) => Some(with_last_part(c@, IPV6_DIVIDER@, IPV6_HEXTET@)),
                        None => None,
                    },
                ),
            ),
            Some(IpFamily::Unknown) => Err(ProviderErrorView::because("Invalid dns ip"@)),
            None => Err(ProviderErrorView::because("IP family missing data"@)),
        },
        _ => Err(
            cluster_error(
                answer,
                "Cluster missing kubernetes_network_config field"@,
                "Cluster missing kubernetes_network_config field"@,
            ),
        ),
    }
}

/// The address of the DNS service of a cluster, derived from the addresses of its services.
pub fn dns_ip(answer: &ClusterAnswer) -> (r: ProviderResult<ClusterDnsIpInfo>)
    ensures
        match r {
            Ok(info) => dns_of(*answer) == Ok::<
                (IpFamily, Option<Seq<char>>),
                ProviderErrorView,
            >((info.0, text_option(info.1))),
            Err(e) => dns_of(*answer) == Err::<(IpFamily, Option<Seq<char>>), ProviderErrorView>(
                e@,
            ),
        },
{
    let cluster = match described(answer, "Cluster missing kubernetes_network_config field") {
        Ok(c) => c,
        Err(e) => return Err(e),
    };
    match &cluster.kubernetes_network_config {
        None => Err(
            ProviderError::new_with_context(
                String::from_str("Cluster missing kubernetes_network_config field"),
            ),
        ),
        Some(network) => match network.ip_family {
            None => Err(
                ProviderError::new_with_context(String::from_str("IP family missing data")),
            ),
            Some(IpFamily::Ipv4) => match &network.service_ipv4_cidr {
                Some(dns_ip) => Ok(
                    (
                        IpFamily::Ipv4,
                        Some(transform_dns_ip(dns_ip.clone(), IPV4_DIVIDER, IPV4_OCTET)),
                    ),
                ),
                None => Ok((IpFamily::Ipv4, None)),
            },
            Some(IpFamily::Ipv6) => match &network.service_ipv6_cidr {
                Some(dns_ip) => Ok(
                    (
                        IpFamily::Ipv6,
                        Some(transform_dns_ip(dns_ip.clone(), IPV6_DIVIDER, IPV6_HEXTET)),
                    ),
                ),
                None => Ok((IpFamily::Ipv6, None)),
            },
            Some(IpFamily::Unknown) => Err(
                ProviderError::new_with_context(String::from_str("Invalid dns ip")),
            ),
        },
    }
}

/// Which of the subnets of a cluster are meant.
#[derive(Copy, Clone, Debug, PartialEq, Eq, Structural)]
pub enum SubnetType {
    Public,
    Private,
}

impl SubnetType {
    /// The name of the kind.
    pub open spec fn name_text(self) -> Seq<char> {
        match self {
            SubnetType::Public => "Public"@,
            SubnetType::Private => "Private"@,
        }
    }

    /// The pattern of the names of such subnets.
    pub fn tag(&self, cluster_name: &str) -> (r: String)
        ensures
            r@ == "eksctl-"@ + cluster_name@ + "-cluster*"@ + self.name_text() + "*"@,
    {
        let subnet_type = match self {
            SubnetType::Public => "Public",
            SubnetType::Private => "Private",
        };
        concat5("eksctl-", cluster_name, "-cluster*", subnet_type, "*")
    }
}

/// Which of the security groups of a cluster are meant.
#[derive(Copy, Clone, Debug, PartialEq, Eq, Structural)]
pub enum SecurityGroupType {
    NodeGroup,
    ClusterShared,
    ControlPlane,
}

impl SecurityGroupType {
    /// The part of the name that tells such groups.
    pub open spec fn group_text(self) -> Seq<char> {
        match self {
            SecurityGroupType::NodeGroup => "nodegroup"@,
            SecurityGroupType::ClusterShared => "ClusterSharedNodeSecurityGroup"@,
            SecurityGroupType::ControlPlane => "ControlPlaneSecurityGroup"@,
        }
    }

    /// The name of the kind.
    pub open spec fn name_text(self) -> Seq<char> {
        match self {
            SecurityGroupType::NodeGroup => "NodeGroup"@,
            SecurityGroupType::ClusterShared => "ClusterShared"@,
            SecurityGroupType::ControlPlane => "ControlPlane"@,
        }
    }

    /// The pattern of the names of such groups.
    pub fn tag(&self, cluster_name: &str) -> (r: String)
        ensures
            r@ == "*"@ + cluster_name@ + "*"@ + self.group_text() + "*"@,
    {
        let sg = match self {
            SecurityGroupType::NodeGroup => "nodegroup",
            SecurityGroupType::ClusterShared => "ClusterSharedNodeSecurityGroup",
            SecurityGroupType::ControlPlane => "ControlPlaneSecurityGroup",
        };
        concat5("*", cluster_name, "*", sg, "*")
    }
}

/// The ids of a list, or the text of the error of asking for it. A list may be missing, and an
/// entry may lack an id.
pub type IdsAnswer = Result<Option<Vec<Option<String>>>, String>;

/// The texts of the entries that have one, in order.
pub open spec fn present(entries: Seq<Option<String>>) -> Seq<Seq<char>>
    decreases entries.len(),
{
    if entries.len() == 0 {
        Seq::empty()
    } else {
        let head = present(entries.drop_last());
        match entries.last() {
            Some(id) => head.push(id@),
            None => head,
        }
    }
}

/// The texts of the entries that have one, in order.
pub fn present_ids(entries: &Vec<Option<String>>) -> (r: Vec<String>)
    ensures
        texts(r@) == present(entries@),
{
    let mut out: Vec<String> = Vec::new();
    let mut i: usize = 0;
    assert(texts(out@) =~= present(entries@.take(0)));
    while i < entries.len()
        invariant
            i <= entries@.len(),
            texts(out@) == present(entries@.take(i as int)),
        decreases entries@.len() - i,
    {
        assert(entries@.take(i + 1).drop_last() =~= entries@.take(i as int));
        assert(entries@.take(i + 1).last() == entries@[i as int]);
        if let Some(id) = &entries[i] {
            let ghost was = out@;
            out.push(id.clone());
            assert(texts(out@) =~= texts(was).push(id@));
        }
        i = i + 1;
    }
    assert(entries@.take(i as int) =~= entries@);
    out
}

/// What is made of an answer with ids.
pub open spec fn ids_of(answer: IdsAnswer, failed: Seq<char>, missing: Seq<char>) -> Result<
    Seq<Seq<char>>,
    ProviderErrorView,
> {
    match answer {
        Err(e) => Err(ProviderErrorView::caused(failed, e@)),
        Ok(None) => Err(ProviderErrorView::because(missing)),
        Ok(Some(entries)) => Ok(present(entries@)),
    }
}

fn ids(answer: &IdsAnswer, failed: &str, missing: &str) -> (r: ProviderResult<Vec<String>>)
    ensures
        texts_result(r) == ids_of(*answer, failed@, missing@),
{
    match answer {
        Err(e) => Err(
            ProviderError::new_with_source_and_context(String::from_str(failed), e.clone()),
        ),
        Ok(None) => Err(ProviderError::new_with_context(String::from_str(missing))),
        Ok(Some(entries)) => Ok(present_ids(entries)),
    }
}

/// The ids of the subnets that were found. The error does not tell the kinds apart.
pub fn subnet_ids(answer: &IdsAnswer) -> (r: ProviderResult<Vec<String>>)
    ensures
        texts_result(r) == ids_of(
            *answer,
            "Unable to get private subnet ids"@,
            "Results missing subnets field"@,
        ),
{
    ids(answer, "Unable to get private subnet ids", "Results missing subnets field")
}

/// What is said where the security groups of a kind cannot be had.
pub open spec fn no_security_groups(security_group_type: SecurityGroupType) -> Seq<char> {
    "Unable to get "@ + security_group_type.name_text() + " security group"@
}

/// The ids of the security groups that were found.
pub fn security_group(
    answer: &IdsAnswer,
    security_group_type: SecurityGroupType,
) -> (r: ProviderResult<Vec<String>>)
    ensures
        texts_result(r) == ids_of(
            *answer,
            no_security_groups(security_group_type),
            "Results missing security_groups field"@,
        ),
{
    let kind = match security_group_type {
        SecurityGroupType::NodeGroup => "NodeGroup",
        SecurityGroupType::ClusterShared => "ClusterShared",
        SecurityGroupType::ControlPlane => "ControlPlane",
    };
    let head = concat2("Unable to get ", kind);
    let failed = concat2(head.as_str(), " security group");
    ids(answer, failed.as_str(), "Results missing security_groups field")
}

/// An instance profile: its own id and those of its roles.
#[derive(Debug)]
pub struct InstanceProfile {
    pub arn: Option<String>,
    pub roles: Option<Vec<Option<String>>>,
}

/// The instance profiles, or the text of the error of asking for them.
pub type ProfilesAnswer = Result<Option<Vec<InstanceProfile>>, String>;

/// Whether one of some optional texts is a text.
pub open spec fn holds_text(entries: Seq<Option<String>>, text: Seq<char>) -> bool {
    exists|i: int| 0 <= i < entries.len() && text_option(#[trigger] entries[i]) == Some(text)
}

/// Whether a profile has a role.
pub open spec fn has_role(profile: InstanceProfile, role: Seq<char>) -> bool {
    profile.roles is Some && holds_text(profile.roles->0@, role)
}

fn profile_has_role(profile: &InstanceProfile, role: &str) -> (r: bool)
    ensures
        r == has_role(*profile, role@),
{
    match &profile.roles {
        None => false,
        Some(roles) => {
            let mut i: usize = 0;
            while i < roles.len()
                invariant
                    i <= roles@.len(),
                    profile.roles == Some(*roles),
                    forall|j: int|
                        0 <= j < i ==> text_option(#[trigger] roles@[j]) != Some(role@),
                decreases roles@.len() - i,
            {
                if let Some(arn) = &roles[i] {
                    if str_eq(arn.as_str(), role) {
                        assert(text_option(roles@[i as int]) == Some(role@));
                        return true;
                    }
                }
                i = i + 1;
            }
            false
        },
    }
}

/// The first profile that has a role, from place `i` on.
pub open spec fn first_with_role(
    profiles: Seq<InstanceProfile>,
    role: Seq<char>,
    i: int,
) -> Option<InstanceProfile>
    decreases profiles.len() - i,
{
    if i < 0 || i >= profiles.len() {
        None
    } else if has_role(profiles[i], role) {
        Some(profiles[i])
    } else {
        first_with_role(profiles, role, i + 1)
    }
}

/// The instance profile of a role.
pub open spec fn profile_of(answer: ProfilesAnswer, role: Seq<char>) -> Result<
    Seq<char>,
    ProviderErrorView,
> {
    match answer {
        Err(e) => Err(ProviderErrorView::caused("Unable to list instance profiles"@, e@)),
        Ok(None) => Err(ProviderErrorView::because("No instance profiles found"@)),
        Ok(Some(profiles)) => match first_with_role(profiles@, role, 0) {
            None => Err(ProviderErrorView::because("Node instance profile not found"@)),
            Some(p) => match p.arn {
                Some(arn) => Ok(arn@),
                None => Err(
                    ProviderErrorView::because("Node instance profile missing arn field"@),
                ),
            },
        },
    }
}

/// The id of the first instance profile that has a role.
pub fn instance_profile(answer: &ProfilesAnswer, node_instance_role: &str) -> (r: ProviderResult<
    String,
>)
    ensures
        text_result(r) == profile_of(*answer, node_instance_role@),
{
    match answer {
        Err(e) => Err(
            ProviderError::new_with_source_and_context(
                String::from_str("Unable to list instance profiles"),
                e.clone(),
            ),
        ),
        Ok(None) => Err(
            ProviderError::new_with_context(String::from_str("No instance profiles found")),
        ),
        Ok(Some(profiles)) => {
            let mut i: usize = 0;
            while i < profiles.len()
                invariant
                    i <= profiles@.len(),
                    first_with_role(profiles@, node_instance_role@, 0) == first_with_role(
                        profiles@,
                        node_instance_role@,
                        i as int,
                    ),
                    *answer == Ok::<Option<Vec<InstanceProfile>>, String>(Some(*profiles)),
                decreases profiles@.len() - i,
            {
                if profile_has_role(&profiles[i], node_instance_role) {
                    return field(&profiles[i].arn, "Node instance profile missing arn field");
                }
                i = i + 1;
            }
            Err(
                ProviderError::new_with_context(
                    String::from_str("Node instance profile not found"),
                ),
            )
        },
    }
}

/// What `serde_json` reads a document as, with an eye on a member of its first element: the
/// text of an error, or the element if there is one, its member if there is one, and the text
/// of that if it is one.
pub uninterp spec fn json_first_member(json: Seq<char>, key: Seq<char>) -> Result<
    Option<Option<Option<Seq<char>>>>,
    Seq<char>,
>;

/// The contents of a member that was looked up.
pub open spec fn member_view(m: Result<Option<Option<Option<String>>>, String>) -> Result<
    Option<Option<Option<Seq<char>>>>,
    Seq<char>,
> {
    match m {
        Err(e) => Err(e@),
        Ok(None) => Ok(None),
        Ok(Some(None)) => Ok(Some(None)),
        Ok(Some(Some(t))) => Ok(Some(Some(text_option(t)))),
    }
}

/// Reads a document with `serde_json::from_str`, and looks up with `serde_json::Value::get` and
/// `serde_json::Value::as_str` the text of a member of its first element; `json_first_member`
/// names the outcome.
#[verifier::external_body]
fn read_first_member(json: &str, key: &str) -> (r: Result<Option<Option<Option<String>>>, String>)
    ensures
        member_view(r) == json_first_member(json@, key@),
{
    let value: Result<serde_json::Value, serde_json::Error> = serde_json::from_str(json);
    value.map_err(|e| e.to_string()).map(
        |v| v.get(0).map(|e| e.get(key).map(|m| m.as_str().map(|s| s.to_string()))),
    )
}

/// What is made of the role of the first identity that is mapped to a cluster.
pub open spec fn role_of(member: Result<Option<Option<Option<Seq<char>>>>, Seq<char>>) -> Result<
    Seq<char>,
    ProviderErrorView,
> {
    match member {
        Err(e) => Err(ProviderErrorView::caused("Unable to deserialize iam identity mapping"@, e)),
        Ok(None) => Err(ProviderErrorView::because("No profiles found."@)),
        Ok(Some(None)) => Err(ProviderErrorView::because("Profile does not contain rolearn."@)),
        Ok(Some(Some(None))) => Err(ProviderErrorView::because("Rolearn is not a string."@)),
        Ok(Some(Some(Some(arn)))) => Ok(arn),
    }
}

/// The role of the first identity that is mapped to a cluster, as it was looked up.
pub fn mapped_role(member: Result<Option<Option<Option<String>>>, String>) -> (r: ProviderResult<
    String,
>)
    ensures
        text_result(r) == role_of(member_view(member)),
{
    match member {
        Err(e) => Err(
            ProviderError::new_with_source_and_context(
                String::from_str("Unable to deserialize iam identity mapping"),
                e,
            ),
        ),
        Ok(None) => Err(ProviderError::new_with_context(String::from_str("No profiles found."))),
        Ok(Some(None)) => Err(
            ProviderError::new_with_context(
                String::from_str("Profile does not contain rolearn."),
            ),
        ),
        Ok(Some(Some(None))) => Err(
            ProviderError::new_with_context(String::from_str("Rolearn is not a string.")),
        ),
        Ok(Some(Some(Some(arn)))) => Ok(arn),
    }
}

/// The output of `eksctl`, or the text of the error of running it.
pub type OutputAnswer = Result<String, String>;

/// What is made of the output of `eksctl get iamidentitymapping`.
pub open spec fn identity_of(answer: OutputAnswer) -> Result<Seq<char>, ProviderErrorView> {
    match answer {
        Err(e) => Err(ProviderErrorView::caused("Unable to get iam identity mapping."@, e@)),
        Ok(json) => role_of(json_first_member(json@, "rolearn"@)),
    }
}

/// The role of the first identity that is mapped to a cluster, from the output of `eksctl`.
pub fn cluster_iam_identity_mapping(answer: &OutputAnswer) -> (r: ProviderResult<String>)
    ensures
        text_result(r) == identity_of(*answer),
{
    match answer {
        Err(e) => Err(
            ProviderError::new_with_source_and_context(
                String::from_str("Unable to get iam identity mapping."),
                e.clone(),
            ),
        ),
        Ok(json) => mapped_role(read_first_member(json.as_str(), "rolearn")),
    }
}

/// The arguments of `eksctl` that list the identities mapped to a cluster.
pub open spec fn get_mapping_args(cluster_name: Seq<char>, region: Seq<char>) -> Seq<Seq<char>> {
    seq![
        "get"@,
        "iamidentitymapping"@,
        "--cluster"@,
        cluster_name,
        "--region"@,
        region,
        "--output"@,
        "json"@,
    ]
}

/// The arguments of `eksctl` that list the identities mapped to a cluster.
pub fn iam_identity_mapping_args(cluster_name: &str, region: &str) -> (r: Vec<String>)
    ensures
        views(r@) == get_mapping_args(cluster_name@, region@),
{
    let mut args: Vec<String> = Vec::new();
    args.push(String::from_str("get"));
    args.push(String::from_str("iamidentitymapping"));
    args.push(String::from_str("--cluster"));
    args.push(String::from_str(cluster_name));
    args.push(String::from_str("--region"));
    args.push(String::from_str(region));
    args.push(String::from_str("--output"));
    args.push(String::from_str("json"));
    assert(views(args@) =~= get_mapping_args(cluster_name@, region@));
    args
}

/// The arguments of `eksctl` that write a kubeconfig file.
pub open spec fn kubeconfig_args(
    cluster_name: Seq<char>,
    region: Seq<char>,
    kubeconfig_dir: Seq<char>,
) -> Seq<Seq<char>> {
    seq![
        "utils"@,
        "write-kubeconfig"@,
        "-r"@,
        region,
        "--cluster="@ + cluster_name,
        "--kubeconfig="@ + kubeconfig_dir,
    ]
}

/// The arguments of `eksctl` that write a kubeconfig file.
pub fn write_kubeconfig(cluster_name: &str, region: &str, kubeconfig_dir: &str) -> (r: Vec<String>)
    ensures
        views(r@) == kubeconfig_args(cluster_name@, region@, kubeconfig_dir@),
{
    let mut args: Vec<String> = Vec::new();
    args.push(String::from_str("utils"));
    args.push(String::from_str("write-kubeconfig"));
    args.push(String::from_str("-r"));
    args.push(String::from_str(region));
    args.push(concat2("--cluster=", cluster_name));
    args.push(concat2("--kubeconfig=", kubeconfig_dir));
    assert(views(args@) =~= kubeconfig_args(cluster_name@, region@, kubeconfig_dir@));
    args
}

/// What writing a kubeconfig file came to. A status is whether it is one of success, and its
/// text.
pub fn check_kubeconfig_written(status: Result<(bool, String), String>) -> (r: ProviderResult<()>)
    ensures
        match status {
            Ok((true, _)) => r is Ok,
            Ok((false, text)) => r is Err && r->Err_0@ == ProviderErrorView::because(
                "Failed write kubeconfig with status code "@ + text@,
            ),
            Err(e) => r is Err && r->Err_0@ == ProviderErrorView::caused(
                "Unable to generate and write kubeconfig"@,
                e@,
            ),
        },
{
    match status {
        Err(e) => Err(
            ProviderError::new_with_source_and_context(
                String::from_str("Unable to generate and write kubeconfig"),
                e,
            ),
        ),
        Ok((success, text)) => {
            if !success {
                return Err(
                    ProviderError::new_with_context(
                        concat2("Failed write kubeconfig with status code ", text.as_str()),
                    ),
                );
            }
            Ok(())
        },
    }
}

} // verus!
