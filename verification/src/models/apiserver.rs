//! The objects that install the apiserver.

use vstd::prelude::*;
use vstd::string::*;

use crate::apiserver::api::{route, Endpoint, Method};
use crate::models::constants::{
    APISERVER, APISERVER_HEALTH_CHECK_ROUTE, APISERVER_INTERNAL_PORT, APISERVER_MAX_UNAVAILABLE,
    APISERVER_SERVICE_NAME, APISERVER_SERVICE_PORT, BRUPOP, BRUPOP_DOMAIN_LIKE_NAME,
    K8S_NODE_PLURAL, K8S_NODE_STATUS, LABEL_COMPONENT,
};
use crate::models::manifest::{
    brupop_labels, common_labels, component_label, entry, grants, is_subject, linux_nodes, list1,
    new_linux_nodes, new_object_meta, new_policy_rule, new_pull_secrets, new_role_binding,
    new_service, new_service_account, object_meta, plain_container, policy_rule, pull_secrets,
    role_binding, routes_to, runs_as, selects_pods, service, service_account, strs, views,
    ClusterRole, ClusterRoleBinding, ClusterRoleBindingView, ClusterRoleView, Container,
    ContainerView, Deployment, DeploymentStrategy, DeploymentStrategyView, DeploymentView, PodSpec,
    PodSpecView, PodTemplateSpec, PodTemplateSpecView, PolicyRule, PolicyRuleView, Probe,
    ProbeView, Service, ServiceAccount, ServiceAccountView, ServiceView,
};
use crate::models::meta::text_option;

verus! {

pub const BRUPOP_APISERVER_SERVICE_ACCOUNT: &'static str = "brupop-apiserver-service-account";

pub const BRUPOP_APISERVER_CLUSTER_ROLE: &'static str = "brupop-apiserver-role";

/// A kubernetes system role which allows a system to use the TokenReview API.
pub const AUTH_DELEGATOR_ROLE_NAME: &'static str = "system:auth-delegator";

/// The service account of the apiserver.
pub open spec fn apiserver_service_account_manifest() -> ServiceAccountView {
    service_account(BRUPOP_APISERVER_SERVICE_ACCOUNT@, None)
}

/// Defines the brupop-apiserver service account
pub fn apiserver_service_account() -> (r: ServiceAccount)
    ensures
        r@ == apiserver_service_account_manifest(),
{
    new_service_account(BRUPOP_APISERVER_SERVICE_ACCOUNT, None)
}

/// What the apiserver may do with the custom resources, deployments, pods and nodes.
pub open spec fn apiserver_rules() -> Seq<PolicyRuleView> {
    seq![
        policy_rule(
            BRUPOP_DOMAIN_LIKE_NAME@,
            strs(seq![K8S_NODE_PLURAL, K8S_NODE_STATUS]),
            strs(seq!["create", "get", "list", "patch", "update", "watch"]),
        ),
        policy_rule(
            "apps"@,
            strs(seq!["deployments"]),
            strs(
                seq!["create", "delete", "deletecollection", "get", "list", "patch", "update"],
            ),
        ),
        policy_rule(""@, strs(seq!["pods"]), strs(seq!["get", "list", "watch"])),
        policy_rule(""@, strs(seq!["nodes"]), strs(seq!["get", "list", "patch"])),
        policy_rule(""@, strs(seq!["pods/eviction"]), strs(seq!["create"])),
    ]
}

fn new_apiserver_rules() -> (r: Vec<PolicyRule>)
    ensures
        views(r@) == apiserver_rules(),
{
    let custom = vec![K8S_NODE_PLURAL, K8S_NODE_STATUS];
    let change = vec!["create", "get", "list", "patch", "update", "watch"];
    let deployments = vec!["deployments"];
    let manage = vec!["create", "delete", "deletecollection", "get", "list", "patch", "update"];
    let pods = vec!["pods"];
    let read = vec!["get", "list", "watch"];
    let nodes = vec!["nodes"];
    let mark = vec!["get", "list", "patch"];
    let eviction = vec!["pods/eviction"];
    let create = vec!["create"];
    proof {
        assert(custom@ =~= seq![K8S_NODE_PLURAL, K8S_NODE_STATUS]);
        assert(change@ =~= seq!["create", "get", "list", "patch", "update", "watch"]);
        assert(deployments@ =~= seq!["deployments"]);
        assert(manage@ =~= seq![
            "create",
            "delete",
            "deletecollection",
            "get",
            "list",
            "patch",
            "update",
        ]);
        assert(pods@ =~= seq!["pods"]);
        assert(read@ =~= seq!["get", "list", "watch"]);
        assert(nodes@ =~= seq!["nodes"]);
        assert(mark@ =~= seq!["get", "list", "patch"]);
        assert(eviction@ =~= seq!["pods/eviction"]);
        assert(create@ =~= seq!["create"]);
    }
    let mut rules: Vec<PolicyRule> = Vec::new();
    rules.push(new_policy_rule(BRUPOP_DOMAIN_LIKE_NAME, custom, change));
    rules.push(new_policy_rule("apps", deployments, manage));
    rules.push(new_policy_rule("", pods, read));
    rules.push(new_policy_rule("", nodes, mark));
    rules.push(new_policy_rule("", eviction, create));
    assert(views(rules@) =~= apiserver_rules());
    rules
}

/// The role of the apiserver.
pub open spec fn apiserver_cluster_role_manifest() -> ClusterRoleView {
    ClusterRoleView {
        metadata: object_meta(Some(BRUPOP_APISERVER_CLUSTER_ROLE@), None, None),
        rules: apiserver_rules(),
    }
}

/// Defines the brupop-apiserver cluster role
pub fn apiserver_cluster_role() -> (r: ClusterRole)
    ensures
        r@ == apiserver_cluster_role_manifest(),
{
    ClusterRole {
        metadata: new_object_meta(
            Some(String::from_str(BRUPOP_APISERVER_CLUSTER_ROLE)),
            None,
            None,
        ),
        rules: new_apiserver_rules(),
    }
}

/// The binding that grants the apiserver its role.
pub open spec fn apiserver_cluster_role_binding_manifest() -> ClusterRoleBindingView {
    role_binding(
        "brupop-apiserver-role-binding"@,
        None,
        BRUPOP_APISERVER_CLUSTER_ROLE@,
        BRUPOP_APISERVER_SERVICE_ACCOUNT@,
    )
}

/// Defines the brupop-apiserver cluster role binding
pub fn apiserver_cluster_role_binding() -> (r: ClusterRoleBinding)
    ensures
        r@ == apiserver_cluster_role_binding_manifest(),
{
    new_role_binding(
        "brupop-apiserver-role-binding",
        None,
        BRUPOP_APISERVER_CLUSTER_ROLE,
        BRUPOP_APISERVER_SERVICE_ACCOUNT,
    )
}

/// The binding that lets the apiserver have tokens checked.
pub open spec fn apiserver_auth_delegator_cluster_role_binding_manifest() -> ClusterRoleBindingView {
    role_binding(
        "brupop-apiserver-auth-delegator-role-binding"@,
        None,
        AUTH_DELEGATOR_ROLE_NAME@,
        BRUPOP_APISERVER_SERVICE_ACCOUNT@,
    )
}

/// Defines the brupop-apiserver cluster role binding
pub fn apiserver_auth_delegator_cluster_role_binding() -> (r: ClusterRoleBinding)
    ensures
        r@ == apiserver_auth_delegator_cluster_role_binding_manifest(),
{
    new_role_binding(
        "brupop-apiserver-auth-delegator-role-binding",
        None,
        AUTH_DELEGATOR_ROLE_NAME,
        BRUPOP_APISERVER_SERVICE_ACCOUNT,
    )
}

/// The request by which the cluster learns how the apiserver is.
pub open spec fn health_check() -> ProbeView {
    ProbeView {
        path: APISERVER_HEALTH_CHECK_ROUTE@,
        port: APISERVER_INTERNAL_PORT,
        initial_delay_seconds: 5,
    }
}

fn new_health_check() -> (r: Probe)
    ensures
        r@ == health_check(),
{
    Probe {
        path: String::from_str(APISERVER_HEALTH_CHECK_ROUTE),
        port: APISERVER_INTERNAL_PORT,
        initial_delay_seconds: 5,
    }
}

/// The container of the apiserver.
pub open spec fn apiserver_container(image: Seq<char>) -> ContainerView {
    ContainerView {
        ports: seq![APISERVER_INTERNAL_PORT],
        liveness_probe: Some(health_check()),
        readiness_probe: Some(health_check()),
        ..plain_container(image, "./apiserver"@)
    }
}

fn new_apiserver_container(image: String) -> (r: Container)
    ensures
        r@ == apiserver_container(image@),
{
    let mut ports: Vec<i32> = Vec::new();
    ports.push(APISERVER_INTERNAL_PORT);
    let r = Container {
        image,
        name: String::from_str(BRUPOP),
        command: list1(String::from_str("./apiserver")),
        env: Vec::new(),
        resources: None,
        volume_mounts: Vec::new(),
        se_linux_options: None,
        ports,
        liveness_probe: Some(new_health_check()),
        readiness_probe: Some(new_health_check()),
    };
    proof {
        assert(r@.env =~= seq![]);
        assert(r@.volume_mounts =~= seq![]);
        assert(r@.ports =~= seq![APISERVER_INTERNAL_PORT]);
    }
    r
}

/// The deployment that runs three apiservers.
pub open spec fn apiserver_deployment_manifest(
    image: Seq<char>,
    image_pull_secret: Option<Seq<char>>,
) -> DeploymentView {
    DeploymentView {
        metadata: object_meta(
            Some(APISERVER_SERVICE_NAME@),
            Some(common_labels(APISERVER@)),
            None,
        ),
        replicas: 3,
        match_labels: component_label(APISERVER@),
        strategy: DeploymentStrategyView {
            type_: None,
            max_unavailable: Some(APISERVER_MAX_UNAVAILABLE@),
        },
        template: PodTemplateSpecView {
            metadata: object_meta(None, Some(component_label(APISERVER@)), None),
            spec: PodSpecView {
                node_selector_terms: seq![linux_nodes()],
                containers: seq![apiserver_container(image)],
                service_account_name: BRUPOP_APISERVER_SERVICE_ACCOUNT@,
                image_pull_secrets: pull_secrets(image_pull_secret),
                volumes: seq![],
            },
        },
    }
}

/// Defines the brupop-apiserver deployment
pub fn apiserver_deployment(
    apiserver_image: String,
    image_pull_secret: Option<String>,
) -> (r: Deployment)
    ensures
        r@ == apiserver_deployment_manifest(apiserver_image@, text_option(image_pull_secret)),
{
    let r = Deployment {
        metadata: new_object_meta(
            Some(String::from_str(APISERVER_SERVICE_NAME)),
            Some(brupop_labels(APISERVER)),
            None,
        ),
        replicas: 3,
        match_labels: entry(LABEL_COMPONENT, APISERVER),
        strategy: DeploymentStrategy {
            type_: None,
            max_unavailable: Some(String::from_str(APISERVER_MAX_UNAVAILABLE)),
        },
        template: PodTemplateSpec {
            metadata: new_object_meta(None, Some(entry(LABEL_COMPONENT, APISERVER)), None),
            spec: PodSpec {
                node_selector_terms: list1(new_linux_nodes()),
                containers: list1(new_apiserver_container(apiserver_image)),
                service_account_name: String::from_str(BRUPOP_APISERVER_SERVICE_ACCOUNT),
                image_pull_secrets: new_pull_secrets(image_pull_secret),
                volumes: Vec::new(),
            },
        },
    };
    proof {
        assert(r@.template.spec.volumes =~= seq![]);
    }
    r
}

/// The service in front of the apiservers.
pub open spec fn apiserver_service_manifest() -> ServiceView {
    service(
        APISERVER_SERVICE_NAME@,
        APISERVER@,
        APISERVER_SERVICE_PORT,
        APISERVER_INTERNAL_PORT,
    )
}

/// Defines the service in front of the apiservers.
pub fn apiserver_service() -> (r: Service)
    ensures
        r@ == apiserver_service_manifest(),
{
    new_service(
        APISERVER_SERVICE_NAME,
        APISERVER,
        APISERVER_SERVICE_PORT,
        APISERVER_INTERNAL_PORT,
    )
}

/// The deployment of the apiserver finds its own pods, and the service routes to a port on
/// which their container listens.
pub proof fn apiserver_pods_are_found(image: Seq<char>, secret: Option<Seq<char>>)
    ensures
        ({
            let m = apiserver_deployment_manifest(image, secret);
            let s = apiserver_service_manifest();
            &&& selects_pods(m.match_labels, m.template)
            &&& routes_to(s, m.template)
            &&& m.template.spec.containers[0].ports.contains(s.ports[0].target_port)
        }),
{
    let c = apiserver_container(image);
    assert(c.ports[0] == APISERVER_INTERNAL_PORT);
}

/// The cluster asks the apiserver how it is at the route that answers it, on a port on which
/// its container listens.
pub proof fn health_checks_are_answered(image: Seq<char>, secret: Option<Seq<char>>)
    ensures
        ({
            let c = apiserver_deployment_manifest(image, secret).template.spec.containers[0];
            &&& c.liveness_probe is Some
            &&& c.liveness_probe == c.readiness_probe
            &&& (Method::Get, c.liveness_probe->0.path) == route(Endpoint::HealthCheck)
            &&& c.ports.contains(c.liveness_probe->0.port)
        }),
{
    let c = apiserver_container(image);
    assert(c.ports[0] == APISERVER_INTERNAL_PORT);
}

/// The pods of the apiserver run as the service account that is installed, which is granted the
/// role that is installed and may have tokens checked.
pub proof fn apiserver_role_is_granted(image: Seq<char>, secret: Option<Seq<char>>)
    ensures
        grants(
            apiserver_cluster_role_binding_manifest(),
            apiserver_cluster_role_manifest(),
            apiserver_service_account_manifest(),
        ),
        is_subject(
            apiserver_auth_delegator_cluster_role_binding_manifest(),
            apiserver_service_account_manifest(),
        ),
        runs_as(
            apiserver_deployment_manifest(image, secret).template.spec,
            apiserver_service_account_manifest(),
        ),
{
}

} // verus!
