//! The objects that install the controller.

use vstd::prelude::*;
use vstd::string::*;

use crate::models::constants::{
    BRUPOP, BRUPOP_DOMAIN_LIKE_NAME, CONTROLLER, CONTROLLER_DEPLOYMENT_NAME,
    CONTROLLER_INTERNAL_PORT, CONTROLLER_SERVICE_NAME, CONTROLLER_SERVICE_PORT, K8S_NODE_PLURAL,
    K8S_NODE_STATUS, LABEL_COMPONENT,
};
use crate::models::manifest::{
    brupop_labels, common_labels, component_label, entry, grants, linux_nodes, list1, list3,
    new_linux_nodes, new_object_meta, new_policy_rule, new_pull_secrets, new_role_binding,
    new_service, new_service_account, object_meta, plain_container, policy_rule, pull_secrets,
    role_binding, routes_to, runs_as, selects_pods, service, service_account, strs, ClusterRole,
    ClusterRoleBinding, ClusterRoleBindingView, ClusterRoleView, Container, Deployment,
    DeploymentStrategy, DeploymentStrategyView, DeploymentView, PodSpec, PodSpecView,
    PodTemplateSpec, PodTemplateSpecView, Service, ServiceAccount, ServiceAccountView, ServiceView,
};
use crate::models::meta::text_option;

verus! {

pub const BRUPOP_CONTROLLER_SERVICE_ACCOUNT: &'static str = "brupop-controller-service-account";

pub const BRUPOP_CONTROLLER_CLUSTER_ROLE: &'static str = "brupop-controller-role";

/// The service account of the controller.
pub open spec fn controller_service_account_manifest() -> ServiceAccountView {
    service_account(BRUPOP_CONTROLLER_SERVICE_ACCOUNT@, Some(common_labels(CONTROLLER@)))
}

/// Defines the brupop-controller service account
pub fn controller_service_account() -> (r: ServiceAccount)
    ensures
        r@ == controller_service_account_manifest(),
{
    new_service_account(BRUPOP_CONTROLLER_SERVICE_ACCOUNT, Some(brupop_labels(CONTROLLER)))
}

/// The role of the controller: it reads the custom resources with their status, changes all but
/// the status, and manages deployments.
pub open spec fn controller_cluster_role_manifest() -> ClusterRoleView {
    ClusterRoleView {
        metadata: object_meta(
            Some(BRUPOP_CONTROLLER_CLUSTER_ROLE@),
            Some(common_labels(CONTROLLER@)),
            None,
        ),
        rules: seq![
            policy_rule(
                BRUPOP_DOMAIN_LIKE_NAME@,
                strs(seq![K8S_NODE_PLURAL, K8S_NODE_STATUS]),
                strs(seq!["get", "list", "watch"]),
            ),
            policy_rule(
                BRUPOP_DOMAIN_LIKE_NAME@,
                strs(seq![K8S_NODE_PLURAL]),
                strs(seq!["create", "patch", "update"]),
            ),
            policy_rule(
                "apps"@,
                strs(seq!["deployments"]),
                strs(
                    seq!["create", "delete", "deletecollection", "get", "list", "patch", "update"],
                ),
            ),
        ],
    }
}

/// Defines the brupop-controller cluster role
pub fn controller_cluster_role() -> (r: ClusterRole)
    ensures
        r@ == controller_cluster_role_manifest(),
{
    let all = vec![K8S_NODE_PLURAL, K8S_NODE_STATUS];
    let read = vec!["get", "list", "watch"];
    let custom = vec![K8S_NODE_PLURAL];
    let change = vec!["create", "patch", "update"];
    let deployments = vec!["deployments"];
    let manage = vec!["create", "delete", "deletecollection", "get", "list", "patch", "update"];
    proof {
        assert(all@ =~= seq![K8S_NODE_PLURAL, K8S_NODE_STATUS]);
        assert(read@ =~= seq!["get", "list", "watch"]);
        assert(custom@ =~= seq![K8S_NODE_PLURAL]);
        assert(change@ =~= seq!["create", "patch", "update"]);
        assert(deployments@ =~= seq!["deployments"]);
        assert(manage@ =~= seq![
            "create",
            "delete",
            "deletecollection",
            "get",
            "list",
            "patch",
            "update",
        ]);
    }
    ClusterRole {
        metadata: new_object_meta(
            Some(String::from_str(BRUPOP_CONTROLLER_CLUSTER_ROLE)),
            Some(brupop_labels(CONTROLLER)),
            None,
        ),
        rules: list3(
            new_policy_rule(BRUPOP_DOMAIN_LIKE_NAME, all, read),
            new_policy_rule(BRUPOP_DOMAIN_LIKE_NAME, custom, change),
            new_policy_rule("apps", deployments, manage),
        ),
    }
}

/// The binding that grants the controller its role.
pub open spec fn controller_cluster_role_binding_manifest() -> ClusterRoleBindingView {
    role_binding(
        "brupop-controller-role-binding"@,
        Some(common_labels(CONTROLLER@)),
        BRUPOP_CONTROLLER_CLUSTER_ROLE@,
        BRUPOP_CONTROLLER_SERVICE_ACCOUNT@,
    )
}

/// Defines the brupop-controller cluster role binding
pub fn controller_cluster_role_binding() -> (r: ClusterRoleBinding)
    ensures
        r@ == controller_cluster_role_binding_manifest(),
{
    new_role_binding(
        "brupop-controller-role-binding",
        Some(brupop_labels(CONTROLLER)),
        BRUPOP_CONTROLLER_CLUSTER_ROLE,
        BRUPOP_CONTROLLER_SERVICE_ACCOUNT,
    )
}

/// The deployment that runs one controller and never two.
pub open spec fn controller_deployment_manifest(
    image: Seq<char>,
    image_pull_secret: Option<Seq<char>>,
) -> DeploymentView {
    DeploymentView {
        metadata: object_meta(
            Some(CONTROLLER_DEPLOYMENT_NAME@),
            Some(common_labels(CONTROLLER@)),
            None,
        ),
        replicas: 1,
        match_labels: component_label(CONTROLLER@),
        strategy: DeploymentStrategyView { type_: Some("Recreate"@), max_unavailable: None },
        template: PodTemplateSpecView {
            metadata: object_meta(None, Some(component_label(CONTROLLER@)), None),
            spec: PodSpecView {
                node_selector_terms: seq![linux_nodes()],
                containers: seq![plain_container(image, "./controller"@)],
                service_account_name: BRUPOP_CONTROLLER_SERVICE_ACCOUNT@,
                image_pull_secrets: pull_secrets(image_pull_secret),
                volumes: seq![],
            },
        },
    }
}

fn new_controller_container(image: String) -> (r: Container)
    ensures
        r@ == plain_container(image@, "./controller"@),
{
    let r = Container {
        image,
        name: String::from_str(BRUPOP),
        command: list1(String::from_str("./controller")),
        env: Vec::new(),
        resources: None,
        volume_mounts: Vec::new(),
        se_linux_options: None,
        ports: Vec::new(),
        liveness_probe: None,
        readiness_probe: None,
    };
    proof {
        assert(r@.env =~= seq![]);
        assert(r@.volume_mounts =~= seq![]);
        assert(r@.ports =~= seq![]);
    }
    r
}

/// Defines the brupop-controller deployment
pub fn controller_deployment(
    brupop_image: String,
    image_pull_secret: Option<String>,
) -> (r: Deployment)
    ensures
        r@ == controller_deployment_manifest(brupop_image@, text_option(image_pull_secret)),
{
    let r = Deployment {
        metadata: new_object_meta(
            Some(String::from_str(CONTROLLER_DEPLOYMENT_NAME)),
            Some(brupop_labels(CONTROLLER)),
            None,
        ),
        replicas: 1,
        match_labels: entry(LABEL_COMPONENT, CONTROLLER),
        strategy: DeploymentStrategy {
            type_: Some(String::from_str("Recreate")),
            max_unavailable: None,
        },
        template: PodTemplateSpec {
            metadata: new_object_meta(None, Some(entry(LABEL_COMPONENT, CONTROLLER)), None),
            spec: PodSpec {
                node_selector_terms: list1(new_linux_nodes()),
                containers: list1(new_controller_container(brupop_image)),
                service_account_name: String::from_str(BRUPOP_CONTROLLER_SERVICE_ACCOUNT),
                image_pull_secrets: new_pull_secrets(image_pull_secret),
                volumes: Vec::new(),
            },
        },
    };
    proof {
        assert(r@.template.spec.volumes =~= seq![]);
    }
    r
}

/// The service in front of the controller.
pub open spec fn controller_service_manifest() -> ServiceView {
    service(
        CONTROLLER_SERVICE_NAME@,
        CONTROLLER@,
        CONTROLLER_SERVICE_PORT,
        CONTROLLER_INTERNAL_PORT,
    )
}

/// Defines the service in front of the controller.
pub fn controller_service() -> (r: Service)
    ensures
        r@ == controller_service_manifest(),
{
    new_service(
        CONTROLLER_SERVICE_NAME,
        CONTROLLER,
        CONTROLLER_SERVICE_PORT,
        CONTROLLER_INTERNAL_PORT,
    )
}

/// The deployment of the controller finds its own pods, and the service routes to them.
pub proof fn controller_pods_are_found(image: Seq<char>, secret: Option<Seq<char>>)
    ensures
        ({
            let m = controller_deployment_manifest(image, secret);
            &&& selects_pods(m.match_labels, m.template)
            &&& routes_to(controller_service_manifest(), m.template)
        }),
{
}

/// The pods of the controller run as the service account that is installed, which is granted
/// the role that is installed.
pub proof fn controller_role_is_granted(image: Seq<char>, secret: Option<Seq<char>>)
    ensures
        grants(
            controller_cluster_role_binding_manifest(),
            controller_cluster_role_manifest(),
            controller_service_account_manifest(),
        ),
        runs_as(
            controller_deployment_manifest(image, secret).template.spec,
            controller_service_account_manifest(),
        ),
{
}

} // verus!
