//! How the operator is deployed: what runs where, under which account, and what it may do.

use vstd::prelude::*;

use crate::models::agent::{
    agent_cluster_role, agent_cluster_role_binding, agent_cluster_role_binding_manifest,
    agent_cluster_role_manifest, agent_daemonset, agent_daemonset_manifest, agent_service_account,
    agent_service_account_manifest,
};
use crate::models::apiserver::{
    apiserver_auth_delegator_cluster_role_binding,
    apiserver_auth_delegator_cluster_role_binding_manifest, apiserver_cluster_role,
    apiserver_cluster_role_binding, apiserver_cluster_role_binding_manifest,
    apiserver_cluster_role_manifest, apiserver_deployment, apiserver_deployment_manifest,
    apiserver_service, apiserver_service_account, apiserver_service_account_manifest,
    apiserver_service_manifest,
};
use crate::models::controller::{
    controller_cluster_role, controller_cluster_role_binding,
    controller_cluster_role_binding_manifest, controller_cluster_role_manifest,
    controller_deployment, controller_deployment_manifest, controller_service,
    controller_service_account, controller_service_account_manifest, controller_service_manifest,
};
use crate::models::manifest::{
    ClusterRole, ClusterRoleBinding, ClusterRoleBindingView, DaemonSet, Deployment, Namespace,
    NodeSelectorTermView, PodSpecView, PolicyRuleView, Service, ServiceAccount, ServiceAccountView,
    ServiceView, VolumeSourceView,
};
use crate::models::meta::{text_option, ObjectMetaView};
use crate::models::namespace::{brupop_namespace, namespace_manifest};

verus! {

/// Whether an object is of the namespace of the operator and has a name.
pub open spec fn is_ours(meta: ObjectMetaView, name: Option<Seq<char>>) -> bool {
    &&& meta.name == name
    &&& meta.namespace == Some("brupop-bottlerocket-aws"@)
    &&& meta.generate_name is None && meta.uid is None && meta.owner_references is None
}

/// Whether labels are those of a component of the operator.
pub open spec fn are_labels_of(
    labels: Option<Map<Seq<char>, Seq<char>>>,
    component: Seq<char>,
) -> bool {
    labels is Some && labels->0 =~= map![
        "app.kubernetes.io/component"@ => component,
        "app.kubernetes.io/managed-by"@ => "brupop"@,
        "app.kubernetes.io/part-of"@ => "brupop"@,
        "brupop.bottlerocket.aws/component"@ => component
    ]
}

/// Whether labels are those by which the pods of a component are found.
pub open spec fn are_pod_labels(labels: Map<Seq<char>, Seq<char>>, component: Seq<char>) -> bool {
    labels =~= map!["brupop.bottlerocket.aws/component"@ => component]
}

/// Whether an account is of a name, and says so.
pub open spec fn is_account(account: ServiceAccountView, name: Seq<char>) -> bool {
    &&& is_ours(account.metadata, Some(name))
    &&& account.metadata.annotations is Some
    &&& account.metadata.annotations->0 =~= map!["kubernetes.io/service-account.name"@ => name]
}

/// Whether a binding gives a role to an account of the operator, and to no one else.
pub open spec fn is_binding(
    binding: ClusterRoleBindingView,
    name: Seq<char>,
    role: Seq<char>,
    account: Seq<char>,
) -> bool {
    &&& is_ours(binding.metadata, Some(name))
    &&& binding.metadata.annotations is None
    &&& binding.role_ref.api_group == "rbac.authorization.k8s.io"@
    &&& binding.role_ref.kind == "ClusterRole"@
    &&& binding.role_ref.name == role
    &&& binding.subjects.len() == 1
    &&& binding.subjects[0].kind == "ServiceAccount"@
    &&& binding.subjects[0].name == account
    &&& binding.subjects[0].namespace == "brupop-bottlerocket-aws"@
}

/// Whether a rule is of a group of resources, and which resources and verbs it holds.
pub open spec fn is_rule(
    rule: PolicyRuleView,
    group: Seq<char>,
    resources: Seq<Seq<char>>,
    verbs: Seq<Seq<char>>,
) -> bool {
    rule.api_groups =~= seq![group] && rule.resources =~= resources && rule.verbs =~= verbs
}

/// Whether a requirement of nodes stands at a place of a term: a label is one of some values.
pub open spec fn needs_label(
    term: NodeSelectorTermView,
    i: int,
    key: Seq<char>,
    values: Seq<Seq<char>>,
) -> bool {
    &&& term.match_expressions[i].key == key
    &&& term.match_expressions[i].operator == "In"@
    &&& term.match_expressions[i].values =~= values
}

/// Whether pods run on Linux nodes of the two kinds of processors.
pub open spec fn runs_on_linux(pod: PodSpecView) -> bool {
    &&& pod.node_selector_terms.len() == 1
    &&& pod.node_selector_terms[0].match_expressions.len() == 2
    &&& needs_label(pod.node_selector_terms[0], 0, "kubernetes.io/os"@, seq!["linux"@])
    &&& needs_label(pod.node_selector_terms[0], 1, "kubernetes.io/arch"@, seq!["amd64"@, "arm64"@])
}

/// Whether a pod runs one container of an image by a command, under an account, with the secret for
/// the image.
pub open spec fn runs_command(
    pod: PodSpecView,
    image: Seq<char>,
    secret: Option<Seq<char>>,
    command: Seq<char>,
    account: Seq<char>,
) -> bool {
    &&& pod.containers.len() == 1
    &&& pod.containers[0].image == image
    &&& pod.containers[0].name == "brupop"@
    &&& pod.containers[0].command =~= seq![command]
    &&& pod.service_account_name == account
    &&& pod.image_pull_secrets is Some <==> secret is Some
    &&& secret is Some ==> pod.image_pull_secrets->0 =~= seq![secret->0]
}

/// Whether a service hands a port on to a port of the pods of a component.
pub open spec fn is_service(
    service: ServiceView,
    name: Seq<char>,
    component: Seq<char>,
    port: i32,
    target: i32,
) -> bool {
    &&& is_ours(service.metadata, Some(name))
    &&& are_labels_of(service.metadata.labels, component)
    &&& service.metadata.annotations is None
    &&& are_pod_labels(service.selector, component)
    &&& service.ports.len() == 1
    &&& service.ports[0].port == port
    &&& service.ports[0].target_port == target
}

/// All of it is in one namespace.
pub proof fn namespace_of_the_operator()
    ensures
        namespace_manifest().metadata.name == Some("brupop-bottlerocket-aws"@),
        namespace_manifest().metadata.labels is Some,
        namespace_manifest().metadata.labels->0 =~= map!["name"@ => "brupop"@],
        namespace_manifest().metadata.namespace is None,
        namespace_manifest().metadata.annotations is None,
{
}

/// The agent has an account, which may change nodes and read the objects of nodes.
pub proof fn agent_may_change_nodes()
    ensures
        is_account(agent_service_account_manifest(), "brupop-agent-service-account"@),
        agent_service_account_manifest().metadata.labels is None,
        is_binding(
            agent_cluster_role_binding_manifest(),
            "brupop-agent-role-binding"@,
            "brupop-agent-role"@,
            "brupop-agent-service-account"@,
        ),
        is_ours(agent_cluster_role_manifest().metadata, Some("brupop-agent-role"@)),
        agent_cluster_role_manifest().rules.len() == 2,
        is_rule(
            agent_cluster_role_manifest().rules[0],
            ""@,
            seq!["nodes"@],
            seq!["create"@, "get"@, "list"@, "patch"@, "update"@, "watch"@],
        ),
        is_rule(
            agent_cluster_role_manifest().rules[1],
            "brupop.bottlerocket.aws"@,
            seq!["bottlerocketnodes"@, "bottlerocketnodes/status"@],
            seq!["get"@, "list"@, "watch"@],
        ),
{
}

/// The agent runs on every Linux node that bears the label of the interface, and reaches the API of
/// the node and the token that is made for it.
pub proof fn agent_runs_on_labeled_nodes(image: Seq<char>, secret: Option<Seq<char>>)
    ensures
        ({
            let set = agent_daemonset_manifest(image, secret);
            let pod = set.template.spec;
            let container = pod.containers[0];
            let term = pod.node_selector_terms[0];
            &&& is_ours(set.metadata, Some("brupop-agent"@))
            &&& are_labels_of(set.metadata.labels, "agent"@)
            &&& are_pod_labels(set.match_labels, "agent"@)
            &&& is_ours(set.template.metadata, None)
            &&& set.template.metadata.labels is Some
            &&& are_pod_labels(set.template.metadata.labels->0, "agent"@)
            &&& runs_command(pod, image, secret, "./agent"@, "brupop-agent-service-account"@)
            &&& pod.node_selector_terms.len() == 1
            &&& term.match_expressions.len() == 3
            &&& needs_label(term, 0, "kubernetes.io/os"@, seq!["linux"@])
            &&& needs_label(
                term,
                1,
                "bottlerocket.aws/updater-interface-version"@,
                seq!["2.0.0"@],
            )
            &&& needs_label(term, 2, "kubernetes.io/arch"@, seq!["amd64"@, "arm64"@])
            &&& container.env.len() == 1
            &&& container.env[0].name == "MY_NODE_NAME"@
            &&& container.env[0].field_path == "spec.nodeName"@
            &&& container.ports.len() == 0
            &&& container.liveness_probe is None && container.readiness_probe is None
        }),
{
}

/// The agent container is limited in its memory, and runs with the label that lets it use the API of
/// the node.
pub proof fn agent_container_is_limited(image: Seq<char>, secret: Option<Seq<char>>)
    ensures
        ({
            let container = agent_daemonset_manifest(image, secret).template.spec.containers[0];
            &&& container.resources is Some
            &&& container.resources->0.limits =~= map!["memory"@ => "50Mi"@]
            &&& container.resources->0.requests =~= map!["memory"@ => "50Mi"@, "cpu"@ => "10m"@]
            &&& container.se_linux_options is Some
            &&& container.se_linux_options->0.role == "system_r"@
            &&& container.se_linux_options->0.type_ == "super_t"@
            &&& container.se_linux_options->0.user == "system_u"@
            &&& container.se_linux_options->0.level == "s0"@
        }),
{
}

/// The volumes of the agent: the socket of the API, its client, and the token.
pub proof fn agent_reaches_the_update_api(image: Seq<char>, secret: Option<Seq<char>>)
    ensures
        ({
            let pod = agent_daemonset_manifest(image, secret).template.spec;
            let mounts = pod.containers[0].volume_mounts;
            &&& pod.volumes.len() == 3 && mounts.len() == 3
            &&& pod.volumes[0].name == "bottlerocket-api-socket"@
            &&& pod.volumes[0].source == (VolumeSourceView::HostPath {
                path: "/run/api.sock"@,
                type_: "Socket"@,
            })
            &&& pod.volumes[1].name == "bottlerocket-apiclient"@
            &&& pod.volumes[1].source == (VolumeSourceView::HostPath {
                path: "/bin/apiclient"@,
                type_: "File"@,
            })
            &&& pod.volumes[2].name == "bottlerocket-agent-service-account-token"@
            &&& pod.volumes[2].source == (VolumeSourceView::ServiceAccountToken {
                path: "bottlerocket-agent-service-account-token"@,
            })
            &&& mounts[0].name == "bottlerocket-api-socket"@
            &&& mounts[0].mount_path == "/run/api.sock"@
            &&& mounts[1].name == "bottlerocket-apiclient"@
            &&& mounts[1].mount_path == "/bin/apiclient"@
            &&& mounts[2].name == "bottlerocket-agent-service-account-token"@
            &&& mounts[2].mount_path == "/var/run/secrets/tokens"@
        }),
{
}

/// The apiserver has an account, which may write the objects of nodes, look for pods and nodes, cordon
/// nodes, evict pods, and have tokens reviewed.
pub proof fn apiserver_may_drain_nodes()
    ensures
        is_account(apiserver_service_account_manifest(), "brupop-apiserver-service-account"@),
        apiserver_service_account_manifest().metadata.labels is None,
        is_binding(
            apiserver_cluster_role_binding_manifest(),
            "brupop-apiserver-role-binding"@,
            "brupop-apiserver-role"@,
            "brupop-apiserver-service-account"@,
        ),
        is_binding(
            apiserver_auth_delegator_cluster_role_binding_manifest(),
            "brupop-apiserver-auth-delegator-role-binding"@,
            "system:auth-delegator"@,
            "brupop-apiserver-service-account"@,
        ),
        is_ours(apiserver_cluster_role_manifest().metadata, Some("brupop-apiserver-role"@)),
        ({
            let rules = apiserver_cluster_role_manifest().rules;
            &&& rules.len() == 5
            &&& is_rule(
                rules[0],
                "brupop.bottlerocket.aws"@,
                seq!["bottlerocketshadows"@, "bottlerocketshadows/status"@],
                seq!["create"@, "get"@, "list"@, "patch"@, "update"@, "watch"@],
            )
            &&& is_rule(
                rules[1],
                "apps"@,
                seq!["deployments"@],
                seq![
                    "create"@,
                    "delete"@,
                    "deletecollection"@,
                    "get"@,
                    "list"@,
                    "patch"@,
                    "update"@,
                ],
            )
            &&& is_rule(rules[2], ""@, seq!["pods"@], seq!["get"@, "list"@, "watch"@])
            &&& is_rule(rules[3], ""@, seq!["nodes"@], seq!["get"@, "list"@, "patch"@])
            &&& is_rule(rules[4], ""@, seq!["pods/eviction"@], seq!["create"@])
        }),
{
}

/// Three apiservers run, of which a third may be missing, behind a service. Each is asked for its
/// health on the port that it listens on.
pub proof fn apiserver_runs_behind_its_service(image: Seq<char>, secret: Option<Seq<char>>)
    ensures
        ({
            let deployment = apiserver_deployment_manifest(image, secret);
            let pod = deployment.template.spec;
            let container = pod.containers[0];
            let probe = container.liveness_probe->0;
            &&& is_ours(deployment.metadata, Some("brupop-apiserver"@))
            &&& are_labels_of(deployment.metadata.labels, "apiserver"@)
            &&& deployment.replicas == 3
            &&& deployment.strategy.type_ is None
            &&& deployment.strategy.max_unavailable == Some("33%"@)
            &&& are_pod_labels(deployment.match_labels, "apiserver"@)
            &&& is_ours(deployment.template.metadata, None)
            &&& deployment.template.metadata.labels is Some
            &&& are_pod_labels(deployment.template.metadata.labels->0, "apiserver"@)
            &&& runs_command(pod, image, secret, "./apiserver"@, "brupop-apiserver-service-account"@)
            &&& runs_on_linux(pod)
            &&& pod.volumes.len() == 0
            &&& container.ports =~= seq![8443i32]
            &&& container.liveness_probe is Some
            &&& container.readiness_probe == container.liveness_probe
            &&& probe.path == "/ping"@
            &&& probe.port == 8443
            &&& probe.initial_delay_seconds == 5
            &&& container.env.len() == 0 && container.volume_mounts.len() == 0
            &&& container.resources is None && container.se_linux_options is None
        }),
        is_service(apiserver_service_manifest(), "brupop-apiserver"@, "apiserver"@, 443, 8443),
{
}

/// The controller has an account, which may read and write the objects of nodes.
pub proof fn controller_may_write_objects()
    ensures
        is_account(controller_service_account_manifest(), "brupop-controller-service-account"@),
        are_labels_of(
            controller_service_account_manifest().metadata.labels,
            "brupop-controller"@,
        ),
        is_binding(
            controller_cluster_role_binding_manifest(),
            "brupop-controller-role-binding"@,
            "brupop-controller-role"@,
            "brupop-controller-service-account"@,
        ),
        are_labels_of(
            controller_cluster_role_binding_manifest().metadata.labels,
            "brupop-controller"@,
        ),
        is_ours(controller_cluster_role_manifest().metadata, Some("brupop-controller-role"@)),
        are_labels_of(controller_cluster_role_manifest().metadata.labels, "brupop-controller"@),
        ({
            let rules = controller_cluster_role_manifest().rules;
            &&& rules.len() == 3
            &&& is_rule(
                rules[0],
                "brupop.bottlerocket.aws"@,
                seq!["bottlerocketshadows"@, "bottlerocketshadows/status"@],
                seq!["get"@, "list"@, "watch"@],
            )
            &&& is_rule(
                rules[1],
                "brupop.bottlerocket.aws"@,
                seq!["bottlerocketshadows"@],
                seq!["create"@, "patch"@, "update"@],
            )
            &&& is_rule(
                rules[2],
                "apps"@,
                seq!["deployments"@],
                seq![
                    "create"@,
                    "delete"@,
                    "deletecollection"@,
                    "get"@,
                    "list"@,
                    "patch"@,
                    "update"@,
                ],
            )
        }),
{
}

/// One controller runs at a time, behind a service.
pub proof fn controller_runs_alone(image: Seq<char>, secret: Option<Seq<char>>)
    ensures
        ({
            let deployment = controller_deployment_manifest(image, secret);
            let pod = deployment.template.spec;
            let container = pod.containers[0];
            &&& is_ours(deployment.metadata, Some("brupop-controller-deployment"@))
            &&& are_labels_of(deployment.metadata.labels, "brupop-controller"@)
            &&& deployment.replicas == 1
            &&& deployment.strategy.type_ == Some("Recreate"@)
            &&& deployment.strategy.max_unavailable is None
            &&& are_pod_labels(deployment.match_labels, "brupop-controller"@)
            &&& is_ours(deployment.template.metadata, None)
            &&& deployment.template.metadata.labels is Some
            &&& are_pod_labels(deployment.template.metadata.labels->0, "brupop-controller"@)
            &&& runs_command(
                pod,
                image,
                secret,
                "./controller"@,
                "brupop-controller-service-account"@,
            )
            &&& runs_on_linux(pod)
            &&& pod.volumes.len() == 0
            &&& container.env.len() == 0 && container.volume_mounts.len() == 0
            &&& container.ports.len() == 0
            &&& container.liveness_probe is None && container.readiness_probe is None
            &&& container.resources is None && container.se_linux_options is None
        }),
        is_service(
            controller_service_manifest(),
            "brupop-controller-server"@,
            "brupop-controller"@,
            80,
            8080,
        ),
{
}

/// The agent is deployed by these objects.
pub proof fn agent_is_deployed(
    image: String,
    secret: Option<String>,
    set: DaemonSet,
    account: ServiceAccount,
    role: ClusterRole,
    binding: ClusterRoleBinding,
    namespace: Namespace,
)
    requires
        call_ensures(agent_daemonset, (image, secret), set),
        call_ensures(agent_service_account, (), account),
        call_ensures(agent_cluster_role, (), role),
        call_ensures(agent_cluster_role_binding, (), binding),
        call_ensures(brupop_namespace, (), namespace),
    ensures
        set@ == agent_daemonset_manifest(image@, text_option(secret)),
        account@ == agent_service_account_manifest(),
        role@ == agent_cluster_role_manifest(),
        binding@ == agent_cluster_role_binding_manifest(),
        namespace@ == namespace_manifest(),
{
}

/// The apiserver is deployed by these objects.
pub proof fn apiserver_is_deployed(
    image: String,
    secret: Option<String>,
    deployment: Deployment,
    service: Service,
    account: ServiceAccount,
    role: ClusterRole,
    binding: ClusterRoleBinding,
    delegation: ClusterRoleBinding,
)
    requires
        call_ensures(apiserver_deployment, (image, secret), deployment),
        call_ensures(apiserver_service, (), service),
        call_ensures(apiserver_service_account, (), account),
        call_ensures(apiserver_cluster_role, (), role),
        call_ensures(apiserver_cluster_role_binding, (), binding),
        call_ensures(apiserver_auth_delegator_cluster_role_binding, (), delegation),
    ensures
        deployment@ == apiserver_deployment_manifest(image@, text_option(secret)),
        service@ == apiserver_service_manifest(),
        account@ == apiserver_service_account_manifest(),
        role@ == apiserver_cluster_role_manifest(),
        binding@ == apiserver_cluster_role_binding_manifest(),
        delegation@ == apiserver_auth_delegator_cluster_role_binding_manifest(),
{
}

/// The controller is deployed by these objects.
pub proof fn controller_is_deployed(
    image: String,
    secret: Option<String>,
    deployment: Deployment,
    service: Service,
    account: ServiceAccount,
    role: ClusterRole,
    binding: ClusterRoleBinding,
)
    requires
        call_ensures(controller_deployment, (image, secret), deployment),
        call_ensures(controller_service, (), service),
        call_ensures(controller_service_account, (), account),
        call_ensures(controller_cluster_role, (), role),
        call_ensures(controller_cluster_role_binding, (), binding),
    ensures
        deployment@ == controller_deployment_manifest(image@, text_option(secret)),
        service@ == controller_service_manifest(),
        account@ == controller_service_account_manifest(),
        role@ == controller_cluster_role_manifest(),
        binding@ == controller_cluster_role_binding_manifest(),
{
}

} // verus!
