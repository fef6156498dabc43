use brupop::models::agent::{
    agent_cluster_role, agent_cluster_role_binding, agent_daemonset, agent_service_account,
};
use brupop::models::apiserver::{
    apiserver_auth_delegator_cluster_role_binding, apiserver_cluster_role,
    apiserver_cluster_role_binding, apiserver_deployment, apiserver_service,
    apiserver_service_account,
};
use brupop::models::constants::{APISERVER_CRD_CONVERT_ENDPOINT, LABEL_COMPONENT, NAMESPACE};
use brupop::models::controller::{
    controller_cluster_role, controller_cluster_role_binding, controller_deployment,
    controller_service, controller_service_account,
};
use brupop::models::crypto::CryptoConfigError;
use brupop::models::manifest::VolumeSource;
use brupop::models::meta::{ObjectMeta, OwnerReference};
use brupop::models::namespace::brupop_namespace;
use brupop::models::node::client::{create_node, update_node_spec, update_node_status};
use brupop::models::node::crd::definition::{
    combined_crds, CustomResourceDefinition, CustomResourceDefinitionVersion,
};
use brupop::models::node::crd::error::Error;
use brupop::models::node::crd::v1::BottlerocketShadowState as StateV1;
use brupop::models::node::crd::v2::BottlerocketShadowState as StateV2;
use brupop::models::node::crd::{
    brs_name_from_node_name, v1, v2, BottlerocketShadowSelector, Selector,
};
use brupop::models::node::drain::{
    classify_eviction, drain_node, evict_pod, filter_pods, find_target_pods, find_target_pods_text,
    retry_strategy, target_pods_selector, wait_for_deletion, DeletionStep, DrainError,
    EvictionAction, EvictionError, EvictionStep, Pod, PodOutcome, Response,
    DELETION_CHECK_INTERVAL, EVICTION_RETRY_INTERVAL, NUM_RETRIES,
};
use brupop::models::node::error::BottlerocketShadowError;
use brupop::models::telemetry::{
    parse_switch, LogFormatter, MessageFormat, TelemetryConfigError,
};
use brupop::string_map::StringMap;
use brupop::time::Timestamp;
use brupop::version::Version;
use std::cmp::Ordering;

fn version(text: &str) -> Version {
    Version::from_str(text).unwrap()
}

const NAME: &str = "brs-ip-192-168-22-145.us-west-2.compute.internal";

fn metadata() -> ObjectMeta {
    ObjectMeta {
        name: Some(NAME.to_string()),
        namespace: Some("brupop-bottlerocket-aws".to_string()),
        uid: Some("3153df27-6619-4b6b-bc75-adbf92ef7266".to_string()),
        owner_references: Some(vec![OwnerReference {
            api_version: "v1".to_string(),
            kind: "Node".to_string(),
            name: "ip-192-168-22-145.us-west-2.compute.internal".to_string(),
            uid: "6b714046-3b20-4a79-aaa9-27cf626a2c12".to_string(),
            controller: None,
            block_owner_deletion: None,
        }]),
        ..Default::default()
    }
}

fn assert_same_meta(a: &ObjectMeta, b: &ObjectMeta) {
    assert_eq!(a.name, b.name);
    assert_eq!(a.namespace, b.namespace);
    assert_eq!(a.uid, b.uid);
    assert_eq!(a.owner_references, b.owner_references);
}

#[test]
fn v1_test_state_convert() {
    let original_target_state = vec![
        (StateV2::Idle, StateV1::Idle, "Idle"),
        (StateV2::StagedAndPerformedUpdate, StateV1::StagedUpdate, "StagedUpdate"),
        (StateV2::RebootedIntoUpdate, StateV1::RebootedIntoUpdate, "RebootedIntoUpdate"),
        (StateV2::MonitoringUpdate, StateV1::MonitoringUpdate, "MonitoringUpdate"),
        (StateV2::ErrorReset, StateV1::MonitoringUpdate, "MonitoringUpdate"),
    ];

    for (original, target, name) in original_target_state.into_iter() {
        let new_state = StateV1::from(original);
        assert_eq!(new_state, target);
        assert_eq!(new_state.name(), name);
    }
}

#[test]
fn v1_test_spec_convert() {
    let original = v2::BottlerocketShadowSpec {
        state: v2::BottlerocketShadowState::RebootedIntoUpdate,
        state_transition_timestamp: Some("2022-07-09T19:32:38.609610964+00:00".to_string()),
        version: Some("1.8.0".to_string()),
    };
    assert!(original.is_well_formed());
    let target = v1::BottlerocketShadowSpec {
        state: v1::BottlerocketShadowState::RebootedIntoUpdate,
        state_transition_timestamp: Some("2022-07-09T19:32:38.609610964+00:00".to_string()),
        version: Some("1.8.0".to_string()),
    };
    assert_eq!(v1::BottlerocketShadowSpec::from(original), target);
}

#[test]
fn v1_test_status_convert() {
    let original = v2::BottlerocketShadowStatus {
        current_state: v2::BottlerocketShadowState::RebootedIntoUpdate,
        current_version: "1.6.0".to_string(),
        target_version: "1.8.0".to_string(),
        crash_count: 0,
        state_transition_failure_timestamp: None,
    };
    let target = v1::BottlerocketShadowStatus {
        current_state: v1::BottlerocketShadowState::RebootedIntoUpdate,
        current_version: "1.6.0".to_string(),
        target_version: "1.8.0".to_string(),
    };
    assert!(original.is_well_formed());
    assert_eq!(v1::BottlerocketShadowStatus::from(original), target);
}

#[test]
fn v1_test_convert_from_old_version() {
    let old_brs = v2::BottlerocketShadow {
        metadata: metadata(),
        spec: v2::BottlerocketShadowSpec {
            state: v2::BottlerocketShadowState::Idle,
            state_transition_timestamp: None,
            version: None,
        },
        status: Some(v2::BottlerocketShadowStatus {
            current_state: v2::BottlerocketShadowState::Idle,
            target_version: "1.8.0".to_string(),
            current_version: "1.8.0".to_string(),
            crash_count: 0,
            state_transition_failure_timestamp: None,
        }),
    };
    assert!(old_brs.is_convertible());
    let new_brs = v1::BottlerocketShadow::from(old_brs);
    assert_same_meta(&new_brs.metadata, &metadata());
    assert_eq!(
        new_brs.spec,
        v1::BottlerocketShadowSpec {
            state: v1::BottlerocketShadowState::Idle,
            state_transition_timestamp: None,
            version: None,
        }
    );
    assert_eq!(
        new_brs.status,
        Some(v1::BottlerocketShadowStatus {
            current_state: v1::BottlerocketShadowState::Idle,
            target_version: "1.8.0".to_string(),
            current_version: "1.8.0".to_string(),
        })
    );
}

#[test]
fn v2_test_state_convert() {
    let original_target_state = vec![
        (StateV1::Idle, StateV2::Idle, "Idle"),
        (StateV1::StagedUpdate, StateV2::StagedAndPerformedUpdate, "StagedAndPerformedUpdate"),
        (StateV1::PerformedUpdate, StateV2::StagedAndPerformedUpdate, "StagedAndPerformedUpdate"),
        (StateV1::RebootedIntoUpdate, StateV2::RebootedIntoUpdate, "RebootedIntoUpdate"),
        (StateV1::MonitoringUpdate, StateV2::MonitoringUpdate, "MonitoringUpdate"),
    ];

    for (original, target, name) in original_target_state.into_iter() {
        let new_state = StateV2::from(original);
        assert_eq!(new_state, target);
        assert_eq!(new_state.name(), name);
    }
}

#[test]
fn v2_test_spec_convert() {
    let original_target_spec = vec![
        (
            v1::BottlerocketShadowSpec {
                state: v1::BottlerocketShadowState::Idle,
                state_transition_timestamp: None,
                version: None,
            },
            v2::BottlerocketShadowSpec {
                state: v2::BottlerocketShadowState::Idle,
                state_transition_timestamp: None,
                version: None,
            },
        ),
        (
            v1::BottlerocketShadowSpec {
                state: v1::BottlerocketShadowState::RebootedIntoUpdate,
                state_transition_timestamp: Some("2022-07-09T19:32:38.609610964+00:00".to_string()),
                version: Some("1.8.0".to_string()),
            },
            v2::BottlerocketShadowSpec {
                state: v2::BottlerocketShadowState::RebootedIntoUpdate,
                state_transition_timestamp: Some("2022-07-09T19:32:38.609610964+00:00".to_string()),
                version: Some("1.8.0".to_string()),
            },
        ),
    ];

    for (original, target) in original_target_spec.into_iter() {
        assert!(original.is_well_formed());
        let new_spec = v2::BottlerocketShadowSpec::from(original);
        assert_eq!(new_spec, target);
    }
}

#[test]
fn v2_test_status_convert() {
    let original = v1::BottlerocketShadowStatus {
        current_state: v1::BottlerocketShadowState::RebootedIntoUpdate,
        current_version: "1.6.0".to_string(),
        target_version: "1.8.0".to_string(),
    };
    let target = v2::BottlerocketShadowStatus {
        current_state: v2::BottlerocketShadowState::RebootedIntoUpdate,
        current_version: "1.6.0".to_string(),
        target_version: "1.8.0".to_string(),
        crash_count: 0,
        state_transition_failure_timestamp: None,
    };
    assert!(original.is_well_formed());
    assert_eq!(v2::BottlerocketShadowStatus::from(original), target);
}

#[test]
fn v2_test_convert_from_old_version() {
    let old_brs = v1::BottlerocketShadow {
        metadata: metadata(),
        spec: v1::BottlerocketShadowSpec {
            state: v1::BottlerocketShadowState::Idle,
            state_transition_timestamp: None,
            version: None,
        },
        status: Some(v1::BottlerocketShadowStatus {
            current_state: v1::BottlerocketShadowState::Idle,
            target_version: "1.8.0".to_string(),
            current_version: "1.8.0".to_string(),
        }),
    };
    assert!(old_brs.is_convertible());
    let new_brs = v2::BottlerocketShadow::from(old_brs);
    assert_same_meta(&new_brs.metadata, &metadata());
    assert_eq!(
        new_brs.spec,
        v2::BottlerocketShadowSpec {
            state: v2::BottlerocketShadowState::Idle,
            state_transition_timestamp: None,
            version: None,
        }
    );
    assert_eq!(
        new_brs.status,
        Some(v2::BottlerocketShadowStatus {
            current_state: v2::BottlerocketShadowState::Idle,
            target_version: "1.8.0".to_string(),
            current_version: "1.8.0".to_string(),
            crash_count: 0,
            state_transition_failure_timestamp: None,
        })
    );
}

#[test]
fn the_update_cycle_returns_to_idle() {
    let mut state = v2::BottlerocketShadowState::default();
    let mut seen = Vec::new();
    for _ in 0..4 {
        state = state.on_success();
        seen.push(state.name());
    }
    assert_eq!(
        seen,
        [
            "StagedAndPerformedUpdate",
            "RebootedIntoUpdate",
            "MonitoringUpdate",
            "Idle"
        ]
    );
    assert_eq!(
        v2::BottlerocketShadowState::ErrorReset.on_success(),
        v2::BottlerocketShadowState::Idle
    );
    assert_eq!(
        v2::BottlerocketShadowState::StagedAndPerformedUpdate.timeout_time(),
        Some(720)
    );
    assert_eq!(v1::BottlerocketShadowState::StagedUpdate.timeout_time(), Some(600));
}

#[test]
fn specs_and_statuses_keep_what_they_are_given() {
    let at = Timestamp::from_timestamp(1_657_395_158, 609_610_964).unwrap();
    let spec = v2::BottlerocketShadowSpec::new(
        v2::BottlerocketShadowState::RebootedIntoUpdate,
        Some(at),
        Some(version("1.8.0-rc.1+build")),
    );
    assert_eq!(
        spec.state_transition_timestamp.as_deref(),
        Some("2022-07-09T19:32:38.609610964+00:00")
    );
    assert_eq!(spec.state_timestamp().unwrap(), Some(at));
    assert_eq!(spec.version().unwrap().to_text(), "1.8.0-rc.1+build");
    let now = v2::BottlerocketShadowSpec::new_starting_now(v2::BottlerocketShadowState::Idle, None);
    assert!(now.state_timestamp().unwrap().is_some());

    let status = v2::BottlerocketShadowStatus::new(
        version("1.2.1"),
        version("1.3.0"),
        v2::BottlerocketShadowState::default(),
        2,
        Some(at),
    );
    assert_eq!(status.current_version().to_text(), "1.2.1");
    assert_eq!(status.target_version().to_text(), "1.3.0");
    assert_eq!(status.crash_count(), 2);
    assert_eq!(status.failure_timestamp().unwrap(), Some(at));

    let mut bad = spec.copy();
    bad.state_transition_timestamp = Some("yesterday".to_string());
    assert!(matches!(
        bad.state_timestamp(),
        Err(Error::TimestampFormat { source }) if !source.is_empty() && source != "yesterday"
    ));
    assert!(!bad.is_well_formed());
}

#[test]
fn crashes_order_objects() {
    let with = |crashes: Option<u32>| v2::BottlerocketShadow {
        metadata: ObjectMeta::default(),
        spec: v2::BottlerocketShadowSpec::default(),
        status: crashes.map(|c| {
            v2::BottlerocketShadowStatus::new(
                version("1.0.0"),
                version("1.0.0"),
                v2::BottlerocketShadowState::Idle,
                c,
                None,
            )
        }),
    };
    assert_eq!(with(Some(1)).compare_crash_count(&with(Some(2))), Ordering::Less);
    assert_eq!(with(Some(2)).compare_crash_count(&with(Some(2))), Ordering::Equal);
    assert_eq!(with(None).compare_crash_count(&with(Some(2))), Ordering::Greater);
    assert_eq!(with(Some(2)).compare_crash_count(&with(None)), Ordering::Less);
    assert!(with(Some(0)).has_reached_desired_state());
    assert!(!with(None).has_reached_desired_state());
    let mut crashed = with(Some(1));
    crashed.status.as_mut().unwrap().current_state = v2::BottlerocketShadowState::ErrorReset;
    assert!(crashed.has_crashed());
    assert!(!with(Some(1)).has_crashed());
}

#[test]
fn selectors_come_from_owners() {
    let mut brs = v2::BottlerocketShadow {
        metadata: metadata(),
        spec: v2::BottlerocketShadowSpec::default(),
        status: None,
    };
    let selector = brs.selector().unwrap();
    assert_eq!(
        selector.node_name,
        "ip-192-168-22-145.us-west-2.compute.internal"
    );
    assert_eq!(selector.node_uid, "6b714046-3b20-4a79-aaa9-27cf626a2c12");
    assert_eq!(selector.brs_resource_name(), NAME);
    assert_eq!(brs_name_from_node_name("n"), "brs-n");
    brs.metadata.owner_references = Some(vec![]);
    assert!(matches!(
        brs.selector(),
        Err(Error::MissingOwnerReference { name }) if name == NAME
    ));
}

fn selector() -> BottlerocketShadowSelector {
    BottlerocketShadowSelector {
        node_name: "test-node-name".to_string(),
        node_uid: "test-node-uid".to_string(),
    }
}

#[test]
fn created_objects_belong_to_their_node() {
    let brs = create_node(&selector());
    assert_eq!(brs.metadata.name.as_deref(), Some("brs-test-node-name"));
    assert_eq!(brs.spec, v2::BottlerocketShadowSpec::default());
    assert!(brs.status.is_none());
    assert_eq!(brs.selector().unwrap(), selector());
    let owner = &brs.metadata.owner_references.as_ref().unwrap()[0];
    assert_eq!((owner.api_version.as_str(), owner.kind.as_str()), ("v1", "Node"));
}

#[test]
fn patches_name_the_object_and_its_version() {
    let status = v2::BottlerocketShadowStatus::new(
        version("1.2.1"),
        version("1.3.0"),
        v2::BottlerocketShadowState::default(),
        0,
        None,
    );
    let (name, patch) = update_node_status(&selector(), &status);
    assert_eq!(name, "brs-test-node-name");
    assert_eq!(patch.api_version, "brupop.bottlerocket.aws/v2");
    assert_eq!(patch.kind, "BottlerocketShadow");
    assert_eq!(patch.status, status);
    let spec = v2::BottlerocketShadowSpec::new(
        v2::BottlerocketShadowState::MonitoringUpdate,
        None,
        Some(version("1.3.0")),
    );
    let (name, patch) = update_node_spec(&selector(), &spec);
    assert_eq!(name, "brs-test-node-name");
    assert_eq!(patch.api_version, "brupop.bottlerocket.aws/v2");
    assert_eq!(patch.spec, spec);
}

#[test]
fn node_errors_say_which_node() {
    let source = || "boom".to_string();
    let cases = vec![
        (
            BottlerocketShadowError::CreateBottlerocketShadow { source: source(), selector: selector() },
            "Unable to create BottlerocketShadow (test-node-name, test-node-uid): 'boom'",
        ),
        (
            BottlerocketShadowError::UpdateBottlerocketShadowStatus { source: source(), selector: selector() },
            "Unable to update BottlerocketShadow status (test-node-name, test-node-uid): 'boom'",
        ),
        (
            BottlerocketShadowError::UpdateBottlerocketShadowSpec { source: source(), selector: selector() },
            "Unable to update BottlerocketShadow spec (test-node-name, test-node-uid): 'boom'",
        ),
        (
            BottlerocketShadowError::CordonBottlerocketShadow { source: source(), selector: selector() },
            "Unable to cordon BottlerocketShadow (test-node-name, test-node-uid): 'boom'",
        ),
        (
            BottlerocketShadowError::DrainBottlerocketShadow { source: source(), selector: selector() },
            "Unable to drain BottlerocketShadow (test-node-name, test-node-uid): 'boom'",
        ),
        (
            BottlerocketShadowError::ExcludeNodeFromLB { source: source(), selector: selector() },
            "Unable to exclude node from load balancer (test-node-name, test-node-uid): 'boom'",
        ),
        (
            BottlerocketShadowError::RemoveNodeExclusionFromLB { source: source(), selector: selector() },
            "Unable to remove node exclusion from load balancer (test-node-name, test-node-uid): 'boom'",
        ),
        (
            BottlerocketShadowError::UncordonBottlerocketShadow { source: source(), selector: selector() },
            "Unable to uncordon BottlerocketShadow (test-node-name, test-node-uid): 'boom'",
        ),
        (
            BottlerocketShadowError::IOError { source: source() },
            "IO error occurred while attempting to use APIServerClient: 'boom'",
        ),
        (
            BottlerocketShadowError::NodeWithoutSpec { selector: selector() },
            "BottlerocketShadow does not have a k8s spec (test-node-name, test-node-uid).'",
        ),
        (
            BottlerocketShadowError::CreateK8SPatch { source: source() },
            "Unable to create patch to send to Kubernetes API: 'boom'",
        ),
        (
            BottlerocketShadowError::NodeSpecNotAchieved {
                current_state: v2::BottlerocketShadowState::Idle,
                desired_state: v2::BottlerocketShadowState::ErrorReset,
            },
            "Attempted to progress node state machine without achieving current desired state. Current state: 'Idle'. Desired state: 'ErrorReset'",
        ),
        (
            BottlerocketShadowError::NodeWithoutStatus { name: "n".to_string() },
            "Attempted to perform an operation on a statusless node (n) which requires a status.",
        ),
        (
            BottlerocketShadowError::MissingOwnerReference { name: "n".to_string() },
            "BottlerocketShadow object ('n') is missing a reference to the owning Node.",
        ),
        (
            BottlerocketShadowError::TimestampFormat { source: source() },
            "BottlerocketShadow object must have valid rfc3339 timestamp: 'boom'",
        ),
    ];
    for (error, text) in cases {
        assert_eq!(error.to_text(), text);
    }
}

fn definition(name: &str) -> CustomResourceDefinition {
    CustomResourceDefinition {
        annotations: None,
        conversion: None,
        categories: Some(vec![]),
        versions: vec![CustomResourceDefinitionVersion {
            name: name.to_string(),
            storage: true,
            document: format!("schema of {}", name),
        }],
        document: "names".to_string(),
    }
}

#[test]
fn combined_definitions_store_the_latest_version() {
    let crd = combined_crds(vec![definition("v1"), definition("v2")]);
    let versions: Vec<(&str, bool)> = crd
        .versions
        .iter()
        .map(|v| (v.name.as_str(), v.storage))
        .collect();
    assert_eq!(versions, [("v2", true), ("v1", false)]);
    assert!(crd.categories.is_none());
    let webhook = crd.conversion.unwrap();
    assert_eq!(webhook.strategy, "Webhook");
    let service = webhook.webhook.unwrap().client_config.unwrap().service.unwrap();
    assert_eq!(service.name, "brupop-apiserver");
    assert_eq!(service.namespace, NAMESPACE);
    assert_eq!(service.path.as_deref(), Some(APISERVER_CRD_CONVERT_ENDPOINT));
    assert_eq!(service.port, Some(443));
    assert_eq!(
        crd.annotations
            .unwrap()
            .get("cert-manager.io/inject-ca-from")
            .unwrap(),
        "brupop-bottlerocket-aws/root-certificate"
    );
}

fn pod(name: &str, owner: Option<&str>, mirror: bool) -> Pod {
    Pod {
        metadata: ObjectMeta {
            name: Some(name.to_string()),
            owner_references: owner.map(|kind| {
                vec![OwnerReference {
                    api_version: "apps/v1".to_string(),
                    kind: kind.to_string(),
                    name: "owner".to_string(),
                    uid: "uid".to_string(),
                    controller: Some(true),
                    block_owner_deletion: None,
                }]
            }),
            annotations: mirror.then_some(StringMap::new().with(
                "kubernetes.io/config.mirror".to_string(),
                "x".to_string(),
            )),
            ..Default::default()
        },
        phase: Some("Running".to_string()),
    }
}

#[test]
fn daemons_and_mirrors_are_not_drained() {
    let kept = filter_pods(vec![
        pod("plain", None, false),
        pod("daemon", Some("DaemonSet"), false),
        pod("replica", Some("ReplicaSet"), false),
        pod("mirror", None, true),
    ]);
    let names: Vec<String> = kept.iter().map(|p| p.metadata.name_any()).collect();
    assert_eq!(names, ["plain", "replica"]);
    assert_eq!(target_pods_selector("n1"), "spec.nodeName=n1");
}

fn code(code: u16) -> Response {
    Response::ErrorCode {
        code,
        source: format!("code {}", code),
    }
}

fn unreachable_api() -> Response {
    Response::Unreachable {
        source: "no route".to_string(),
    }
}

#[test]
fn evictions_are_retried() {
    let pod = "pod-1".to_string();
    assert!(matches!(
        classify_eviction(&pod, Response::Success),
        EvictionStep::Evicted
    ));
    for budget in [429, 500] {
        assert!(matches!(
            classify_eviction(&pod, code(budget)),
            EvictionStep::WaitForBudget
        ));
    }
    assert!(matches!(
        classify_eviction(&pod, code(503)),
        EvictionStep::Failed(EvictionError::RetriableEviction { source, pod_name })
            if source == "code 503" && pod_name == "pod-1"
    ));
    assert!(matches!(
        classify_eviction(&pod, unreachable_api()),
        EvictionStep::Failed(EvictionError::RetriableEviction { source, .. })
            if source == "no route"
    ));
    for fatal in [404, 403] {
        match classify_eviction(&pod, code(fatal)) {
            EvictionStep::Failed(e) => {
                assert!(!e.should_retry());
                assert_eq!(
                    e.to_text(),
                    format!("Unable to create eviction for Pod 'pod-1': 'code {}'", fatal)
                );
            }
            other => panic!("unexpected step: {:?}", other),
        }
    }
    assert!(matches!(
        evict_pod(&pod, 0, code(429)),
        (0, EvictionAction::AskAgain(s)) if s == EVICTION_RETRY_INTERVAL
    ));
    assert!(matches!(
        evict_pod(&pod, 0, code(503)),
        (1, EvictionAction::Retry(100))
    ));
    assert!(matches!(
        evict_pod(&pod, NUM_RETRIES, code(503)),
        (_, EvictionAction::GiveUp(EvictionError::RetriableEviction { .. }))
    ));
    assert!(matches!(
        evict_pod(&pod, 3, Response::Success),
        (_, EvictionAction::WaitForDeletion)
    ));
    let delays = retry_strategy();
    assert_eq!(delays.len(), NUM_RETRIES);
    assert_eq!(delays[..2], [100, 10_000]);
    assert_eq!(delays[2..], [20_000; 8]);
}

#[test]
fn deletions_are_waited_for() {
    let pod = "pod-1".to_string();
    assert!(matches!(
        wait_for_deletion(&pod, &code(404), (0, 0)),
        DeletionStep::Deleted
    ));
    for response in [Response::Success, code(500), unreachable_api()] {
        assert!(matches!(
            wait_for_deletion(&pod, &response, (10, 0)),
            DeletionStep::LookAgain(s) if s == DELETION_CHECK_INTERVAL
        ));
    }
    assert!(matches!(
        wait_for_deletion(&pod, &Response::Success, (u64::MAX, 0)),
        DeletionStep::LookAgain(_)
    ));
    assert!(matches!(
        wait_for_deletion(&pod, &Response::Success, (u64::MAX, 1)),
        DeletionStep::TimedOut(DrainError::WaitForDeletion { pod_name, max_wait: u64::MAX })
            if pod_name == "pod-1"
    ));
}

#[test]
fn drains_succeed_although_evictions_fail() {
    let node = "n1".to_string();
    let targets = find_target_pods(
        &node,
        Ok(vec![
            pod("plain", None, false),
            pod("daemon", Some("DaemonSet"), false),
        ]),
    )
    .unwrap();
    assert_eq!(targets.len(), 1);
    let outcomes = vec![
        PodOutcome::Deleted,
        PodOutcome::NotEvicted(EvictionError::NonRetriableEviction {
            source: "code 404".to_string(),
            pod_name: "plain".to_string(),
        }),
        PodOutcome::NotDeleted(DrainError::WaitForDeletion {
            pod_name: "slow".to_string(),
            max_wait: 1,
        }),
    ];
    assert!(drain_node(Ok(outcomes)).is_ok());
    let e = find_target_pods(&node, Err("no route".to_string())).unwrap_err();
    assert!(matches!(
        drain_node(Err(e)),
        Err(DrainError::FindTargetPods { source, node_name })
            if find_target_pods_text(&node_name, &source)
                == "Unable to find drainable Pods for Node 'n1': 'no route'"
    ));
}

fn rules(role: &brupop::models::manifest::ClusterRole) -> Vec<String> {
    role.rules
        .iter()
        .map(|r| {
            format!(
                "{}|{}|{}",
                r.api_groups.join(","),
                r.resources.join(","),
                r.verbs.join(",")
            )
        })
        .collect()
}

#[test]
fn agent_manifests() {
    let account = agent_service_account();
    assert_eq!(
        account.metadata.name.as_deref(),
        Some("brupop-agent-service-account")
    );
    assert_eq!(account.metadata.namespace.as_deref(), Some(NAMESPACE));
    assert_eq!(
        account
            .metadata
            .annotations
            .as_ref()
            .unwrap()
            .get("kubernetes.io/service-account.name")
            .unwrap(),
        "brupop-agent-service-account"
    );
    let role = agent_cluster_role();
    assert_eq!(
        rules(&role),
        [
            "|nodes|create,get,list,patch,update,watch",
            "brupop.bottlerocket.aws|bottlerocketnodes,bottlerocketnodes/status|get,list,watch",
        ]
    );
    let binding = agent_cluster_role_binding();
    assert_eq!(Some(binding.role_ref.name), role.metadata.name);
    assert_eq!(Some(&binding.subjects[0].name), account.metadata.name.as_ref());

    let set = agent_daemonset("image:1".to_string(), Some("secret".to_string()));
    assert_eq!(set.metadata.name.as_deref(), Some("brupop-agent"));
    assert_eq!(set.metadata.labels.as_ref().unwrap().entries().len(), 4);
    let spec = &set.template.spec;
    assert_eq!(spec.image_pull_secrets, Some(vec!["secret".to_string()]));
    assert_eq!(
        Some(&spec.service_account_name),
        account.metadata.name.as_ref()
    );
    let container = &spec.containers[0];
    assert_eq!(container.image, "image:1");
    assert_eq!(container.command, ["./agent"]);
    assert_eq!(container.env[0].name, "MY_NODE_NAME");
    assert_eq!(container.env[0].field_path, "spec.nodeName");
    let requests = &container.resources.as_ref().unwrap().requests;
    assert_eq!(requests.get("cpu").unwrap(), "10m");
    assert_eq!(requests.get("memory").unwrap(), "50Mi");
    let mounts: Vec<&str> = container.volume_mounts.iter().map(|m| m.name.as_str()).collect();
    let volumes: Vec<&str> = spec.volumes.iter().map(|v| v.name.as_str()).collect();
    assert_eq!(mounts, volumes);
    assert!(matches!(
        &spec.volumes[0].source,
        VolumeSource::HostPath { path, type_ } if path == "/run/api.sock" && type_ == "Socket"
    ));
    assert_eq!(container.se_linux_options.as_ref().unwrap().type_, "super_t");
    let keys: Vec<&str> = spec.node_selector_terms[0]
        .match_expressions
        .iter()
        .map(|r| r.key.as_str())
        .collect();
    assert_eq!(
        keys,
        [
            "kubernetes.io/os",
            "bottlerocket.aws/updater-interface-version",
            "kubernetes.io/arch"
        ]
    );
    assert!(agent_daemonset("i".to_string(), None)
        .template
        .spec
        .image_pull_secrets
        .is_none());
}

#[test]
fn apiserver_manifests() {
    let account = apiserver_service_account();
    let role = apiserver_cluster_role();
    assert_eq!(
        rules(&role),
        [
            "brupop.bottlerocket.aws|bottlerocketshadows,bottlerocketshadows/status|create,get,list,patch,update,watch",
            "apps|deployments|create,delete,deletecollection,get,list,patch,update",
            "|pods|get,list,watch",
            "|nodes|get,list,patch",
            "|pods/eviction|create",
        ]
    );
    let binding = apiserver_cluster_role_binding();
    assert_eq!(Some(binding.role_ref.name), role.metadata.name);
    let delegator = apiserver_auth_delegator_cluster_role_binding();
    assert_eq!(delegator.role_ref.name, "system:auth-delegator");
    assert_eq!(Some(&delegator.subjects[0].name), account.metadata.name.as_ref());
    let deployment = apiserver_deployment("image:2".to_string(), None);
    assert_eq!(deployment.replicas, 3);
    assert_eq!(deployment.strategy.max_unavailable.as_deref(), Some("33%"));
    let container = &deployment.template.spec.containers[0];
    assert_eq!(container.image, "image:2");
    assert_eq!(container.ports, [8443]);
    let probe = container.liveness_probe.as_ref().unwrap();
    assert_eq!((probe.path.as_str(), probe.port), ("/ping", 8443));
    assert_eq!(probe.initial_delay_seconds, 5);
    let service = apiserver_service();
    assert_eq!(service.ports[0].port, 443);
    assert_eq!(service.ports[0].target_port, 8443);
    assert_eq!(service.selector.get(LABEL_COMPONENT).unwrap(), "apiserver");
    let labels = deployment.template.metadata.labels.as_ref().unwrap();
    assert_eq!(labels.get(LABEL_COMPONENT).unwrap(), "apiserver");
}

#[test]
fn controller_manifests() {
    let account = controller_service_account();
    assert!(account.metadata.labels.is_some());
    let role = controller_cluster_role();
    assert_eq!(
        rules(&role),
        [
            "brupop.bottlerocket.aws|bottlerocketshadows,bottlerocketshadows/status|get,list,watch",
            "brupop.bottlerocket.aws|bottlerocketshadows|create,patch,update",
            "apps|deployments|create,delete,deletecollection,get,list,patch,update",
        ]
    );
    let binding = controller_cluster_role_binding();
    assert_eq!(Some(binding.role_ref.name), role.metadata.name);
    let deployment = controller_deployment("image:3".to_string(), None);
    assert_eq!(deployment.replicas, 1);
    assert_eq!(deployment.strategy.type_.as_deref(), Some("Recreate"));
    assert_eq!(
        deployment.template.spec.containers[0].command,
        ["./controller"]
    );
    let service = controller_service();
    assert_eq!((service.ports[0].port, service.ports[0].target_port), (80, 8080));
    assert_eq!(
        service.metadata.name.as_deref(),
        Some("brupop-controller-server")
    );
    let namespace = brupop_namespace();
    assert_eq!(namespace.metadata.name.as_deref(), Some(NAMESPACE));
    assert_eq!(
        namespace.metadata.labels.as_ref().unwrap().get("name").unwrap(),
        "brupop"
    );
}

#[test]
fn log_formats_come_from_the_environment() {
    let some = |t: &str| Some(t.to_string());
    assert_eq!(
        LogFormatter::try_from_env(None, None).unwrap(),
        LogFormatter::default()
    );
    assert_eq!(
        LogFormatter::try_from_env(some("json"), some("TRUE")).unwrap(),
        LogFormatter { message_format: MessageFormat::Json, ansi_enabled: true }
    );
    assert_eq!(
        LogFormatter::try_from_env(some("full"), some("False")).unwrap(),
        LogFormatter { message_format: MessageFormat::Full, ansi_enabled: false }
    );
    assert_eq!(
        MessageFormat::try_from_env(some("compact")).unwrap(),
        MessageFormat::Compact
    );
    assert!(matches!(
        MessageFormat::try_from_env(some("JSON")),
        Err(TelemetryConfigError::LogFormatterEnv { env_value }) if env_value == "JSON"
    ));
    assert!(matches!(
        LogFormatter::try_from_env(some("pretty"), some("yes")),
        Err(TelemetryConfigError::LogAnsiEnv { env_value }) if env_value == "yes"
    ));
    assert_eq!(
        CryptoConfigError.to_text(),
        "Failed to install crypto provider."
    );
}

#[test]
fn switches_are_true_or_false() {
    assert_eq!(parse_switch("true"), Some(true));
    assert_eq!(parse_switch("false"), Some(false));
    assert_eq!(parse_switch("TRUE"), None);
    assert_eq!(parse_switch("1"), None);
}
