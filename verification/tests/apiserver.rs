use brupop::apiserver::api::{
    endpoint_route, extract_header_string, no_telemetry_endpoints, public_key_path,
    reload_certificate, run_server, server_address, server_ended, ApiserverCommonHeaders, Endpoint,
    Headers, Method, ServerEnded,
};
use brupop::apiserver::api_error::Error as ApiError;
use brupop::apiserver::auth::authorizor::{
    create_token_review, AgentPod, K8STokenAuthorizor, TokenAuthorizor, TokenReviewStatus,
    POD_NAME_INFO_KEY,
};
use brupop::apiserver::auth::error::AuthorizationError;
use brupop::apiserver::auth::middleware::{Decision, InnerTokenAuthMiddleware, TokenAuthMiddleware};
use brupop::apiserver::client::{
    check_response, client_error, retry_strategy, APIServerClient, ClientError,
    CordonAndDrainBottlerocketShadowRequest, CreateBottlerocketShadowRequest, FailureCause,
    K8SAPIServerClient, UncordonBottlerocketShadowRequest, UpdateBottlerocketShadowRequest,
};
use brupop::apiserver::constants::{
    HEADER_BRUPOP_K8S_AUTH_TOKEN, HEADER_BRUPOP_NODE_NAME, HEADER_BRUPOP_NODE_UID,
};
use brupop::apiserver::tls::{assemble_identity, server_identity};
use brupop::apiserver::webhook::{
    convert_request_to_response, BRSObject, ConversionRequest, ConvertResult, Request, Shadow,
    Status, WebhookConvertError,
};
use brupop::models::meta::{ObjectMeta, OwnerReference};
use brupop::models::node::crd::{v1, v2, BottlerocketShadowSelector};
use brupop::version::Version;

fn metadata() -> ObjectMeta {
    ObjectMeta {
        name: Some("brs-ip-192-168-22-145.us-west-2.compute.internal".to_string()),
        namespace: Some("brupop-bottlerocket-aws".to_string()),
        uid: Some("3153df27-6619-4b6b-bc75-adbf92ef7266".to_string()),
        owner_references: Some(vec![OwnerReference {
            api_version: "v1".to_string(),
            kind: "Node".to_string(),
            name: "ip-192-168-22-145.us-west-2.compute.internal".to_string(),
            uid: "6b714046-3b20-4a79-aaa9-27cf626a2c12".to_string(),
            controller: None,
            block_owner_deletion: None,
        }]),
        ..Default::default()
    }
}

fn assert_same_meta(a: &ObjectMeta, b: &ObjectMeta) {
    assert_eq!(a.name, b.name);
    assert_eq!(a.namespace, b.namespace);
    assert_eq!(a.uid, b.uid);
    assert_eq!(a.owner_references, b.owner_references);
}

fn v1_shadow() -> v1::BottlerocketShadow {
    v1::BottlerocketShadow {
        metadata: metadata(),
        spec: v1::BottlerocketShadowSpec {
            state: v1::BottlerocketShadowState::Idle,
            state_transition_timestamp: None,
            version: None,
        },
        status: Some(v1::BottlerocketShadowStatus {
            current_state: v1::BottlerocketShadowState::Idle,
            target_version: "1.8.0".to_string(),
            current_version: "1.8.0".to_string(),
        }),
    }
}

fn v2_shadow() -> v2::BottlerocketShadow {
    v2::BottlerocketShadow {
        metadata: metadata(),
        spec: v2::BottlerocketShadowSpec {
            state: v2::BottlerocketShadowState::Idle,
            state_transition_timestamp: None,
            version: None,
        },
        status: Some(v2::BottlerocketShadowStatus {
            current_state: v2::BottlerocketShadowState::Idle,
            target_version: "1.8.0".to_string(),
            current_version: "1.8.0".to_string(),
            crash_count: 0,
            state_transition_failure_timestamp: None,
        }),
    }
}

const V1_JSON: &str = r#"{
    "apiVersion": "brupop.bottlerocket.aws/v1",
    "kind": "BottlerocketShadow",
    "metadata": {
        "name": "brs-ip-192-168-22-145.us-west-2.compute.internal",
        "namespace": "brupop-bottlerocket-aws",
        "uid": "3153df27-6619-4b6b-bc75-adbf92ef7266",
        "ownerReferences": [
            {
                "apiVersion": "v1",
                "kind": "Node",
                "name": "ip-192-168-22-145.us-west-2.compute.internal",
                "uid": "6b714046-3b20-4a79-aaa9-27cf626a2c12"
            }
        ]
    },
    "spec": {
        "state": "Idle"
    },
    "status": {
        "current_state": "Idle",
        "target_version": "1.8.0",
        "current_version": "1.8.0"
    }
}"#;

const V2_JSON: &str = r#"{
    "apiVersion": "brupop.bottlerocket.aws/v2",
    "kind": "BottlerocketShadow",
    "metadata": {
        "name": "brs-ip-192-168-22-145.us-west-2.compute.internal",
        "namespace": "brupop-bottlerocket-aws",
        "uid": "3153df27-6619-4b6b-bc75-adbf92ef7266",
        "ownerReferences": [
            {
                "apiVersion": "v1",
                "kind": "Node",
                "name": "ip-192-168-22-145.us-west-2.compute.internal",
                "uid": "6b714046-3b20-4a79-aaa9-27cf626a2c12"
            }
        ]
    },
    "spec": {
        "state": "Idle",
        "state_transition_timestamp": null,
        "version": null
    },
    "status": {
        "current_state": "Idle",
        "target_version": "1.8.0",
        "current_version": "1.8.0",
        "crash_count": 0,
        "state_transition_failure_timestamp": null
    }
}"#;

fn request(desired: &str, object: BRSObject) -> ConversionRequest {
    ConversionRequest {
        kind: "ConversionReview".to_string(),
        api_version: "apiextensions.k8s.io/v1".to_string(),
        request: Request {
            uid: "5a6adc7e-c74b-43c0-9718-293de1b104cb".to_string(),
            desired_api_version: desired.to_string(),
            objects: vec![object],
        },
    }
}

fn v1_object() -> BRSObject {
    BRSObject::Source {
        json: V1_JSON.to_string(),
        shadow: Some(Shadow::V1(v1_shadow())),
    }
}

fn v2_object() -> BRSObject {
    BRSObject::Source {
        json: V2_JSON.to_string(),
        shadow: Some(Shadow::V2(v2_shadow())),
    }
}

#[test]
fn test_convert_upgrade_request_to_response_succeed() {
    let conversion_req = request("brupop.bottlerocket.aws/v2", v1_object());
    let converted = convert_request_to_response(&conversion_req);
    assert_eq!(converted.kind, conversion_req.kind);
    assert_eq!(converted.api_version, conversion_req.api_version);
    assert_eq!(converted.response.uid, conversion_req.request.uid);
    assert_eq!(converted.response.result, ConvertResult::default());
    let objects = converted.response.converted_objects.unwrap();
    assert_eq!(objects.len(), 1);
    assert_eq!(
        objects[0].get_version().unwrap(),
        "brupop.bottlerocket.aws/v2"
    );
    match &objects[0] {
        BRSObject::Converted(Shadow::V2(brs)) => {
            assert_same_meta(&brs.metadata, &metadata());
            assert_eq!(brs.spec, v2_shadow().spec);
            assert_eq!(brs.status, v2_shadow().status);
        }
        other => panic!("not converted: {:?}", other),
    }
}

#[test]
fn test_convert_downgrade_request_to_response_succeed() {
    let conversion_req = request("brupop.bottlerocket.aws/v1", v2_object());
    let converted = convert_request_to_response(&conversion_req);
    assert_eq!(converted.kind, conversion_req.kind);
    assert_eq!(converted.api_version, conversion_req.api_version);
    assert_eq!(converted.response.uid, conversion_req.request.uid);
    assert_eq!(converted.response.result, ConvertResult::default());
    let objects = converted.response.converted_objects.unwrap();
    assert_eq!(objects.len(), 1);
    assert_eq!(
        objects[0].get_version().unwrap(),
        "brupop.bottlerocket.aws/v1"
    );
    match &objects[0] {
        BRSObject::Converted(Shadow::V1(brs)) => {
            assert_same_meta(&brs.metadata, &metadata());
            assert_eq!(brs.spec, v1_shadow().spec);
            assert_eq!(brs.status, v1_shadow().status);
        }
        other => panic!("not converted: {:?}", other),
    }
}

#[test]
fn test_convert_request_to_response_failed() {
    // desired_version not exist
    let conversion_req = request("brupop.bottlerocket.aws/-v2", v1_object());
    let converted = convert_request_to_response(&conversion_req);
    assert_eq!(converted.kind, conversion_req.kind);
    assert_eq!(converted.api_version, conversion_req.api_version);
    assert_eq!(converted.response.uid, conversion_req.request.uid);
    assert_eq!(
        converted.response.result,
        ConvertResult::create_fail_result(
            "Desired version brupop.bottlerocket.aws/-v2 is not a valid BottlerocketShadow version"
                .to_string()
        )
    );
    assert!(converted.response.converted_objects.is_none());
}

#[test]
fn objects_without_a_version_are_refused() {
    let object = BRSObject::Source {
        json: r#"{"kind": "BottlerocketShadow"}"#.to_string(),
        shadow: None,
    };
    let response = convert_request_to_response(&request("brupop.bottlerocket.aws/v2", object));
    assert_eq!(response.response.result.status, Status::Failed);
    let message = response.response.result.message.unwrap();
    assert!(
        message.starts_with("Source version does not exist in ConversionRequest: "),
        "{}",
        message
    );
    // An object that already has the desired version is not touched.
    let same = request("brupop.bottlerocket.aws/v2", v2_object());
    let response = same.checked_convert_resource().unwrap();
    assert_eq!(response.response.result.status, Status::Success);
    assert!(matches!(
        &response.response.converted_objects.unwrap()[0],
        BRSObject::Source { json, .. } if json == V2_JSON
    ));
    // An object of a version that is not known cannot be converted.
    let unknown = BRSObject::Source {
        json: r#"{"apiVersion": "brupop.bottlerocket.aws/v9"}"#.to_string(),
        shadow: None,
    };
    let response = convert_request_to_response(&request("brupop.bottlerocket.aws/v1", unknown));
    assert_eq!(response.response.result.status, Status::Failed);
}

fn authorizor(pods: Vec<AgentPod>, audiences: Option<Vec<String>>) -> K8STokenAuthorizor {
    K8STokenAuthorizor::new("namespace".to_string(), pods, audiences)
}

#[test]
fn test_token_has_authenticated() {
    let authorizor = authorizor(vec![], None);
    let test_cases = vec![
        (
            TokenReviewStatus {
                authenticated: Some(true),
                ..Default::default()
            },
            true,
        ),
        (
            TokenReviewStatus {
                authenticated: Some(false),
                ..Default::default()
            },
            false,
        ),
        (
            TokenReviewStatus {
                authenticated: None,
                ..Default::default()
            },
            false,
        ),
    ];

    for (review_status, success) in test_cases {
        let result = authorizor.check_token_has_authenticated(&review_status);
        if success {
            assert!(result.is_ok());
        } else {
            assert!(result.is_err());
        }
    }
}

#[test]
fn test_audiences_are_compatible() {
    let authorizor = authorizor(
        vec![],
        Some(vec![
            "test-audience1".to_string(),
            "test-audience2".to_string(),
        ]),
    );

    let test_cases = vec![
        (
            TokenReviewStatus {
                audiences: Some(vec!["test-audience1".to_string()]),
                ..Default::default()
            },
            true,
        ),
        (
            TokenReviewStatus {
                ..Default::default()
            },
            false,
        ),
        (
            TokenReviewStatus {
                audiences: Some(vec!["nomatch".to_string()]),
                ..Default::default()
            },
            false,
        ),
        (
            TokenReviewStatus {
                audiences: Some(vec!["test-audience2".to_string()]),
                ..Default::default()
            },
            true,
        ),
        (
            TokenReviewStatus {
                audiences: Some(vec![
                    "test-audience2".to_string(),
                    "test-audience1".to_string(),
                ]),
                ..Default::default()
            },
            true,
        ),
    ];

    for (review_status, success) in test_cases {
        let result = authorizor.check_audiences_are_compatible(&review_status);
        if success {
            assert!(result.is_ok());
        } else {
            assert!(result.is_err());
        }
    }
}

fn fake_pod_named(name: String, node_name: String) -> AgentPod {
    AgentPod {
        name,
        namespace: None,
        node_name: Some(node_name),
    }
}

fn fake_pods() -> Vec<AgentPod> {
    (1..5)
        .map(|ndx| fake_pod_named(format!("pod{}", ndx), format!("node{}", ndx)))
        .collect()
}

fn review_for_pod(name: &str) -> TokenReviewStatus {
    TokenReviewStatus {
        extra: Some(vec![(
            POD_NAME_INFO_KEY.to_string(),
            vec![name.to_string()],
        )]),
        ..Default::default()
    }
}

fn selector_with_name(name: &str) -> BottlerocketShadowSelector {
    BottlerocketShadowSelector {
        node_name: name.to_string(),
        node_uid: "fake".to_string(),
    }
}

#[test]
fn test_requester_from_correct_node() {
    let authorizor = authorizor(fake_pods(), None);

    let test_cases = vec![
        (review_for_pod("pod1"), selector_with_name("node1"), true),
        (review_for_pod("pod1"), selector_with_name("node3"), false),
        (review_for_pod("pod4"), selector_with_name("node4"), true),
    ];

    for (review_status, node_selector, success) in test_cases {
        let result =
            authorizor.check_requester_is_from_correct_node(&review_status, &node_selector);
        if success {
            assert!(result.is_ok());
        } else {
            assert!(result.is_err());
        }
    }
}

#[test]
fn each_refusal_has_its_error() {
    let authorizor = authorizor(fake_pods(), Some(vec!["api-server".to_string()]));
    let node = selector_with_name("node1");
    let good = || TokenReviewStatus {
        authenticated: Some(true),
        audiences: Some(vec!["api-server".to_string()]),
        ..review_for_pod("pod1")
    };
    let check = |status: TokenReviewStatus| authorizor.check_request_authorized(&node, Ok(status));
    assert!(check(good()).is_ok());
    let cases = vec![
        (
            TokenReviewStatus { error: Some("ERROR".to_string()), ..good() },
            AuthorizationError::TokenReviewServerError { err_msg: "ERROR".to_string() },
            500,
        ),
        (
            TokenReviewStatus { authenticated: None, ..good() },
            AuthorizationError::TokenNotAuthenticated,
            403,
        ),
        (
            TokenReviewStatus { audiences: Some(vec!["x".to_string()]), ..good() },
            AuthorizationError::AudienceMismatch,
            403,
        ),
        (
            TokenReviewStatus { extra: None, ..good() },
            AuthorizationError::TokenReviewMissingPodName,
            403,
        ),
        (
            TokenReviewStatus {
                extra: review_for_pod("pod9").extra,
                ..good()
            },
            AuthorizationError::NoSuchPod { pod_name: "pod9".to_string() },
            403,
        ),
        (
            TokenReviewStatus {
                extra: review_for_pod("pod2").extra,
                ..good()
            },
            AuthorizationError::RequesterTargetMismatch {
                requesting_node: "node2".to_string(),
                target_node: "node1".to_string(),
            },
            403,
        ),
    ];
    for (status, error, code) in cases {
        let refused = check(status).unwrap_err();
        assert_eq!(refused, error);
        assert_eq!(refused.status_code(), code);
    }
    assert_eq!(
        create_token_review(Err("no".to_string())).unwrap_err(),
        AuthorizationError::TokenReviewCreate { err_msg: "no".to_string() }
    );
    assert_eq!(
        create_token_review(Ok(None)).unwrap_err(),
        AuthorizationError::TokenReviewMissingStatus
    );
    assert_eq!(
        AuthorizationError::NoSuchPod { pod_name: "p".to_string() }.to_text(),
        "Could not find reference to Pod owning request token: 'p'"
    );
}

fn headers(node_name: &str, node_uid: &str, token: &str) -> Headers {
    Headers {
        entries: vec![
            (
                HEADER_BRUPOP_K8S_AUTH_TOKEN.to_lowercase(),
                token.as_bytes().to_vec(),
            ),
            (
                HEADER_BRUPOP_NODE_NAME.to_string(),
                node_name.as_bytes().to_vec(),
            ),
            (
                HEADER_BRUPOP_NODE_UID.to_string(),
                node_uid.as_bytes().to_vec(),
            ),
        ],
    }
}

const TEST_URI: &str = "/hello";

fn middleware(audiences: Vec<String>) -> InnerTokenAuthMiddleware<(), K8STokenAuthorizor> {
    TokenAuthMiddleware::new(authorizor(fake_pods(), Some(audiences))).new_transform(())
}

fn run_middleware(node_name: &str, node_uid: &str, error: Option<String>) -> bool {
    let requester_audiences = vec!["api-server".to_string()];
    let server_audiences = vec!["api-server".to_string()];
    let app = middleware(server_audiences.clone());
    match app.call(TEST_URI, &headers(node_name, node_uid, "authy")) {
        Decision::Review { review, node_selector } => {
            assert_eq!(review.token.as_deref(), Some("authy"));
            assert_eq!(review.audiences, Some(server_audiences));
            let status = TokenReviewStatus {
                audiences: Some(requester_audiences),
                authenticated: Some(true),
                error,
                extra: review_for_pod("pod1").extra,
            };
            app.finish(&node_selector, Ok(status)).is_ok()
        }
        other => panic!("no review: {:?}", other),
    }
}

#[test]
fn test_middleware_successful_auth() {
    // auth_token is configured to return being owned by `pod1`
    // `pod1` lives on `node1`
    // Our audiences are configured to intersect
    // No errors configured.
    // This should succeed.
    assert!(run_middleware("node1", "node1uid", None));
}

#[test]
fn test_middleware_unsuccessful_wrong_node() {
    // auth_token is configured to return being owned by `pod1`
    // `pod1` lives on `node1`
    // our request comes from `node2`
    // This should fail due to node mismatch.
    assert!(!run_middleware("node2", "node2uid", None));
}

#[test]
fn test_middleware_unsuccessful_server_error() {
    // The token review returns an error. This will fail.
    assert!(!run_middleware("node1", "node1uid", Some("ERROR".to_string())));
}

#[test]
fn excluded_paths_need_no_token() {
    let app = TokenAuthMiddleware::new(authorizor(vec![], None))
        .exclude("/ping".to_string())
        .new_transform(());
    let none = Headers { entries: vec![] };
    assert!(matches!(app.call("/ping", &none), Decision::Pass));
    assert!(matches!(
        app.call("/other", &none),
        Decision::Reject(ApiError::HTTPHeaderParse { .. })
    ));
}

#[test]
fn headers_are_read_in_any_case() {
    let read = ApiserverCommonHeaders::try_from(&headers("node1", "uid1", "token")).unwrap();
    assert_eq!(read.node_selector.node_name, "node1");
    assert_eq!(read.node_selector.node_uid, "uid1");
    assert_eq!(read.k8s_auth_token, "token");
    assert!(matches!(
        ApiserverCommonHeaders::try_from(&headers("n\u{f6}de", "uid1", "token")),
        Err(ApiError::HTTPHeaderParse { missing_header }) if missing_header == HEADER_BRUPOP_NODE_NAME
    ));
    let mut missing = headers("node1", "uid1", "token");
    missing.entries.remove(2);
    assert!(matches!(
        extract_header_string(&missing, HEADER_BRUPOP_NODE_UID),
        Err(ApiError::HTTPHeaderParse { missing_header }) if missing_header == HEADER_BRUPOP_NODE_UID
    ));
}

#[test]
fn what_the_client_sends_the_server_reads() {
    let client = K8SAPIServerClient::new("/token".to_string());
    let node_selector = BottlerocketShadowSelector {
        node_name: "test-node-name".to_string(),
        node_uid: "test-node-uid".to_string(),
    };
    let node_status = v2::BottlerocketShadowStatus::new(
        Version::from_str("1.2.1").unwrap(),
        Version::from_str("1.3.0").unwrap(),
        v2::BottlerocketShadowState::default(),
        0,
        None,
    );
    let base = "https://brupop-apiserver.brupop-bottlerocket-aws.svc.cluster.local:443";
    let create = client.create_bottlerocket_shadow(
        &CreateBottlerocketShadowRequest { node_selector: node_selector.clone() },
        "authy",
    );
    assert_eq!(create.method, Method::Post);
    assert_eq!(create.url, format!("{}/bottlerocket-node-resource", base));
    let update = client.update_bottlerocket_shadow(
        &UpdateBottlerocketShadowRequest { node_selector: node_selector.clone(), node_status },
        "authy",
    );
    assert_eq!(update.method, Method::Put);
    assert_eq!(update.url, create.url);
    let drain = client.cordon_and_drain_node(
        &CordonAndDrainBottlerocketShadowRequest { node_selector: node_selector.clone() },
        "authy",
    );
    assert_eq!(
        drain.url,
        format!("{}/bottlerocket-node-resource/cordon-and-drain", base)
    );
    let uncordon = client.uncordon_node(
        &UncordonBottlerocketShadowRequest { node_selector: node_selector.clone() },
        "authy",
    );
    assert_eq!(
        uncordon.url,
        format!("{}/bottlerocket-node-resource/uncordon", base)
    );
    for request in [create, update, drain, uncordon] {
        let sent = Headers {
            entries: request
                .headers
                .iter()
                .map(|(k, v)| (k.clone(), v.as_bytes().to_vec()))
                .collect(),
        };
        let read = ApiserverCommonHeaders::try_from(&sent).unwrap();
        assert_eq!(read.node_selector, node_selector);
        assert_eq!(read.k8s_auth_token, "authy");
    }
    assert_eq!(K8SAPIServerClient::scheme(), "https");
    assert_eq!(
        K8SAPIServerClient::server_domain(),
        "brupop-apiserver.brupop-bottlerocket-aws.svc.cluster.local:443"
    );
}

#[test]
fn error_responses_become_client_errors() {
    let node = selector_with_name("n");
    assert!(check_response(Endpoint::CreateShadow, &node, 200, None).is_ok());
    assert!(check_response(Endpoint::CreateShadow, &node, 299, None).is_ok());
    assert!(matches!(
        check_response(Endpoint::CreateShadow, &node, 300, None),
        Err(ClientError::CreateBottlerocketShadowResource {
            source: FailureCause::ErrorResponse { status_code: 300, response },
            ..
        }) if response == "<empty response>"
    ));
    assert!(matches!(
        check_response(Endpoint::Uncordon, &node, 500, Some("no".to_string())),
        Err(ClientError::CordonAndDrainNodeResource {
            source: FailureCause::ErrorResponse { status_code: 500, response },
            ..
        }) if response == "no"
    ));
    assert!(matches!(
        client_error(
            Endpoint::UpdateShadow,
            &node,
            FailureCause::Other { message: "m".to_string() }
        ),
        ClientError::UpdateBottlerocketShadowResource { .. }
    ));
    assert_eq!(retry_strategy(), [100, 10_000, 10_000, 10_000, 10_000]);
}

#[test]
fn the_server_is_set_up() {
    assert_eq!(server_address("10.0.0.1", 8443), "0.0.0.0:8443");
    assert_eq!(server_address("fd00::1", 8443), "[::]:8443");
    let plan = run_server("10.0.0.1", 8443);
    assert_eq!(plan.address, "0.0.0.0:8443");
    assert_eq!(plan.certificate_path, "/etc/brupop-tls-keys/tls.crt");
    assert_eq!(plan.private_key_path, "/etc/brupop-tls-keys/tls.key");
    assert!(plan.open_paths.contains(&"/ping".to_string()));
    assert!(plan.open_paths.contains(&"/crdconvert".to_string()));
    assert!(!plan
        .open_paths
        .contains(&"/bottlerocket-node-resource".to_string()));
    assert_eq!(
        endpoint_route(Endpoint::HealthCheck),
        (Method::Get, "/ping")
    );
    assert!(no_telemetry_endpoints().contains(&"/ping".to_string()));
    assert!(reload_certificate(&vec![1], &vec![2]));
    assert!(!reload_certificate(&vec![1], &vec![1]));
}

/// A section of a PEM file.
fn section(label: &str, body: &str) -> String {
    format!("-----BEGIN {}-----\n{}\n-----END {}-----\n", label, body, label)
}

#[test]
fn the_identity_is_read_from_its_files() {
    let plan = run_server("10.0.0.1", 8443);
    assert_eq!(public_key_path(), plan.certificate_path);
    // The first section of the key file is no key, and the last key does not count.
    let cert = section("CERTIFICATE", "AQID") + &section("CERTIFICATE", "BAUG");
    let key = section("CERTIFICATE", "AQID")
        + &section("PRIVATE KEY", "BwgJ")
        + &section("PRIVATE KEY", "CgsM");
    let ca = section("CERTIFICATE", "DQ4P");
    let bytes = |text: &str| text.as_bytes().to_vec();
    let identity = server_identity(&plan, &bytes(&cert), &bytes(&key), &bytes(&ca))
        .unwrap()
        .unwrap();
    assert_eq!(identity.cert_chain, [vec![1, 2, 3], vec![4, 5, 6]]);
    assert_eq!(identity.private_key, [7, 8, 9]);
    assert_eq!(identity.cas, [vec![13, 14, 15]]);

    // A file without sections is read as empty; without a key there is no identity.
    assert!(server_identity(&plan, &bytes(&cert), &bytes(&ca), &bytes(&ca))
        .unwrap()
        .is_none());
    let identity = server_identity(&plan, &vec![], &bytes(&key), &vec![])
        .unwrap()
        .unwrap();
    assert!(identity.cert_chain.is_empty() && identity.cas.is_empty());

    // The first file that cannot be read is reported.
    let broken = bytes("-----BEGIN CERTIFICATE-----\nAQID\n");
    let path_of = |cert: &Vec<u8>, key: &Vec<u8>, ca: &Vec<u8>| {
        match server_identity(&plan, cert, key, ca) {
            Err(ApiError::CertExtract { path, source }) => {
                assert_eq!(source, "section end \"CERTIFICATE\" missing");
                path
            }
            other => panic!("unexpected identity: {:?}", other),
        }
    };
    assert_eq!(path_of(&broken, &broken, &broken), plan.certificate_path);
    assert_eq!(path_of(&bytes(&cert), &broken, &broken), plan.private_key_path);
    assert_eq!(path_of(&bytes(&cert), &bytes(&key), &broken), plan.ca_path);
}

#[test]
fn the_end_of_the_server_is_reported() {
    assert!(matches!(
        server_ended(ServerEnded::PodWatch),
        Err(ApiError::KubernetesWatcherFailed)
    ));
    assert!(matches!(
        server_ended(ServerEnded::CertificateWatch),
        Err(ApiError::ReloadCertificateFailed)
    ));
    assert!(server_ended(ServerEnded::Server(Ok(()))).is_ok());
    assert!(matches!(
        server_ended(ServerEnded::Server(Err("in use".to_string()))),
        Err(ApiError::HttpServerError { source }) if source == "in use"
    ));
}

#[test]
fn identities_are_assembled_from_what_was_found() {
    let plan = run_server("10.0.0.1", 8443);
    let failed = || Err("bad".to_string());
    assert!(matches!(
        assemble_identity(&plan, failed(), failed(), failed()),
        Err(ApiError::CertExtract { path, source })
            if path == plan.certificate_path && source == "bad"
    ));
    assert!(matches!(
        assemble_identity(&plan, Ok(vec![]), failed(), failed()),
        Err(ApiError::CertExtract { path, .. }) if path == plan.private_key_path
    ));
    assert!(matches!(
        assemble_identity(&plan, Ok(vec![]), Ok(vec![]), failed()),
        Err(ApiError::CertExtract { path, .. }) if path == plan.ca_path
    ));
    assert!(matches!(
        assemble_identity(&plan, Ok(vec![]), Ok(vec![]), Ok(vec![])),
        Ok(None)
    ));
    let keys = vec![vec![1], vec![2]];
    assert!(matches!(
        assemble_identity(&plan, Ok(vec![]), Ok(keys), Ok(vec![])),
        Ok(Some(identity)) if identity.private_key == [1]
    ));
}

#[test]
fn client_errors_are_written_out() {
    let node = selector_with_name("n");
    let e = check_response(Endpoint::CreateShadow, &node, 404, Some("no".to_string())).unwrap_err();
    assert_eq!(
        e.to_text(),
        format!(
            "Unable to create BottlerocketShadow (n, {}): 'API server responded with an error status code 404 Not Found: 'no''",
            node.node_uid
        )
    );
    let cause = FailureCause::ErrorResponse {
        status_code: 99,
        response: "no".to_string(),
    };
    assert_eq!(
        cause.to_text(),
        "API server responded with an error status code 99: 'no'"
    );
    let e = ClientError::IOError {
        source: "gone".to_string(),
    };
    assert_eq!(
        e.to_text(),
        "IO error occurred while attempting to use APIServerClient: 'gone'"
    );
}

#[test]
fn server_errors_are_written_out() {
    assert_eq!(
        ApiError::HTTPHeaderParse { missing_header: "X" }.to_text(),
        "Unable to parse HTTP header. Missing 'X'"
    );
    assert_eq!(
        ApiError::FileOpen { path: "/p".to_string(), source: "gone".to_string() }.to_text(),
        "Failed to open file '/p': gone"
    );
    assert_eq!(
        ApiError::CertStore { source: "bad".to_string() }.to_text(),
        "Failed to add CA to cert store: bad"
    );
    assert_eq!(
        ApiError::ReloadCertificateFailed.to_text(),
        "Failed to reload certificate."
    );
}

#[test]
fn conversions_start_from_the_named_version() {
    let from = |object: BRSObject, named: Result<&str, &str>, desired: &str| {
        object.convert_from(
            named.map(str::to_string).map_err(str::to_string),
            desired,
        )
    };
    assert!(matches!(
        from(
            v1_object(),
            Ok("brupop.bottlerocket.aws/v1"),
            "brupop.bottlerocket.aws/v2"
        ),
        Ok(BRSObject::Converted(Shadow::V2(_)))
    ));
    assert!(matches!(
        from(
            v1_object(),
            Ok("brupop.bottlerocket.aws/v2"),
            "brupop.bottlerocket.aws/v2"
        ),
        Ok(BRSObject::Source { .. })
    ));
    assert_eq!(
        from(
            v1_object(),
            Ok("brupop.bottlerocket.aws/v2"),
            "brupop.bottlerocket.aws/v1"
        )
        .unwrap_err(),
        WebhookConvertError::ChainedConvertError {
            src_version: "brupop.bottlerocket.aws/v2".to_string(),
            dst_version: "brupop.bottlerocket.aws/v1".to_string(),
        }
    );
    assert_eq!(
        from(v1_object(), Err("why"), "brupop.bottlerocket.aws/v1").unwrap_err(),
        WebhookConvertError::SourceVersionNotExistInRequest {
            source: "why".to_string()
        }
    );
}
