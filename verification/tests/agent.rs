use brupop::agent::agentclient::{
    check_node_shadow_exists, checked_next_action, checked_running_desired_version, fetch_shadow,
    first_action, get_node_selector, observe, retry_strategy,
    shadow_status_with_refreshed_system_matadata, update_status_in_shadow, Action, Outcome, Phase,
    ShadowErrorInfo, ShadowLookup, Step,
};
use brupop::agent::agentclient_error::{BottlerocketShadowRWError, Error, Failure};
use brupop::agent::apiclient::{
    activate_update, after_invocation, check_update_state, find_status_code, get_chosen_update,
    get_raw_args, invoke_apiclient, prepare_update, request_args, CommandResult, CommandStatus,
    Invocation, InvocationStep, OsInfo, UpdateAction, UpdateApiRequest, UpdateCommand, UpdateImage,
    UpdateState, UpdateStatus, NUM_RETRIES,
};
use brupop::agent::apiclient_error::Error as ApiclientError;
use brupop::agent::run::{agent_ended, run_agent, AgentError, Ended};
use brupop::models::meta::ObjectMeta;
use brupop::models::node::crd::{
    BottlerocketShadow, BottlerocketShadowSpec, BottlerocketShadowState, BottlerocketShadowStatus,
};
use brupop::time::Timestamp;
use brupop::version::Version;

fn version(text: &str) -> Version {
    Version::from_str(text).unwrap()
}

fn now() -> Timestamp {
    Timestamp::from_timestamp(1_700_000_000, 0).unwrap()
}

fn shadow(desired: BottlerocketShadowState, current: BottlerocketShadowState) -> BottlerocketShadow {
    BottlerocketShadow {
        metadata: ObjectMeta::default(),
        spec: BottlerocketShadowSpec::new(desired, None, Some(version("1.9.0"))),
        status: Some(BottlerocketShadowStatus::new(
            version("1.8.0"),
            version("1.9.0"),
            current,
            2,
            Some(now()),
        )),
    }
}

fn next(phase: Phase, outcome: Outcome) -> (Phase, Action) {
    checked_next_action(phase, outcome, now()).unwrap()
}

fn transition(desired: BottlerocketShadowState, current: BottlerocketShadowState) -> (Phase, Action) {
    let observed = observe(&shadow(desired, current));
    next(Phase::Fetching, Outcome::Shadow(observed))
}

#[test]
fn the_agent_creates_and_initializes_its_object() {
    let (phase, action) = first_action();
    assert_eq!(action, Action::CheckNodeShadowExists);
    let (phase, action) = next(phase, Outcome::Answer(false));
    assert_eq!(action, Action::CreateMetadataShadow);
    let (phase, action) = next(phase, Outcome::Done);
    assert_eq!(action, Action::CheckShadowStatusExists);
    let (phase, action) = next(phase, Outcome::Answer(false));
    assert_eq!(action, Action::InitializeMetadataShadow);
    let (phase, action) = next(phase, Outcome::Done);
    assert_eq!(action, Action::FetchShadow);
    let (_, action) = next(phase, Outcome::Shadow(None));
    assert_eq!(action, Action::StopWithoutStatus);
    let (phase, action) = next(Phase::Creating, Outcome::Failed(Failure::Action));
    assert_eq!(action, Action::Sleep);
    assert_eq!(next(phase, Outcome::Done).1, Action::CheckNodeShadowExists);
    // An answer that does not fit is not gone on with.
    assert!(checked_next_action(Phase::Fetching, Outcome::Done, now()).is_none());
}

#[test]
fn an_update_is_prepared_and_performed() {
    let idle = BottlerocketShadowState::Idle;
    let staged = BottlerocketShadowState::StagedAndPerformedUpdate;
    let (phase, action) = transition(staged, idle);
    assert_eq!(action, Action::Prepare);
    let (phase, action) = next(phase, Outcome::Done);
    assert_eq!(action, Action::Update);
    let (phase, action) = next(phase, Outcome::Done);
    assert_eq!(
        action,
        Action::UpdateStatus(staged, ShadowErrorInfo::new(2, Some(now())))
    );
    assert_eq!(next(phase, Outcome::Done).1, Action::Sleep);
}

#[test]
fn a_node_is_drained_before_it_boots() {
    let staged = BottlerocketShadowState::StagedAndPerformedUpdate;
    let rebooted = BottlerocketShadowState::RebootedIntoUpdate;
    let (phase, action) = transition(rebooted, staged);
    assert_eq!(action, Action::CheckRunningVersion);
    let (phase, action) = next(phase, Outcome::Answer(false));
    assert_eq!(action, Action::CordonAndDrain);
    let (phase, action) = next(phase, Outcome::Done);
    assert_eq!(action, Action::BootUpdate);
    assert!(matches!(phase, Phase::Transition(_, Step::Boot)));

    // After the reboot the state is reported first.
    let (phase, _) = transition(rebooted, staged);
    let (phase, action) = next(phase, Outcome::Answer(true));
    assert_eq!(
        action,
        Action::UpdateStatus(rebooted, ShadowErrorInfo::new(2, Some(now())))
    );
    assert_eq!(next(phase, Outcome::Done).1, Action::Uncordon);
}

#[test]
fn a_failed_step_counts_as_a_crash() {
    let idle = BottlerocketShadowState::Idle;
    let staged = BottlerocketShadowState::StagedAndPerformedUpdate;
    let reset = BottlerocketShadowState::ErrorReset;
    let (phase, _) = transition(staged, idle);
    let (_, action) = next(phase, Outcome::Failed(Failure::Action));
    assert_eq!(
        action,
        Action::UpdateStatus(reset, ShadowErrorInfo::new(3, Some(now())))
    );
    let (phase, _) = transition(staged, idle);
    assert_eq!(
        next(phase, Outcome::Failed(Failure::ShadowAccess)).1,
        Action::Sleep
    );
    let (phase, _) = transition(staged, idle);
    assert_eq!(
        next(phase, Outcome::Failed(Failure::Assertion)).1,
        Action::StopOnAssertion
    );
    assert_eq!(transition(idle, reset).1, Action::Uncordon);
    assert_eq!(transition(reset, idle).1, Action::StopOnAssertion);
    // Crashes are forgotten after monitoring.
    assert_eq!(
        transition(idle, BottlerocketShadowState::MonitoringUpdate).1,
        Action::UpdateStatus(idle, ShadowErrorInfo::default())
    );
}

#[test]
fn objects_are_looked_up() {
    assert!(check_node_shadow_exists(1, ShadowLookup::ErrorCode(404), "b").unwrap());
    assert!(check_node_shadow_exists(0, ShadowLookup::Found, "b").unwrap());
    assert!(!check_node_shadow_exists(0, ShadowLookup::ErrorCode(404), "b").unwrap());
    assert!(matches!(
        check_node_shadow_exists(0, ShadowLookup::ErrorCode(500), "b"),
        Err(BottlerocketShadowRWError::FetchBottlerocketShadowErrorCode { code: 500 })
    ));
    assert!(matches!(
        check_node_shadow_exists(0, ShadowLookup::Unreachable("x".to_string()), "b"),
        Err(BottlerocketShadowRWError::UnableFetchBottlerocketShadow { node_name, .. })
            if node_name == "b"
    ));
    let selector = get_node_selector("n", &vec![Some("u".to_string())]).unwrap();
    assert_eq!((selector.node_name.as_str(), selector.node_uid.as_str()), ("n", "u"));
    assert!(matches!(
        get_node_selector("n", &vec![None]),
        Err(Error::MissingNodeUid)
    ));
    assert!(matches!(
        get_node_selector("n", &vec![]),
        Err(Error::ReflectorUnavailable { object }) if object == "Node"
    ));
    assert!(matches!(
        fetch_shadow(vec![]),
        Err(Error::ReflectorUnavailable { object }) if object == "BottlerocketShadow"
    ));
    assert_eq!(retry_strategy(), [1_000, 10_000, 10_000, 10_000, 10_000]);
}

#[test]
fn the_reported_status_follows_the_system() {
    let os_info = OsInfo { version_id: version("1.8.0") };
    let image = UpdateImage {
        arch: "x86_64".to_string(),
        version: version("1.9.0"),
        variant: "aws-k8s-1.28".to_string(),
    };
    let idle = BottlerocketShadowState::Idle;
    let status = shadow_status_with_refreshed_system_matadata(
        &os_info,
        &Some(image),
        idle,
        ShadowErrorInfo::default(),
    );
    assert_eq!(status.current_version, "1.8.0");
    assert_eq!(status.target_version, "1.9.0");
    let latest = shadow_status_with_refreshed_system_matadata(
        &os_info,
        &None,
        idle,
        ShadowErrorInfo::default(),
    );
    assert_eq!(latest.target_version, "1.8.0");

    let mut brs = shadow(idle, idle);
    assert!(update_status_in_shadow(&brs, &latest).unwrap());
    brs.status = Some(latest.copy());
    assert!(!update_status_in_shadow(&brs, &latest).unwrap());
    brs.status = None;
    assert!(matches!(
        update_status_in_shadow(&brs, &latest),
        Err(BottlerocketShadowRWError::MissingBottlerocketShadowStatus)
    ));
    assert_eq!(checked_running_desired_version(&brs.spec, &os_info), Some(false));
    brs.spec.version = Some("1.8.0".to_string());
    assert_eq!(checked_running_desired_version(&brs.spec, &os_info), Some(true));
    brs.spec.version = Some("v1".to_string());
    assert_eq!(checked_running_desired_version(&brs.spec, &os_info), None);
}

fn update_status(cmd_type: UpdateCommand, cmd_status: CommandStatus) -> UpdateStatus {
    UpdateStatus {
        update_state: UpdateState::Available,
        chosen_update: Some(UpdateImage {
            arch: "x86_64".to_string(),
            version: version("1.9.0"),
            variant: "v".to_string(),
        }),
        most_recent_command: CommandResult { cmd_type, cmd_status },
    }
}

#[test]
fn updates_are_chosen_after_a_refresh() {
    let chosen =
        get_chosen_update(update_status(UpdateCommand::Refresh, CommandStatus::Success)).unwrap();
    assert_eq!(chosen.unwrap().version.to_text(), "1.9.0");
    assert!(matches!(
        get_chosen_update(update_status(UpdateCommand::Refresh, CommandStatus::Failed)),
        Err(ApiclientError::RefreshUpdate)
    ));
    assert!(matches!(
        get_chosen_update(update_status(UpdateCommand::Prepare, CommandStatus::Success)),
        Err(ApiclientError::RefreshUpdate)
    ));
    assert!(check_update_state(UpdateAction::Prepare, UpdateState::Available).is_ok());
    assert!(check_update_state(UpdateAction::Prepare, UpdateState::Staged).is_ok());
    assert!(matches!(
        check_update_state(UpdateAction::Prepare, UpdateState::Idle),
        Err(ApiclientError::UpdateStage { expect_state, .. }) if expect_state == "Available or Staged"
    ));
    assert!(check_update_state(UpdateAction::Activate, UpdateState::Staged).is_ok());
    assert!(check_update_state(UpdateAction::Activate, UpdateState::Ready).is_err());
    assert!(check_update_state(UpdateAction::Reboot, UpdateState::Ready).is_ok());
    assert!(matches!(
        prepare_update(CommandResult {
            cmd_type: UpdateCommand::Activate,
            cmd_status: CommandStatus::Unknown,
        }),
        Err(ApiclientError::PrepareUpdate)
    ));
    assert!(prepare_update(CommandResult {
        cmd_type: UpdateCommand::Prepare,
        cmd_status: CommandStatus::Success,
    })
    .is_ok());
    assert!(matches!(
        activate_update(CommandResult {
            cmd_type: UpdateCommand::Prepare,
            cmd_status: CommandStatus::Failed,
        }),
        Err(ApiclientError::Update)
    ));
    assert!(activate_update(CommandResult {
        cmd_type: UpdateCommand::Activate,
        cmd_status: CommandStatus::Success,
    })
    .is_ok());
}

#[test]
fn a_command_must_be_the_one_that_was_given_and_succeed() {
    for (cmd_type, cmd_status) in [
        (UpdateCommand::Prepare, CommandStatus::Failed),
        (UpdateCommand::Prepare, CommandStatus::Unknown),
        (UpdateCommand::Refresh, CommandStatus::Success),
        (UpdateCommand::Activate, CommandStatus::Success),
    ] {
        assert!(matches!(
            prepare_update(CommandResult { cmd_type, cmd_status }),
            Err(ApiclientError::PrepareUpdate)
        ));
    }
    for (cmd_type, cmd_status) in [
        (UpdateCommand::Activate, CommandStatus::Failed),
        (UpdateCommand::Activate, CommandStatus::Unknown),
        (UpdateCommand::Refresh, CommandStatus::Success),
        (UpdateCommand::Prepare, CommandStatus::Success),
    ] {
        assert!(matches!(
            activate_update(CommandResult { cmd_type, cmd_status }),
            Err(ApiclientError::Update)
        ));
    }
}

#[test]
fn apiclient_is_invoked_and_its_errors_read() {
    assert_eq!(get_raw_args(vec!["/os".to_string()]), ["raw", "-u", "/os"]);
    let (args, limited) = request_args(UpdateApiRequest::RefreshUpdates);
    assert_eq!(args, ["raw", "-u", "/actions/refresh-updates", "-m", "POST"]);
    assert!(limited);
    let (args, limited) = request_args(UpdateApiRequest::GetOsInfo);
    assert_eq!(args, ["raw", "-u", "/os"]);
    assert!(!limited);
    let error = "Failed POST request to '/actions/refresh-updates': Status 423 when POSTing /actions/refresh-updates: Update lock held\n";
    assert_eq!(find_status_code(error), Some("423"));
    assert_eq!(find_status_code("no code"), None);
    let args = vec!["raw".to_string()];
    assert!(matches!(
        invoke_apiclient(&args, false, Some(1), error),
        Invocation::Failed(ApiclientError::UpdateApiUnavailable { .. })
    ));
    assert!(matches!(
        invoke_apiclient(&args, false, Some(1), "Status 500 when POSTing"),
        Invocation::Failed(ApiclientError::BadHttpResponse { statuscode, .. }) if statuscode == "500"
    ));
    assert!(matches!(
        invoke_apiclient(&args, false, None, ""),
        Invocation::Rebooting
    ));
    assert!(matches!(
        invoke_apiclient(&args, true, Some(0), ""),
        Invocation::Success
    ));
}

fn invoke_with_error(error: &str) -> Invocation {
    invoke_apiclient(&vec!["raw".to_string()], false, Some(1), error)
}

#[test]
fn a_busy_update_api_is_asked_again() {
    let mut retries = 0;
    let mut delays = Vec::new();
    loop {
        let (made, step) = after_invocation(retries, invoke_with_error("Status 423 when POSTing"));
        match step {
            InvocationStep::Retry(millis) => {
                assert_eq!(made, retries + 1);
                delays.push(millis);
            }
            InvocationStep::Fail(ApiclientError::UpdateApiUnavailable { args }) => {
                assert_eq!(made, NUM_RETRIES);
                assert_eq!(args, ["raw"]);
                break;
            }
            other => panic!("unexpected step: {:?}", other),
        }
        retries = made;
    }
    assert_eq!(delays, [10_000, 60_000, 60_000, 60_000, 60_000]);
}

#[test]
fn an_apiclient_that_cannot_be_run_is_run_again() {
    let failed = || {
        Invocation::Failed(ApiclientError::ApiClientRawCommand {
            args: vec!["raw".to_string()],
            source: "not found".to_string(),
        })
    };
    assert!(matches!(
        after_invocation(0, failed()),
        (1, InvocationStep::Retry(10_000))
    ));
    assert!(matches!(
        after_invocation(4, failed()),
        (5, InvocationStep::Retry(60_000))
    ));
    assert!(matches!(
        after_invocation(NUM_RETRIES, failed()),
        (5, InvocationStep::Fail(ApiclientError::ApiClientRawCommand { args, source }))
            if args == ["raw"] && source == "not found"
    ));
}

#[test]
fn errors_of_the_agent_are_written_out() {
    let command = || ApiclientError::ApiClientRawCommand {
        args: vec!["raw".to_string(), "-u".to_string(), "\"/os\"".to_string()],
        source: "not found".to_string(),
    };
    assert_eq!(
        command().to_text(),
        "Failed to run apiclient command apiclient \"raw -u \\\"/os\\\"\": not found"
    );
    let e = ApiclientError::UpdateStage {
        expect_state: "Ready".to_string(),
        update_state: UpdateState::Staged,
    };
    assert_eq!(
        e.to_text(),
        "Unexpected update state: Staged, expecting state to be Ready. Update action performed out of band?"
    );
    let e = ApiclientError::BadHttpResponse {
        args: vec!["raw".to_string(), "-u".to_string()],
        error_content: "oops".to_string(),
        statuscode: "500".to_string(),
    };
    assert_eq!(
        e.to_text(),
        "Bad http response when running command raw -u due to status code 500. Error output: oops"
    );
    let e = ApiclientError::UpdateApiUnavailable { args: vec![] };
    assert_eq!(
        e.to_text(),
        "Unable to process command apiclient : The lock for the update API is held by another process. Retries exhausted."
    );
    let e = Error::UpdateActions {
        action: "Prepare".to_string(),
        source: ApiclientError::PrepareUpdate,
    };
    assert_eq!(
        e.to_text(),
        "Unable to take action 'Prepare': 'Failed to prepare update or update action performed out of band'"
    );
    let e = Error::BottlerocketShadowError {
        error: BottlerocketShadowRWError::FetchBottlerocketShadowErrorCode { code: 500 },
    };
    assert_eq!(
        e.to_text(),
        "Unable to operate on BottlerocketShadow: 'ErrorResponse code '500' when sending to fetch Bottlerocket Node'"
    );
}

#[test]
fn other_errors_of_the_apiclient_end_the_call() {
    let (retries, step) = after_invocation(0, invoke_with_error("Status 500 when POSTing"));
    assert_eq!(retries, 0);
    assert!(matches!(
        step,
        InvocationStep::Fail(ApiclientError::BadHttpResponse { args, error_content, statuscode })
            if args == ["raw"] && error_content == "Status 500 when POSTing" && statuscode == "500"
    ));
    assert!(matches!(
        after_invocation(2, Invocation::Success),
        (2, InvocationStep::Finish)
    ));
    assert!(matches!(
        after_invocation(0, Invocation::Rebooting),
        (0, InvocationStep::Exit)
    ));
}

#[test]
fn the_agent_is_set_up_for_its_node() {
    let setup = run_agent(Ok("node-1".to_string())).unwrap();
    assert_eq!(
        setup.token_path,
        "/var/run/secrets/tokens/bottlerocket-agent-service-account-token"
    );
    assert_eq!(setup.associated_bottlerocketshadow_name, "brs-node-1");
    assert_eq!(setup.brs_fields, "metadata.name=brs-node-1");
    assert_eq!(setup.node_fields, "metadata.name=node-1");
    let e = run_agent(Err("unset".to_string())).unwrap_err();
    assert_eq!(e.to_text(), "Unable to get associated node name: unset");
    assert_eq!(
        agent_ended(Ended::BrsWatch).unwrap_err().to_text(),
        "The Kubernetes WATCH on brs objects has failed."
    );
    assert!(matches!(
        agent_ended(Ended::Loop(Err("x".to_string()))),
        Err(AgentError::AgentError { .. })
    ));
    assert!(agent_ended(Ended::Loop(Ok(()))).is_ok());
}

#[test]
fn errors_are_told_apart() {
    let access = Error::BottlerocketShadowError {
        error: BottlerocketShadowRWError::MissingBottlerocketShadowStatus,
    };
    assert_eq!(access.classify(), Failure::ShadowAccess);
    assert_eq!(
        Error::Assertion { message: "m".to_string() }.classify(),
        Failure::Assertion
    );
    assert_eq!(Error::MissingNodeUid.classify(), Failure::Action);
}
