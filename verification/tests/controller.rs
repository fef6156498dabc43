use brupop::controller::controller::{
    active_brs_set, bottlerocketshadows_cleanup, checked_find_ready_brs,
    checked_nodes_ready_to_update, checked_progress_node, find_and_update_ready_brs,
    find_unlabeled_nodes, first_action, get_associated_bottlerocketshadow_name,
    get_max_concurrent_update, is_initial_state, next_action, node_has_label, order_for_update,
    parse_max_concurrent_update, read_env_var, window_continues, Action, Outcome, Phase, SearchStep,
    ACTION_INTERVAL, CANNOT_FIND_ANY_NODES_WAIT_INTERVAL,
};
use brupop::controller::controllerclient_error::Error as ControllerError;
use brupop::controller::metrics::{
    checked_hosts_data, update_counter, BrupopControllerMetrics, Counter,
};
use brupop::controller::metrics_error::MetricsError;
use brupop::controller::scheduler::{
    determine_schedule_type, discontinues_updates, duration_between_next_two_points,
    schedule_type_of_gap, std_duration, BrupopCronScheduler, LegacyUpdateWindow, ScheduleType,
};
use brupop::controller::scheduler_error::Error as SchedulerError;
use brupop::controller::sorting::sort_shadows;
use brupop::controller::statemachine::{
    checked_next_node_spec, checked_next_node_spec_now, determine_next_step,
    exponential_backoff_time_with_upper_limit, NextStep,
};
use brupop::models::constants::{BRUPOP_INTERFACE_VERSION, LABEL_BRUPOP_INTERFACE_NAME};
use brupop::models::meta::{ObjectMeta, OwnerReference};
use brupop::models::node::crd::error::Error as CrdError;
use brupop::models::node::crd::{
    BottlerocketShadow, BottlerocketShadowSpec, BottlerocketShadowState, BottlerocketShadowStatus,
};
use brupop::string_map::StringMap;
use brupop::time::Timestamp;
use brupop::version::Version;

fn at(year: i32, month: u32, day: u32, hour: u32, minute: u32, second: u32) -> Timestamp {
    let seconds = chrono::NaiveDate::from_ymd_opt(year, month, day)
        .unwrap()
        .and_hms_opt(hour, minute, second)
        .unwrap()
        .and_utc()
        .timestamp();
    Timestamp::from_timestamp(seconds, 0).unwrap()
}

fn version(text: &str) -> Version {
    Version::from_str(text).unwrap()
}

fn shadow_with(
    name: &str,
    current_version: &str,
    target_version: &str,
    current_state: BottlerocketShadowState,
    crash_count: u32,
) -> BottlerocketShadow {
    BottlerocketShadow {
        status: Some(BottlerocketShadowStatus::new(
            version(current_version),
            version(target_version),
            current_state,
            crash_count,
            Some(at(2022, 1, 1, 0, 0, 1)),
        )),
        metadata: ObjectMeta {
            name: Some(name.to_string()),
            ..Default::default()
        },
        spec: BottlerocketShadowSpec::default(),
    }
}

fn fake_shadow(
    name: String,
    current_version: String,
    target_version: String,
    current_state: BottlerocketShadowState,
) -> BottlerocketShadow {
    shadow_with(&name, &current_version, &target_version, current_state, 0)
}

fn assert_same_shadows(actual: &[BottlerocketShadow], expected: &[BottlerocketShadow]) {
    assert_eq!(actual.len(), expected.len());
    for (a, e) in actual.iter().zip(expected) {
        assert_eq!(a.metadata.name, e.metadata.name);
        assert_eq!(a.spec, e.spec);
        assert_eq!(a.status, e.status);
    }
}

fn owned(mut brs: BottlerocketShadow, node: &str) -> BottlerocketShadow {
    brs.metadata.owner_references = Some(vec![OwnerReference {
        api_version: "v1".to_string(),
        kind: "Node".to_string(),
        name: node.to_string(),
        uid: format!("{}-uid", node),
        controller: None,
        block_owner_deletion: None,
    }]);
    brs
}

#[test]
fn exponential_backoff_hit_limit() {
    assert!(exponential_backoff_time_with_upper_limit(15, 4, 8));
}

#[test]
#[allow(clippy::bool_assert_comparison)]
fn exponential_backoff_not_hit_limit() {
    assert_eq!(
        false,
        exponential_backoff_time_with_upper_limit(30, 5, 1024)
    );

    assert!(exponential_backoff_time_with_upper_limit(244, 5, 1024))
}

#[test]
fn backoff_after_very_many_crashes_ends_at_the_limit() {
    for power in [62, 63, 64, u32::MAX] {
        assert!(!exponential_backoff_time_with_upper_limit(0, power, 1440));
        assert!(!exponential_backoff_time_with_upper_limit(1440, power, 1440));
        assert!(exponential_backoff_time_with_upper_limit(1441, power, 1440));
        assert!(!exponential_backoff_time_with_upper_limit(i64::MIN, power, 1440));
    }
    assert!(!exponential_backoff_time_with_upper_limit(i64::MAX, 63, i64::MAX));
    assert!(exponential_backoff_time_with_upper_limit(i64::MAX, 62, i64::MAX));
}

#[test]
fn node_with_very_many_crashes_waits_for_a_day() {
    let idle = BottlerocketShadowState::Idle;
    for crash_count in [63, u32::MAX] {
        let brs = shadow_with("brs-1", "1.8.0", "1.9.0", idle, crash_count);
        let spec = checked_next_node_spec(&brs, at(2022, 1, 1, 12, 0, 0)).unwrap();
        assert_eq!(spec, brs.spec);
        let spec = checked_next_node_spec(&brs, at(2022, 1, 2, 0, 1, 1)).unwrap();
        assert_eq!(
            spec.state,
            BottlerocketShadowState::StagedAndPerformedUpdate
        );
        assert!(checked_next_node_spec_now(&brs).is_some());
    }
}

#[test]
fn test_duration_between_next_two_points() {
    let test_cases = vec![
        ("* * * * * * *", at(2099, 1, 1, 2, 0, 0), 1),
        ("10 10 10 * * * *", at(2099, 1, 1, 2, 0, 0), 24 * 3600),
        ("10 10 10 * * Mon *", at(2099, 1, 1, 2, 0, 0), 7 * 24 * 3600),
    ];
    for (schedule, from, result) in test_cases {
        let duration = duration_between_next_two_points(schedule, from).unwrap();
        assert_eq!(duration.num_seconds(), result);
        assert_eq!(duration.to_std(), Ok((result as u64, 0)));
    }
}

#[test]
fn test_duration_to_next() {
    let test_cases = vec![
        (at(2099, 12, 1, 2, 0, 0), "* * 4 1 12 * 2099", 2 * 3600),
        (at(2099, 12, 1, 0, 0, 0), "* * * 31 12 * 2099", 30 * 24 * 3600),
        (at(2099, 12, 1, 0, 0, 0), "1 * * 1 12 * 2099", 1),
    ];

    for (now, cron_expression, result) in test_cases {
        let brupop_cron_scheduler = BrupopCronScheduler::from_string(cron_expression).unwrap();
        let duration = brupop_cron_scheduler.duration_to_next(now).unwrap();
        assert_eq!(duration.to_std(), Ok((result, 0)));
    }
}

#[test]
fn test_should_discontinue_updates_impl() {
    let test_cases = vec![
        (at(2099, 12, 1, 2, 0, 0), "* * * * * * *", false),
        (at(2099, 12, 1, 0, 0, 0), "10 10 10 * * * *", false),
        (at(2099, 12, 1, 0, 0, 0), "* * 10 * * * *", true),
    ];
    for (now, cron_expression, result) in test_cases {
        let brupop_cron_scheduler = BrupopCronScheduler::from_string(cron_expression).unwrap();
        assert_eq!(
            brupop_cron_scheduler.should_discontinue_updates_impl(now),
            result
        );
    }
}

#[test]
fn test_cron_expression_converter() {
    let test_cases = vec![
        ("0:0:0", "5:0:0", "* * 0-5 * * * *"),
        ("21:0:0", "8:30:0", "* * 21-23,0-8 * * * *"),
        ("15:0:0", "3:30:34", "* * 15-23,0-3 * * * *"),
    ];

    for (start_time, end_time, result) in test_cases {
        let update_time_window = LegacyUpdateWindow::from_string(start_time, end_time);
        assert_eq!(
            update_time_window.cron_expression_converter().unwrap(),
            result
        );
    }
}

fn some(text: &str) -> Option<String> {
    Some(text.to_string())
}

#[test]
fn test_from_environment() {
    // Legacy update window usage
    let result =
        BrupopCronScheduler::from_environment(some("09:00:00"), some("21:00:00"), None).unwrap();
    assert_eq!(result.cron_expression(), "* * 9-21 * * * *");

    // Legacy update window missing start time
    let result = LegacyUpdateWindow::from_environment(None, some("21:00:00"));
    assert!(result.is_err());

    // Legacy update window missing stop time
    let result = LegacyUpdateWindow::from_environment(some("09:00:00"), None);
    assert!(result.is_err());

    // Cron expression
    let result = BrupopCronScheduler::from_environment(None, None, some("* * 5 * * * *")).unwrap();
    assert_eq!(result.cron_expression(), "* * 5 * * * *");

    // Cron expression as the default result
    let result = BrupopCronScheduler::from_environment(None, None, None).unwrap();
    assert_eq!(result.cron_expression(), "* * * * * * *");

    // Cron expression and legacy window both provided
    let result = BrupopCronScheduler::from_environment(
        some("09:00:00"),
        some("21:00:00"),
        some("* * 5 * * * *"),
    )
    .unwrap();
    assert_eq!(result.cron_expression(), "* * 5 * * * *");
}

#[test]
fn unreadable_schedules_are_refused() {
    assert!(matches!(
        BrupopCronScheduler::from_string("not a schedule"),
        Err(SchedulerError::GenerateScheduleFailed { cron, source })
            if cron == "not a schedule"
                && source == "Invalid expression: Invalid cron expression."
    ));
    assert!(matches!(
        LegacyUpdateWindow::from_string("25:0:0", "5:0:0").cron_expression_converter(),
        Err(SchedulerError::InvalidTimeWindowSettings)
    ));
    assert!(matches!(
        LegacyUpdateWindow::from_string("5:0", "5:0:0").cron_expression_converter(),
        Err(SchedulerError::InvalidTimeWindowSettings)
    ));
    assert!(matches!(
        LegacyUpdateWindow::from_environment(some("1:0:0"), None),
        Err(SchedulerError::MissingTimeWindowVariable { message })
            if message == "missing update time start variable or update time start variable, please provide both of them."
    ));
    assert!(matches!(
        BrupopCronScheduler::from_string("0 0 0 1 1 * 2020"),
        Err(SchedulerError::GetScheduledDatetime)
    ));
}

#[test]
fn window_times_follow_the_pattern() {
    // The times that a window may start and stop at, as a pattern.
    let pattern =
        regex::Regex::new(r"^(0?\d|1\d|2[0-3]):(0?\d|[1-5]\d):(0?\d|[1-5]\d)$").unwrap();
    let parts = ["", "0", "00", "7", "07", "10", "19", "23", "24", "59", "60", "x", "+1"];
    for h in parts {
        for m in parts {
            for s in parts {
                let time = format!("{}:{}:{}", h, m, s);
                let window = LegacyUpdateWindow::from_string(&time, "5:0:0");
                assert_eq!(
                    window.cron_expression_converter().is_ok(),
                    pattern.is_match(&time),
                    "{}",
                    time
                );
            }
        }
    }
}

#[test]
fn schedule_types_are_told_apart() {
    let now = at(2099, 1, 1, 2, 0, 0);
    assert_eq!(
        determine_schedule_type("* * * * * * *", now).unwrap(),
        ScheduleType::Windowed
    );
    assert_eq!(
        determine_schedule_type("0 0 3 * * * *", now).unwrap(),
        ScheduleType::Oneshot
    );
}

#[test]
fn waiting_for_the_next_window() {
    let now = at(2099, 12, 1, 2, 0, 0);
    let scheduler = BrupopCronScheduler::from_string_at("* * 4 * * * *", now).unwrap();
    assert_eq!(scheduler.schedule_type(), ScheduleType::Windowed);
    assert_eq!(
        scheduler.wait_until_next_maintainence_window(now).unwrap(),
        (2 * 3600, 0)
    );
    let within = at(2099, 12, 1, 4, 30, 0);
    assert!(!scheduler.should_discontinue_updates_impl(within));
}

#[test]
fn negative_durations_have_no_std_form() {
    let earlier = at(2020, 1, 1, 0, 0, 0);
    let later = at(2020, 1, 1, 0, 1, 30);
    assert_eq!(later.since(&earlier).num_minutes(), 1);
    assert_eq!(later.since(&earlier).num_seconds(), 90);
    assert_eq!(earlier.since(&later).num_seconds(), -90);
    assert_eq!(std_duration(&later.since(&earlier)).unwrap(), (90, 0));
    assert!(matches!(
        std_duration(&earlier.since(&later)),
        Err(SchedulerError::ConvertToStdDuration { source })
            if source == "Source duration value is out of range for the target type"
    ));
}

fn counter(entries: &[(&str, u64)]) -> Counter {
    entries
        .iter()
        .fold(Counter::new(), |c, (k, v)| c.with(k, *v))
}

#[test]
fn test_update_counter() {
    let test_cases = vec![
        (
            vec![("a", 5), ("b", 10), ("c", 15)],
            vec![("a", 11)],
            vec![("a", 11), ("b", 0), ("c", 0)],
        ),
        (
            vec![("a", 1)],
            vec![("b", 11), ("c", 12)],
            vec![("a", 0), ("b", 11), ("c", 12)],
        ),
        (vec![("a", 1)], vec![("a", 2)], vec![("a", 2)]),
    ];

    for (base, other, expected) in test_cases.into_iter() {
        let mut base = counter(&base);
        let other = counter(&other);

        update_counter(&mut base, &other);
        assert_eq!(base.entries().len(), expected.len());
        for (key, value) in expected {
            assert_eq!(base.get(key), Some(value));
        }
    }
}

#[test]
fn hosts_are_counted_by_version_and_state() {
    let shadows = vec![
        shadow_with("a", "1.8.0", "1.9.0", BottlerocketShadowState::Idle, 0),
        shadow_with("b", "1.8.0", "1.9.0", BottlerocketShadowState::ErrorReset, 1),
        shadow_with("c", "1.9.0", "1.9.0", BottlerocketShadowState::Idle, 0),
        BottlerocketShadow {
            metadata: ObjectMeta::default(),
            spec: BottlerocketShadowSpec::default(),
            status: None,
        },
    ];
    let data = checked_hosts_data(&shadows).unwrap();
    assert_eq!(data.hosts_version_count.get("1.8.0"), Some(2));
    assert_eq!(data.hosts_version_count.get("1.9.0"), Some(1));
    assert_eq!(data.hosts_state_count.get("Idle"), Some(2));
    assert_eq!(data.hosts_state_count.get("ErrorReset"), Some(1));
    assert_eq!(data.hosts_state_count.get("MonitoringUpdate"), None);

    let mut metrics = BrupopControllerMetrics::new();
    metrics.emit_metrics(data);
    let gone = checked_hosts_data(&shadows[2..3].iter().map(|s| s.copy()).collect()).unwrap();
    metrics.emit_metrics(gone);
    let shared = &metrics.brupop_shared_hosts_data;
    assert_eq!(shared.hosts_version_count.get("1.8.0"), Some(0));
    assert_eq!(shared.hosts_version_count.get("1.9.0"), Some(1));
    assert_eq!(shared.hosts_state_count.get("ErrorReset"), Some(0));
}

#[test]
fn unreadable_versions_are_not_counted() {
    let mut bad = shadow_with("a", "1.8.0", "1.9.0", BottlerocketShadowState::Idle, 0);
    bad.status.as_mut().unwrap().current_version = "01.8".to_string();
    assert!(checked_hosts_data(&vec![bad]).is_none());
}

#[test]
fn test_sort_shadows_find_brs() {
    let mut test_shadows = vec![
        fake_shadow(
            "brs-ip-1.us-west-2.compute.internal".to_string(),
            "1.8.0".to_string(),
            "1.5.0".to_string(),
            BottlerocketShadowState::Idle,
        ),
        fake_shadow(
            "brs-ip-2.us-west-2.compute.internal".to_string(),
            "1.8.0".to_string(),
            "1.5.0".to_string(),
            BottlerocketShadowState::Idle,
        ),
        fake_shadow(
            "brs-ip-3.us-west-2.compute.internal".to_string(),
            "1.8.0".to_string(),
            "1.5.0".to_string(),
            BottlerocketShadowState::Idle,
        ),
    ];

    let associated_brs_name = "brs-ip-1.us-west-2.compute.internal";

    let expected_result = vec![
        fake_shadow(
            "brs-ip-2.us-west-2.compute.internal".to_string(),
            "1.8.0".to_string(),
            "1.5.0".to_string(),
            BottlerocketShadowState::Idle,
        ),
        fake_shadow(
            "brs-ip-3.us-west-2.compute.internal".to_string(),
            "1.8.0".to_string(),
            "1.5.0".to_string(),
            BottlerocketShadowState::Idle,
        ),
        fake_shadow(
            "brs-ip-1.us-west-2.compute.internal".to_string(),
            "1.8.0".to_string(),
            "1.5.0".to_string(),
            BottlerocketShadowState::Idle,
        ),
    ];

    sort_shadows(&mut test_shadows, associated_brs_name);

    assert_same_shadows(&test_shadows, &expected_result);
}

/// test when it doesn't find the brs (some brss aren't ready), the program should skip sort.
#[test]
fn test_sort_shadows_not_find_brs() {
    let mut test_shadows = vec![
        fake_shadow(
            "brs-ip-17.us-west-2.compute.internal".to_string(),
            "1.8.0".to_string(),
            "1.5.0".to_string(),
            BottlerocketShadowState::Idle,
        ),
        fake_shadow(
            "brs-ip-123.us-west-2.compute.internal".to_string(),
            "1.8.0".to_string(),
            "1.5.0".to_string(),
            BottlerocketShadowState::Idle,
        ),
        fake_shadow(
            "brs-ip-321.us-west-2.compute.internal".to_string(),
            "1.8.0".to_string(),
            "1.5.0".to_string(),
            BottlerocketShadowState::Idle,
        ),
    ];

    let associated_brs_name = "brs-ip-5.us-west-2.compute.internal";

    let expected_result = vec![
        fake_shadow(
            "brs-ip-17.us-west-2.compute.internal".to_string(),
            "1.8.0".to_string(),
            "1.5.0".to_string(),
            BottlerocketShadowState::Idle,
        ),
        fake_shadow(
            "brs-ip-123.us-west-2.compute.internal".to_string(),
            "1.8.0".to_string(),
            "1.5.0".to_string(),
            BottlerocketShadowState::Idle,
        ),
        fake_shadow(
            "brs-ip-321.us-west-2.compute.internal".to_string(),
            "1.8.0".to_string(),
            "1.5.0".to_string(),
            BottlerocketShadowState::Idle,
        ),
    ];

    sort_shadows(&mut test_shadows, associated_brs_name);

    assert_same_shadows(&test_shadows, &expected_result);
}

#[test]
fn fewer_crashes_come_first_and_the_own_node_last() {
    let idle = BottlerocketShadowState::Idle;
    let mut shadows = vec![
        shadow_with("brs-own", "1.8.0", "1.9.0", idle, 0),
        shadow_with("brs-a", "1.8.0", "1.9.0", idle, 3),
        shadow_with("brs-b", "1.8.0", "1.9.0", idle, 1),
        shadow_with("brs-c", "1.8.0", "1.9.0", idle, 1),
    ];
    sort_shadows(&mut shadows, "brs-own");
    let names: Vec<String> = shadows.iter().map(|s| s.metadata.name_any()).collect();
    assert_eq!(names, ["brs-b", "brs-c", "brs-a", "brs-own"]);
}

#[test]
fn test_get_max_concurrent_update() {
    let variable_value_tuple = vec![("unlimited".to_string(), usize::MAX), ("2".to_string(), 2)];

    for (env_val, target_val) in variable_value_tuple {
        assert_eq!(
            get_max_concurrent_update(Ok(env_val)).unwrap(),
            target_val
        );
    }
}

fn unset() -> Result<String, String> {
    Err("environment variable not found".to_string())
}

#[test]
fn concurrency_settings_are_checked() {
    assert_eq!(
        get_max_concurrent_update(Ok("UNLIMITED".to_string())).unwrap(),
        usize::MAX
    );
    let e = get_max_concurrent_update(Ok("many".to_string())).unwrap_err();
    assert_eq!(
        e.to_text(),
        "Unable to parse environment variable 'MAX_CONCURRENT_UPDATE': 'invalid digit found in string'"
    );
    let e = get_max_concurrent_update(unset()).unwrap_err();
    assert_eq!(
        e.to_text(),
        "Unable to get environment variable 'MAX_CONCURRENT_UPDATE' due to : 'environment variable not found'"
    );
    assert!(matches!(
        read_env_var("SOME_VARIABLE", unset()),
        Err(ControllerError::MissingEnvVariable { source, variable })
            if source == "environment variable not found" && variable == "SOME_VARIABLE"
    ));
    assert_eq!(
        read_env_var("SOME_VARIABLE", Ok("x".to_string())).unwrap(),
        "x"
    );
    assert_eq!(
        get_associated_bottlerocketshadow_name(Ok("node-1".to_string())).unwrap(),
        "brs-node-1"
    );
    assert!(matches!(
        get_associated_bottlerocketshadow_name(unset()),
        Err(ControllerError::MissingEnvVariable { variable, .. }) if variable == "MY_NODE_NAME"
    ));
}

#[test]
fn errors_of_the_controller_are_written_out() {
    let e = ControllerError::GetCronSchedule {
        source: BrupopCronScheduler::from_string("not a schedule").unwrap_err(),
    };
    assert_eq!(
        e.to_text(),
        "Unable to get cron expression schedule: Failed to generate corn expression 'not a schedule' due to `Invalid expression: Invalid cron expression.`"
    );
    let e = ControllerError::NodeSelectorCreation {
        source: CrdError::MissingOwnerReference {
            name: "brs-1".to_string(),
        },
    };
    assert_eq!(
        e.to_text(),
        "Could not determine selector for node: 'BottlerocketShadow object ('brs-1') is missing a reference to the owning Node.'"
    );
    let e = ControllerError::MetricsCompute {
        source: MetricsError::SerializeState {
            source: "x".to_string(),
        },
    };
    assert_eq!(
        e.to_text(),
        "Failed to compute cluster metrics: 'Failed to serialize Shadow state: 'x''"
    );
    let e = ControllerError::MaintenanceTimeError {
        source: SchedulerError::GetScheduledDatetime,
    };
    assert_eq!(
        e.to_text(),
        "Error creating maintenance time: 'Unable to get cron expression schedule scheduled datetime'"
    );
    let e = ControllerError::GetNodeName {
        source: "x".to_string(),
    };
    assert_eq!(e.to_text(), "Unable to get host controller pod node name: x");
    let e = SchedulerError::UnableParseToU8 {
        variable: "start time hour".to_string(),
        source: "x".to_string(),
    };
    assert_eq!(e.to_text(), "Failed to parse start time hour to u8 due to x.");
}

#[test]
fn the_search_moves_on_after_a_failure() {
    let now = at(2023, 1, 1, 0, 0, 0);
    let idle = BottlerocketShadowState::Idle;
    let ready = || shadow_with("brs-1", "1.8.0", "1.9.0", idle, 0);
    let done = || shadow_with("brs-2", "1.9.0", "1.9.0", idle, 0);
    let all = vec![done(), ready(), done(), ready()];
    let step = |last| find_and_update_ready_brs(&all, last, now);
    assert_eq!(step(None), SearchStep::Progress(1));
    assert_eq!(step(Some((1, true))), SearchStep::Finish(Some(1)));
    assert_eq!(step(Some((1, false))), SearchStep::Progress(3));
    assert_eq!(step(Some((3, false))), SearchStep::Finish(None));
    assert_eq!(step(Some((usize::MAX, false))), SearchStep::Finish(None));

    let mut unreadable = ready();
    if let Some(status) = &mut unreadable.status {
        status.target_version = "new".to_string();
    }
    assert_eq!(
        find_and_update_ready_brs(&vec![done(), unreadable], None, now),
        SearchStep::Unreadable(1)
    );

    let mut shadows = vec![
        shadow_with("brs-a", "1.8.0", "1.9.0", idle, 2),
        shadow_with("brs-b", "1.8.0", "1.9.0", idle, 0),
        shadow_with("brs-c", "1.8.0", "1.9.0", idle, 1),
    ];
    assert!(order_for_update(&mut shadows, unset()).is_err());
    assert_eq!(shadows[0].metadata.name_any(), "brs-a");
    assert!(order_for_update(&mut shadows, Ok("b".to_string())).is_ok());
    let names: Vec<String> = shadows.iter().map(|s| s.metadata.name_any()).collect();
    assert_eq!(names, ["brs-c", "brs-a", "brs-b"]);
}

#[test]
fn windows_go_on_while_nodes_are_ready() {
    let idle = BottlerocketShadowState::Idle;
    let ready = vec![shadow_with("brs-1", "1.8.0", "1.9.0", idle, 0)];
    let done = vec![shadow_with("brs-1", "1.9.0", "1.9.0", idle, 0)];
    let seen = at(2023, 1, 1, 0, 0, 0);
    let window = BrupopCronScheduler::from_string_at("* * 10-12 * * * *", at(2023, 1, 1, 10, 0, 0))
        .unwrap();
    assert_eq!(window.schedule_type(), ScheduleType::Windowed);
    let inside = at(2023, 1, 1, 11, 0, 0);
    assert_eq!(window_continues(&window, &ready, inside), Some(true));
    assert_eq!(window_continues(&window, &done, inside), Some(false));
    assert_eq!(window_continues(&window, &ready, seen), Some(false));
    let mut unreadable = shadow_with("brs-1", "1.8.0", "1.9.0", idle, 0);
    if let Some(status) = &mut unreadable.status {
        status.target_version = "new".to_string();
    }
    let unreadable = vec![unreadable];
    assert_eq!(window_continues(&window, &unreadable, inside), None);
    assert_eq!(window_continues(&window, &unreadable, seen), Some(false));
}

fn labeled() -> ObjectMeta {
    ObjectMeta {
        name: Some("test".to_string()),
        labels: Some(StringMap::new().with(
            LABEL_BRUPOP_INTERFACE_NAME.to_string(),
            BRUPOP_INTERFACE_VERSION.to_string(),
        )),
        ..Default::default()
    }
}

#[test]
#[allow(clippy::bool_assert_comparison)]
fn test_node_has_label() {
    let labeled_node = labeled();

    let unlabeled_node = ObjectMeta {
        name: Some("test".to_string()),
        ..Default::default()
    };

    assert!(node_has_label(&labeled_node));
    assert_eq!(node_has_label(&unlabeled_node), false);
}

#[test]
fn objects_of_unlabeled_nodes_are_removed() {
    let mut other = labeled();
    other.name = Some("other".to_string());
    other.labels = Some(StringMap::new().with(
        LABEL_BRUPOP_INTERFACE_NAME.to_string(),
        "1.0.0".to_string(),
    ));
    let nodes = vec![labeled(), other];
    assert_eq!(find_unlabeled_nodes(&nodes), ["other"]);
    let names = vec!["brs-other".to_string(), "brs-test".to_string()];
    assert_eq!(bottlerocketshadows_cleanup(&nodes, &names), ["brs-other"]);
}

#[test]
fn an_idle_node_behind_its_target_is_updated() {
    let now = at(2030, 1, 1, 0, 0, 0);
    let mut brs = shadow_with("brs-a", "1.8.0", "1.9.0", BottlerocketShadowState::Idle, 0);
    let spec = checked_next_node_spec(&brs, now).unwrap();
    assert_eq!(spec.state, BottlerocketShadowState::StagedAndPerformedUpdate);
    assert_eq!(spec.version.as_deref(), Some("1.9.0"));
    assert_eq!(
        spec.state_transition_timestamp.as_deref(),
        Some("2030-01-01T00:00:00+00:00")
    );
    assert!(checked_next_node_spec_now(&brs).is_some());

    // At its target version it stays as it is.
    brs.status.as_mut().unwrap().current_version = "1.9.0".to_string();
    let spec = checked_next_node_spec(&brs, now).unwrap();
    assert_eq!(spec, brs.spec);

    // Without a status it is idle.
    brs.status = None;
    let spec = checked_next_node_spec(&brs, now).unwrap();
    assert_eq!(spec.state, BottlerocketShadowState::Idle);
}

#[test]
fn a_crashed_node_starts_over_when_its_time_has_come() {
    let mut brs = shadow_with("brs-a", "1.8.0", "1.9.0", BottlerocketShadowState::ErrorReset, 3);
    brs.spec.state = BottlerocketShadowState::RebootedIntoUpdate;
    // Back to idle at once.
    let spec = checked_next_node_spec(&brs, at(2022, 1, 1, 0, 0, 2)).unwrap();
    assert_eq!(spec.state, BottlerocketShadowState::Idle);

    // From idle on only after two to the power of the crash count minutes.
    brs.spec.state = BottlerocketShadowState::Idle;
    brs.status.as_mut().unwrap().current_state = BottlerocketShadowState::Idle;
    let early = checked_next_node_spec(&brs, at(2022, 1, 1, 0, 8, 1)).unwrap();
    assert_eq!(early.state, BottlerocketShadowState::Idle);
    let late = checked_next_node_spec(&brs, at(2022, 1, 1, 0, 9, 2)).unwrap();
    assert_eq!(late.state, BottlerocketShadowState::StagedAndPerformedUpdate);
}

#[test]
fn unreadable_objects_have_no_next_spec() {
    let mut brs = shadow_with("brs-a", "1.8.0", "1.9.0", BottlerocketShadowState::Idle, 0);
    brs.status.as_mut().unwrap().target_version = "latest".to_string();
    assert!(checked_next_node_spec(&brs, at(2030, 1, 1, 0, 0, 0)).is_none());
}

#[test]
fn active_nodes_are_progressed() {
    let now = at(2030, 1, 1, 0, 0, 0);
    let idle = owned(
        shadow_with("brs-a", "1.8.0", "1.9.0", BottlerocketShadowState::Idle, 0),
        "a",
    );
    let mut active = owned(
        shadow_with(
            "brs-b",
            "1.8.0",
            "1.9.0",
            BottlerocketShadowState::StagedAndPerformedUpdate,
            0,
        ),
        "b",
    );
    active.spec.state = BottlerocketShadowState::StagedAndPerformedUpdate;
    active.spec.version = Some("1.9.0".to_string());
    let all = vec![idle.copy(), active.copy()];
    let set = active_brs_set(&all);
    assert_eq!(set.len(), 1);
    assert_eq!(set[0].0, "brs-b");

    let (selector, spec) = checked_progress_node(&active, now).unwrap().unwrap().unwrap();
    assert_eq!(selector.node_name, "b");
    assert_eq!(selector.node_uid, "b-uid");
    assert_eq!(spec.state, BottlerocketShadowState::RebootedIntoUpdate);

    assert!(is_initial_state(&idle));
    assert!(!is_initial_state(&active));
    assert_eq!(checked_find_ready_brs(&all, 0, now), Ok(Some(0)));
    assert_eq!(checked_find_ready_brs(&all, 1, now), Ok(None));
    assert_eq!(checked_nodes_ready_to_update(&all, now), Some(true));

    // Without an owner there is no node to address.
    let mut orphan = active.copy();
    orphan.metadata.owner_references = None;
    assert!(matches!(
        checked_progress_node(&orphan, now),
        Some(Err(ControllerError::NodeSelectorCreation { .. }))
    ));
}

#[test]
fn the_controller_loop_goes_through_a_window() {
    let (phase, action) = first_action();
    assert_eq!(action, Action::Observe);

    // Without any objects the controller waits.
    let (waiting, action) = next_action(phase, Outcome::Observed { all: 0, active: 0 });
    assert_eq!(action, Action::Sleep(CANNOT_FIND_ANY_NODES_WAIT_INTERVAL));
    assert_eq!(next_action(waiting, Outcome::Done).1, Action::Observe);

    // Ongoing updates are finished outside of a window.
    let (finishing, action) = next_action(phase, Outcome::Observed { all: 2, active: 1 });
    assert_eq!(action, Action::ProgressActiveSet);
    assert_eq!(
        next_action(finishing, Outcome::Done).1,
        Action::Sleep(ACTION_INTERVAL)
    );

    // A window: one node is active, two may be.
    let (phase, action) = next_action(phase, Outcome::Observed { all: 2, active: 0 });
    assert_eq!(action, Action::WaitUntilNextMaintenanceWindow);
    let (phase, action) = next_action(phase, Outcome::Done);
    assert_eq!(action, Action::Observe);
    let (phase, action) = next_action(phase, Outcome::Observed { all: 2, active: 1 });
    assert_eq!(action, Action::ProgressActiveSet);
    let (limit, action) = next_action(phase, Outcome::Done);
    assert_eq!(action, Action::ReadMaxConcurrentUpdate);
    assert_eq!(
        next_action(limit, Outcome::MaxConcurrentUpdate(1)).1,
        Action::CleanUp
    );
    let (phase, action) = next_action(limit, Outcome::MaxConcurrentUpdate(2));
    assert_eq!(action, Action::FindAndUpdateReady);
    let (phase, action) = next_action(phase, Outcome::Done);
    assert_eq!(action, Action::CleanUp);
    let (phase, action) = next_action(phase, Outcome::Done);
    assert_eq!(action, Action::EmitMetrics);
    let (phase, action) = next_action(phase, Outcome::Done);
    assert_eq!(action, Action::Sleep(ACTION_INTERVAL));
    let (phase, action) = next_action(phase, Outcome::Done);
    assert_eq!(action, Action::DecideWindow);
    assert_eq!(
        next_action(phase, Outcome::WindowContinues(true)).0,
        Phase::WindowObserving
    );
    assert_eq!(
        next_action(phase, Outcome::WindowContinues(false)).0,
        Phase::Observing
    );

    // Whatever fails stops the controller.
    assert_eq!(next_action(phase, Outcome::Failed).1, Action::Stop);
}

#[test]
fn settings_in_lower_case_are_read() {
    assert_eq!(parse_max_concurrent_update("unlimited").unwrap(), usize::MAX);
    assert_eq!(parse_max_concurrent_update("12").unwrap(), 12);
    assert!(matches!(
        parse_max_concurrent_update("Unlimited"),
        Err(ControllerError::MaxConcurrentUpdateParseError { source })
            if source == "invalid digit found in string"
    ));
    assert!(matches!(
        parse_max_concurrent_update("99999999999999999999999"),
        Err(ControllerError::MaxConcurrentUpdateParseError { source })
            if source == "number too large to fit in target type"
    ));
}

#[test]
fn points_a_second_apart_make_a_window() {
    let start = at(2024, 1, 1, 0, 0, 0);
    let second = at(2024, 1, 1, 0, 0, 1).since(&start);
    let minute = at(2024, 1, 1, 0, 1, 0).since(&start);
    assert_eq!(schedule_type_of_gap(&second), ScheduleType::Windowed);
    assert_eq!(schedule_type_of_gap(&minute), ScheduleType::Oneshot);
    assert!(discontinues_updates(ScheduleType::Windowed, false));
    assert!(!discontinues_updates(ScheduleType::Windowed, true));
    assert!(!discontinues_updates(ScheduleType::Oneshot, false));
}

#[test]
fn steps_follow_the_states() {
    let idle = BottlerocketShadowState::Idle;
    let staged = BottlerocketShadowState::StagedAndPerformedUpdate;
    let rebooted = BottlerocketShadowState::RebootedIntoUpdate;
    let crashed = BottlerocketShadowState::ErrorReset;
    assert_eq!(determine_next_step(staged, idle, false, true), NextStep::Keep);
    assert_eq!(
        determine_next_step(staged, crashed, false, true),
        NextStep::Enter(idle)
    );
    assert_eq!(determine_next_step(idle, idle, true, true), NextStep::Wait);
    assert_eq!(
        determine_next_step(idle, idle, false, true),
        NextStep::StartUpdate
    );
    assert_eq!(determine_next_step(idle, idle, false, false), NextStep::Keep);
    assert_eq!(
        determine_next_step(staged, staged, false, false),
        NextStep::Enter(rebooted)
    );
}
