use target_bridge::algorithms::{map_target5_status_to_target10_command, Target5ToTarget10Error};
use target_bridge::messages::{Target10Command, Target5Status};
use target_bridge::runtime::replay_host::map_target5_statuses_to_target10_commands;
use target_bridge::scenario_runner::{run_scenario, ExpectedOutput, RunnerEvent, ScenarioRunError};

#[test]
fn maps_online_status_to_arm_command() {
    let status = Target5Status { device_id: 5, online: true, sequence: 1 };
    let command = map_target5_status_to_target10_command(&status).expect("mapping succeeds");
    assert_eq!(command, Target10Command { command_id: 1005, action: "arm".to_string(), priority: 1 });
}

#[test]
fn maps_offline_status_to_standby_command() {
    let status = Target5Status { device_id: 10, online: false, sequence: 2 };
    let command = map_target5_status_to_target10_command(&status).expect("mapping succeeds");
    assert_eq!(command, Target10Command { command_id: 2010, action: "standby".to_string(), priority: 5 });
}

#[test]
fn maps_edge_device_ids_without_overflow() {
    let min = Target5Status { device_id: 0, online: true, sequence: 1 };
    let max_safe = Target5Status { device_id: u32::MAX - 2000, online: false, sequence: 2 };
    let min_command = map_target5_status_to_target10_command(&min).expect("min maps");
    let max_command = map_target5_status_to_target10_command(&max_safe).expect("max maps");
    assert_eq!(min_command.command_id, 1000);
    assert_eq!(max_command.command_id, u32::MAX);
}

#[test]
fn returns_explicit_error_for_command_id_overflow() {
    let status = Target5Status { device_id: u32::MAX, online: true, sequence: 99 };
    let err = map_target5_status_to_target10_command(&status).expect_err("overflow expected");
    assert_eq!(err, Target5ToTarget10Error::CommandIdOverflow { device_id: u32::MAX, online: true });
}

#[test]
fn offline_overflow_starts_one_past_the_largest_safe_id() {
    let status = Target5Status { device_id: u32::MAX - 1999, online: false, sequence: 3 };
    let err = map_target5_status_to_target10_command(&status).expect_err("overflow expected");
    assert_eq!(err, Target5ToTarget10Error::CommandIdOverflow { device_id: u32::MAX - 1999, online: false });
    let online = Target5Status { device_id: u32::MAX - 1000, online: true, sequence: 3 };
    assert_eq!(map_target5_status_to_target10_command(&online).expect("fits").command_id, u32::MAX);
}

#[test]
fn maps_target5_statuses_via_core_production_mapping() {
    let statuses = [
        Target5Status { device_id: 5, online: true, sequence: 1 },
        Target5Status { device_id: 10, online: false, sequence: 2 },
    ];
    let commands: Vec<_> = statuses
        .iter()
        .map(|status| map_target5_status_to_target10_command(status).expect("valid mapped command"))
        .collect();
    assert_eq!(commands[0].action, "arm");
    assert_eq!(commands[0].command_id, 1005);
    assert_eq!(commands[1].action, "standby");
    assert_eq!(commands[1].command_id, 2010);
}

#[test]
fn batch_mapping_stops_at_first_overflow() {
    let statuses = vec![
        Target5Status { device_id: 1, online: true, sequence: 1 },
        Target5Status { device_id: u32::MAX, online: false, sequence: 2 },
        Target5Status { device_id: u32::MAX, online: true, sequence: 3 },
    ];
    let err = map_target5_statuses_to_target10_commands(statuses).expect_err("second status overflows");
    assert_eq!(err, Target5ToTarget10Error::CommandIdOverflow { device_id: u32::MAX, online: false });

    let ok = map_target5_statuses_to_target10_commands(vec![
        Target5Status { device_id: 7, online: true, sequence: 1 },
        Target5Status { device_id: 8, online: false, sequence: 2 },
    ])
    .expect("both map");
    assert_eq!(ok.len(), 2);
    assert_eq!(ok[0].command_id, 1007);
    assert_eq!(ok[1].command_id, 2008);
    assert_eq!(ok[1].action, "standby");
}

fn status_event(device_id: u32, online: bool) -> RunnerEvent {
    RunnerEvent { kind: "target5_status".into(), payload: Ok(Target5Status { device_id, online, sequence: 1 }) }
}

fn expected(command_id: u32, action: &str, priority: u8) -> ExpectedOutput {
    ExpectedOutput {
        kind: "target10_command".into(),
        payload: Target10Command { command_id, action: action.into(), priority },
    }
}

#[test]
fn scenario_run_passes_when_outputs_match() {
    let events = vec![status_event(5, true), status_event(10, false)];
    let outputs = vec![expected(1005, "arm", 1), expected(2010, "standby", 5)];
    let actual = run_scenario(&events, &outputs).expect("scenario passes");
    assert_eq!(actual.len(), 2);
    assert_eq!(actual[1].command_id, 2010);
}

#[test]
fn scenario_run_reports_the_first_failure_in_order() {
    let events = vec![
        status_event(5, true),
        RunnerEvent { kind: "other".into(), payload: Err("unread".into()) },
        status_event(u32::MAX, true),
    ];
    let outputs = vec![ExpectedOutput { kind: "bogus".into(), payload: Target10Command { command_id: 0, action: String::new(), priority: 0 } }];
    assert_eq!(
        run_scenario(&events, &outputs),
        Err(ScenarioRunError::UnexpectedEventKind { kind: "other".into() })
    );
    let events = vec![RunnerEvent { kind: "target5_status".into(), payload: Err("missing field".into()) }];
    assert_eq!(
        run_scenario(&events, &outputs),
        Err(ScenarioRunError::InvalidPayload { message: "missing field".into() })
    );
    let events = vec![status_event(u32::MAX, false)];
    assert_eq!(
        run_scenario(&events, &outputs),
        Err(ScenarioRunError::Mapping(Target5ToTarget10Error::CommandIdOverflow { device_id: u32::MAX, online: false }))
    );
    let events = vec![status_event(5, true)];
    assert_eq!(
        run_scenario(&events, &outputs),
        Err(ScenarioRunError::UnexpectedExpectedKind { kind: "bogus".into() })
    );
    let outputs = vec![expected(1006, "arm", 1)];
    assert_eq!(
        run_scenario(&events, &outputs),
        Err(ScenarioRunError::Mismatch {
            expected: vec![Target10Command { command_id: 1006, action: "arm".into(), priority: 1 }],
            actual: vec![Target10Command { command_id: 1005, action: "arm".into(), priority: 1 }],
        })
    );
}
