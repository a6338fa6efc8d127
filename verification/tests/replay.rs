use target_bridge::adapters::windows_sim::manual_input::ManualInput;
use target_bridge::adapters::windows_sim::replay::{
    DeterministicReplay, ReplayEvent, ReplayEventKind, ReplayFrame, ReplayParseError, TimedReplayEvent,
};
use target_bridge::adapters::windows_sim::scenario::{ReplayScenario, ScenarioEventInput};
use target_bridge::adapters::windows_sim::sim_data_source::{SimAdapterError, SimDataSource};
use target_bridge::messages::{Target10Command, Target5Status};
use target_bridge::ports::DataSourceError;

/// Reads the JSON payloads of the replay fixtures.
fn decode(kind: ReplayEventKind, payload: String) -> Option<ReplayEvent> {
    let v: serde_json::Value = serde_json::from_str(&payload).ok()?;
    match kind {
        ReplayEventKind::Target5Status => Some(ReplayEvent::Target5Status(Target5Status {
            device_id: u32::try_from(v.get("device_id")?.as_u64()?).ok()?,
            online: v.get("online")?.as_bool()?,
            sequence: v.get("sequence")?.as_u64()?,
        })),
        ReplayEventKind::Target10Command => Some(ReplayEvent::Target10Command(Target10Command {
            command_id: u32::try_from(v.get("command_id")?.as_u64()?).ok()?,
            action: v.get("action")?.as_str()?.to_string(),
            priority: u8::try_from(v.get("priority")?.as_u64()?).ok()?,
        })),
    }
}

#[test]
fn replay_orders_by_sequence_deterministically() {
    let lines = vec![
        r#"30|target10_command|{"command_id":11,"action":"arm","priority":2}"#,
        r#"10|target5_status|{"device_id":5,"online":true,"sequence":1}"#,
        r#"20|target5_status|{"device_id":10,"online":true,"sequence":2}"#,
    ];

    let replay = DeterministicReplay::from_lines(lines, decode).expect("valid replay input");
    let events: Vec<_> = replay.collect_events();

    assert!(matches!(events[0], ReplayEvent::Target5Status(_)));
    assert!(matches!(events[1], ReplayEvent::Target5Status(_)));
    assert!(matches!(events[2], ReplayEvent::Target10Command(_)));
}

#[test]
fn equal_sequences_keep_input_order_and_blank_lines_are_skipped() {
    let lines = vec![
        r#"5|target5_status|{"device_id":1,"online":true,"sequence":1}"#,
        "   ",
        r#"+5|target5_status|{"device_id":2,"online":true,"sequence":2}"#,
        r#"3|target5_status|{"device_id":3,"online":false,"sequence":3}"#,
        "",
    ];
    let mut replay = DeterministicReplay::from_lines(lines, decode).expect("valid");
    let ids: Vec<u32> = std::iter::from_fn(|| replay.next_event())
        .map(|e| match e {
            ReplayEvent::Target5Status(s) => s.device_id,
            ReplayEvent::Target10Command(c) => c.command_id,
        })
        .collect();
    assert_eq!(ids, vec![3, 1, 2]);
    assert_eq!(replay.next_event(), None);
}

#[test]
fn malformed_lines_are_refused_with_typed_errors() {
    let cases = [
        ("x|target5_status|{}", ReplayParseError::InvalidSequence),
        ("18446744073709551616|target5_status|{}", ReplayParseError::InvalidSequence),
        ("12", ReplayParseError::InvalidFormat),
        ("12|target5_status", ReplayParseError::InvalidFormat),
        ("12|other|{}", ReplayParseError::InvalidFormat),
        ("12|target5_status|{\"device_id\":1}", ReplayParseError::InvalidPayload),
    ];
    for (line, expected) in cases {
        let err = DeterministicReplay::from_lines(vec![line], decode).expect_err(line);
        assert_eq!(err, expected, "{line}");
    }
    let frame = ReplayFrame::parse("18446744073709551615|target10_command|a|b").expect("frame");
    assert_eq!(frame.sequence, u64::MAX);
    assert_eq!(frame.kind, ReplayEventKind::Target10Command);
    assert_eq!(frame.payload, "a|b");
    let t = TimedReplayEvent::parse_line(r#"7|target5_status|{"device_id":9,"online":false,"sequence":4}"#, &decode)
        .expect("line");
    assert_eq!(t.sequence, 7);
    assert_eq!(t.event, ReplayEvent::Target5Status(Target5Status { device_id: 9, online: false, sequence: 4 }));
}

fn status_input(ts: u64, status: Result<Target5Status, String>) -> ScenarioEventInput {
    ScenarioEventInput {
        timestamp_ms: ts,
        kind: "target5_status".into(),
        as_status: status,
        as_command: Err("not a command".into()),
    }
}

#[test]
fn rejects_unknown_event_kind() {
    let input = ScenarioEventInput {
        timestamp_ms: 1000,
        kind: "unknown_kind".into(),
        as_status: Err("missing field `device_id`".into()),
        as_command: Err("missing field `command_id`".into()),
    };
    let err = ReplayScenario::from_event_inputs(vec![input]).expect_err("must fail for unknown kind");
    assert!(matches!(err, ReplayParseError::UnknownEventKind { .. }));
}

#[test]
fn rejects_missing_required_fields() {
    let input = status_input(1000, Err("missing field `sequence`".into()));
    let err = ReplayScenario::from_event_inputs(vec![input])
        .expect_err("must fail when required fields are missing");
    assert!(matches!(err, ReplayParseError::MissingRequiredField { .. }));
}

#[test]
fn rejects_invalid_event_order_and_malformed_fixture() {
    let ordered_bad = vec![
        status_input(2000, Ok(Target5Status { device_id: 5, online: true, sequence: 1 })),
        status_input(1000, Ok(Target5Status { device_id: 5, online: false, sequence: 2 })),
    ];
    let err2 = ReplayScenario::from_event_inputs(ordered_bad).expect_err("must fail on decreasing timestamp");
    assert!(matches!(err2, ReplayParseError::InvalidEventOrder { .. }));
    assert_eq!(err2, ReplayParseError::InvalidEventOrder { previous_timestamp_ms: 2000, current_timestamp_ms: 1000 });
}

#[test]
fn scenario_keeps_document_order_and_equal_timestamps() {
    let inputs = vec![
        status_input(1000, Ok(Target5Status { device_id: 5, online: true, sequence: 1 })),
        ScenarioEventInput {
            timestamp_ms: 1000,
            kind: "target10_command".into(),
            as_status: Err("missing field `device_id`".into()),
            as_command: Ok(Target10Command { command_id: 11, action: "arm".into(), priority: 2 }),
        },
    ];
    let scenario = ReplayScenario::from_event_inputs(inputs).expect("valid");
    assert_eq!(scenario.events.len(), 2);
    assert_eq!(scenario.events[0].sequence, 1000);
    assert!(matches!(scenario.events[1].event, ReplayEvent::Target10Command(_)));
}

#[test]
fn manual_input_and_sim_source_follow_their_mode() {
    let a = ReplayEvent::Target5Status(Target5Status { device_id: 1, online: true, sequence: 1 });
    let b = ReplayEvent::Target5Status(Target5Status { device_id: 2, online: true, sequence: 2 });
    let mut manual = ManualInput::new(vec![a.clone()]);
    manual.feed(b.clone());
    let mut source = SimDataSource::manual(manual);
    assert_eq!(source.read_event(), Ok(a));
    assert_eq!(source.read_event(), Ok(b));
    assert_eq!(source.read_event(), Err(SimAdapterError::Timeout));

    let mut replay = SimDataSource::replay(DeterministicReplay::from_events(vec![]));
    assert_eq!(replay.read_event(), Err(SimAdapterError::Exhausted));
    let mut net = SimDataSource::local_network_bind();
    assert_eq!(net.read_event(), Err(SimAdapterError::TransportDisconnected));
    assert_eq!(SimAdapterError::Exhausted.to_data_source_error(), DataSourceError::NotFound);
    assert_eq!(SimAdapterError::Timeout.to_data_source_error(), DataSourceError::Unavailable);
}

#[test]
fn manual_input_hands_out_queued_then_fed_events_in_order() {
    let a = ReplayEvent::Target5Status(Target5Status { device_id: 1, online: true, sequence: 1 });
    let b = ReplayEvent::Target5Status(Target5Status { device_id: 2, online: false, sequence: 2 });
    let c = ReplayEvent::Target10Command(Target10Command { command_id: 3, action: "arm".into(), priority: 1 });
    let mut input = ManualInput::new(vec![a.clone()]);
    input.feed(b.clone());
    assert_eq!(input.next_event(), Some(a));
    input.feed(c.clone());
    assert_eq!(input.next_event(), Some(b));
    assert_eq!(input.next_event(), Some(c));
    assert_eq!(input.next_event(), None);
    assert_eq!(input.next_event(), None);
}
