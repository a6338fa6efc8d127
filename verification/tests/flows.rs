use target_bridge::algorithms::Target5ToTarget10Error;
use target_bridge::flows::{
    run_target5_to_target10_flow, Target5Snapshot, Target5ToTarget10Effect, Target5ToTarget10FlowError,
};
use target_bridge::messages::{EthernetPayload, Target5Status};
use target_bridge::state::{LinkState, Target10State, Target5State};

#[test]
fn flow_updates_state_and_returns_queue_and_ethernet_effects() {
    let mut state = Target10State::default();
    let status = Target5Status { device_id: 7, online: true, sequence: 3 };

    let effects = run_target5_to_target10_flow(&mut state, status.clone()).expect("flow succeeds");

    assert_eq!(effects.len(), 2);
    assert_eq!(state.last_seen_status, Some(status));
    assert_eq!(state.applied_events, 1);
    assert!(matches!(
        &effects[0],
        Target5ToTarget10Effect::QueueCommand(command) if command.command_id == 1007
    ));
    assert!(matches!(&effects[1], Target5ToTarget10Effect::SendEthernet(_)));
}

#[test]
fn flow_surfaces_typed_mapping_error() {
    let mut state = Target10State::default();
    let status = Target5Status { device_id: u32::MAX, online: true, sequence: 42 };

    let err = run_target5_to_target10_flow(&mut state, status).expect_err("overflow expected");

    assert_eq!(
        err,
        Target5ToTarget10FlowError::Mapping(Target5ToTarget10Error::CommandIdOverflow { device_id: u32::MAX, online: true })
    );
}

#[test]
fn flow_rejects_zero_and_stale_sequences_without_changing_state() {
    let mut state = Target10State::default();
    let zero = Target5Status { device_id: 1, online: true, sequence: 0 };
    assert_eq!(
        run_target5_to_target10_flow(&mut state, zero).expect_err("zero sequence"),
        Target5ToTarget10FlowError::InvalidSequence { received: 0, previous: None }
    );
    assert_eq!(state, Target10State::default());

    let first = Target5Status { device_id: 1, online: false, sequence: 5 };
    let effects = run_target5_to_target10_flow(&mut state, first).expect("first accepted");
    match &effects[1] {
        Target5ToTarget10Effect::SendEthernet(envelope) => {
            assert_eq!(envelope.protocol_version, 1);
            match &envelope.payload {
                EthernetPayload::Target10Command(c) => {
                    assert_eq!(c.command_id, 2001);
                    assert_eq!(c.action, "standby");
                    assert_eq!(c.priority, 5);
                }
                other => panic!("unexpected payload {other:?}"),
            }
        }
        other => panic!("unexpected effect {other:?}"),
    }
    let snapshot = state.clone();

    let replay = Target5Status { device_id: 1, online: false, sequence: 5 };
    assert_eq!(
        run_target5_to_target10_flow(&mut state, replay).expect_err("replayed sequence"),
        Target5ToTarget10FlowError::InvalidSequence { received: 5, previous: Some(5) }
    );
    let older = Target5Status { device_id: 1, online: false, sequence: 4 };
    assert_eq!(
        run_target5_to_target10_flow(&mut state, older).expect_err("older sequence"),
        Target5ToTarget10FlowError::InvalidSequence { received: 4, previous: Some(5) }
    );
    let zero_again = Target5Status { device_id: 1, online: false, sequence: 0 };
    assert_eq!(
        run_target5_to_target10_flow(&mut state, zero_again).expect_err("zero after first"),
        Target5ToTarget10FlowError::InvalidSequence { received: 0, previous: Some(5) }
    );
    assert_eq!(state, snapshot);
    assert_eq!(state.applied_events, 1);
}

#[test]
fn small_state_records_count_events() {
    let mut snapshot = Target5Snapshot { last_status: None };
    let status = Target5Status { device_id: 3, online: true, sequence: 9 };
    snapshot.record(&status);
    assert_eq!(snapshot.last_status, Some(status));

    let mut t5 = Target5State::default();
    t5.record_status(status);
    t5.record_status(status);
    assert_eq!(t5.received_events, 2);
    assert_eq!(t5.last_status, Some(status));

    let mut link = LinkState::default();
    link.record_linked_pair();
    assert_eq!(link.linked_pairs, 1);
}

#[test]
fn a_run_of_the_flow_counts_accepted_statuses_and_ignores_refused_ones() {
    let mut state = Target10State::default();
    let statuses = [
        Target5Status { device_id: 1, online: true, sequence: 2 },
        Target5Status { device_id: 1, online: true, sequence: 2 },
        Target5Status { device_id: 2, online: false, sequence: 0 },
        Target5Status { device_id: u32::MAX, online: true, sequence: 9 },
        Target5Status { device_id: 3, online: false, sequence: 5 },
    ];
    let mut accepted = Vec::new();
    for status in statuses {
        let before = state.clone();
        match run_target5_to_target10_flow(&mut state, status) {
            Ok(_) => accepted.push(status),
            Err(_) => assert_eq!(state, before),
        }
        assert_eq!(state.applied_events, accepted.len() as u64);
    }
    assert_eq!(accepted.iter().map(|s| s.sequence).collect::<Vec<_>>(), vec![2, 5]);
    assert_eq!(state.last_seen_status, accepted.last().copied());
}
