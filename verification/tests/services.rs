use std::cell::RefCell;

use target_bridge::adapters::c_drivers::{command_packet, connect_outcome, status_from_packet, CDriverInfraError};
use target_bridge::adapters::commtype1::CommType1Adapter;
use target_bridge::adapters::ethernet::EthernetAdapterError;
use target_bridge::adapters::target10::{Target10Adapter, Target10InfraError};
use target_bridge::adapters::target5::{Target5Adapter, Target5InfraError};
use target_bridge::domain::{CoreError, InputFrame};
use target_bridge::flows::Target5ToTarget10Effect;
use target_bridge::messages::{EthernetEnvelope, EthernetPayload, MessageType, Target10Command, Target5Status};
use target_bridge::ports::{
    AlgorithmProvider, DataSource, DataSourceError, MessagePublisher, MessageSubscriber, ProviderError, TransportError,
};
use target_bridge::runtime::effects::{dispatch_target5_to_target10_effects, EffectDispatchError, EffectDispatchState};
use target_bridge::runtime::replay_host::{run_target5_to_target10_replay_flow, ReplayFlowError};
use target_bridge::scenario_runner::{commands_match, parse_cli, CliError};
use target_bridge::services::CoreService;

struct Reverse;

impl AlgorithmProvider for Reverse {
    type Input = InputFrame;
    type Output = Vec<u8>;

    fn compute(&self, input: InputFrame) -> Result<Vec<u8>, ProviderError> {
        if input.payload.len() > 3 {
            return Err(ProviderError::ComputeFailed);
        }
        Ok(input.payload.into_iter().rev().collect())
    }
}

fn frame(version: u16, sequence: u64, payload: Vec<u8>) -> InputFrame {
    InputFrame { protocol_version: version, sequence, message_type: MessageType::Target5Status, payload }
}

#[test]
fn core_service_validates_tracks_and_computes() {
    let mut service = CoreService::new(Reverse);
    assert_eq!(
        service.process(frame(2, 1, vec![1])),
        Err(CoreError::UnsupportedMessageVersion { found: 2, min: 1, max: 1 })
    );
    assert_eq!(service.process(frame(1, 1, vec![])), Err(CoreError::InvalidInput("payload cannot be empty")));
    let out = service.process(frame(1, 4, vec![1, 2, 3])).expect("processed");
    assert_eq!(out.payload, vec![3, 2, 1]);
    assert_eq!(out.sequence, 4);
    assert_eq!(
        service.process(frame(1, 4, vec![1])),
        Err(CoreError::InvalidStateTransition("sequence must strictly increase"))
    );
    assert_eq!(
        service.process(frame(1, 5, vec![1, 2, 3, 4])),
        Err(CoreError::AlgorithmFailed("provider compute failed"))
    );
    assert_eq!(service.state().processed_count, 2);
    assert_eq!(service.state().last_sequence, Some(5));
}

struct Recorder {
    sent: RefCell<Vec<EthernetEnvelope>>,
    fail_after: usize,
}

impl MessagePublisher for Recorder {
    type Message = EthernetEnvelope;

    fn publish(&self, message: EthernetEnvelope) -> Result<(), TransportError> {
        if self.sent.borrow().len() >= self.fail_after {
            return Err(TransportError::Disconnected);
        }
        self.sent.borrow_mut().push(message);
        Ok(())
    }
}

#[test]
fn dispatch_queues_commands_and_stops_at_transport_failure() {
    let command = Target10Command { command_id: 1, action: "arm".into(), priority: 1 };
    let envelope = EthernetEnvelope { protocol_version: 1, payload: EthernetPayload::Target10Command(command.clone()) };
    let effects = vec![
        Target5ToTarget10Effect::QueueCommand(command.clone()),
        Target5ToTarget10Effect::SendEthernet(envelope.clone()),
        Target5ToTarget10Effect::QueueCommand(command.clone()),
    ];
    let recorder = Recorder { sent: RefCell::new(vec![]), fail_after: 0 };
    let mut state = EffectDispatchState::default();
    let err = dispatch_target5_to_target10_effects(effects.clone(), &recorder, &mut state).expect_err("transport down");
    assert_eq!(err, EffectDispatchError::Transport(TransportError::Disconnected));
    assert_eq!(state.queued_commands, vec![command.clone()]);

    let recorder = Recorder { sent: RefCell::new(vec![]), fail_after: 10 };
    let mut state = EffectDispatchState::default();
    dispatch_target5_to_target10_effects(effects, &recorder, &mut state).expect("dispatched");
    assert_eq!(state.queued_commands.len(), 2);
    assert_eq!(recorder.sent.borrow().as_slice(), &[envelope]);
}

#[test]
fn replay_flow_emits_one_command_per_status() {
    let recorder = Recorder { sent: RefCell::new(vec![]), fail_after: 10 };
    let statuses = vec![
        Target5Status { device_id: 5, online: true, sequence: 1 },
        Target5Status { device_id: 10, online: false, sequence: 2 },
    ];
    let summary = run_target5_to_target10_replay_flow(statuses, &recorder).expect("replayed");
    assert_eq!(summary.commands_emitted, 2);
    assert_eq!(recorder.sent.borrow().len(), 2);

    let stale = vec![
        Target5Status { device_id: 5, online: true, sequence: 2 },
        Target5Status { device_id: 6, online: true, sequence: 2 },
    ];
    let err = run_target5_to_target10_replay_flow(stale, &recorder).expect_err("stale");
    assert!(matches!(err, ReplayFlowError::Flow(_)));
}

#[test]
fn hardware_adapters_report_unimplemented_paths() {
    let t5 = Target5Adapter::new();
    assert_eq!(t5.poll_hardware(), Err(Target5InfraError::HardwarePathUnimplemented));
    assert_eq!(t5.read(), Err(DataSourceError::Unavailable));
    let t10 = Target10Adapter::default();
    let cmd = Target10Command { command_id: 1, action: "arm".into(), priority: 1 };
    assert_eq!(t10.send_command(&cmd), Err(Target10InfraError::HardwarePathUnimplemented));
    assert_eq!(t10.publish(cmd), Err(TransportError::Disconnected));
    let c1 = CommType1Adapter::new();
    assert_eq!(c1.receive().err(), Some(TransportError::Timeout));
    assert_eq!(EthernetAdapterError::TransportDisconnected.to_transport_error(), TransportError::Disconnected);
}

#[test]
fn c_driver_packets_carry_command_bytes() {
    let cmd = Target10Command { command_id: 77, action: "standby".into(), priority: 5 };
    let packet = command_packet(&cmd).expect("fits");
    assert_eq!(packet.id, 77);
    assert_eq!(packet.len, 7);
    assert_eq!(&packet.data[..7], b"standby");
    assert!(packet.data[7..].iter().all(|b| *b == 0));
    let long = Target10Command { command_id: 1, action: "x".repeat(257), priority: 1 };
    assert_eq!(command_packet(&long).err(), Some(TransportError::InvalidPayload));
    assert_eq!(connect_outcome(-1), Err(CDriverInfraError::HardwareUnavailable));
    assert_eq!(
        status_from_packet(0, &packet),
        Ok(Target5Status { device_id: 77, online: true, sequence: 7 })
    );
}

#[test]
fn scenario_runner_cli_and_output_comparison() {
    let args = |v: &[&str]| v.iter().map(|s| s.to_string()).collect::<Vec<_>>();
    assert_eq!(parse_cli(args(&["runner"])), Err(CliError::MissingScenarioArg));
    assert_eq!(parse_cli(args(&["runner", "--scenario"])), Err(CliError::MissingScenarioArg));
    assert_eq!(parse_cli(args(&["runner", "--verbose"])), Err(CliError::UnknownArg("--verbose".into())));
    let cli = parse_cli(args(&["runner", "--scenario", "a.json", "--scenario", "b.json"])).expect("valid");
    assert_eq!(cli.scenario, "b.json");
    let a = vec![Target10Command { command_id: 1005, action: "arm".into(), priority: 1 }];
    let b = vec![Target10Command { command_id: 9999, action: "arm".into(), priority: 1 }];
    assert!(commands_match(&a, &a.clone()));
    assert!(!commands_match(&a, &b));
    assert!(!commands_match(&a, &vec![]));
}
