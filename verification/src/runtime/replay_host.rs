//! Replays a sequence of Target5 statuses through the Target5 to Target10
//! flow and dispatches the effects.

use vstd::prelude::*;

use crate::algorithms::{
    map_target5_status_to_target10_command, spec_map_status, Target5ToTarget10Error,
};
use crate::flows::{run_target5_to_target10_flow, spec_flow, Target5ToTarget10FlowError};
use crate::messages::{EthernetEnvelope, Target10Command, Target5Status};
use crate::ports::{MessagePublisher, TransportError};
use crate::runtime::effects::{dispatch_target5_to_target10_effects, EffectDispatchError, EffectDispatchState};
use crate::state::Target10State;

verus! {

/// How many commands a replay emitted.
#[derive(Debug, Clone, Copy, PartialEq, Eq, Structural)]
pub struct ReplayFlowSummary {
    pub commands_emitted: u64,
}

/// Why a replay stopped.
#[derive(Debug, Clone, PartialEq, Eq, Structural)]
pub enum ReplayFlowError {
    Flow(Target5ToTarget10FlowError),
    Transport(TransportError),
}

/// The status accepted just before position `k` of a replay, if any.
pub open spec fn prev_status(statuses: Seq<Target5Status>, k: int) -> Option<Target5Status> {
    if k <= 0 {
        None
    } else {
        Some(statuses[k - 1])
    }
}

/// The flow accepts each of the first `n` statuses of a replay.
pub open spec fn flow_accepts_prefix(statuses: Seq<Target5Status>, n: int) -> bool {
    forall|k: int| 0 <= k < n ==> #[trigger] spec_flow(prev_status(statuses, k), statuses[k]) is Ok
}

/// Runs each status through the flow, starting from an empty state, and
/// dispatches its effects. The first status the flow refuses stops the replay
/// with the flow's error; a transport failure stops it too. A replay that
/// completes has emitted one command per status.
pub fn run_target5_to_target10_replay_flow<T: MessagePublisher<Message = EthernetEnvelope>>(
    statuses: Vec<Target5Status>,
    transport: &T,
) -> (r: Result<ReplayFlowSummary, ReplayFlowError>)
    ensures
        r matches Ok(s) ==> s.commands_emitted == statuses@.len() && flow_accepts_prefix(statuses@, statuses@.len() as int),
        r matches Err(ReplayFlowError::Flow(e)) ==> exists|k: int|
            0 <= k < statuses@.len() && flow_accepts_prefix(statuses@, k) && #[trigger] spec_flow(prev_status(statuses@, k), statuses@[k])
                == Err::<crate::messages::Target10CommandView, Target5ToTarget10FlowError>(e),
        r matches Err(ReplayFlowError::Transport(_)) ==> exists|k: int|
            0 <= k < statuses@.len() && #[trigger] flow_accepts_prefix(statuses@, k + 1),
{
    let mut commands_emitted: u64 = 0;
    let mut flow_state = Target10State::default();
    let mut dispatch_state = EffectDispatchState::default();
    let mut i: usize = 0;
    while i < statuses.len()
        invariant
            i <= statuses@.len(),
            flow_accepts_prefix(statuses@, i as int),
            flow_state.last_seen_status == prev_status(statuses@, i as int),
            flow_state.applied_events == i,
            commands_emitted == i,
        decreases statuses@.len() - i,
    {
        let status = statuses[i];
        let effects = match run_target5_to_target10_flow(&mut flow_state, status) {
            Ok(effects) => effects,
            Err(e) => {
                assert(spec_flow(prev_status(statuses@, i as int), statuses@[i as int]) == Err::<
                    crate::messages::Target10CommandView,
                    Target5ToTarget10FlowError,
                >(e));
                return Err(ReplayFlowError::Flow(e));
            },
        };
        assert(flow_accepts_prefix(statuses@, i + 1));
        match dispatch_target5_to_target10_effects(effects, transport, &mut dispatch_state) {
            Ok(()) => {},
            Err(EffectDispatchError::Transport(t)) => {
                assert(flow_accepts_prefix(statuses@, i + 1));
                return Err(ReplayFlowError::Transport(t));
            },
            Err(EffectDispatchError::Flow(f)) => {
                return Err(ReplayFlowError::Flow(f));
            },
        }
        commands_emitted = commands_emitted + 1;
        i = i + 1;
    }
    Ok(ReplayFlowSummary { commands_emitted })
}

/// Every status of a sequence maps to a command.
pub open spec fn all_map(statuses: Seq<Target5Status>, n: int) -> bool {
    forall|k: int| 0 <= k < n ==> #[trigger] spec_map_status(statuses[k]) is Ok
}

/// Maps each status to its command; the first status that cannot be mapped
/// makes the whole mapping fail with its error.
pub fn map_target5_statuses_to_target10_commands(statuses: Vec<Target5Status>) -> (r: Result<Vec<Target10Command>, Target5ToTarget10Error>)
    ensures
        r matches Ok(commands) ==> all_map(statuses@, statuses@.len() as int) && commands@.len() == statuses@.len()
            && forall|k: int| 0 <= k < statuses@.len() ==> spec_map_status(statuses@[k]) == Ok::<
                crate::messages::Target10CommandView,
                Target5ToTarget10Error,
            >(#[trigger] commands@[k]@),
        r matches Err(e) ==> exists|k: int|
            0 <= k < statuses@.len() && all_map(statuses@, k) && #[trigger] spec_map_status(statuses@[k]) == Err::<
                crate::messages::Target10CommandView,
                Target5ToTarget10Error,
            >(e),
{
    let mut commands: Vec<Target10Command> = Vec::new();
    let mut i: usize = 0;
    while i < statuses.len()
        invariant
            i <= statuses@.len(),
            all_map(statuses@, i as int),
            commands@.len() == i,
            forall|k: int| 0 <= k < i ==> spec_map_status(statuses@[k]) == Ok::<
                crate::messages::Target10CommandView,
                Target5ToTarget10Error,
            >(#[trigger] commands@[k]@),
        decreases statuses@.len() - i,
    {
        match map_target5_status_to_target10_command(&statuses[i]) {
            Ok(c) => {
                commands.push(c);
            },
            Err(e) => {
                assert(spec_map_status(statuses@[i as int]) == Err::<crate::messages::Target10CommandView, Target5ToTarget10Error>(e));
                return Err(e);
            },
        }
        i = i + 1;
    }
    Ok(commands)
}

} // verus!

verus! {

/// In a replay the flow accepts, sequence numbers are non-zero and strictly
/// increasing: the same report is never accepted twice.
pub proof fn lemma_accepted_replay_is_increasing(statuses: Seq<Target5Status>, n: int)
    requires
        0 <= n <= statuses.len(),
        flow_accepts_prefix(statuses, n),
    ensures
        forall|k: int| 0 <= k < n ==> #[trigger] statuses[k].sequence > 0,
        forall|j: int, k: int| 0 <= j < k < n ==> #[trigger] statuses[j].sequence < #[trigger] statuses[k].sequence,
    decreases n,
{
    if n > 0 {
        lemma_accepted_replay_is_increasing(statuses, n - 1);
        assert(spec_flow(prev_status(statuses, n - 1), statuses[n - 1]) is Ok);
        assert forall|j: int, k: int| 0 <= j < k < n implies #[trigger] statuses[j].sequence < #[trigger] statuses[k].sequence by {
            if k == n - 1 && j < n - 2 {
                assert(statuses[j].sequence < statuses[n - 2].sequence);
            }
        }
    }
}

} // verus!
