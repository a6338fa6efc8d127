//! Multi-step domain flows over mutable state. Flows return effect values
//! that outer layers interpret; they perform no I/O themselves.

use vstd::prelude::*;

use crate::algorithms::{
    map_target5_status_to_target10_command, spec_map_status, Target5ToTarget10Error,
};
use crate::messages::{
    EthernetEnvelope, EthernetEnvelopeView, EthernetPayload, EthernetPayloadView, Target10Command,
    Target10CommandView, Target5Status,
};
use crate::state::{Target10State, Target10StateView};

verus! {

/// The last status report a Target5 snapshot holds.
#[derive(Debug, Clone, PartialEq, Eq)]
pub struct Target5Snapshot {
    pub last_status: Option<Target5Status>,
}

impl Target5Snapshot {
    pub fn record(&mut self, status: &Target5Status)
        ensures
            final(self).last_status == Some(*status),
    {
        self.last_status = Some(*status);
    }
}

/// What the outer layers must do after the flow accepted a status.
#[derive(Debug, Clone, PartialEq, Eq)]
pub enum Target5ToTarget10Effect {
    SendEthernet(EthernetEnvelope),
    QueueCommand(Target10Command),
}

pub enum Target5ToTarget10EffectView {
    SendEthernet(EthernetEnvelopeView),
    QueueCommand(Target10CommandView),
}

impl View for Target5ToTarget10Effect {
    type V = Target5ToTarget10EffectView;

    open spec fn view(&self) -> Target5ToTarget10EffectView {
        match self {
            Target5ToTarget10Effect::SendEthernet(e) => Target5ToTarget10EffectView::SendEthernet(e@),
            Target5ToTarget10Effect::QueueCommand(c) => Target5ToTarget10EffectView::QueueCommand(c@),
        }
    }
}

/// Why the flow refused a status.
#[derive(Debug, Clone, PartialEq, Eq, Structural)]
pub enum Target5ToTarget10FlowError {
    InvalidSequence { received: u64, previous: Option<u64> },
    Mapping(Target5ToTarget10Error),
}

/// What one call of the flow does to the state: an accepted status is
/// recorded with its command and counted; a refused one changes nothing.
pub open spec fn flow_step(st: Target10StateView, status: Target5Status) -> Target10StateView {
    match spec_flow(st.last_seen_status, status) {
        Ok(c) => Target10StateView {
            last_seen_status: Some(status),
            last_command: Some(c),
            applied_events: (st.applied_events + 1) as u64,
        },
        Err(_) => st,
    }
}

/// The empty state that a run of the flow starts from.
pub open spec fn initial_flow_state() -> Target10StateView {
    Target10StateView { last_seen_status: None, last_command: None, applied_events: 0 }
}

/// The state after calling the flow on each status in order, from the
/// empty state.
pub open spec fn flow_run(statuses: Seq<Target5Status>) -> Target10StateView
    decreases statuses.len(),
{
    if statuses.len() == 0 {
        initial_flow_state()
    } else {
        flow_step(flow_run(statuses.drop_last()), statuses.last())
    }
}

/// The statuses that the flow accepted during a run, in order.
pub open spec fn flow_accepted(statuses: Seq<Target5Status>) -> Seq<Target5Status>
    decreases statuses.len(),
{
    if statuses.len() == 0 {
        Seq::empty()
    } else if spec_flow(flow_run(statuses.drop_last()).last_seen_status, statuses.last()) is Ok {
        flow_accepted(statuses.drop_last()).push(statuses.last())
    } else {
        flow_accepted(statuses.drop_last())
    }
}

/// Sequence number of the last status seen, if any.
pub open spec fn previous_sequence(last: Option<Target5Status>) -> Option<u64> {
    match last {
        Some(s) => Some(s.sequence),
        None => None,
    }
}

/// A status is in sequence when its sequence number is non-zero and above
/// that of the last status seen.
pub open spec fn spec_validate_sequence(last: Option<Target5Status>, status: Target5Status) -> Result<(), Target5ToTarget10FlowError> {
    if status.sequence == 0 {
        Err(Target5ToTarget10FlowError::InvalidSequence { received: status.sequence, previous: previous_sequence(last) })
    } else if last is Some && status.sequence <= last->0.sequence {
        Err(Target5ToTarget10FlowError::InvalidSequence { received: status.sequence, previous: Some(last->0.sequence) })
    } else {
        Ok(())
    }
}

/// The flow's verdict on a status: the command it maps to, or the refusal.
pub open spec fn spec_flow(last: Option<Target5Status>, status: Target5Status) -> Result<Target10CommandView, Target5ToTarget10FlowError> {
    match spec_validate_sequence(last, status) {
        Err(e) => Err(e),
        Ok(_) => match spec_map_status(status) {
            Ok(c) => Ok(c),
            Err(m) => Err(Target5ToTarget10FlowError::Mapping(m)),
        },
    }
}

/// The two effects of an accepted status: queue the command, then send it on
/// the Ethernet link in a version-1 envelope.
pub open spec fn spec_flow_effects(c: Target10CommandView) -> Seq<Target5ToTarget10EffectView> {
    seq![
        Target5ToTarget10EffectView::QueueCommand(c),
        Target5ToTarget10EffectView::SendEthernet(
            EthernetEnvelopeView { protocol_version: 1, payload: EthernetPayloadView::Target10Command(c) },
        ),
    ]
}

/// The views of a sequence of effects.
pub open spec fn effects_view(effects: Seq<Target5ToTarget10Effect>) -> Seq<Target5ToTarget10EffectView> {
    effects.map_values(|e: Target5ToTarget10Effect| e@)
}

fn validate_sequence(state: &Target10State, status: &Target5Status) -> (r: Result<(), Target5ToTarget10FlowError>)
    ensures
        r == spec_validate_sequence(state.last_seen_status, *status),
{
    if status.sequence == 0 {
        let previous = match &state.last_seen_status {
            Some(s) => Some(s.sequence),
            None => None,
        };
        return Err(Target5ToTarget10FlowError::InvalidSequence { received: status.sequence, previous });
    }
    if let Some(last) = &state.last_seen_status {
        if status.sequence <= last.sequence {
            return Err(Target5ToTarget10FlowError::InvalidSequence { received: status.sequence, previous: Some(last.sequence) });
        }
    }
    Ok(())
}

/// Accepts a Target5 status, maps it to a Target10 command, records both in
/// the state and returns the effects to perform. A refused status leaves the
/// state as it was.
pub fn run_target5_to_target10_flow(state: &mut Target10State, status: Target5Status) -> (r: Result<Vec<Target5ToTarget10Effect>, Target5ToTarget10FlowError>)
    requires
        spec_flow(old(state).last_seen_status, status) is Ok ==> old(state).applied_events < u64::MAX,
    ensures
        match spec_flow(old(state).last_seen_status, status) {
            Err(e) => r == Err::<Vec<Target5ToTarget10Effect>, Target5ToTarget10FlowError>(e) && *final(state) == *old(state),
            Ok(c) => r matches Ok(effects) && effects_view(effects@) == spec_flow_effects(c)
                && final(state).last_seen_status == Some(status) && final(state)@.last_command == Some(c)
                && final(state).applied_events == old(state).applied_events + 1,
        },
        final(state)@ == flow_step(old(state)@, status),
        status.sequence > 0 && (old(state).last_seen_status is None || status.sequence
            > old(state).last_seen_status->0.sequence) && (if status.online { 1000int } else { 2000int })
            + status.device_id <= u32::MAX ==> r is Ok && final(state).last_seen_status == Some(status)
            && final(state).applied_events == old(state).applied_events + 1,
{
    validate_sequence(state, &status)?;
    let command = match map_target5_status_to_target10_command(&status) {
        Ok(c) => c,
        Err(m) => return Err(Target5ToTarget10FlowError::Mapping(m)),
    };
    state.apply(status, command.duplicate());
    let envelope = EthernetEnvelope { protocol_version: 1, payload: EthernetPayload::Target10Command(command.duplicate()) };
    let mut effects: Vec<Target5ToTarget10Effect> = Vec::new();
    effects.push(Target5ToTarget10Effect::QueueCommand(command));
    effects.push(Target5ToTarget10Effect::SendEthernet(envelope));
    proof {
        assert(effects_view(effects@) =~= spec_flow_effects(spec_flow(old(state).last_seen_status, status)->Ok_0));
    }
    Ok(effects)
}

/// A status whose sequence number is not above that of the last accepted
/// status is refused, so the flow never accepts the same report twice.
pub proof fn lemma_flow_refuses_stale_status(accepted: Target5Status, later: Target5Status)
    requires
        later.sequence <= accepted.sequence,
    ensures
        spec_flow(Some(accepted), later) is Err,
        spec_flow(Some(accepted), later) matches Err(Target5ToTarget10FlowError::InvalidSequence { received, previous })
            && received == later.sequence && previous == Some(accepted.sequence),
{
}

/// Over any run of the flow from the empty state: the counter is the number
/// of accepted statuses, the last accepted status is the one the state
/// holds, accepted sequence numbers are non-zero and strictly increasing,
/// and a refused call leaves the state as it was.
pub proof fn lemma_flow_run(statuses: Seq<Target5Status>)
    requires
        statuses.len() < u64::MAX,
    ensures
        ({
            let st = flow_run(statuses);
            let acc = flow_accepted(statuses);
            &&& st.applied_events == acc.len()
            &&& st.last_seen_status == (if acc.len() == 0 { None } else { Some(acc.last()) })
            &&& forall|i: int| 0 <= i < acc.len() ==> #[trigger] acc[i].sequence > 0
            &&& forall|i: int, j: int| 0 <= i < j < acc.len() ==> #[trigger] acc[i].sequence < #[trigger] acc[j].sequence
            &&& acc.len() <= statuses.len()
        }),
        forall|k: int|
            0 <= k < statuses.len() && spec_flow(flow_run(statuses.take(k)).last_seen_status, statuses[k]) is Err
                ==> #[trigger] flow_run(statuses.take(k + 1)) == flow_run(statuses.take(k)),
    decreases statuses.len(),
{
    if statuses.len() > 0 {
        let prefix = statuses.drop_last();
        lemma_flow_run(prefix);
        let acc = flow_accepted(prefix);
        let st = flow_run(prefix);
        let s = statuses.last();
        if spec_flow(st.last_seen_status, s) is Ok {
            let acc2 = acc.push(s);
            assert forall|i: int, j: int| 0 <= i < j < acc2.len() implies #[trigger] acc2[i].sequence < #[trigger] acc2[j].sequence by {
                if j == acc2.len() - 1 {
                    if i < acc.len() - 1 {
                        assert(acc[i].sequence < acc[acc.len() - 1].sequence);
                    }
                } else {
                    assert(acc[i].sequence < acc[j].sequence);
                }
            }
            assert forall|i: int| 0 <= i < acc2.len() implies #[trigger] acc2[i].sequence > 0 by {
                if i < acc.len() {
                    assert(acc[i].sequence > 0);
                }
            }
        }
        assert forall|k: int|
            0 <= k < statuses.len() && spec_flow(flow_run(statuses.take(k)).last_seen_status, statuses[k]) is Err
                implies #[trigger] flow_run(statuses.take(k + 1)) == flow_run(statuses.take(k)) by {
            assert(statuses.take(k + 1).drop_last() =~= statuses.take(k));
            assert(statuses.take(k + 1).last() == statuses[k]);
        }
    }
}

/// A status whose sequence number is non-zero and above that of the last
/// status seen is accepted, whatever its device and online flag, as long as
/// its command id fits: the command is 1000 + device id, "arm", priority 1
/// for an online device and 2000 + device id, "standby", priority 5 for an
/// offline one.
pub proof fn lemma_flow_accepts_fresh_status(last: Option<Target5Status>, status: Target5Status)
    requires
        status.sequence > 0,
        last is None || status.sequence > last->0.sequence,
        (if status.online { 1000int } else { 2000int }) + status.device_id <= u32::MAX,
    ensures
        spec_flow(last, status) matches Ok(c) && c.command_id == (if status.online { 1000int } else { 2000int })
            + status.device_id && c.action == (if status.online { "arm"@ } else { "standby"@ }) && c.priority == (
        if status.online {
            1u8
        } else {
            5u8
        }),
{
}

/// The flow accepts a status only when its sequence number is non-zero and
/// above that of the last status seen.
pub proof fn lemma_flow_accepts_only_fresh_status(last: Option<Target5Status>, status: Target5Status)
    requires
        spec_flow(last, status) is Ok,
    ensures
        status.sequence > 0,
        last is None || status.sequence > last->0.sequence,
{
}

} // verus!
