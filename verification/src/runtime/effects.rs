//! Interpretation of the effects that the Target5 to Target10 flow returns.

use vstd::prelude::*;

use crate::flows::{effects_view, Target5ToTarget10Effect, Target5ToTarget10EffectView, Target5ToTarget10FlowError};
use crate::messages::{EthernetEnvelope, Target10Command, Target10CommandView};
use crate::ports::{MessagePublisher, TransportError};

verus! {

/// Commands queued by dispatching effects.
#[derive(Debug, Clone, PartialEq, Eq)]
pub struct EffectDispatchState {
    pub queued_commands: Vec<Target10Command>,
}

impl Default for EffectDispatchState {
    fn default() -> (r: Self)
        ensures
            r.queued_commands@.len() == 0,
    {
        EffectDispatchState { queued_commands: Vec::new() }
    }
}

/// The views of a sequence of commands.
pub open spec fn commands_view(v: Seq<Target10Command>) -> Seq<Target10CommandView> {
    v.map_values(|c: Target10Command| c@)
}

/// Why dispatching effects failed.
#[derive(Debug, Clone, PartialEq, Eq, Structural)]
pub enum EffectDispatchError {
    Transport(TransportError),
    Flow(Target5ToTarget10FlowError),
}

/// The commands that a sequence of effects queues, in order.
pub open spec fn queued_by(effects: Seq<Target5ToTarget10EffectView>) -> Seq<Target10CommandView>
    decreases effects.len(),
{
    if effects.len() == 0 {
        seq![]
    } else {
        let rest = queued_by(effects.drop_last());
        match effects.last() {
            Target5ToTarget10EffectView::QueueCommand(c) => rest.push(c),
            Target5ToTarget10EffectView::SendEthernet(_) => rest,
        }
    }
}

impl Target5ToTarget10Effect {
    /// A copy of the effect with the same value.
    pub fn duplicate(&self) -> (r: Target5ToTarget10Effect)
        ensures
            r@ == self@,
    {
        match self {
            Target5ToTarget10Effect::SendEthernet(e) => Target5ToTarget10Effect::SendEthernet(e.duplicate()),
            Target5ToTarget10Effect::QueueCommand(c) => Target5ToTarget10Effect::QueueCommand(c.duplicate()),
        }
    }
}

/// Performs the effects in order: a queued command is appended to the
/// dispatch state, an envelope is published on the transport. The first
/// transport failure stops the dispatch; the commands queued before it stay
/// queued.
pub fn dispatch_target5_to_target10_effects<T: MessagePublisher<Message = EthernetEnvelope>>(
    effects: Vec<Target5ToTarget10Effect>,
    transport: &T,
    dispatch_state: &mut EffectDispatchState,
) -> (r: Result<(), EffectDispatchError>)
    ensures
        ({
            let ev = effects_view(effects@);
            &&& r is Ok ==> commands_view(final(dispatch_state).queued_commands@) == commands_view(
                old(dispatch_state).queued_commands@,
            ) + queued_by(ev)
            &&& r is Err ==> (r matches Err(EffectDispatchError::Transport(_))) && exists|k: int|
                0 <= k < ev.len() && ev[k] is SendEthernet && commands_view(final(dispatch_state).queued_commands@)
                    == commands_view(old(dispatch_state).queued_commands@) + queued_by(#[trigger] ev.take(k))
        }),
{
    let ghost ev = effects_view(effects@);
    let ghost start = commands_view(dispatch_state.queued_commands@);
    let mut failure: Option<TransportError> = None;
    let mut i: usize = 0;
    while i < effects.len() && failure.is_none()
        invariant
            i <= effects@.len(),
            ev == effects_view(effects@),
            start == commands_view(old(dispatch_state).queued_commands@),
            commands_view(dispatch_state.queued_commands@) == start + queued_by(ev.take(i as int)),
            failure is Some ==> i < effects@.len() && ev[i as int] is SendEthernet,
        decreases effects@.len() - i + (if failure is None { 1int } else { 0int }),
    {
        let ghost before = dispatch_state.queued_commands@;
        assert(ev.take(i + 1).drop_last() =~= ev.take(i as int));
        let effect = effects[i].duplicate();
        assert(effect@ == ev[i as int]);
        match effect {
            Target5ToTarget10Effect::QueueCommand(command) => {
                dispatch_state.queued_commands.push(command);
                assert(commands_view(dispatch_state.queued_commands@) =~= commands_view(before).push(ev[i as int]->QueueCommand_0));
                i = i + 1;
            },
            Target5ToTarget10Effect::SendEthernet(envelope) => {
                match transport.publish(envelope) {
                    Ok(()) => {
                        i = i + 1;
                    },
                    Err(e) => {
                        failure = Some(e);
                    },
                }
            },
        }
    }
    match failure {
        Some(e) => Err(EffectDispatchError::Transport(e)),
        None => {
            assert(ev.take(effects@.len() as int) =~= ev);
            Ok(())
        },
    }
}

} // verus!
