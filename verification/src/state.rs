//! Domain decision state owned by the core.

use vstd::prelude::*;

use crate::domain::{CoreError, InputFrame};
use crate::messages::{Target10Command, Target10CommandView, Target5Status};

verus! {

/// Counts the status/command pairs that have been linked.
#[derive(Debug, Clone, PartialEq, Eq)]
pub struct LinkState {
    pub linked_pairs: u64,
}

impl Default for LinkState {
    fn default() -> (r: Self)
        ensures
            r.linked_pairs == 0,
    {
        LinkState { linked_pairs: 0 }
    }
}

impl LinkState {
    pub fn record_linked_pair(&mut self)
        requires
            old(self).linked_pairs < u64::MAX,
        ensures
            final(self).linked_pairs == old(self).linked_pairs + 1,
    {
        self.linked_pairs = self.linked_pairs + 1;
    }
}

/// Processing state of the core service: frames must arrive with strictly
/// increasing sequence numbers.
#[derive(Debug, Clone, PartialEq, Eq)]
pub struct CoreProcessingState {
    pub initialized: bool,
    pub last_sequence: Option<u64>,
    pub processed_count: u64,
}

impl Default for CoreProcessingState {
    fn default() -> (r: Self)
        ensures
            r.initialized,
            r.last_sequence is None,
            r.processed_count == 0,
    {
        CoreProcessingState { initialized: true, last_sequence: None, processed_count: 0 }
    }
}

/// A sequence number is acceptable when it is greater than the last one seen.
pub open spec fn sequence_accepted(last: Option<u64>, sequence: u64) -> bool {
    match last {
        Some(previous) => sequence > previous,
        None => true,
    }
}

/// The verdict on a frame, before any state changes.
pub open spec fn spec_frame_verdict(s: CoreProcessingState, frame_sequence: u64, payload_empty: bool) -> Result<(), CoreError> {
    if !s.initialized {
        Err(CoreError::InvalidStateTransition("state not initialized"))
    } else if payload_empty {
        Err(CoreError::InvalidInput("payload cannot be empty"))
    } else if !sequence_accepted(s.last_sequence, frame_sequence) {
        Err(CoreError::InvalidStateTransition("sequence must strictly increase"))
    } else {
        Ok(())
    }
}

impl CoreProcessingState {
    /// Records one processed frame: the state must be initialized, the payload
    /// non-empty and the sequence strictly above the last one. On success the
    /// sequence becomes the last one and the count grows by one; on an error
    /// nothing changes.
    pub fn record_processed_frame(&mut self, frame: &InputFrame) -> (r: Result<(), CoreError>)
        requires
            spec_frame_verdict(*old(self), frame.sequence, frame.payload@.len() == 0) is Ok
                ==> old(self).processed_count < u64::MAX,
        ensures
            r == spec_frame_verdict(*old(self), frame.sequence, frame.payload@.len() == 0),
            r is Ok ==> final(self).last_sequence == Some(frame.sequence)
                && final(self).processed_count == old(self).processed_count + 1
                && final(self).initialized == old(self).initialized,
            r is Err ==> *final(self) == *old(self),
    {
        if !self.initialized {
            return Err(CoreError::InvalidStateTransition("state not initialized"));
        }
        if frame.payload.len() == 0 {
            return Err(CoreError::InvalidInput("payload cannot be empty"));
        }
        self.track_sequence(frame.sequence)?;
        self.processed_count = self.processed_count + 1;
        Ok(())
    }

    /// Accepts a sequence number only if it is strictly above the last one.
    pub fn track_sequence(&mut self, sequence: u64) -> (r: Result<(), CoreError>)
        ensures
            sequence_accepted(old(self).last_sequence, sequence) ==> r is Ok && final(self).last_sequence
                == Some(sequence) && final(self).initialized == old(self).initialized
                && final(self).processed_count == old(self).processed_count,
            !sequence_accepted(old(self).last_sequence, sequence) ==> r == Err::<(), CoreError>(
                CoreError::InvalidStateTransition("sequence must strictly increase"),
            ) && *final(self) == *old(self),
    {
        if let Some(previous) = self.last_sequence {
            if sequence <= previous {
                return Err(CoreError::InvalidStateTransition("sequence must strictly increase"));
            }
        }
        self.last_sequence = Some(sequence);
        Ok(())
    }
}

/// Once a sequence number has been tracked, it and every smaller one are refused.
pub proof fn lemma_tracked_sequence_not_replayed(sequence: u64, later: u64)
    requires
        later <= sequence,
    ensures
        !sequence_accepted(Some(sequence), later),
{
}

/// Status reports received from the Target5 side.
#[derive(Debug, Clone, PartialEq, Eq)]
pub struct Target5State {
    pub last_status: Option<Target5Status>,
    pub received_events: u64,
}

impl Default for Target5State {
    fn default() -> (r: Self)
        ensures
            r.last_status is None,
            r.received_events == 0,
    {
        Target5State { last_status: None, received_events: 0 }
    }
}

impl Target5State {
    pub fn record_status(&mut self, status: Target5Status)
        requires
            old(self).received_events < u64::MAX,
        ensures
            final(self).last_status == Some(status),
            final(self).received_events == old(self).received_events + 1,
    {
        self.last_status = Some(status);
        self.received_events = self.received_events + 1;
    }
}

/// What the Target10 side has seen and been sent.
#[derive(Debug, Clone, PartialEq, Eq)]
pub struct Target10State {
    pub last_seen_status: Option<Target5Status>,
    pub last_command: Option<Target10Command>,
    pub applied_events: u64,
}

pub struct Target10StateView {
    pub last_seen_status: Option<Target5Status>,
    pub last_command: Option<Target10CommandView>,
    pub applied_events: u64,
}

impl View for Target10State {
    type V = Target10StateView;

    open spec fn view(&self) -> Target10StateView {
        Target10StateView {
            last_seen_status: self.last_seen_status,
            last_command: match self.last_command {
                Some(c) => Some(c@),
                None => None,
            },
            applied_events: self.applied_events,
        }
    }
}

impl Default for Target10State {
    /// The empty state: nothing seen, nothing sent.
    fn default() -> (r: Self)
        ensures
            r.last_seen_status is None,
            r.last_command is None,
            r.applied_events == 0,
    {
        Target10State { last_seen_status: None, last_command: None, applied_events: 0 }
    }
}

impl Target10State {
    pub fn apply(&mut self, status: Target5Status, command: Target10Command)
        requires
            old(self).applied_events < u64::MAX,
        ensures
            final(self).last_seen_status == Some(status),
            final(self)@.last_command == Some(command@),
            final(self).applied_events == old(self).applied_events + 1,
    {
        self.last_seen_status = Some(status);
        self.last_command = Some(command);
        self.applied_events = self.applied_events + 1;
    }
}

} // verus!
