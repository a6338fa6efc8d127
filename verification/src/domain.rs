//! Frames handled by the core service and the core error type.

use vstd::prelude::*;

use crate::messages::MessageType;

verus! {

pub fn crate_name() -> (r: &'static str)
    ensures
        r@ == "core"@,
{
    proof {
        reveal_strlit("core");
    }
    "core"
}

/// A frame entering the core service.
#[derive(Debug, Clone, PartialEq, Eq)]
pub struct InputFrame {
    pub protocol_version: u16,
    pub sequence: u64,
    pub message_type: MessageType,
    pub payload: Vec<u8>,
}

/// A frame produced by the core service.
#[derive(Debug, Clone, PartialEq, Eq)]
pub struct OutputFrame {
    pub protocol_version: u16,
    pub sequence: u64,
    pub message_type: MessageType,
    pub payload: Vec<u8>,
}

impl InputFrame {
    /// A copy of the frame with the same header and payload bytes.
    pub fn duplicate(&self) -> (r: InputFrame)
        ensures
            r.protocol_version == self.protocol_version,
            r.sequence == self.sequence,
            r.message_type == self.message_type,
            r.payload@ == self.payload@,
    {
        InputFrame {
            protocol_version: self.protocol_version,
            sequence: self.sequence,
            message_type: self.message_type,
            payload: self.payload.clone(),
        }
    }
}

/// Errors surfaced by core processing.
#[derive(Debug, Clone, Copy, PartialEq, Eq)]
pub enum CoreError {
    InvalidInput(&'static str),
    InvalidStateTransition(&'static str),
    ValidationFailed(&'static str),
    AlgorithmFailed(&'static str),
    UnsupportedMessageVersion { found: u16, min: u16, max: u16 },
}

} // verus!
