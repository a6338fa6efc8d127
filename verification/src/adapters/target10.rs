//! Target10 hardware adapter; the hardware path is not implemented yet.

use vstd::prelude::*;

use crate::messages::Target10Command;
use crate::ports::{MessagePublisher, TransportError};

verus! {

#[derive(Debug, Clone, Copy, PartialEq, Eq, Structural)]
pub enum Target10InfraError {
    HardwarePathUnimplemented,
}

pub struct Target10Adapter;

impl Target10Adapter {
    pub fn new() -> (r: Self) {
        Target10Adapter
    }

    /// Sends a command to the hardware; always fails until the hardware path exists.
    pub fn send_command(&self, command: &Target10Command) -> (r: Result<(), Target10InfraError>)
        ensures
            r == Err::<(), Target10InfraError>(Target10InfraError::HardwarePathUnimplemented),
    {
        Err(Target10InfraError::HardwarePathUnimplemented)
    }
}

impl Default for Target10Adapter {
    fn default() -> (r: Self) {
        Self::new()
    }
}

impl MessagePublisher for Target10Adapter {
    type Message = Target10Command;

    /// Any hardware failure is reported as `Disconnected`.
    fn publish(&self, message: Target10Command) -> (r: Result<(), TransportError>)
        ensures
            r == Err::<(), TransportError>(TransportError::Disconnected),
    {
        match self.send_command(&message) {
            Ok(()) => Ok(()),
            Err(_) => Err(TransportError::Disconnected),
        }
    }
}

} // verus!
