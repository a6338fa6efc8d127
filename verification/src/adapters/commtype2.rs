//! CommType2 transport adapter; the hardware path is not implemented yet.

use vstd::prelude::*;

use crate::messages::EthernetEnvelope;
use crate::ports::{CommType2Transport, MessagePublisher, MessageSubscriber, TransportError};

verus! {

#[derive(Debug, Clone, Copy, PartialEq, Eq, Structural)]
pub enum CommType2InfraError {
    HardwarePathUnimplemented,
}

pub struct CommType2Adapter;

impl CommType2Adapter {
    pub fn new() -> (r: Self) {
        CommType2Adapter
    }
}

impl Default for CommType2Adapter {
    fn default() -> (r: Self) {
        Self::new()
    }
}

impl MessagePublisher for CommType2Adapter {
    type Message = EthernetEnvelope;

    /// Publishing fails: the link is never connected.
    fn publish(&self, message: EthernetEnvelope) -> (r: Result<(), TransportError>)
        ensures
            r == Err::<(), TransportError>(TransportError::Disconnected),
    {
        Err(TransportError::Disconnected)
    }
}

impl MessageSubscriber for CommType2Adapter {
    type Message = EthernetEnvelope;

    /// Receiving times out: nothing ever arrives.
    fn receive(&self) -> (r: Result<EthernetEnvelope, TransportError>)
        ensures
            r matches Err(e) && e == TransportError::Timeout,
    {
        Err(TransportError::Timeout)
    }
}

impl CommType2Transport for CommType2Adapter {}

} // verus!
