//! CommType1 transport adapter; the hardware path is not implemented yet.

use vstd::prelude::*;

use crate::messages::EthernetEnvelope;
use crate::ports::{CommType1Transport, MessagePublisher, MessageSubscriber, TransportError};

verus! {

#[derive(Debug, Clone, Copy, PartialEq, Eq, Structural)]
pub enum CommType1InfraError {
    HardwarePathUnimplemented,
}

pub struct CommType1Adapter;

impl CommType1Adapter {
    pub fn new() -> (r: Self) {
        CommType1Adapter
    }
}

impl Default for CommType1Adapter {
    fn default() -> (r: Self) {
        Self::new()
    }
}

impl MessagePublisher for CommType1Adapter {
    type Message = EthernetEnvelope;

    /// Publishing fails: the link is never connected.
    fn publish(&self, message: EthernetEnvelope) -> (r: Result<(), TransportError>)
        ensures
            r == Err::<(), TransportError>(TransportError::Disconnected),
    {
        Err(TransportError::Disconnected)
    }
}

impl MessageSubscriber for CommType1Adapter {
    type Message = EthernetEnvelope;

    /// Receiving times out: nothing ever arrives.
    fn receive(&self) -> (r: Result<EthernetEnvelope, TransportError>)
        ensures
            r matches Err(e) && e == TransportError::Timeout,
    {
        Err(TransportError::Timeout)
    }
}

impl CommType1Transport for CommType1Adapter {}

} // verus!
