//! Errors of the Ethernet adapter and how the transport reports them.

use vstd::prelude::*;

use crate::ports::TransportError;

verus! {

#[derive(Debug, Clone, Copy, PartialEq, Eq, Structural)]
pub enum EthernetAdapterError {
    Timeout,
    TransportDisconnected,
    InvalidPayload,
}

/// The transport error that reports an Ethernet adapter error.
pub open spec fn spec_transport_error(e: EthernetAdapterError) -> TransportError {
    match e {
        EthernetAdapterError::InvalidPayload => TransportError::InvalidPayload,
        EthernetAdapterError::Timeout => TransportError::Timeout,
        EthernetAdapterError::TransportDisconnected => TransportError::Disconnected,
    }
}

impl EthernetAdapterError {
    pub fn to_transport_error(self) -> (r: TransportError)
        ensures
            r == spec_transport_error(self),
    {
        match self {
            EthernetAdapterError::InvalidPayload => TransportError::InvalidPayload,
            EthernetAdapterError::Timeout => TransportError::Timeout,
            EthernetAdapterError::TransportDisconnected => TransportError::Disconnected,
        }
    }
}

} // verus!
