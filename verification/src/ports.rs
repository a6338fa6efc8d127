//! Capability-focused port contracts that core logic depends on: the error
//! types and the traits that adapters implement.

use vstd::prelude::*;

verus! {

pub fn crate_name() -> (r: &'static str)
    ensures
        r@ == "ports"@,
{
    proof {
        reveal_strlit("ports");
    }
    "ports"
}

/// Errors returned by [`Clock`] implementations.
#[derive(Debug, Clone, Copy, PartialEq, Eq, Structural)]
pub enum ClockError {
    /// Clock backend is unavailable.
    Unavailable,
}

/// Errors returned by [`DataSource`] implementations.
#[derive(Debug, Clone, Copy, PartialEq, Eq, Structural)]
pub enum DataSourceError {
    /// The source is temporarily unavailable and may recover.
    Unavailable,
    /// The requested input is not present.
    NotFound,
    /// Input was malformed and could not be decoded.
    InvalidData,
}

/// Driver-level lifecycle errors.
#[derive(Debug, Clone, Copy, PartialEq, Eq, Structural)]
pub enum DriverError {
    /// Driver start operation failed.
    StartFailed,
    /// Driver stop operation failed.
    StopFailed,
}

/// Errors returned by [`AlgorithmProvider`] implementations.
#[derive(Debug, Clone, Copy, PartialEq, Eq, Structural)]
pub enum ProviderError {
    /// Provider setup is incomplete or unavailable.
    Unavailable,
    /// Input is invalid for the selected algorithm.
    InvalidInput,
    /// Computation could not complete successfully.
    ComputeFailed,
}

/// Errors returned by [`TelemetrySink`] implementations.
#[derive(Debug, Clone, Copy, PartialEq, Eq, Structural)]
pub enum TelemetryError {
    /// Sink backend is currently unavailable.
    Unavailable,
    /// Event rejected by sink validation.
    Rejected,
}

/// Errors returned by transport-facing traits.
#[derive(Debug, Clone, Copy, PartialEq, Eq, Structural)]
pub enum TransportError {
    /// Underlying channel is not connected.
    Disconnected,
    /// Send/receive timed out.
    Timeout,
    /// Payload or framing is invalid.
    InvalidPayload,
}

impl ClockError {
    /// The variant's name, as the error is displayed.
    pub fn describe(&self) -> (r: &'static str)
        ensures
            r@ == "Unavailable"@,
    {
        proof {
            reveal_strlit("Unavailable");
        }
        "Unavailable"
    }
}

impl DataSourceError {
    /// The variant's name, as the error is displayed.
    pub fn describe(&self) -> (r: &'static str)
        ensures
            *self == DataSourceError::Unavailable ==> r@ == "Unavailable"@,
            *self == DataSourceError::NotFound ==> r@ == "NotFound"@,
            *self == DataSourceError::InvalidData ==> r@ == "InvalidData"@,
    {
        proof {
            reveal_strlit("Unavailable");
            reveal_strlit("NotFound");
            reveal_strlit("InvalidData");
        }
        match self {
            DataSourceError::Unavailable => "Unavailable",
            DataSourceError::NotFound => "NotFound",
            DataSourceError::InvalidData => "InvalidData",
        }
    }
}

impl DriverError {
    /// The variant's name, as the error is displayed.
    pub fn describe(&self) -> (r: &'static str)
        ensures
            *self == DriverError::StartFailed ==> r@ == "StartFailed"@,
            *self == DriverError::StopFailed ==> r@ == "StopFailed"@,
    {
        proof {
            reveal_strlit("StartFailed");
            reveal_strlit("StopFailed");
        }
        match self {
            DriverError::StartFailed => "StartFailed",
            DriverError::StopFailed => "StopFailed",
        }
    }
}

impl ProviderError {
    /// The variant's name, as the error is displayed.
    pub fn describe(&self) -> (r: &'static str)
        ensures
            *self == ProviderError::Unavailable ==> r@ == "Unavailable"@,
            *self == ProviderError::InvalidInput ==> r@ == "InvalidInput"@,
            *self == ProviderError::ComputeFailed ==> r@ == "ComputeFailed"@,
    {
        proof {
            reveal_strlit("Unavailable");
            reveal_strlit("InvalidInput");
            reveal_strlit("ComputeFailed");
        }
        match self {
            ProviderError::Unavailable => "Unavailable",
            ProviderError::InvalidInput => "InvalidInput",
            ProviderError::ComputeFailed => "ComputeFailed",
        }
    }
}

impl TelemetryError {
    /// The variant's name, as the error is displayed.
    pub fn describe(&self) -> (r: &'static str)
        ensures
            *self == TelemetryError::Unavailable ==> r@ == "Unavailable"@,
            *self == TelemetryError::Rejected ==> r@ == "Rejected"@,
    {
        proof {
            reveal_strlit("Unavailable");
            reveal_strlit("Rejected");
        }
        match self {
            TelemetryError::Unavailable => "Unavailable",
            TelemetryError::Rejected => "Rejected",
        }
    }
}

impl TransportError {
    /// The variant's name, as the error is displayed.
    pub fn describe(&self) -> (r: &'static str)
        ensures
            *self == TransportError::Disconnected ==> r@ == "Disconnected"@,
            *self == TransportError::Timeout ==> r@ == "Timeout"@,
            *self == TransportError::InvalidPayload ==> r@ == "InvalidPayload"@,
    {
        proof {
            reveal_strlit("Disconnected");
            reveal_strlit("Timeout");
            reveal_strlit("InvalidPayload");
        }
        match self {
            TransportError::Disconnected => "Disconnected",
            TransportError::Timeout => "Timeout",
            TransportError::InvalidPayload => "InvalidPayload",
        }
    }
}

/// Provides current monotonic/logical time to core workflows.
pub trait Clock {
    /// Time representation used by the application.
    type Instant;

    /// Returns the current instant.
    fn now(&self) -> Result<Self::Instant, ClockError>;
}

/// Supplies domain input data to core workflows.
pub trait DataSource {
    /// Domain item returned by this source.
    type Item;

    /// Reads the next available item.
    fn read(&self) -> Result<Self::Item, DataSourceError>;
}

/// Interface for pluggable algorithm execution.
pub trait AlgorithmProvider {
    /// Input type consumed by the provider.
    type Input;
    /// Output type produced by the provider.
    type Output;

    /// Executes provider-specific logic.
    fn compute(&self, input: Self::Input) -> Result<Self::Output, ProviderError>;
}

/// Consumes telemetry events produced by core services.
pub trait TelemetrySink {
    /// Event payload type.
    type Event;

    /// Records one telemetry event.
    fn emit(&self, event: Self::Event) -> Result<(), TelemetryError>;
}

/// Publishes outbound messages.
pub trait MessagePublisher {
    /// Transport payload type.
    type Message;

    /// Publishes a message to the transport.
    fn publish(&self, message: Self::Message) -> Result<(), TransportError>;
}

/// Subscribes and receives inbound messages.
pub trait MessageSubscriber {
    /// Transport payload type.
    type Message;

    /// Receives one message if available.
    fn receive(&self) -> Result<Self::Message, TransportError>;
}

/// Capability marker for transports supporting communication type 1.
pub trait CommType1Transport: MessagePublisher + MessageSubscriber {}

/// Capability marker for transports supporting communication type 2.
pub trait CommType2Transport: MessagePublisher + MessageSubscriber {}

} // verus!
