use vstd::prelude::*;

use crate::messages::{
    EthernetEnvelope, MessageType, MAX_SUPPORTED_PROTOCOL_VERSION,
    MIN_SUPPORTED_PROTOCOL_VERSION,
};

verus! {

/// Reasons a frame is incompatible with this protocol implementation.
#[derive(Debug, Clone, Copy, PartialEq, Eq, Structural)]
pub enum VersioningError {
    UnsupportedProtocolVersion { found: u16, min: u16, max: u16 },
    UnknownMessageType(u16),
}

/// A version is supported when it lies in the inclusive supported range.
pub open spec fn spec_version_supported(version: u16) -> bool {
    MIN_SUPPORTED_PROTOCOL_VERSION <= version <= MAX_SUPPORTED_PROTOCOL_VERSION
}

pub fn is_protocol_version_supported(version: u16) -> (r: bool)
    ensures
        r == spec_version_supported(version),
{
    MIN_SUPPORTED_PROTOCOL_VERSION <= version && version <= MAX_SUPPORTED_PROTOCOL_VERSION
}

/// The verdict on a protocol version.
pub open spec fn spec_validate_protocol_version(version: u16) -> Result<(), VersioningError> {
    if spec_version_supported(version) {
        Ok(())
    } else {
        Err(
            VersioningError::UnsupportedProtocolVersion {
                found: version,
                min: MIN_SUPPORTED_PROTOCOL_VERSION,
                max: MAX_SUPPORTED_PROTOCOL_VERSION,
            },
        )
    }
}

pub fn validate_protocol_version(version: u16) -> (r: Result<(), VersioningError>)
    ensures
        r == spec_validate_protocol_version(version),
{
    if is_protocol_version_supported(version) {
        Ok(())
    } else {
        Err(
            VersioningError::UnsupportedProtocolVersion {
                found: version,
                min: MIN_SUPPORTED_PROTOCOL_VERSION,
                max: MAX_SUPPORTED_PROTOCOL_VERSION,
            },
        )
    }
}

pub fn validate_message_type(raw_type: u16) -> (r: Result<MessageType, VersioningError>)
    ensures
        r == match MessageType::spec_from_code(raw_type) {
            Some(t) => Ok(t),
            None => Err(VersioningError::UnknownMessageType(raw_type)),
        },
{
    match MessageType::from_code(raw_type) {
        Some(t) => Ok(t),
        None => Err(VersioningError::UnknownMessageType(raw_type)),
    }
}

/// An envelope is compatible exactly when its protocol version is supported;
/// every payload it can carry has a known message type.
pub fn validate_envelope_compatibility(envelope: &EthernetEnvelope) -> (r: Result<(), VersioningError>)
    ensures
        r == spec_validate_protocol_version(envelope.protocol_version),
{
    validate_protocol_version(envelope.protocol_version)?;
    let _ = envelope.message_type();
    Ok(())
}

} // verus!
