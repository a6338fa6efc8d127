use target_bridge::messages::{
    EthernetEnvelope, EthernetPayload, MessageType, Target5Status, CURRENT_PROTOCOL_VERSION,
    MAX_SUPPORTED_PROTOCOL_VERSION, MIN_SUPPORTED_PROTOCOL_VERSION,
};
use target_bridge::versioning::{
    is_protocol_version_supported, validate_envelope_compatibility, validate_message_type,
    validate_protocol_version, VersioningError,
};

#[test]
fn reject_unsupported_versions() {
    let err_low = validate_protocol_version(0).expect_err("version 0 must fail");
    let err_high = validate_protocol_version(2).expect_err("version 2 must fail");

    assert_eq!(
        err_low,
        VersioningError::UnsupportedProtocolVersion {
            found: 0,
            min: MIN_SUPPORTED_PROTOCOL_VERSION,
            max: MAX_SUPPORTED_PROTOCOL_VERSION,
        }
    );
    assert_eq!(
        err_high,
        VersioningError::UnsupportedProtocolVersion {
            found: 2,
            min: MIN_SUPPORTED_PROTOCOL_VERSION,
            max: MAX_SUPPORTED_PROTOCOL_VERSION,
        }
    );
}

#[test]
fn unknown_message_type_is_rejected() {
    let err = validate_message_type(0xDEAD).expect_err("unknown type must fail");
    assert_eq!(err, VersioningError::UnknownMessageType(0xDEAD));
}

#[test]
fn known_message_type_is_accepted() {
    let ty = validate_message_type(0x000A).expect("known type accepted");
    assert_eq!(ty, MessageType::Target10Command);
}

#[test]
fn message_type_codes_round_trip() {
    for ty in [MessageType::Target5Status, MessageType::Target10Command] {
        assert_eq!(MessageType::from_code(ty.code()), Some(ty));
    }
    assert_eq!(MessageType::Target5Status.code(), 0x0005);
    assert_eq!(MessageType::from_code(0x0006), None);
}

#[test]
fn envelope_compatibility_follows_the_version() {
    assert!(is_protocol_version_supported(CURRENT_PROTOCOL_VERSION));
    assert!(!is_protocol_version_supported(u16::MAX));
    let mut envelope = EthernetEnvelope {
        protocol_version: CURRENT_PROTOCOL_VERSION,
        payload: EthernetPayload::Target5Status(Target5Status { device_id: 42, online: true, sequence: 11 }),
    };
    assert_eq!(envelope.message_type(), MessageType::Target5Status);
    assert_eq!(validate_envelope_compatibility(&envelope), Ok(()));
    envelope.protocol_version = 3;
    assert_eq!(
        validate_envelope_compatibility(&envelope),
        Err(VersioningError::UnsupportedProtocolVersion { found: 3, min: 1, max: 1 })
    );
}
