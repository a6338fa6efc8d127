use vstd::prelude::*;

verus! {

/// Wire protocol version currently emitted by this crate.
pub const CURRENT_PROTOCOL_VERSION: u16 = 1;

/// Inclusive minimum accepted protocol version.
pub const MIN_SUPPORTED_PROTOCOL_VERSION: u16 = 1;

/// Inclusive maximum accepted protocol version.
pub const MAX_SUPPORTED_PROTOCOL_VERSION: u16 = 1;

/// Message type discriminator used by the Ethernet envelope.
#[derive(Debug, Clone, Copy, PartialEq, Eq, Structural)]
pub enum MessageType {
    Target5Status,
    Target10Command,
}

impl MessageType {
    /// The wire code of each message type.
    pub open spec fn spec_code(self) -> u16 {
        match self {
            MessageType::Target5Status => 0x0005,
            MessageType::Target10Command => 0x000A,
        }
    }

    /// The message type a wire code names, if any.
    pub open spec fn spec_from_code(value: u16) -> Option<MessageType> {
        if value == 0x0005 {
            Some(MessageType::Target5Status)
        } else if value == 0x000A {
            Some(MessageType::Target10Command)
        } else {
            None
        }
    }

    /// Decodes a wire code; `None` for every code that names no message type.
    pub fn from_code(value: u16) -> (r: Option<Self>)
        ensures
            r == Self::spec_from_code(value),
    {
        match value {
            0x0005 => Some(MessageType::Target5Status),
            0x000A => Some(MessageType::Target10Command),
            _ => None,
        }
    }

    pub fn code(self) -> (r: u16)
        ensures
            r == self.spec_code(),
    {
        match self {
            MessageType::Target5Status => 0x0005,
            MessageType::Target10Command => 0x000A,
        }
    }
}

/// Decoding the code of a message type gives that message type back, and a
/// code that decodes is the code of what it decodes to.
pub proof fn lemma_message_type_code_round_trip(t: MessageType, value: u16)
    ensures
        MessageType::spec_from_code(t.spec_code()) == Some(t),
        MessageType::spec_from_code(value) matches Some(u) ==> u.spec_code() == value,
{
}

/// Status report emitted by a Target5 device.
#[derive(Debug, Clone, Copy, PartialEq, Eq, Structural)]
pub struct Target5Status {
    pub device_id: u32,
    pub online: bool,
    pub sequence: u64,
}

/// Command addressed to a Target10 device.
#[derive(Debug, Clone, PartialEq, Eq)]
pub struct Target10Command {
    pub command_id: u32,
    pub action: String,
    pub priority: u8,
}

/// Mathematical value of a [`Target10Command`].
pub struct Target10CommandView {
    pub command_id: u32,
    pub action: Seq<char>,
    pub priority: u8,
}

impl View for Target10Command {
    type V = Target10CommandView;

    open spec fn view(&self) -> Target10CommandView {
        Target10CommandView { command_id: self.command_id, action: self.action@, priority: self.priority }
    }
}

impl Target10Command {
    /// A copy of the command with the same value.
    pub fn duplicate(&self) -> (r: Target10Command)
        ensures
            r@ == self@,
    {
        Target10Command { command_id: self.command_id, action: self.action.clone(), priority: self.priority }
    }
}

/// Payload carried by an Ethernet envelope, tagged by its message type.
#[derive(Debug, Clone, PartialEq, Eq)]
pub enum EthernetPayload {
    Target5Status(Target5Status),
    Target10Command(Target10Command),
}

pub enum EthernetPayloadView {
    Target5Status(Target5Status),
    Target10Command(Target10CommandView),
}

impl View for EthernetPayload {
    type V = EthernetPayloadView;

    open spec fn view(&self) -> EthernetPayloadView {
        match self {
            EthernetPayload::Target5Status(s) => EthernetPayloadView::Target5Status(*s),
            EthernetPayload::Target10Command(c) => EthernetPayloadView::Target10Command(c@),
        }
    }
}

impl EthernetPayload {
    /// A copy of the payload with the same value.
    pub fn duplicate(&self) -> (r: EthernetPayload)
        ensures
            r@ == self@,
    {
        match self {
            EthernetPayload::Target5Status(s) => EthernetPayload::Target5Status(*s),
            EthernetPayload::Target10Command(c) => EthernetPayload::Target10Command(c.duplicate()),
        }
    }
}

/// A versioned frame on the Ethernet link.
#[derive(Debug, Clone, PartialEq, Eq)]
pub struct EthernetEnvelope {
    pub protocol_version: u16,
    pub payload: EthernetPayload,
}

pub struct EthernetEnvelopeView {
    pub protocol_version: u16,
    pub payload: EthernetPayloadView,
}

impl View for EthernetEnvelope {
    type V = EthernetEnvelopeView;

    open spec fn view(&self) -> EthernetEnvelopeView {
        EthernetEnvelopeView { protocol_version: self.protocol_version, payload: self.payload@ }
    }
}

/// The message type that tags a payload.
pub open spec fn payload_message_type(p: EthernetPayloadView) -> MessageType {
    match p {
        EthernetPayloadView::Target5Status(_) => MessageType::Target5Status,
        EthernetPayloadView::Target10Command(_) => MessageType::Target10Command,
    }
}

impl EthernetEnvelope {
    /// A copy of the envelope with the same value.
    pub fn duplicate(&self) -> (r: EthernetEnvelope)
        ensures
            r@ == self@,
    {
        EthernetEnvelope { protocol_version: self.protocol_version, payload: self.payload.duplicate() }
    }

    pub fn message_type(&self) -> (r: MessageType)
        ensures
            r == payload_message_type(self@.payload),
    {
        match self.payload {
            EthernetPayload::Target5Status(_) => MessageType::Target5Status,
            EthernetPayload::Target10Command(_) => MessageType::Target10Command,
        }
    }
}

} // verus!
