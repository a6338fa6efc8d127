//! Decisions of the safe wrappers over the raw target C drivers: how return
//! codes map to errors and how packets are built and read.

use vstd::prelude::*;

use crate::messages::{Target10Command, Target5Status};
use crate::ports::{DataSourceError, TransportError};

verus! {

#[allow(non_camel_case_types)]
pub type c_int = i32;

#[allow(non_camel_case_types)]
pub type c_uint = u32;

/// Packet exchanged with the target C drivers.
#[allow(non_camel_case_types)]
#[derive(Debug, Clone, Copy)]
pub struct target_packet_t {
    pub id: c_uint,
    pub len: c_uint,
    pub data: [u8; 256],
}

#[derive(Debug, Clone, Copy, PartialEq, Eq, Structural)]
pub enum CDriverInfraError {
    HardwareUnavailable,
    IoFailure,
    InvalidResponse,
}

/// A negative handle from `target_open` means the hardware is unavailable.
pub fn connect_outcome(handle: c_int) -> (r: Result<c_int, CDriverInfraError>)
    ensures
        handle < 0 ==> r == Err::<c_int, CDriverInfraError>(CDriverInfraError::HardwareUnavailable),
        handle >= 0 ==> r == Ok::<c_int, CDriverInfraError>(handle),
{
    if handle < 0 {
        return Err(CDriverInfraError::HardwareUnavailable);
    }
    Ok(handle)
}

/// A non-zero return code from `target_close` is an I/O failure.
pub fn disconnect_outcome(rc: c_int) -> (r: Result<(), CDriverInfraError>)
    ensures
        rc != 0 ==> r == Err::<(), CDriverInfraError>(CDriverInfraError::IoFailure),
        rc == 0 ==> r is Ok,
{
    if rc != 0 {
        return Err(CDriverInfraError::IoFailure);
    }
    Ok(())
}

/// The packet that carries a command: its id, and its action's UTF-8 bytes
/// at the start of the data, the rest zero. An action longer than the data
/// area is an invalid payload.
pub fn command_packet(message: &Target10Command) -> (r: Result<target_packet_t, TransportError>)
    ensures
        ({
            let bytes = vstd::utf8::encode_utf8(message.action@);
            &&& bytes.len() > 256 ==> r == Err::<target_packet_t, TransportError>(TransportError::InvalidPayload)
            &&& bytes.len() <= 256 ==> (r matches Ok(p) && p.id == message.command_id && p.len == bytes.len()
                && p.data@.subrange(0, bytes.len() as int) == bytes
                && forall|i: int| bytes.len() <= i < 256 ==> p.data@[i] == 0)
        }),
{
    let bytes = message.action.as_str().as_bytes();
    if bytes.len() > 256 {
        return Err(TransportError::InvalidPayload);
    }
    let mut data = [0u8; 256];
    let mut i: usize = 0;
    while i < bytes.len()
        invariant
            bytes@ == vstd::utf8::encode_utf8(message.action@),
            bytes@.len() <= 256,
            i <= bytes@.len(),
            data@.len() == 256,
            forall|k: int| 0 <= k < i ==> data@[k] == bytes@[k],
            forall|k: int| i <= k < 256 ==> data@[k] == 0,
        decreases bytes@.len() - i,
    {
        data[i] = bytes[i];
        i = i + 1;
    }
    assert(data@.subrange(0, bytes@.len() as int) =~= bytes@);
    Ok(target_packet_t { id: message.command_id, len: bytes.len() as u32, data })
}

/// A non-zero return code from `target_send` means the link is down.
pub fn send_outcome(rc: c_int) -> (r: Result<(), TransportError>)
    ensures
        rc != 0 ==> r == Err::<(), TransportError>(TransportError::Disconnected),
        rc == 0 ==> r is Ok,
{
    if rc != 0 {
        return Err(TransportError::Disconnected);
    }
    Ok(())
}

/// The status a received packet reports: its id as the device, online, with
/// its length as the sequence; a non-zero return code means no data.
pub fn status_from_packet(rc: c_int, packet: &target_packet_t) -> (r: Result<Target5Status, DataSourceError>)
    ensures
        rc != 0 ==> r == Err::<Target5Status, DataSourceError>(DataSourceError::Unavailable),
        rc == 0 ==> r == Ok::<Target5Status, DataSourceError>(
            Target5Status { device_id: packet.id, online: true, sequence: packet.len as u64 },
        ),
{
    if rc != 0 {
        return Err(DataSourceError::Unavailable);
    }
    Ok(Target5Status { device_id: packet.id, online: true, sequence: packet.len as u64 })
}

} // verus!
