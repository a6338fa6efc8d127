//! Pure transformations used by the core flows.

use vstd::prelude::*;

use crate::domain::{CoreError, InputFrame, OutputFrame};
use crate::messages::{Target10Command, Target10CommandView, Target5Status};
use crate::ports::{AlgorithmProvider, ProviderError};

verus! {

/// The only way a status can fail to map: its command id does not fit in `u32`.
#[derive(Debug, Clone, Copy, PartialEq, Eq, Structural)]
pub enum Target5ToTarget10Error {
    CommandIdOverflow { device_id: u32, online: bool },
}

/// Base of the command id: 1000 for an online device, 2000 for an offline one.
pub open spec fn command_base(online: bool) -> int {
    if online { 1000 } else { 2000 }
}

/// Action sent to the Target10 side: "arm" when online, "standby" otherwise.
pub open spec fn command_action(online: bool) -> Seq<char> {
    if online { "arm"@ } else { "standby"@ }
}

/// Priority of the command: 1 when online, 5 otherwise.
pub open spec fn command_priority(online: bool) -> u8 {
    if online { 1 } else { 5 }
}

/// What mapping a status gives: the command, or the overflow error.
pub open spec fn spec_map_status(status: Target5Status) -> Result<Target10CommandView, Target5ToTarget10Error> {
    let id = command_base(status.online) + status.device_id;
    if id <= u32::MAX {
        Ok(
            Target10CommandView {
                command_id: id as u32,
                action: command_action(status.online),
                priority: command_priority(status.online),
            },
        )
    } else {
        Err(Target5ToTarget10Error::CommandIdOverflow { device_id: status.device_id, online: status.online })
    }
}

/// Result of mapping a status, with the command taken by its view.
pub open spec fn map_result_view(r: Result<Target10Command, Target5ToTarget10Error>) -> Result<Target10CommandView, Target5ToTarget10Error> {
    match r {
        Ok(c) => Ok(c@),
        Err(e) => Err(e),
    }
}

/// Maps a Target5 status report to the Target10 command it calls for.
pub fn map_target5_status_to_target10_command(status: &Target5Status) -> (r: Result<Target10Command, Target5ToTarget10Error>)
    ensures
        map_result_view(r) == spec_map_status(*status),
{
    let (base, action, priority): (u32, &str, u8) = if status.online {
        (1000, "arm", 1)
    } else {
        (2000, "standby", 5)
    };
    match base.checked_add(status.device_id) {
        Some(command_id) => Ok(Target10Command { command_id, action: action.to_string(), priority }),
        None => Err(Target5ToTarget10Error::CommandIdOverflow { device_id: status.device_id, online: status.online }),
    }
}

/// Builds the output frame from the input header and the provider's answer:
/// the header is kept and the payload is what the provider computed; any
/// provider error becomes `AlgorithmFailed`.
pub fn frame_from_computation(
    input: &InputFrame,
    computed: Result<Vec<u8>, ProviderError>,
) -> (r: Result<OutputFrame, CoreError>)
    ensures
        computed is Err ==> r == Err::<OutputFrame, CoreError>(CoreError::AlgorithmFailed("provider compute failed")),
        computed matches Ok(p) ==> r matches Ok(o) && o.protocol_version == input.protocol_version
            && o.sequence == input.sequence && o.message_type == input.message_type && o.payload@ == p@,
{
    match computed {
        Ok(payload) => Ok(
            OutputFrame {
                protocol_version: input.protocol_version,
                sequence: input.sequence,
                message_type: input.message_type,
                payload,
            },
        ),
        Err(_) => Err(CoreError::AlgorithmFailed("provider compute failed")),
    }
}

/// Two frames with the same header and payload bytes.
pub open spec fn same_frame(a: InputFrame, b: InputFrame) -> bool {
    a.protocol_version == b.protocol_version && a.sequence == b.sequence && a.message_type == b.message_type
        && a.payload@ == b.payload@
}

/// Runs the provider on a copy of the input frame and wraps its answer.
/// Whatever the provider returns, a success keeps the input header and an
/// error is reported as `AlgorithmFailed`.
pub fn process_frame_with_provider<P: AlgorithmProvider<Input = InputFrame, Output = Vec<u8>>>(
    provider: &P,
    input: InputFrame,
) -> (r: Result<OutputFrame, CoreError>)
    ensures
        r matches Ok(o) ==> o.protocol_version == input.protocol_version && o.sequence == input.sequence
            && o.message_type == input.message_type,
        r is Err ==> r == Err::<OutputFrame, CoreError>(CoreError::AlgorithmFailed("provider compute failed")),
        r matches Ok(o) ==> exists|x: InputFrame, p: Vec<u8>|
            same_frame(x, input) && #[trigger] call_ensures(P::compute, (provider, x), Ok::<Vec<u8>, ProviderError>(p))
                && o.payload@ == p@,
        r is Err ==> exists|x: InputFrame, e: ProviderError|
            same_frame(x, input) && #[trigger] call_ensures(P::compute, (provider, x), Err::<Vec<u8>, ProviderError>(e)),
{
    let compute = P::compute;
    let x = input.duplicate();
    let ghost gx = x;
    let computed = compute(provider, x);
    proof {
        if let Err(e) = computed {
            assert(same_frame(gx, input) && call_ensures(P::compute, (provider, gx), Err::<Vec<u8>, ProviderError>(e)));
        }
    }
    frame_from_computation(&input, computed)
}

} // verus!
