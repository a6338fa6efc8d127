//! The core service: validates, tracks and processes frames through an
//! injected algorithm provider.

use vstd::prelude::*;

use crate::algorithms::{process_frame_with_provider, same_frame};
use crate::domain::{CoreError, InputFrame, OutputFrame};
use crate::ports::{AlgorithmProvider, ProviderError};
use crate::state::{spec_frame_verdict, CoreProcessingState};
use crate::versioning::{spec_version_supported, validate_protocol_version, VersioningError};
use crate::messages::{MAX_SUPPORTED_PROTOCOL_VERSION, MIN_SUPPORTED_PROTOCOL_VERSION};

verus! {

/// The core error that reports a versioning error.
pub open spec fn spec_map_versioning_error(err: VersioningError) -> CoreError {
    match err {
        VersioningError::UnsupportedProtocolVersion { found, min, max } => CoreError::UnsupportedMessageVersion { found, min, max },
        VersioningError::UnknownMessageType(_) => CoreError::ValidationFailed("unknown message type"),
    }
}

fn map_versioning_error(err: VersioningError) -> (r: CoreError)
    ensures
        r == spec_map_versioning_error(err),
{
    match err {
        VersioningError::UnsupportedProtocolVersion { found, min, max } => CoreError::UnsupportedMessageVersion { found, min, max },
        VersioningError::UnknownMessageType(_) => CoreError::ValidationFailed("unknown message type"),
    }
}

/// The service's verdict on a frame before the provider runs: the protocol
/// version first, then the processing state's checks.
pub open spec fn spec_service_verdict(s: CoreProcessingState, frame: InputFrame) -> Result<(), CoreError> {
    if !spec_version_supported(frame.protocol_version) {
        Err(CoreError::UnsupportedMessageVersion {
            found: frame.protocol_version,
            min: MIN_SUPPORTED_PROTOCOL_VERSION,
            max: MAX_SUPPORTED_PROTOCOL_VERSION,
        })
    } else {
        spec_frame_verdict(s, frame.sequence, frame.payload@.len() == 0)
    }
}

/// Core service over an algorithm provider that turns frames into payload bytes.
pub struct CoreService<P> where P: AlgorithmProvider<Input = InputFrame, Output = Vec<u8>> {
    provider: P,
    state: CoreProcessingState,
}

impl<P> CoreService<P> where P: AlgorithmProvider<Input = InputFrame, Output = Vec<u8>> {
    /// The processing state of the service.
    pub closed spec fn spec_state(&self) -> CoreProcessingState {
        self.state
    }

    /// The provider the service runs frames through.
    pub closed spec fn spec_provider(&self) -> P {
        self.provider
    }

    pub fn new(provider: P) -> (r: Self)
        ensures
            r.spec_state().initialized,
            r.spec_state().last_sequence is None,
            r.spec_state().processed_count == 0,
            r.spec_provider() == provider,
    {
        CoreService { provider, state: CoreProcessingState::default() }
    }

    pub fn state(&self) -> (r: &CoreProcessingState)
        ensures
            *r == self.spec_state(),
    {
        &self.state
    }

    /// Processes one frame. A refused frame (unsupported version, uninitialized
    /// state, empty payload, stale sequence) leaves the state unchanged; an
    /// accepted one is recorded and handed to the provider, whose failure is
    /// reported as `AlgorithmFailed`.
    pub fn process(&mut self, input: InputFrame) -> (r: Result<OutputFrame, CoreError>)
        requires
            spec_service_verdict(old(self).spec_state(), input) is Ok ==> old(self).spec_state().processed_count
                < u64::MAX,
        ensures
            spec_service_verdict(old(self).spec_state(), input) matches Err(e) ==> r == Err::<OutputFrame, CoreError>(e)
                && final(self).spec_state() == old(self).spec_state(),
            spec_service_verdict(old(self).spec_state(), input) is Ok ==> {
                &&& final(self).spec_state().last_sequence == Some(input.sequence)
                &&& final(self).spec_state().processed_count == old(self).spec_state().processed_count + 1
                &&& final(self).spec_state().initialized == old(self).spec_state().initialized
                &&& r matches Ok(o) ==> o.protocol_version == input.protocol_version && o.sequence == input.sequence
                    && o.message_type == input.message_type
                &&& r is Err ==> r == Err::<OutputFrame, CoreError>(CoreError::AlgorithmFailed("provider compute failed"))
                &&& r matches Ok(o) ==> exists|x: InputFrame, p: Vec<u8>|
                    same_frame(x, input) && #[trigger] call_ensures(
                        P::compute,
                        (&old(self).spec_provider(), x),
                        Ok::<Vec<u8>, ProviderError>(p),
                    ) && o.payload@ == p@
                &&& r is Err ==> exists|x: InputFrame, e: ProviderError|
                    same_frame(x, input) && #[trigger] call_ensures(
                        P::compute,
                        (&old(self).spec_provider(), x),
                        Err::<Vec<u8>, ProviderError>(e),
                    )
            },
            final(self).spec_provider() == old(self).spec_provider(),
    {
        match validate_protocol_version(input.protocol_version) {
            Ok(()) => {},
            Err(e) => return Err(map_versioning_error(e)),
        }
        self.state.record_processed_frame(&input)?;
        let ghost g_input = input;
        let r = process_frame_with_provider(&self.provider, input);
        proof {
            assert(self.provider == old(self).provider);
            if r is Ok {
                let o = r->Ok_0;
                let (x, p) = choose|x: InputFrame, p: Vec<u8>|
                    same_frame(x, g_input) && #[trigger] call_ensures(P::compute, (&self.provider, x), Ok::<Vec<u8>, ProviderError>(p))
                        && o.payload@ == p@;
                assert(call_ensures(P::compute, (&old(self).spec_provider(), x), Ok::<Vec<u8>, ProviderError>(p)));
            } else {
                let (x, e) = choose|x: InputFrame, e: ProviderError|
                    same_frame(x, g_input) && #[trigger] call_ensures(P::compute, (&self.provider, x), Err::<Vec<u8>, ProviderError>(e));
                assert(call_ensures(P::compute, (&old(self).spec_provider(), x), Err::<Vec<u8>, ProviderError>(e)));
            }
        }
        r
    }
}

} // verus!
