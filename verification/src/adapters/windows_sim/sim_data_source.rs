//! Simulated data source: replayed events, manually fed events, or a local
//! network binding that is not connected.

use vstd::prelude::*;

use crate::adapters::windows_sim::manual_input::ManualInput;
use crate::adapters::windows_sim::replay::{DeterministicReplay, ReplayEvent};
use crate::ports::DataSourceError;

verus! {

#[derive(Debug, Clone, Copy, PartialEq, Eq, Structural)]
pub enum SimAdapterError {
    Timeout,
    TransportDisconnected,
    Exhausted,
}

/// Where a simulated source takes its events from.
#[derive(Debug)]
pub enum InputMode {
    Replay(DeterministicReplay),
    Manual(ManualInput),
    LocalNetworkBind,
}

/// A data source for the Windows simulation.
pub struct SimDataSource {
    mode: InputMode,
}

impl SimDataSource {
    /// The source's input mode.
    pub closed spec fn spec_mode(&self) -> InputMode {
        self.mode
    }

    pub fn replay(replay: DeterministicReplay) -> (r: Self)
        ensures
            r.spec_mode() == InputMode::Replay(replay),
    {
        SimDataSource { mode: InputMode::Replay(replay) }
    }

    pub fn manual(manual: ManualInput) -> (r: Self)
        ensures
            r.spec_mode() == InputMode::Manual(manual),
    {
        SimDataSource { mode: InputMode::Manual(manual) }
    }

    pub fn local_network_bind() -> (r: Self)
        ensures
            r.spec_mode() == InputMode::LocalNetworkBind,
    {
        SimDataSource { mode: InputMode::LocalNetworkBind }
    }

    /// Reads the next event: a replay that is over is `Exhausted`, an empty
    /// manual queue times out, and the network binding is disconnected.
    pub fn read_event(&mut self) -> (r: Result<ReplayEvent, SimAdapterError>)
        ensures
            match old(self).spec_mode() {
                InputMode::Replay(rep) => final(self).spec_mode() is Replay && ({
                    let next = final(self).spec_mode()->Replay_0;
                    &&& next@.events == rep@.events
                    &&& rep@.index < rep@.events.len() ==> (r matches Ok(e) && e@ == rep@.events[rep@.index as int].event
                        && next@.index == rep@.index + 1)
                    &&& rep@.index >= rep@.events.len() ==> r == Err::<ReplayEvent, SimAdapterError>(SimAdapterError::Exhausted)
                        && next@.index == rep@.index
                }),
                InputMode::Manual(m) => final(self).spec_mode() is Manual && ({
                    let next = final(self).spec_mode()->Manual_0;
                    &&& m@.len() == 0 ==> r == Err::<ReplayEvent, SimAdapterError>(SimAdapterError::Timeout) && next@ == m@
                    &&& m@.len() > 0 ==> (r matches Ok(e) && e@ == m@[0]) && next@ == m@.drop_first()
                }),
                InputMode::LocalNetworkBind => r == Err::<ReplayEvent, SimAdapterError>(SimAdapterError::TransportDisconnected)
                    && final(self).spec_mode() is LocalNetworkBind,
            },
    {
        match &mut self.mode {
            InputMode::Replay(replay) => match replay.next_event() {
                Some(e) => Ok(e),
                None => Err(SimAdapterError::Exhausted),
            },
            InputMode::Manual(manual) => match manual.next_event() {
                Some(e) => Ok(e),
                None => Err(SimAdapterError::Timeout),
            },
            InputMode::LocalNetworkBind => Err(SimAdapterError::TransportDisconnected),
        }
    }
}

/// How a data source reports a simulation error: timeouts and disconnection
/// are `Unavailable`, an exhausted replay is `NotFound`.
pub open spec fn spec_data_source_error(e: SimAdapterError) -> DataSourceError {
    match e {
        SimAdapterError::Timeout => DataSourceError::Unavailable,
        SimAdapterError::TransportDisconnected => DataSourceError::Unavailable,
        SimAdapterError::Exhausted => DataSourceError::NotFound,
    }
}

impl SimAdapterError {
    pub fn to_data_source_error(self) -> (r: DataSourceError)
        ensures
            r == spec_data_source_error(self),
    {
        match self {
            SimAdapterError::Timeout => DataSourceError::Unavailable,
            SimAdapterError::TransportDisconnected => DataSourceError::Unavailable,
            SimAdapterError::Exhausted => DataSourceError::NotFound,
        }
    }
}

} // verus!
