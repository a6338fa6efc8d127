//! Target5 hardware adapter; the hardware path is not implemented yet.

use vstd::prelude::*;

use crate::messages::Target5Status;
use crate::ports::{DataSource, DataSourceError};

verus! {

#[derive(Debug, Clone, Copy, PartialEq, Eq, Structural)]
pub enum Target5InfraError {
    HardwarePathUnimplemented,
}

pub struct Target5Adapter;

impl Target5Adapter {
    pub fn new() -> (r: Self) {
        Target5Adapter
    }

    /// Polls the hardware; always fails until the hardware path exists.
    pub fn poll_hardware(&self) -> (r: Result<Target5Status, Target5InfraError>)
        ensures
            r == Err::<Target5Status, Target5InfraError>(Target5InfraError::HardwarePathUnimplemented),
    {
        Err(Target5InfraError::HardwarePathUnimplemented)
    }
}

impl Default for Target5Adapter {
    fn default() -> (r: Self) {
        Self::new()
    }
}

impl DataSource for Target5Adapter {
    type Item = Target5Status;

    /// Any hardware failure is reported as `Unavailable`.
    fn read(&self) -> (r: Result<Target5Status, DataSourceError>)
        ensures
            r == Err::<Target5Status, DataSourceError>(DataSourceError::Unavailable),
    {
        match self.poll_hardware() {
            Ok(s) => Ok(s),
            Err(_) => Err(DataSourceError::Unavailable),
        }
    }
}

} // verus!
