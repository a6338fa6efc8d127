//! Concrete environment, protocol and target integrations.

pub mod c_drivers;
pub mod commtype1;
pub mod commtype2;
pub mod ethernet;
pub mod target10;
pub mod target5;
pub mod windows_sim;
