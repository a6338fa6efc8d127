//! Windows simulation adapter: replayed, manual and scenario input.

pub mod manual_input;
pub mod replay;
pub mod scenario;
pub mod sim_data_source;
