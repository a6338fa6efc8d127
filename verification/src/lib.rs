//! Message contracts, core flows and runtime provider selection for the
//! Target5/Target10 adapter workspace.

pub mod messages;
pub mod versioning;
pub mod ports;
pub mod domain;
pub mod algorithms;
pub mod state;
pub mod flows;
pub mod services;
pub mod text;
pub mod plugins;
pub mod runtime;
pub mod adapters;
pub mod scenario_runner;
