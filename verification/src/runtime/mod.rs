//! Runtime orchestration: profiles, provider selection, startup, effect
//! dispatch and replay.

pub mod app_profile;
pub mod diagnostics;
pub mod effects;
pub mod health;
pub mod provider_registry;
pub mod replay_host;
pub mod startup;
