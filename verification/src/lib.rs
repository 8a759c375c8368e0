//! Policy-driven, human-approved authorization for AI agents: the verified core.

pub mod text;
pub mod codec;
pub mod clock;
pub mod protocol;
pub mod config;
pub mod policy;
pub mod grants;
pub mod crypto;
pub mod transport;
pub mod secrets;
pub mod audit;
pub mod daemon;
pub mod client;
pub mod cli;
pub mod setup;
