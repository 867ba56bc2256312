//! Network front-end of a text-based multi-user server: the Telnet codec, the
//! option-negotiation state machine and the per-connection lifecycle rules,
//! each with a machine-checked contract.

pub mod config;
pub mod engine;
pub mod game;
pub mod net;
pub mod text;
