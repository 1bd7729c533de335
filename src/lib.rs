//! Core of a desktop application that keeps API keys in the operating
//! system's credential store and hands them, through a loopback relay gated by
//! a per-session bearer token, to a supervised worker process.
//!
//! - `keychain`: credential-store names and the status of known services.
//! - `relay`: the relay's token check and its responses.
//! - `sidecar`: the worker's environment and its port announcement.
//! - `state`: the session's state and the worker's lifecycle.
//! - `token`: the per-session token.

pub mod keychain;
pub mod relay;
pub mod sidecar;
pub mod state;
pub mod token;
