//! Classification of orchestrator lifecycle events.
//!
//! The library interprets a snapshot of named environment variables as one of
//! a closed set of lifecycle events, attaches the shared deployment metadata,
//! and decides which handler (if any) a dispatcher should fire.  All parsing
//! and classification logic is verified; reading the real process environment
//! is left to the surrounding application, which hands a snapshot in.

pub mod charm;
pub mod environment;
pub mod jujuenv;
pub mod jujuops;
pub mod parsing;
