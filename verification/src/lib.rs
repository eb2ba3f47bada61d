//! Verified decision logic for a family of editor extensions.
//!
//! The heart of the crate is the [`provisioner`]: a state machine that decides,
//! step by step, how to obtain a runnable copy of an external tool (from the
//! in-memory cache, from the search path, or from a release feed) while the
//! embedding program performs the I/O each step asks for.
pub mod platform;
pub mod text;
pub mod release;
pub mod error;
pub mod prune;
pub mod provisioner;
pub mod laws;
pub mod command;
pub mod extensions;
