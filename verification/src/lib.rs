//! A verified transfer engine for uploading a local file or directory
//! tree to remote servers over an authenticated, encrypted file-transfer
//! protocol.
//!
//! The engine plans what to move ([`walker`]), authenticates a session
//! ([`session`], [`transfer`]), materializes remote directory chains
//! ([`resolver`]), streams file bytes with an exact count ([`streamer`]),
//! and sequences one destination's transfer while collecting the outcomes
//! of many ([`transfer`]).  Transport sockets, local file reads and every
//! interactive or persisted concern live outside the library and hand it
//! plain values.

pub mod config;
pub mod errors;
pub mod paths;
pub mod resolver;
pub mod session;
pub mod streamer;
pub mod transfer;
pub mod walker;
