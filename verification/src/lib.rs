//! Planning and protocol core of a live function-hooking engine.
//!
//! The crate computes what has to be written into a running program to detour
//! one of its functions, and speaks the wire protocol through which a remote
//! controller drives reads, writes, calls and hooks. It never touches memory
//! or sockets itself: every effect is handed to the embedding program as a
//! value, and every outcome comes back as one.

pub mod endian;
pub mod error;
pub mod branch;
pub mod patcher;
pub mod patch_laws;
pub mod cbor;
pub mod cbor_laws;
pub mod message;
pub mod response;
pub mod hook_message;
pub mod frame;
pub mod message_laws;
pub mod hook;
pub mod interactive_hook;
pub mod firing;
pub mod arena;
pub mod engine;
pub mod engine_laws;
pub mod page;
