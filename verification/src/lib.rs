//! An embeddable virtual-machine host layer.
//!
//! The library owns one long-lived machine instance, built once from a
//! gas-parameter set, and acts as the sole factory for execution sessions.
//! Each session is bound to a freshly assembled bundle of native
//! capabilities (storage tables, transaction metadata, code publishing)
//! derived from the session's identity and a borrowed state resolver.

pub mod errors;
pub mod extensions;
pub mod move_vm;
pub mod natives;
pub mod session_id;
pub mod vm;
