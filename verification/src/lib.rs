//! State synchronization core for a desktop application shell: one
//! backend-owned application state, a readiness handshake, a one-shot
//! initial push to the UI, and a whole-object replace path fed by
//! serialized payloads from the UI.

pub mod json;
pub mod state;
pub mod push;
