//! Short-lived signed authentication tokens: a codec that issues and verifies
//! them, and a gate that turns request headers into an identity or a rejection.

pub mod codec;
pub mod fields;
pub mod gate;
pub mod laws;
pub mod reply;

pub use codec::{decode_jwt, get_jwt, User};
