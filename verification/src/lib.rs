//! Client-side implementation of an encrypted, length-framed, request/response
//! console protocol: a nonce-exchange handshake derives one 24-byte nonce per
//! direction from two random halves, and every frame is sealed under the
//! pre-shared key with a nonce that advances by exactly one per operation.

use vstd::prelude::*;

pub mod crypto;
pub mod nonce;
pub mod session;
pub mod wire;

pub use crate::session::DNSDistConsole;
pub use crate::session::DNSDistConsoleError;

verus! {

/// Size in bytes of a nonce, fixed by the protocol.
pub const NONCE_LEN: usize = 24;

} // verus!
