//! Command layer of a two-party token-escrow protocol.
//!
//! The heart of the crate is the command codec: a pure, total function that
//! turns an opaque byte buffer into one of two typed commands or a decode
//! failure. Around it, the crate documents the account-role contract each
//! command carries and the two-step trade lifecycle that a decoded command
//! drives.

pub mod error;
pub mod instruction;
pub mod state;
