//! Builders for cross-program instructions of a lending/vault program and a swap program.
//!
//! Each builder encodes a fixed discriminator followed by little-endian arguments and
//! lists the accounts of the call in the order and with the flags the callee expects.
//! Performing the call itself is left to the host runtime.

pub mod encoding;
pub mod instruction;
pub mod borrow;
pub mod earn;
pub mod error;
pub mod instructions;

