//! A verified on-chain counter program.
//!
//! The library stores a 32-bit counter in the first four bytes of an
//! account's data buffer, little-endian, and exposes three operations
//! selected by a single opcode byte: increment, decrement and reset.
//! The entry point validates that the target account is owned by the
//! invoking program, decodes the opcode, applies a checked arithmetic
//! update, and writes the counter back in place.

pub mod account;
pub mod codec;
pub mod error;
pub mod processor;
