//! Verified decode-dispatch-normalize core for Solana instruction indexing.
//!
//! Raw instruction bytes are resolved against a per-program tag registry,
//! their fixed-layout payload is decoded field by field, and the result is
//! normalized into a generic named record that a dispatch handler enriches
//! with block and transaction context before it is handed to a store.

pub mod codec;
pub mod decode;
pub mod decoder;
pub mod handler;
pub mod laws;
pub mod metaplex;
pub mod record;
pub mod registry;
pub mod render;
pub mod shape;
pub mod swap_args;
pub mod token_metadata;
