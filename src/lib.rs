//! A memory-hard proof-of-work puzzle: find the smallest nonce whose Argon2d
//! digest over a payload scores below a fixed target, and check a claimed nonce
//! with a single hash.
pub mod encoding;
pub mod engine;
pub mod laws;
