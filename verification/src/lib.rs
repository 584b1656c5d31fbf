//! An encrypted object-storage gateway, as a verified library.
//!
//! Payloads are sealed with AES-256-GCM into an envelope (nonce, then
//! ciphertext and tag), stored in a remote object store under a random
//! identifier, and opened again on retrieval. Every decision of the gateway is
//! a function from plain values to plain values; the network work around them
//! is left to the caller, which hands each backend reply back to the library.

pub mod error;
pub mod bytes;
pub mod stream;
pub mod key;
pub mod cipher;
pub mod backend;
pub mod identifier;
pub mod transfer;
pub mod phase;
pub mod http;
pub mod rpc;
pub mod catalog;
