//! The request-handling logic of an ONDC gateway: signing and checking of
//! Beckn messages with Ed25519 and Base64, a registry of participant keys,
//! the construction of Beckn contexts, and the decisions that each endpoint
//! takes once the outside work (key-value store, clock, randomness) is done.

pub mod base64_text;
pub mod crypto;
pub mod models;
pub mod registry;
pub mod context;
pub mod gateway;
