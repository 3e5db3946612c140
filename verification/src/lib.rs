//! Signature-gated authority over an upgradable resource.

pub mod address;
pub mod bytes;
pub mod ecdsa;
pub mod error;
pub mod host;
pub mod instructions;
pub mod laws;
pub mod message;
pub mod processor;
pub mod state;
