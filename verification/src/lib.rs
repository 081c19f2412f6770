//! Keyless wallet backend: per-identity account derivation through a
//! threshold signer, a durable account and counter registry, and a
//! consensus-safe JSON-RPC balance client.
//!
//! The library holds no key and performs no input or output. Whoever runs it
//! talks to the signing service and to the network, and hands each reply to
//! the function that takes it.
//!
//! - [`identity`]: callers, and the anonymous one that is refused.
//! - [`signer`]: what is asked of the signing service, and what its replies
//!   stand for.
//! - [`registry`] over [`store`]: the generated addresses and the usage
//!   counters, in stable memory.
//! - [`workflow`]: deriving an address, signing a message, building and
//!   signing a transfer, counting a transaction.
//! - [`rpc`] with [`json`] and [`http`]: the balance query, and the
//!   sanitization of its response.
//! - [`encoding`] and [`transfer`]: the texts that bytes and transfers are
//!   written as.
//! - [`laws`]: what holds of all of this, proved.

pub mod encoding;
pub mod error;
pub mod http;
pub mod identity;
pub mod json;
pub mod laws;
pub mod registry;
pub mod rpc;
pub mod signer;
pub mod store;
pub mod transfer;
pub mod workflow;
