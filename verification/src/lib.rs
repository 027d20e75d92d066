//! Files the inner instructions of replicated transactions in a keyed,
//! expiring cache.
//!
//! A host that replays a ledger tells this library of every transaction.
//! For each one that has an identity the library has the transaction's
//! inner instructions stored under the text of its signature, to be kept
//! for a day. The library decides; it does not talk to the cache service
//! itself. It names one command at a time, and whoever owns it carries the
//! command out and reports back:
//!
//! - [`signature`]: signatures, the sentinel among them, and their text;
//! - [`inner_instructions`]: the stored records and their encoding;
//! - [`cache`]: the client and the course of one store operation;
//! - [`plugin`]: the adapter that answers the host's notifications;
//! - [`model`]: the cache service as a map, and what is proved of whole
//!   operations against it.

pub mod cache;
pub mod inner_instructions;
pub mod model;
pub mod plugin;
pub mod signature;
