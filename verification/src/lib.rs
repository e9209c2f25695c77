//! A minting authority for a collection of uniquely identified collectibles.
//!
//! The registry issues a single administrative capability token at bootstrap,
//! gates every privileged operation (minting, updating the one mutable field,
//! permanently locking minting) on possession of that token, and maintains the
//! invariants of the collection: identities are unique, all fields but the key
//! image URL are immutable, and the mintable flag only ever moves one way.

pub mod errors;
pub mod item;
pub mod laws;
pub mod registry;
pub mod token;
