//! A persistent key-value store over the host's on-chain storage.
//!
//! Entries live in a `near_sdk` `UnorderedMap` under a fixed namespace
//! prefix. Its contents are modelled as a `Map` from key text to value
//! text, and every handler of [`KeyValue`] is verified against that model.
pub mod key_value;
pub mod laws;
pub mod store;

pub use key_value::KeyValue;
