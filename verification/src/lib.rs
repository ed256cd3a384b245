//! Client-side core of a binary wire protocol for exchanging typed records
//! with a blockchain node: packed little-endian scalars, identities, bounded
//! ASCII names, asset and transaction records, a closed message-type
//! registry, and a per-connection request/response state machine.

pub mod errors;
pub mod packed;
pub mod text;
pub mod identity;
pub mod assets;
pub mod transaction;
pub mod registry;
pub mod records;
pub mod client;
pub mod queries;
