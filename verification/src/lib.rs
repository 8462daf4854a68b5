//! Publishing of per-session validator-set snapshots to an off-chain indexed
//! key/value store.
//!
//! Each snapshot is an ordered sequence of `(ValidatorId, FullIdentification)`
//! pairs, serialized with a canonical binary encoding and written under a key
//! derived from a fixed namespace prefix and the session index. The off-chain
//! reader can thereafter reconstruct historical session membership without the
//! validator list ever living in replicated on-chain state.

pub mod encoding;
pub mod identity;
pub mod keys;
pub mod publish;
pub mod registry;
pub mod snapshot;
pub mod store;
