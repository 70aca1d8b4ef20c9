//! Block-synchronization and gossip-ingestion core of a consensus node.
//!
//! The crate turns raw gossip byte payloads into typed consensus messages
//! (`pubsub`), resolves gossip topic strings (`topic`), and drives the import
//! of downloaded block batches into the chain store, classifying the outcome
//! and reporting it to a coordinating sync manager (`worker`).

pub mod channel;
pub mod decimal;
pub mod objects;
pub mod pubsub;
pub mod topic;
pub mod worker;
