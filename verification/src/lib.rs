//! Dynamic payload-routing and event-merge engine.
//!
//! A live, multiplexed packet stream is fanned out into independently
//! constructed processing branches, one per distinct payload type, while the
//! health of the processing graph is supervised concurrently. This crate holds
//! the verified core: deriving a capability descriptor for every packet,
//! resolving branch construction recipes by codec name (with a discard
//! fallback for unknown codecs), routing by payload type, and merging the
//! packet feed with the graph's status bus into one control loop with
//! well-defined termination and failure semantics. Network and graph-engine
//! I/O live outside this crate and drive it with plain values.

pub mod auth;
pub mod caps;
pub mod ingest;
pub mod lifecycle;
pub mod merge;
pub mod recipe;
pub mod router;
