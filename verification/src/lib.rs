//! Node-side orchestration for an EVM-compatible blockchain node.
//!
//! The node runs either as a collator, whose blocks are validated against a
//! relay chain, or as a standalone development node driven by a configurable
//! sealing policy.  This crate holds the decision logic of that orchestration
//! layer, stated and proved over plain values:
//!
//! - the sealing triggers (instant, manual, interval) and the bounded manual
//!   command queue ([`sealing`]),
//! - the manual-seal authorship loop state machine ([`authorship`]),
//! - the relay-chain-gated collation path ([`collation`]),
//! - the two bounded auxiliary registries (log filters and pending
//!   transactions) with their rolling block-height eviction ([`registry`]),
//! - the append-only block-hash mapping index ([`mapping`]),
//! - supervision of essential long-running tasks ([`supervisor`]),
//! - the fixed precompile dispatch table and the deterministic
//!   resource-consumption precompile ([`precompiles`]).
//!
//! Two supporting modules carry the shared groundwork: the big-endian
//! encoding of 64-bit fields ([`bytes`]) and the unique-key association list
//! behind the registries and the mapping index ([`kv`]).
//!
//! I/O, timers, networking and the surrounding runtime framework stay outside
//! this crate; they hand plain values in and take plain values back.

pub mod authorship;
pub mod bytes;
pub mod collation;
pub mod kv;
pub mod mapping;
pub mod precompiles;
pub mod registry;
pub mod sealing;
pub mod supervisor;
