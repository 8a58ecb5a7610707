//! A guardian-weighted, threshold-approval settlement engine for a
//! cross-chain value bridge.
//!
//! The engine tracks interest-bearing custodial positions, aggregates
//! weighted approvals for releasing locked value on a destination domain,
//! and governs its own upgrade process through the same weighted-voting
//! mechanism.  Every operation takes an explicit invocation context (the
//! caller identity and the current time) and works on an in-memory
//! [`storage::BridgeState`]; the hosting execution environment is expected
//! to load the state, run one operation, and either commit all of its
//! effects or none of them.

pub mod actions;
pub mod dict;
pub mod events;
pub mod laws;
pub mod storage;
pub mod types;
pub mod utils;
