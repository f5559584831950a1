//! Spend gate and usage-quota counter for tenant contracts.
//!
//! Two small policies that run against a key-value store owned by the host:
//!
//! * [`paywall`] enforces a per-session spend budget together with a per-call
//!   cap before an agent tool call is granted, and records the spend;
//! * [`quota`] keeps per-caller usage counters with a hard stop at the
//!   counter's limit, an explicit reset and a daily roll-over.
//!
//! The host (key-value reads and writes, caller identity, clock, logging) is
//! not part of this crate: every function here takes what the host returned
//! as plain values and hands back what is to be written or answered.
pub mod text;
pub mod json;
pub mod le;
pub mod quota;
pub mod paywall;

