//! A token-locking engine that issues weighted voting tokens, and a
//! deposit-gated governance engine that tallies those weights.
//!
//! Both engines are deterministic state machines: every operation takes the
//! state it reads as plain values, checks all of its preconditions, and only
//! then returns the new state together with the messages that the host must
//! dispatch.

pub mod bindings;
pub mod decimal;
pub mod gov_query;
pub mod gov_state;
pub mod governance;
pub mod keyed;
pub mod locker;
pub mod locker_query;
pub mod migration;
pub mod types;
