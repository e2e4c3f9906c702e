//! Verified core of a two-player lobby coordinator.
//!
//! A lobby is a two-slot session keyed by a short alphanumeric code. The two
//! occupants pick a selection (a role or character), signal readiness, share
//! one song choice, and transition into and out of a running match while
//! reporting live scores. This crate holds the whole state machine — the
//! rules that decide who may occupy a slot, when a match may start, and how a
//! song change invalidates prior progress — together with its proofs. The
//! surrounding system supplies caller identities, timestamps and durable
//! storage; the core is purely reactive and never performs I/O.

pub mod codes;
pub mod errors;
pub mod coordinator;
pub mod laws;
pub mod lobby;
pub mod presence;
