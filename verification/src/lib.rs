//! A verified model of an on-ledger "generate, mint, trade, rate" state machine.
//!
//! A caller submits a code-generation request (subject to a per-account daily
//! quota), a privileged operator reports completion, the requester may mint a
//! one-of-a-kind template token from a completed generation, and minted tokens
//! can be listed, purchased (with a platform-fee split) and rated on an
//! embedded marketplace. Every operation is all-or-nothing: a failed
//! precondition returns an error and leaves the state untouched.
//!
//! The machine is specified twice and tied together by proof: the transition
//! functions in [`transitions`] say, over the mathematical state of
//! [`state`], what each operation does; the executable
//! [`contract::ContractGenerator`] is verified to follow them exactly; and
//! [`laws`] proves the global guarantees — the invariant, the daily quota,
//! one mint per generation, the fee split, one rating per account and token.
//!
//! The ledger environment (caller identity, block timestamp, attached
//! payments) enters each operation as plain arguments; outbound value
//! movements and notifications are recorded in append-only logs that the
//! surrounding runtime performs after the state change has been committed.

pub mod contract;
pub mod fees;
pub mod laws;
pub mod state;
pub mod table;
pub mod transitions;
pub mod types;

pub use contract::ContractGenerator;
