//! Bookkeeping of awaitable values: a write-once value, a resettable value
//! and a one-shot notifier.
//!
//! Each state pairs the value slot with the producer `S` that completes the
//! broadcast of the current epoch; the producer is present exactly while no
//! value is, and is handed out by the call that fills the slot. The
//! resettable state also keeps the consumer `R` of the current epoch, so
//! every handle can follow the epoch that a `take` starts.
use vstd::prelude::*;

pub mod immutable;
pub mod mutable;

pub use immutable::{
    after_set, after_sets, lemma_first_set_is_kept, lemma_notify_idempotent, lemma_racing_sets,
    lemma_set_value_stays, set_succeeds, NotifyState, OnceState,
};

verus! {

/// The error of a `set` on a value that is already present.
#[derive(Debug, Clone, Copy, PartialEq, Eq, Structural)]
pub struct AlreadySet {}

impl AlreadySet {
    /// Human-readable description of the error.
    pub fn message(&self) -> (r: &'static str)
        ensures
            r@ == "value already set"@,
    {
        "value already set"
    }
}

} // verus!
