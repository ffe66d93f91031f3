//! The fetch coordinator: the single-slot handoff between the background
//! fetch and the presentation loop, and the non-blocking drain that
//! reconciles a completed fetch into the visible state.
//!
//! The slot itself is shared across threads behind a mutex, so its contents
//! are outside what can be reasoned about here: nothing is assumed of what a
//! `take` returns, and the drain contract holds for every outcome the slot
//! could hand back.

use vstd::prelude::*;
use std::sync::{Arc, Mutex};
use crate::app_state::{reconciled, AppState, FetchOutcome};

verus! {

/// The single-slot handoff. The background task writes its outcome once; the
/// next drain that finds the slot free takes it. Holding it is sharing it:
/// a clone reaches the same slot.
///
/// Relies on `std::sync::Mutex` over an `Option` as a single-producer,
/// single-consumer cell, and on `std::sync::Arc` for sharing it with the
/// background task.
#[verifier::external_body]
pub struct PendingSlot {
    cell: Arc<Mutex<Option<FetchOutcome>>>,
}

impl Clone for PendingSlot {
    /// Relies on `std::sync::Arc::clone`: the clone reaches the same slot.
    #[verifier::external_body]
    fn clone(&self) -> (r: Self)
        ensures
            r == *self,
    {
        PendingSlot { cell: Arc::clone(&self.cell) }
    }
}

impl PendingSlot {
    /// Relies on `std::sync::Mutex::new`: a fresh slot, initially empty.
    #[verifier::external_body]
    pub fn new() -> PendingSlot {
        PendingSlot { cell: Arc::new(Mutex::new(None)) }
    }

    /// Relies on `std::sync::Mutex::lock`: stores the outcome, replacing
    /// whatever the slot held (the last writer wins; nothing is cancelled).
    /// A poisoned lock drops the outcome rather than panic.
    #[verifier::external_body]
    pub fn put(&self, outcome: FetchOutcome) {
        if let Ok(mut guard) = self.cell.lock() {
            *guard = Some(outcome);
        }
    }

    /// Relies on `std::sync::Mutex::try_lock` and `Option::take`: empties and
    /// returns the slot's content without ever blocking — a slot held by the
    /// writer at this instant reads as empty and is retried next tick.
    #[verifier::external_body]
    pub fn take(&self) -> Option<FetchOutcome> {
        match self.cell.try_lock() {
            Ok(mut guard) => guard.take(),
            Err(_) => None,
        }
    }
}

/// Owns the handoff slot and runs the dispatch-and-drain protocol against
/// the application state.
pub struct Coordinator {
    slot: PendingSlot,
}

/// How one drain relates the state before to the state after: either the
/// slot was empty and nothing moved, or one outcome was consumed and
/// reconciled.
pub open spec fn drained(pre: AppState, taken: Option<FetchOutcome>, post: AppState) -> bool {
    match taken {
        None => post == pre,
        Some(outcome) => reconciled(pre, outcome, post),
    }
}

impl Coordinator {
    /// The slot this coordinator drains: what [`Coordinator::dispatch`] hands
    /// out writes here and nowhere else.
    pub closed spec fn slot_handle(self) -> PendingSlot {
        self.slot
    }

    pub fn new() -> Coordinator {
        Coordinator { slot: PendingSlot::new() }
    }

    /// Starts one background fetch: marks the state loading and hands back
    /// the handle of this coordinator's own slot, which the background task
    /// writes its outcome into and the next drains read. Never blocks; a
    /// prior in-flight fetch is not cancelled and its late result will still
    /// reconcile (last writer wins).
    pub fn dispatch(&self, state: &mut AppState) -> (writer: PendingSlot)
        ensures
            writer == self.slot_handle(),
            final(state).is_loading == true,
            final(state).error_message is None,
            final(state).current_category == old(state).current_category,
            final(state).view_mode == old(state).view_mode,
            final(state).stories == old(state).stories,
            final(state).saved_stories == old(state).saved_stories,
            final(state).favorite_ids == old(state).favorite_ids,
            final(state).theme == old(state).theme,
    {
        state.begin_fetch();
        self.slot.clone()
    }

    /// The non-blocking drain the presentation loop calls once per tick:
    /// consumes at most one pending outcome and reconciles it. Whatever the
    /// slot hands back, the state moves as [`drained`] says.
    pub fn drain(&self, state: &mut AppState)
        ensures
            exists|taken: Option<FetchOutcome>| drained(*old(state), taken, *final(state)),
    {
        let taken = self.slot.take();
        let ghost witness = taken;
        match taken {
            Some(outcome) => state.reconcile(outcome),
            None => (),
        }
        proof {
            assert(drained(*old(state), witness, *state));
        }
    }
}

} // verus!
