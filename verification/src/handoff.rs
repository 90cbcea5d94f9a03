//! The handoff store: one slot that carries a payload from the router to a
//! surface that becomes ready only after it was shown.
//!
//! The slot holds at most one payload. A new payload replaces the one that is
//! there, read or not: the last write wins and nothing is queued. Reading does
//! not empty the slot; the surface that has used the payload clears it.

use crate::json::json_clone;
use serde_json::Value;
use vstd::prelude::*;

verus! {

/// The slot after a payload was staged into it, whatever it held.
pub open spec fn slot_after_set(slot: Option<Value>, payload: Value) -> Option<Value> {
    Some(payload)
}

/// The slot after it was cleared, whatever it held.
pub open spec fn slot_after_clear(slot: Option<Value>) -> Option<Value> {
    None
}

/// What a reader of the slot gets: what the slot holds.
pub open spec fn slot_peek(slot: Option<Value>) -> Option<Value> {
    slot
}

/// The handoff store.
#[derive(Debug)]
pub struct Handoff {
    slot: Option<Value>,
}

impl View for Handoff {
    type V = Option<Value>;

    closed spec fn view(&self) -> Option<Value> {
        self.slot
    }
}

impl Handoff {
    /// An empty store.
    pub fn new() -> (store: Handoff)
        ensures
            store@ is None,
    {
        Handoff { slot: None }
    }

    /// Stages a payload. A payload that was staged before and not yet cleared
    /// is lost.
    pub fn set(&mut self, payload: Value)
        ensures
            final(self)@ == slot_after_set(old(self)@, payload),
    {
        self.slot = Some(payload);
    }

    /// The staged payload, which stays in the store.
    pub fn get_and_peek(&self) -> (payload: Option<Value>)
        ensures
            payload == slot_peek(self@),
    {
        match &self.slot {
            Some(payload) => Some(json_clone(payload)),
            None => None,
        }
    }

    /// Empties the store. Clearing an empty store changes nothing.
    pub fn clear(&mut self)
        ensures
            final(self)@ == slot_after_clear(old(self)@),
    {
        self.slot = None;
    }
}

/// A reader after `set` gets the payload that was set.
pub proof fn lemma_set_then_peek(slot: Option<Value>, payload: Value)
    ensures
        slot_peek(slot_after_set(slot, payload)) == Some(payload),
{
}

/// A reader after `clear` gets nothing.
pub proof fn lemma_clear_then_peek(slot: Option<Value>)
    ensures
        slot_peek(slot_after_clear(slot)) is None,
{
}

/// Of two payloads set one after the other, a reader gets the second only.
pub proof fn lemma_last_set_wins(slot: Option<Value>, first: Value, second: Value)
    ensures
        slot_peek(slot_after_set(slot_after_set(slot, first), second)) == Some(second),
{
}

/// Clearing twice is clearing once.
pub proof fn lemma_clear_is_idempotent(slot: Option<Value>)
    ensures
        slot_after_clear(slot_after_clear(slot)) == slot_after_clear(slot),
{
}

} // verus!
