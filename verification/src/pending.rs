//! The slot that holds the most recent screen capture until the overlay
//! window collects it.
use vstd::prelude::*;

verus! {

/// The message returned when there is no capture to collect.
pub open spec fn no_pending_message() -> Seq<char> {
    "No pending capture"@
}

/// A slot holding at most one capture that has not been collected yet.
pub struct PendingCapture<T> {
    slot: Option<T>,
}

impl<T> View for PendingCapture<T> {
    type V = Option<T>;

    closed spec fn view(&self) -> Option<T> {
        self.slot
    }
}

/// The slot after `capture` is recorded in `slot`.
pub open spec fn stored<T>(slot: Option<T>, capture: T) -> Option<T> {
    Some(capture)
}

/// What collecting from `slot` hands out, if anything.
pub open spec fn collected<T>(slot: Option<T>) -> Option<T> {
    slot
}

/// The slot after collecting from it.
pub open spec fn after_collect<T>(slot: Option<T>) -> Option<T> {
    None
}

impl<T> PendingCapture<T> {
    /// An empty slot.
    pub fn new() -> (res: Self)
        ensures
            res@ == None::<T>,
    {
        PendingCapture { slot: None }
    }

    /// Records `capture`, replacing any capture not yet collected.
    pub fn store(&mut self, capture: T)
        ensures
            final(self)@ == stored(old(self)@, capture),
    {
        self.slot = Some(capture);
    }

    /// Hands out the pending capture and empties the slot; fails with
    /// `No pending capture` when there is none.
    pub fn take(&mut self) -> (res: Result<T, String>)
        ensures
            final(self)@ == after_collect(old(self)@),
            match collected(old(self)@) {
                Some(c) => res == Ok::<T, String>(c),
                None => res matches Err(msg) && msg@ == no_pending_message(),
            },
    {
        match self.slot.take() {
            Some(c) => Ok(c),
            None => Err(String::from_str("No pending capture")),
        }
    }
}

/// Collecting right after a store hands out exactly the stored capture,
/// whatever the slot held before.
pub proof fn law_collect_returns_stored<T>(slot: Option<T>, capture: T)
    ensures
        collected(stored(slot, capture)) == Some(capture),
{
}

/// Once collected, a capture is gone: a second collection finds nothing.
pub proof fn law_collect_empties<T>(slot: Option<T>)
    ensures
        collected(after_collect(slot)) == None::<T>,
{
}

/// A later store replaces an earlier one that was never collected.
pub proof fn law_store_replaces<T>(slot: Option<T>, first: T, second: T)
    ensures
        collected(stored(stored(slot, first), second)) == Some(second),
{
}

} // verus!
