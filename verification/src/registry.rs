//! Replaceable notification slots with fault containment.
//!
//! The engine notifies the application of peer-count, tempo and transport
//! changes through three independently replaceable callback slots. Each slot
//! is guarded by a lock, so replacement, clearing and invocation cannot
//! race, and each invocation runs behind a fault barrier: a fault raised by
//! user code is caught at the boundary instead of unwinding into the native
//! engine. A contained fault poisons the slot — delivery is suspended and
//! the condition is reported at the next registration or clearing — but the
//! slot stays usable: registering a new callback resumes delivery.
//!
//! This module holds the verified state machine of one slot. The lock, the
//! stored closure and the fault barrier themselves are execution-context
//! plumbing that lives with the embedding application, which mirrors every
//! transition of its closure table through these operations.

use vstd::prelude::*;

verus! {

/// The state of one notification slot.
#[derive(Clone, Copy, Debug, Hash, PartialEq, Eq, Structural)]
pub enum SlotStatus {
    /// No callback is registered; delivery attempts are skipped.
    Vacant,
    /// A callback is registered and reached by delivery attempts.
    Armed,
    /// The registered callback raised a fault during an invocation. The
    /// fault was contained at the invocation boundary; delivery is
    /// suspended until a new callback is registered, and the condition is
    /// reported at the next registration or clearing.
    Poisoned,
}

/// The slot state after registering a callback: armed, whatever came
/// before.
pub open spec fn slot_after_register(s: SlotStatus) -> SlotStatus {
    SlotStatus::Armed
}

/// The slot state after clearing: vacant, whatever came before.
pub open spec fn slot_after_clear(s: SlotStatus) -> SlotStatus {
    SlotStatus::Vacant
}

/// Whether registering or clearing a slot in state `s` reports a fault
/// contained during an earlier invocation.
pub open spec fn slot_reports_fault(s: SlotStatus) -> bool {
    s is Poisoned
}

/// Whether a delivery attempt on a slot in state `s` reaches a callback.
pub open spec fn slot_delivers(s: SlotStatus) -> bool {
    s is Armed
}

/// The slot state after a delivery attempt whose user code either returned
/// normally (`faulted == false`) or raised a fault that the invocation
/// boundary contained (`faulted == true`).
pub open spec fn slot_after_invocation(s: SlotStatus, faulted: bool) -> SlotStatus {
    if s is Armed && faulted {
        SlotStatus::Poisoned
    } else {
        s
    }
}

/// One lock-guarded notification slot.
pub struct CallbackSlot {
    status: SlotStatus,
}

impl View for CallbackSlot {
    type V = SlotStatus;

    closed spec fn view(&self) -> SlotStatus {
        self.status
    }
}

impl CallbackSlot {
    /// A fresh slot with no callback registered.
    pub fn new() -> (s: CallbackSlot)
        ensures
            s@ is Vacant,
    {
        CallbackSlot { status: SlotStatus::Vacant }
    }

    /// The current state of the slot.
    pub fn status(&self) -> (r: SlotStatus)
        ensures
            r == self@,
    {
        self.status
    }

    /// Whether a delivery attempt would currently reach a callback.
    pub fn is_armed(&self) -> (r: bool)
        ensures
            r == slot_delivers(self@),
    {
        self.status == SlotStatus::Armed
    }

    /// Registers a callback, replacing any previous one under the slot's
    /// lock. Returns whether a fault contained during an earlier invocation
    /// is being reported; either way the slot is armed afterward, so
    /// delivery resumes.
    pub fn register(&mut self) -> (prior_fault: bool)
        ensures
            final(self)@ == slot_after_register(old(self)@),
            prior_fault == slot_reports_fault(old(self)@),
    {
        let prior_fault = self.status == SlotStatus::Poisoned;
        self.status = SlotStatus::Armed;
        prior_fault
    }

    /// Clears the slot without registering a new callback. Returns whether
    /// a fault contained during an earlier invocation is being reported.
    pub fn clear(&mut self) -> (prior_fault: bool)
        ensures
            final(self)@ == slot_after_clear(old(self)@),
            prior_fault == slot_reports_fault(old(self)@),
    {
        let prior_fault = self.status == SlotStatus::Poisoned;
        self.status = SlotStatus::Vacant;
        prior_fault
    }

    /// Records the outcome of one delivery attempt: whether a callback was
    /// present to invoke, and — when the user code raised a fault that the
    /// invocation boundary contained — the poisoning of the slot.
    pub fn note_invocation(&mut self, faulted: bool) -> (delivered: bool)
        ensures
            final(self)@ == slot_after_invocation(old(self)@, faulted),
            delivered == slot_delivers(old(self)@),
    {
        let delivered = self.status == SlotStatus::Armed;
        if delivered && faulted {
            self.status = SlotStatus::Poisoned;
        }
        delivered
    }
}

/// Fault containment: when the callback registered in a slot raises a fault
/// during delivery, the attempt itself completes — the slot moves to the
/// poisoned state instead of the fault propagating — further delivery on
/// that slot is suspended, the fault is reported at the next registration,
/// and registering a new callback restores delivery.
pub proof fn lemma_fault_containment(s: SlotStatus)
    requires
        slot_delivers(s),
    ensures
        slot_after_invocation(s, true) is Poisoned,
        !slot_delivers(slot_after_invocation(s, true)),
        slot_reports_fault(slot_after_invocation(s, true)),
        slot_delivers(slot_after_register(slot_after_invocation(s, true))),
{
}

} // verus!
