//! The admission controller: a counting gate with a fixed capacity.
//!
//! Nothing else in the service is both shared and mutable, so this type
//! deserves care. It offers exactly two mutating operations,
//! `try_acquire` and `release`; there is no way to read the counter and
//! write it back separately, which rules out check-then-act races by
//! construction. A caller that shares one gate across many request
//! handlers puts it behind a lock and holds that lock per operation.

use vstd::prelude::*;

verus! {

/// One unit of admitted concurrency, handed out by a successful
/// `try_acquire` and consumed by the matching `release`.
pub struct AdmissionSlot {
    _token: (),
}

/// A counting gate: an immutable capacity and a live count of held slots.
pub struct AdmissionGate {
    capacity: usize,
    held: usize,
}

/// The count of held slots after one non-blocking acquisition attempt
/// against a gate with capacity `c` and `h` slots held.
pub open spec fn step_held(c: nat, h: nat) -> nat {
    if h < c {
        h + 1
    } else {
        h
    }
}

impl AdmissionGate {
    /// The configured ceiling on simultaneously held slots.
    pub closed spec fn spec_capacity(&self) -> nat {
        self.capacity as nat
    }

    /// The live count of held slots.
    pub closed spec fn spec_held(&self) -> nat {
        self.held as nat
    }

    /// The number of slots still free.
    pub open spec fn spec_available(&self) -> nat {
        (self.spec_capacity() - self.spec_held()) as nat
    }

    /// Well-formedness: the capacity is positive and the held count never
    /// exceeds it.
    pub open spec fn wf(&self) -> bool {
        1 <= self.spec_capacity() && self.spec_held() <= self.spec_capacity()
    }

    /// Creates a gate with the given positive capacity and no held slots.
    pub fn new(capacity: usize) -> (g: AdmissionGate)
        requires
            1 <= capacity,
        ensures
            g.wf(),
            g.spec_capacity() == capacity,
            g.spec_held() == 0,
    {
        AdmissionGate { capacity, held: 0 }
    }

    /// Non-blocking acquisition. When a slot is free the caller gets it
    /// and the count of held slots grows; when none is, the answer is an
    /// immediate `None` — this gate sheds load, it never queues.
    pub fn try_acquire(&mut self) -> (r: Option<AdmissionSlot>)
        requires
            old(self).wf(),
        ensures
            final(self).wf(),
            final(self).spec_capacity() == old(self).spec_capacity(),
            final(self).spec_held() == step_held(old(self).spec_capacity(), old(self).spec_held()),
            r is Some <==> old(self).spec_held() < old(self).spec_capacity(),
    {
        if self.held < self.capacity {
            self.held = self.held + 1;
            Some(AdmissionSlot { _token: () })
        } else {
            None
        }
    }

    /// Returns a held slot. A release without a matching prior acquire is a
    /// programming error, excluded by the precondition rather than masked.
    pub fn release(&mut self, slot: AdmissionSlot)
        requires
            old(self).wf(),
            1 <= old(self).spec_held(),
        ensures
            final(self).wf(),
            final(self).spec_capacity() == old(self).spec_capacity(),
            final(self).spec_held() == old(self).spec_held() - 1,
    {
        let AdmissionSlot { _token } = slot;
        self.held = self.held - 1;
    }

    /// Read-only query: how many slots are currently free.
    pub fn available_slots(&self) -> (r: usize)
        requires
            self.wf(),
        ensures
            r == self.spec_available(),
    {
        self.capacity - self.held
    }

    /// Read-only query: the configured capacity.
    pub fn capacity(&self) -> (r: usize)
        ensures
            r == self.spec_capacity(),
    {
        self.capacity
    }
}

/// The held count after `n` consecutive acquisition attempts against a
/// gate with capacity `c` that starts with `h` slots held, with no
/// releases in between. Each attempt moves the count exactly as
/// `try_acquire` does, whatever order concurrent callers arrive in.
pub open spec fn held_after_tries(c: nat, h: nat, n: nat) -> nat
    decreases n,
{
    if n == 0 {
        h
    } else {
        step_held(c, held_after_tries(c, h, (n - 1) as nat))
    }
}

/// After `n` back-to-back acquisition attempts the held count stands at
/// `min(h + n, c)`. An attempt below the ceiling always succeeds and an
/// attempt at the ceiling never does, so of the `n` attempts exactly
/// `min(n, c - h)` succeed.
pub proof fn lemma_burst_admission(c: nat, h: nat, n: nat)
    requires
        h <= c,
    ensures
        held_after_tries(c, h, n) == if h + n <= c {
            h + n
        } else {
            c
        },
    decreases n,
{
    if n > 0 {
        lemma_burst_admission(c, h, (n - 1) as nat);
    }
}

/// Against a fresh gate of positive capacity `c`, a burst of `n`
/// acquisition attempts admits exactly `min(n, c)` callers — no
/// over-admission, no under-admission — and leaves `max(c - n, 0)` slots
/// available afterwards.
pub proof fn lemma_concurrent_burst(c: nat, n: nat)
    requires
        1 <= c,
    ensures
        held_after_tries(c, 0, n) == if n <= c {
            n
        } else {
            c
        },
        c - held_after_tries(c, 0, n) == if c >= n {
            c - n
        } else {
            0
        },
{
    lemma_burst_admission(c, 0, n);
}

/// Slot conservation: on any well-formed gate — and every gate reachable
/// through `new`, `try_acquire` and `release` is one — the free and held
/// slots always add up to the capacity.
pub proof fn lemma_slot_conservation(g: &AdmissionGate)
    requires
        g.wf(),
    ensures
        g.spec_available() + g.spec_held() == g.spec_capacity(),
{
}

/// A released slot is immediately acquirable: after a release brings the
/// held count from `h` to `h - 1`, the next acquisition attempt succeeds
/// and restores the count to `h`, so full acquire-release cycles never
/// leak capacity.
pub proof fn lemma_release_makes_acquirable(c: nat, h: nat)
    requires
        1 <= h <= c,
    ensures
        ((h - 1) as nat) < c,
        step_held(c, (h - 1) as nat) == h,
{
}

} // verus!
