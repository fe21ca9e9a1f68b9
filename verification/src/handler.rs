//! The workload handler's admission state machine.
//!
//! Splitting one request into two library calls lets the part that
//! cannot be verified — an async sleep between them — stay outside the
//! crate while the bookkeeping on either side is proved.
//! `mock_handler_admit` decides whether work may start;
//! `mock_handler_complete` takes back what `mock_handler_admit` handed
//! out. The caller must always pair the two calls: a `PendingRequest`
//! that is dropped instead of completed would shrink the usable
//! capacity for good.

use vstd::prelude::*;
use crate::gate::AdmissionGate;
use crate::gate::AdmissionSlot;
use crate::gate::step_held;

verus! {

/// An admitted request inside its simulated delay, still holding the one
/// admission slot it acquired. Only `mock_handler_admit` creates one.
pub struct PendingRequest {
    slot: AdmissionSlot,
}

/// First half of the request path: the admission decision. A full gate
/// answers `None`, which the transport turns into its overload reply.
pub fn mock_handler_admit(gate: &mut AdmissionGate) -> (r: Option<PendingRequest>)
    requires
        old(gate).wf(),
    ensures
        final(gate).wf(),
        final(gate).spec_capacity() == old(gate).spec_capacity(),
        final(gate).spec_held() == step_held(old(gate).spec_capacity(), old(gate).spec_held()),
        r is Some <==> old(gate).spec_held() < old(gate).spec_capacity(),
{
    match gate.try_acquire() {
        Some(slot) => Some(PendingRequest { slot }),
        None => None,
    }
}

/// Second half of the request path: the delay is over (or was cut short),
/// and the admitted request returns its slot. After this the success
/// payload is owed to the caller.
pub fn mock_handler_complete(gate: &mut AdmissionGate, pending: PendingRequest)
    requires
        old(gate).wf(),
        1 <= old(gate).spec_held(),
    ensures
        final(gate).wf(),
        final(gate).spec_capacity() == old(gate).spec_capacity(),
        final(gate).spec_held() == old(gate).spec_held() - 1,
{
    let PendingRequest { slot } = pending;
    gate.release(slot);
}

} // verus!
