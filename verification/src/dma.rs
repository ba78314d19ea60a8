//! Direct memory access: names of its events, and what a running transfer
//! has delivered.

use vstd::prelude::*;

verus! {

/// DMA interrupt event
#[derive(Clone, Copy, Debug, PartialEq, Eq, Structural)]
pub enum Event {
    HalfTransfer,
    TransferComplete,
}

/// Half of a circular buffer
#[derive(Clone, Copy, Debug, PartialEq, Eq, Structural)]
pub enum Half {
    First,
    Second,
}

/// The part of a transfer's buffer that is filled already, when the
/// channel still has `pending` of its items to move.
pub fn peek<T>(buffer: &[T], pending: usize) -> (filled: &[T])
    requires
        pending <= buffer@.len(),
    ensures
        filled@ == buffer@.subrange(0, buffer@.len() - pending),
{
    let capacity: usize = buffer.len();
    vstd::slice::slice_subrange(buffer, 0, capacity - pending)
}

/// Read transfer
pub struct R;

/// Write transfer
pub struct W;

} // verus!
