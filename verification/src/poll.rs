//! Operations that do not wait.

use vstd::prelude::*;

verus! {

/// What a look at the status says about an operation that does not wait
#[derive(Debug, Clone, Copy, PartialEq, Eq, Structural)]
pub enum Poll<E> {
    /// The operation can be carried out now
    Ready,
    /// The operation has to be tried again later
    WouldBlock,
    /// The operation has failed
    Failed(E),
}

} // verus!
