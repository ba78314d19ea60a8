use vstd::prelude::*;

verus! {

/// Closes a trait to types outside this crate's peripheral list.
pub trait Sealed {

}

} // verus!
