//! Marker traits that say what a pin mode allows.

use vstd::prelude::*;

verus! {

/// Marker trait that show if `ExtiPin` can be implemented
pub trait Interruptible {

}

/// Marker trait for readable pin modes
pub trait Readable {

}

/// Marker trait for slew rate configurable pin modes
pub trait OutputSpeed {

}

/// Marker trait for active pin modes
pub trait Active {

}

/// Marker trait for all pin modes except alternate
pub trait NotAlt {

}

} // verus!
