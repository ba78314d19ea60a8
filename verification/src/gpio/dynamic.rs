//! Pins whose mode is chosen at run time.

use vstd::prelude::*;

verus! {

/// Pin type with dynamic mode
///
/// - `P` is port name: `PORT_A` for GPIOA, `PORT_B` for GPIOB, etc.
/// - `N` is pin number: from `0` to `15`.
pub struct DynamicPin<const P: u8, const N: u8> {
    /// Current pin mode
    pub(crate) mode: Dynamic,
}

/// Tracks the current pin state for dynamic pins
#[derive(Clone, Copy, PartialEq, Eq, Structural, Debug)]
pub enum Dynamic {
    /// Floating input mode
    InputFloating,
    /// Pull-up input mode
    InputPullUp,
    /// Pull-down input mode
    InputPullDown,
    /// Push-pull output mode
    OutputPushPull,
    /// Open-drain output mode
    OutputOpenDrain,
}

impl<const P: u8, const N: u8> DynamicPin<P, N> {
    pub(crate) fn new(mode: Dynamic) -> (pin: Self)
        ensures
            pin.spec_mode() == mode,
    {
        Self { mode }
    }

    /// The mode that the pin is in.
    pub closed spec fn spec_mode(&self) -> Dynamic {
        self.mode
    }

    /// The mode that the pin is in.
    #[verifier::when_used_as_spec(spec_mode)]
    pub fn mode(&self) -> (mode: Dynamic)
        ensures
            mode == self.spec_mode(),
    {
        self.mode
    }
}

} // verus!
