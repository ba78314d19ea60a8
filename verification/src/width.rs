//! Conversions between integer types of different widths.

use vstd::prelude::*;

verus! {

/// Calls `cast::u16` on a `u32`: the value comes back unchanged where it is
/// at most 65535, and nothing comes back where it is greater.
#[verifier::external_body]
pub(crate) fn checked_u16(x: u32) -> (r: Option<u16>)
    ensures
        r is Some <==> x <= u16::MAX,
        r matches Some(v) ==> v == x,
{
    cast::u16(x).ok()
}

/// Calls `cast::u32` on a `u16`: the value comes back unchanged.
#[verifier::external_body]
pub(crate) fn widened_u32(x: u16) -> (r: u32)
    ensures
        r == x,
{
    cast::u32(x)
}

} // verus!
