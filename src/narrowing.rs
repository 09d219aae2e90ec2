//! Checked integer conversions of the `cast` crate.

use vstd::prelude::*;

verus! {

/// Relies on `cast::u16` from a `u32`, which returns the same value when it
/// fits in 16 bits and an overflow error otherwise; the error is dropped.
#[verifier::external_body]
pub(crate) fn narrow_u16(x: u32) -> (r: Option<u16>)
    ensures
        x <= 0xffff ==> r == Some(x as u16),
        x > 0xffff ==> r == None::<u16>,
{
    cast::u16(x).ok()
}

/// Relies on `cast::u32` from a `u16`: the same value, widened.
#[verifier::external_body]
pub(crate) fn widen_u32(x: u16) -> (r: u32)
    ensures
        r == x as u32,
{
    cast::u32(x)
}

} // verus!
