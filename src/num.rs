//! Integer conversions, through `num_traits::ToPrimitive`.
use vstd::prelude::*;
use num_traits::ToPrimitive;

verus! {

/// Relies on `num_traits::ToPrimitive::to_u16` for `i64`: `Some` exactly when
/// the value lies in `0..=u16::MAX`, and then the same number.
#[verifier::external_body]
pub(crate) fn i64_to_u16(v: i64) -> (r: Option<u16>)
    ensures
        r == (if 0 <= v <= u16::MAX {
            Some(v as u16)
        } else {
            None::<u16>
        }),
{
    v.to_u16()
}

/// Relies on `num_traits::ToPrimitive::to_u32` for `i64`: `Some` exactly when
/// the value lies in `0..=u32::MAX`, and then the same number.
#[verifier::external_body]
pub(crate) fn i64_to_u32(v: i64) -> (r: Option<u32>)
    ensures
        r == (if 0 <= v <= u32::MAX {
            Some(v as u32)
        } else {
            None::<u32>
        }),
{
    v.to_u32()
}

/// Relies on `num_traits::ToPrimitive::to_usize` for `isize`: `Some` exactly
/// when the value is not negative, and then the same number.
#[verifier::external_body]
pub(crate) fn isize_to_usize(v: isize) -> (r: Option<usize>)
    ensures
        r == (if 0 <= v {
            Some(v as usize)
        } else {
            None::<usize>
        }),
{
    v.to_usize()
}

} // verus!
