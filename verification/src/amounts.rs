//! Checked narrowing between the engine's 64-bit monetary amounts and the
//! 32-bit amounts visible on the boundary.
//!
//! Narrowing never wraps: an amount that does not fit the narrower integer
//! is rejected, and an in-range amount round-trips exactly.

use vstd::prelude::*;

use crate::errors::BoundaryError;
use crate::errors::ErrorKind;
use crate::errors::MalformedKind;
use crate::errors::error_wf;
use crate::errors::malformed;

verus! {

/// What narrowing a 64-bit amount to 32 bits yields: the same value when it
/// fits, nothing when it does not.
pub open spec fn spec_narrow(v: u64) -> Option<u32> {
    if v <= u32::MAX {
        Some(v as u32)
    } else {
        None
    }
}

/// Narrow a 64-bit amount to 32 bits, rejecting values out of range.
pub fn narrow_u64_to_u32(v: u64) -> (r: Option<u32>)
    ensures
        r == spec_narrow(v),
{
    if v <= u32::MAX as u64 {
        Some(v as u32)
    } else {
        None
    }
}

/// Narrow a 64-bit engine amount to the boundary's 32 bits, reporting an
/// out-of-range amount as a conversion error.
pub fn narrow_amount(v: u64) -> (r: Result<u32, BoundaryError>)
    ensures
        v <= u32::MAX ==> (r matches Ok(n) && n == v),
        v > u32::MAX ==> (r matches Err(e) && e.kind == ErrorKind::Malformed(
            MalformedKind::AmountOutOfRange,
        ) && error_wf(e)),
{
    match narrow_u64_to_u32(v) {
        Some(n) => Ok(n),
        None => Err(malformed(MalformedKind::AmountOutOfRange)),
    }
}

/// Narrow an optional 64-bit engine amount, preserving absence exactly: an
/// absent amount stays absent and is never replaced by zero.
pub fn narrow_optional_amount(v: &Option<u64>) -> (r: Result<Option<u32>, BoundaryError>)
    ensures
        v is None ==> r == Ok::<Option<u32>, BoundaryError>(None),
        v matches Some(x) ==> {
            &&& x <= u32::MAX ==> r == Ok::<Option<u32>, BoundaryError>(Some(x as u32))
            &&& x > u32::MAX ==> (r matches Err(e) && e.kind == ErrorKind::Malformed(
                MalformedKind::AmountOutOfRange,
            ) && error_wf(e))
        },
{
    match v {
        None => Ok(None),
        Some(x) => match narrow_amount(*x) {
            Ok(n) => Ok(Some(n)),
            Err(e) => Err(e),
        },
    }
}

/// Widen a boundary amount to the engine's 64 bits; always exact.
pub fn widen_u32_to_u64(v: u32) -> (r: u64)
    ensures
        r == v,
{
    v as u64
}

/// Narrowing is safe: every in-range amount narrows to itself and every
/// out-of-range amount is rejected rather than wrapped.
pub proof fn lemma_narrow_rejects_or_is_exact(v: u64)
    ensures
        v <= u32::MAX ==> spec_narrow(v) == Some(v as u32) && (v as u32) as u64 == v,
        v > u32::MAX ==> spec_narrow(v) is None,
{
}

/// Widening then narrowing reproduces every boundary amount exactly.
pub proof fn lemma_widen_narrow_round_trip(v: u32)
    ensures
        spec_narrow(v as u64) == Some(v),
{
}

} // verus!
