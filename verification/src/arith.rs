//! Overflow-checked counter arithmetic used by every mutating operation.

use vstd::prelude::*;

use crate::types::ErrorCode;

verus! {

/// Increments a counter, failing rather than wrapping at the maximum
/// representable value.
pub fn checked_increment(counter: u32) -> (r: Result<u32, ErrorCode>)
    ensures
        counter < u32::MAX ==> r == Ok::<u32, ErrorCode>((counter + 1) as u32),
        counter == u32::MAX ==> r == Err::<u32, ErrorCode>(ErrorCode::Overflow),
{
    if counter == u32::MAX {
        Err(ErrorCode::Overflow)
    } else {
        Ok(counter + 1)
    }
}

} // verus!
