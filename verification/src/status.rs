//! HTTP status code classification used by the transfer operations.

use vstd::prelude::*;

verus! {

/// A status code in the 2xx range reports success.
pub open spec fn spec_is_success(status: u16) -> bool {
    200 <= status < 300
}

/// Returns whether `status` is a success (2xx) status code.
pub fn is_success_status(status: u16) -> (r: bool)
    ensures
        r == spec_is_success(status),
{
    200 <= status && status < 300
}

} // verus!
