//! What the two HTTP services of a run have in common.

use vstd::prelude::*;

verus! {

/// Whether an HTTP status says that the request was served: one of 200 to
/// 299.
pub open spec fn served(status: u16) -> bool {
    200 <= status <= 299
}

/// Whether an HTTP status says that the request was served.
pub fn is_served(status: u16) -> (yes: bool)
    ensures
        yes == served(status),
{
    200 <= status && status <= 299
}

} // verus!
