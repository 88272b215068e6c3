//! What an HTTP status says.

use vstd::prelude::*;

verus! {

/// A status says that a request was granted.
pub open spec fn grants(status: u16) -> bool {
    200 <= status < 300
}

/// Whether a status says that a request was granted.
pub fn is_success(status: u16) -> (r: bool)
    ensures
        r == grants(status),
{
    200 <= status && status < 300
}

/// A status grants a request where it is one of the two hundreds.
pub proof fn law_two_hundreds_grant(status: u16)
    ensures
        grants(status) <==> status / 100 == 2,
{
}

} // verus!
