//! Query strings for the solar gateway's local API.
//!
//! The gateway endpoints are fixed paths; the one query the client
//! computes is the inventory's deleted-devices switch, built here. The
//! HTTP layer joins it onto the gateway's base URL and sends the request.

use vstd::prelude::*;

verus! {

/// The query string selecting whether the inventory includes deleted
/// devices.
pub open spec fn inventory_query_chars(include_deleted: bool) -> Seq<char> {
    if include_deleted {
        "deleted=1"@
    } else {
        "deleted=0"@
    }
}

/// Builds the inventory query string.
pub fn inventory_query(include_deleted: bool) -> (s: String)
    ensures
        s@ == inventory_query_chars(include_deleted),
{
    if include_deleted {
        "deleted=1".to_owned()
    } else {
        "deleted=0".to_owned()
    }
}

} // verus!
