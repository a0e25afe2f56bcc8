use vstd::prelude::*;

use crate::text::{contains, str_contains};

verus! {

/// The marker by which a fetched hosts source is recognised as an HTTP 404 page.
pub open spec fn not_found_marker() -> Seq<char> {
    "<title>404 Not Found</title>"@
}

/// `true` when the downloaded text is a "404 Not Found" page.
pub fn check_http_error(data: &str) -> (r: bool)
    ensures
        r == contains(data@, not_found_marker()),
{
    str_contains(data, "<title>404 Not Found</title>")
}

} // verus!
