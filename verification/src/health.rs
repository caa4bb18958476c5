//! The root endpoint, which only says that the service is up.

use vstd::prelude::*;

verus! {

/// The text that the root endpoint serves.
pub open spec fn status_text() -> Seq<char> {
    "Backend Rust Online!"@
}

/// Serves the root endpoint. It reads nothing, so every request gets the
/// same text.
pub fn root_handler() -> (body: &'static str)
    ensures
        body@ == status_text(),
{
    "Backend Rust Online!"
}

} // verus!
