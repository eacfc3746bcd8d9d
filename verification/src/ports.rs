//! The names of the ports that a link could be opened on.

use vstd::prelude::*;

verus! {

/// What listing the ports comes to: the names that the enumeration found,
/// in its order, and none at all where it failed.
pub open spec fn listed(listing: Result<Vec<String>, String>) -> Seq<String> {
    match listing {
        Ok(found) => found@,
        Err(_) => Seq::empty(),
    }
}

/// Turns the outcome of a port enumeration into the list for the caller.
/// A failed enumeration is an empty list, never an error.
pub fn port_names(listing: Result<Vec<String>, String>) -> (names: Vec<String>)
    ensures
        names@ == listed(listing),
{
    match listing {
        Ok(found) => found,
        Err(_) => Vec::new(),
    }
}

} // verus!
