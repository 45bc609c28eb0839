//! String helpers.
use vstd::prelude::*;

verus! {

/// Gives up ownership of a string for the rest of the program, as a string
/// slice with the same characters (`String::leak`).
#[verifier::external_body]
pub fn string_to_static_str(s: String) -> (r: &'static str)
    ensures
        r@ == s@,
{
    s.leak()
}

} // verus!
