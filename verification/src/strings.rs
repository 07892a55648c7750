//! Comparison of string slices.

use vstd::prelude::*;

verus! {

/// `==` on `str`: two string slices are equal exactly when they hold the same
/// characters.
pub assume_specification[ <str as PartialEq>::eq ](left: &str, right: &str) -> (equal: bool)
    ensures
        equal == (left@ == right@),
;

} // verus!
