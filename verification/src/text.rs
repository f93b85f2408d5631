//! Comparing text.

use vstd::prelude::*;

verus! {

/// `str::eq`: whether two string slices hold the same characters.
#[verifier::external_body]
pub(crate) fn same_text(left: &str, right: &str) -> (same: bool)
    ensures
        same == (left@ == right@),
{
    left == right
}

} // verus!
