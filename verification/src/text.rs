//! Comparing short tags.

use vstd::prelude::*;

verus! {

/// Whether two tags are the same text.
pub fn same_text(a: &str, b: &str) -> (same: bool)
    ensures
        same == (a@ == b@),
{
    a.to_owned() == b.to_owned()
}

} // verus!
