//! Comparing texts.

use vstd::prelude::*;
use vstd::string::StringExecFns;

verus! {

/// Whether two texts are the same.
pub(crate) fn same_text(text: &str, wanted: &str) -> (same: bool)
    ensures
        same == (text@ == wanted@),
{
    let text = String::from_str(text);
    let wanted = String::from_str(wanted);
    text == wanted
}

} // verus!
