//! macOS directories searched for J-Link.

use vstd::prelude::*;

use crate::text::string_views;

verus! {

/// Where J-Link is looked for on macOS: SEGGER's install location there.
pub open spec fn spec_search_dirs() -> Seq<Seq<char>> {
    seq!["/Applications/SEGGER"@]
}

/// Where J-Link is looked for on macOS.
pub fn search_dirs() -> (r: Vec<String>)
    ensures
        string_views(r@) == spec_search_dirs(),
{
    let r = vec![String::from_str("/Applications/SEGGER")];
    assert(string_views(r@) =~= spec_search_dirs());
    r
}

} // verus!
