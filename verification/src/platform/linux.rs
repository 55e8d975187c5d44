//! Linux directories searched for J-Link.

use vstd::prelude::*;

use crate::text::string_views;

verus! {

/// Where J-Link is looked for on Linux.
pub open spec fn spec_search_dirs() -> Seq<Seq<char>> {
    seq!["/usr/bin"@, "/usr/local/bin"@, "/opt/SEGGER/JLink"@]
}

/// Where J-Link is looked for on Linux.
pub fn search_dirs() -> (r: Vec<String>)
    ensures
        string_views(r@) == spec_search_dirs(),
{
    let r = vec![
        String::from_str("/usr/bin"),
        String::from_str("/usr/local/bin"),
        String::from_str("/opt/SEGGER/JLink"),
    ];
    assert(string_views(r@) =~= spec_search_dirs());
    r
}

} // verus!
