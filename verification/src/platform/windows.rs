//! Windows directories searched for J-Link.

use vstd::prelude::*;

use crate::paths::{TargetOs, join, spec_join};
use crate::text::string_views;

verus! {

/// `%USERPROFILE%\AppData\Roaming\SEGGER`, where J-Link installs per user.
pub open spec fn roaming_segger(profile: Seq<char>) -> Seq<char> {
    spec_join(
        TargetOs::Windows,
        spec_join(TargetOs::Windows, spec_join(TargetOs::Windows, profile, "AppData"@), "Roaming"@),
        "SEGGER"@,
    )
}

/// `%USERPROFILE%\AppData\Roaming\SEGGER`.
pub fn roaming_segger_dir(profile: &str) -> (r: String)
    ensures
        r@ == roaming_segger(profile@),
{
    let a = join(TargetOs::Windows, profile, "AppData");
    let b = join(TargetOs::Windows, a.as_str(), "Roaming");
    join(TargetOs::Windows, b.as_str(), "SEGGER")
}

/// Where J-Link is looked for on Windows, given `%USERPROFILE%` when it is set.
pub open spec fn spec_search_dirs(profile: Option<Seq<char>>) -> Seq<Seq<char>> {
    let fixed = seq!["C:\\Program Files\\SEGGER"@, "C:\\Program Files (x86)\\SEGGER"@];
    match profile {
        Some(p) => seq![roaming_segger(p)] + fixed,
        None => fixed,
    }
}

/// Where J-Link is looked for on Windows, given `%USERPROFILE%` when it is set.
pub fn search_dirs(user_profile: Option<&str>) -> (r: Vec<String>)
    ensures
        string_views(r@) == spec_search_dirs(
            match user_profile {
                Some(p) => Some(p@),
                None => None,
            },
        ),
{
    let mut dirs: Vec<String> = Vec::new();
    match user_profile {
        Some(p) => dirs.push(roaming_segger_dir(p)),
        None => {},
    }
    dirs.push(String::from_str("C:\\Program Files\\SEGGER"));
    dirs.push(String::from_str("C:\\Program Files (x86)\\SEGGER"));
    assert(string_views(dirs@) =~= spec_search_dirs(
        match user_profile {
            Some(p) => Some(p@),
            None => None,
        },
    ));
    dirs
}

} // verus!
