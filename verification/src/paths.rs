//! Target platforms and the joining of file-system paths.
//!
//! Paths are handled as strings.  [`join`] follows `PathBuf::push` for a
//! relative component without a root or a drive prefix, which is the only
//! kind this crate appends: a separator is put between the two parts unless
//! the base is empty, already ends with a separator, or (on Windows) is a
//! bare drive such as `C:`.

use vstd::prelude::*;

use crate::text::push_chars;

verus! {

/// The operating system the application runs on.
#[derive(Debug, Clone, Copy, PartialEq, Eq, Structural)]
pub enum TargetOs {
    Windows,
    MacOs,
    /// Linux, and every other system, which the application treats alike.
    Linux,
}

/// The processor architecture the application was built for.
#[derive(Debug, Clone, Copy, PartialEq, Eq, Structural)]
pub enum TargetArch {
    X86_64,
    X86,
    Aarch64,
    Arm,
    Other,
}

/// `c` separates path components on `os`.
pub open spec fn is_sep(os: TargetOs, c: char) -> bool {
    c == '/' || (os == TargetOs::Windows && c == '\\')
}

/// The separator that `os` writes between components.
pub open spec fn main_sep(os: TargetOs) -> char {
    if os == TargetOs::Windows {
        '\\'
    } else {
        '/'
    }
}

/// `c` is an ASCII letter.
pub open spec fn is_ascii_alpha(c: char) -> bool {
    ('a' <= c && c <= 'z') || ('A' <= c && c <= 'Z')
}

/// `base` is a bare Windows drive such as `C:`.
pub open spec fn is_bare_drive(os: TargetOs, base: Seq<char>) -> bool {
    os == TargetOs::Windows && base.len() == 2 && is_ascii_alpha(base[0]) && base[1] == ':'
}

/// `base` with the relative component `comp` appended (`PathBuf::push`).
pub open spec fn spec_join(os: TargetOs, base: Seq<char>, comp: Seq<char>) -> Seq<char> {
    if base.len() == 0 || is_sep(os, base.last()) || is_bare_drive(os, base) {
        base + comp
    } else {
        base + seq![main_sep(os)] + comp
    }
}

/// The separator that `os` writes between components.
pub fn separator(os: TargetOs) -> (c: char)
    ensures
        c == main_sep(os),
{
    match os {
        TargetOs::Windows => '\\',
        _ => '/',
    }
}

/// `base` with the relative component `comp` appended (`PathBuf::push`).
pub fn join(os: TargetOs, base: &str, comp: &str) -> (r: String)
    ensures
        r@ == spec_join(os, base@, comp@),
{
    let b = crate::text::chars_of(base);
    let n = b.len();
    let need_sep = if n == 0 {
        false
    } else {
        let last = b[n - 1];
        let last_is_sep = last == '/' || (os == TargetOs::Windows && last == '\\');
        let bare_drive = os == TargetOs::Windows && n == 2 && (('a' <= b[0] && b[0] <= 'z') || (
        'A' <= b[0] && b[0] <= 'Z')) && b[1] == ':';
        !last_is_sep && !bare_drive
    };
    let mut r = String::from_str(base);
    if need_sep {
        crate::text::push_char(&mut r, separator(os));
    }
    let c = crate::text::chars_of(comp);
    push_chars(&mut r, c.as_slice());
    proof {
        if need_sep {
            assert(base@ + seq![main_sep(os)] + comp@ =~= base@.push(main_sep(os)) + comp@);
        }
    }
    r
}

/// `base` with the relative components `comps` appended in order.
pub open spec fn spec_join_all(os: TargetOs, base: Seq<char>, comps: Seq<Seq<char>>) -> Seq<char>
    decreases comps.len(),
{
    if comps.len() == 0 {
        base
    } else {
        spec_join(os, spec_join_all(os, base, comps.drop_last()), comps.last())
    }
}

} // verus!
