//! The J-Link distribution bundled with the application.
//!
//! The bundle ships a pinned J-Link as a zip archive among the application's
//! resources; on first run it is extracted into the user's SEGGER directory
//! (Windows) and put on `PATH`.  This module decides where the archive is
//! looked for, where it goes, and which archive entries may be written where:
//! an entry may never escape the destination directory ("zip slip").

use vstd::prelude::*;

use crate::error::AppError;
use crate::paths::{TargetOs, is_ascii_alpha, is_sep, join, spec_join, spec_join_all};
use crate::platform::windows::{roaming_segger, roaming_segger_dir};
use crate::text::{chars_of, eq_chars, string_of, string_views, views};

verus! {

/// The directory name of the bundled J-Link version.
pub open spec fn bundled_dir_name() -> Seq<char> {
    "JLink_V930a"@
}

/// The file name of the bundled archive.
pub open spec fn bundled_zip_name() -> Seq<char> {
    "JLink_V930a.zip"@
}

/// Where the bundled archive is looked for below the resource directory, in
/// order (resources may be nested under `resources/` depending on the build).
pub open spec fn spec_bundled_zip_candidates(os: TargetOs, res_dir: Seq<char>) -> Seq<Seq<char>> {
    seq![
        spec_join(os, spec_join(os, spec_join(os, res_dir, "resources"@), "jlink"@), bundled_zip_name()),
        spec_join(os, spec_join(os, res_dir, "jlink"@), bundled_zip_name()),
    ]
}

/// Where the bundled archive is looked for below `res_dir`, in order.
pub fn bundled_zip_candidates(os: TargetOs, res_dir: &str) -> (r: Vec<String>)
    ensures
        string_views(r@) == spec_bundled_zip_candidates(os, res_dir@),
{
    let a = join(os, res_dir, "resources");
    let b = join(os, a.as_str(), "jlink");
    let first = join(os, b.as_str(), "JLink_V930a.zip");
    let c = join(os, res_dir, "jlink");
    let second = join(os, c.as_str(), "JLink_V930a.zip");
    let r = vec![first, second];
    assert(string_views(r@) =~= spec_bundled_zip_candidates(os, res_dir@));
    r
}

/// The bundled archive: the first candidate that is a file (`is_file[i]`
/// tells it of `candidates[i]`), or the error naming `res_dir`.
pub fn bundled_zip_path(res_dir: &str, candidates: &Vec<String>, is_file: &Vec<bool>) -> (r: Result<String, AppError>)
    ensures
        match r {
            Ok(p) => exists|i: int|
                0 <= i < candidates@.len() && i < is_file@.len() && is_file@[i] && p@ == candidates@[i]@ && forall|
                    j: int,
                | 0 <= j < i ==> !is_file@[j],
            Err(AppError::Internal(m)) => {
                &&& m@ == "Bundled J-Link zip not found in resources (looked under "@ + res_dir@ + ")"@
                &&& forall|j: int| 0 <= j < candidates@.len() && j < is_file@.len() ==> !is_file@[j]
            },
            Err(_) => false,
        },
{
    let mut i: usize = 0;
    while i < candidates.len() && i < is_file.len()
        invariant
            i <= candidates@.len(),
            forall|j: int| 0 <= j < i && j < is_file@.len() ==> !is_file@[j],
        decreases candidates.len() - i,
    {
        if is_file[i] {
            return Ok(String::from_str(candidates[i].as_str()));
        }
        i += 1;
    }
    let mut m = String::from_str("Bundled J-Link zip not found in resources (looked under ");
    m.append(res_dir);
    m.append(")");
    Err(AppError::Internal(m))
}

/// Where the bundle is extracted on Windows: `%USERPROFILE%\AppData\Roaming\SEGGER\JLink_V930a`.
pub open spec fn spec_bundled_install_dir(profile: Seq<char>) -> Seq<char> {
    spec_join(TargetOs::Windows, roaming_segger(profile), bundled_dir_name())
}

/// Where the bundle is extracted on Windows, and its `JLink.exe`.
pub fn bundled_install_paths(user_profile: &str) -> (r: (String, String))
    ensures
        r.0@ == spec_bundled_install_dir(user_profile@),
        r.1@ == spec_join(TargetOs::Windows, spec_bundled_install_dir(user_profile@), "JLink.exe"@),
{
    let segger = roaming_segger_dir(user_profile);
    let dst = join(TargetOs::Windows, segger.as_str(), "JLink_V930a");
    let exe = join(TargetOs::Windows, dst.as_str(), "JLink.exe");
    (dst, exe)
}

/// The error when `%USERPROFILE%` is not set.
pub fn user_profile_missing() -> (e: AppError)
    ensures
        e matches AppError::Internal(m) && m@ == "USERPROFILE not set"@,
{
    AppError::Internal(String::from_str("USERPROFILE not set"))
}

/// The error on systems other than Windows, where no bundle is extracted.
pub fn bundle_unsupported() -> (e: AppError)
    ensures
        e matches AppError::Internal(m) && m@
            == "WinUSB Switcher Lite bundled J-Link is currently implemented for Windows only"@,
{
    AppError::Internal(String::from_str("WinUSB Switcher Lite bundled J-Link is currently implemented for Windows only"))
}

/// The error for an archive entry that would escape the destination.
pub fn unsafe_entry(name: &str) -> (e: AppError)
    ensures
        e matches AppError::Internal(m) && m@ == "Unsafe zip entry path: "@ + name@,
{
    let mut m = String::from_str("Unsafe zip entry path: ");
    m.append(name);
    AppError::Internal(m)
}

/// The error when the extracted bundle has no `JLink.exe` (at `exe`).
pub fn executable_missing(exe: &str) -> (e: AppError)
    ensures
        e matches AppError::Internal(m) && m@ == "Bundled J-Link extracted, but JLink.exe not found at "@ + exe@,
{
    let mut m = String::from_str("Bundled J-Link extracted, but JLink.exe not found at ");
    m.append(exe);
    AppError::Internal(m)
}

// ─── Entry paths ─────────────────────────────────────────────────────────────

/// `rel` begins with a root or (on Windows) a drive prefix: it is not
/// relative to the destination.
pub open spec fn has_root_or_prefix(os: TargetOs, rel: Seq<char>) -> bool {
    ||| (rel.len() > 0 && is_sep(os, rel[0]))
    ||| (os == TargetOs::Windows && rel.len() >= 2 && is_ascii_alpha(rel[0]) && rel[1] == ':')
}

/// The pieces of `cur + s` between separators of `os`.
pub open spec fn segments_from(os: TargetOs, s: Seq<char>, cur: Seq<char>) -> Seq<Seq<char>>
    decreases s.len(),
{
    if s.len() == 0 {
        seq![cur]
    } else if is_sep(os, s[0]) {
        seq![cur] + segments_from(os, s.drop_first(), Seq::empty())
    } else {
        segments_from(os, s.drop_first(), cur.push(s[0]))
    }
}

/// The pieces of `s` between separators of `os`.
pub open spec fn segments(os: TargetOs, s: Seq<char>) -> Seq<Seq<char>> {
    segments_from(os, s, Seq::empty())
}

/// The pieces that name something (not empty, not `.`), in order.
pub open spec fn normals(segs: Seq<Seq<char>>) -> Seq<Seq<char>>
    decreases segs.len(),
{
    if segs.len() == 0 {
        Seq::empty()
    } else {
        let rest = normals(segs.drop_last());
        if segs.last().len() == 0 || segs.last() == "."@ {
            rest
        } else {
            rest.push(segs.last())
        }
    }
}

/// Where the archive entry `rel` is written below `base`: nowhere (`None`)
/// when it has a root or drive prefix or a `..` component, else `base` with
/// the entry's named components appended (`.` and empty ones skipped).
pub open spec fn spec_safe_join(os: TargetOs, base: Seq<char>, rel: Seq<char>) -> Option<Seq<char>> {
    if has_root_or_prefix(os, rel) {
        None
    } else if exists|i: int| 0 <= i < segments(os, rel).len() && #[trigger] segments(os, rel)[i] == ".."@ {
        None
    } else {
        Some(spec_join_all(os, base, normals(segments(os, rel))))
    }
}

/// Unfolding `segments_from` one character at a time.
proof fn lemma_segments_step(os: TargetOs, s: Seq<char>, i: int, cur: Seq<char>)
    requires
        0 <= i < s.len(),
    ensures
        segments_from(os, s.skip(i), cur) == if is_sep(os, s[i]) {
            seq![cur] + segments_from(os, s.skip(i + 1), Seq::empty())
        } else {
            segments_from(os, s.skip(i + 1), cur.push(s[i]))
        },
{
    assert(s.skip(i).drop_first() =~= s.skip(i + 1));
}

/// The pieces of `s` between separators of `os`.
fn split_segments(os: TargetOs, s: &[char]) -> (res: Vec<Vec<char>>)
    ensures
        views(res@) == segments(os, s@),
{
    let mut res: Vec<Vec<char>> = Vec::new();
    let mut cur: Vec<char> = Vec::new();
    let mut i: usize = 0;
    assert(s@.skip(0) =~= s@);
    while i < s.len()
        invariant
            i <= s.len(),
            segments(os, s@) == views(res@) + segments_from(os, s@.skip(i as int), cur@),
        decreases s.len() - i,
    {
        proof {
            lemma_segments_step(os, s@, i as int, cur@);
        }
        let c = s[i];
        if c == '/' || (os == TargetOs::Windows && c == '\\') {
            let ghost old_res = views(res@);
            let ghost piece = cur@;
            res.push(cur);
            assert(views(res@) =~= old_res.push(piece));
            assert(old_res + (seq![piece] + segments_from(os, s@.skip(i + 1), Seq::empty()))
                =~= old_res.push(piece) + segments_from(os, s@.skip(i + 1), Seq::empty()));
            cur = Vec::new();
        } else {
            cur.push(c);
        }
        i += 1;
    }
    assert(s@.skip(i as int) =~= Seq::<char>::empty());
    let ghost old_res = views(res@);
    res.push(cur);
    assert(views(res@) =~= old_res + seq![cur@]);
    res
}

/// Where the archive entry `rel` is written below `base`, or `None` when it
/// would not stay inside `base`.
pub fn safe_join(os: TargetOs, base: &str, rel: &str) -> (r: Option<String>)
    ensures
        match r {
            Some(p) => spec_safe_join(os, base@, rel@) == Some(p@),
            None => spec_safe_join(os, base@, rel@) is None,
        },
{
    let cs = chars_of(rel);
    if cs.len() > 0 && (cs[0] == '/' || (os == TargetOs::Windows && cs[0] == '\\')) {
        return None;
    }
    if os == TargetOs::Windows && cs.len() >= 2 && (('a' <= cs[0] && cs[0] <= 'z') || ('A' <= cs[0] && cs[0] <= 'Z'))
        && cs[1] == ':' {
        return None;
    }
    let segs = split_segments(os, cs.as_slice());
    let ghost ss = views(segs@);
    let dotdot = chars_of("..");
    let dot = chars_of(".");
    let mut out = String::from_str(base);
    let mut i: usize = 0;
    while i < segs.len()
        invariant
            i <= segs.len(),
            ss == views(segs@),
            ss == segments(os, rel@),
            dotdot@ == ".."@,
            dot@ == "."@,
            forall|j: int| 0 <= j < i ==> ss[j] != ".."@,
            out@ == spec_join_all(os, base@, normals(ss.take(i as int))),
        decreases segs.len() - i,
    {
        let seg = segs[i].as_slice();
        assert(ss.take(i + 1).drop_last() =~= ss.take(i as int));
        assert(ss.take(i + 1).last() == seg@);
        if eq_chars(seg, dotdot.as_slice()) {
            assert(ss[i as int] == ".."@);
            return None;
        }
        let ghost prev = normals(ss.take(i as int));
        if seg.len() > 0 && !eq_chars(seg, dot.as_slice()) {
            let name = string_of(seg);
            out = join(os, out.as_str(), name.as_str());
            assert(normals(ss.take(i + 1)) == prev.push(seg@));
            assert(prev.push(seg@).drop_last() =~= prev);
        } else {
            assert(normals(ss.take(i + 1)) == prev);
        }
        i += 1;
    }
    assert(ss.take(ss.len() as int) =~= ss);
    Some(out)
}

/// A piece between separators holds no separator.
proof fn lemma_segments_no_sep(os: TargetOs, s: Seq<char>, cur: Seq<char>)
    requires
        forall|k: int| 0 <= k < cur.len() ==> !is_sep(os, cur[k]),
    ensures
        forall|i: int, k: int|
            0 <= i < segments_from(os, s, cur).len() && 0 <= k < segments_from(os, s, cur)[i].len()
                ==> !is_sep(os, #[trigger] segments_from(os, s, cur)[i][k]),
    decreases s.len(),
{
    if s.len() == 0 {
        assert forall|i: int, k: int|
            0 <= i < segments_from(os, s, cur).len() && 0 <= k < segments_from(os, s, cur)[i].len()
            implies !is_sep(os, #[trigger] segments_from(os, s, cur)[i][k]) by {
            assert(segments_from(os, s, cur)[i] == cur);
        }
    } else {
        if is_sep(os, s[0]) {
            lemma_segments_no_sep(os, s.drop_first(), Seq::empty());
            let rest = segments_from(os, s.drop_first(), Seq::empty());
            assert forall|i: int, k: int|
                0 <= i < segments_from(os, s, cur).len() && 0 <= k < segments_from(os, s, cur)[i].len()
                implies !is_sep(os, #[trigger] segments_from(os, s, cur)[i][k]) by {
                if i > 0 {
                    assert(segments_from(os, s, cur)[i] == rest[i - 1]);
                } else {
                    assert(segments_from(os, s, cur)[i] == cur);
                }
            }
        } else {
            let c2 = cur.push(s[0]);
            assert forall|k: int| 0 <= k < c2.len() implies !is_sep(os, c2[k]) by {
                if k < cur.len() {
                    assert(c2[k] == cur[k]);
                }
            }
            lemma_segments_no_sep(os, s.drop_first(), c2);
            assert(segments_from(os, s, cur) == segments_from(os, s.drop_first(), c2));
        }
    }
}

/// The named pieces are pieces that are neither empty nor `.`.
proof fn lemma_normals(segs: Seq<Seq<char>>)
    ensures
        forall|i: int| 0 <= i < normals(segs).len() ==> {
            &&& #[trigger] normals(segs)[i].len() > 0
            &&& normals(segs)[i] != "."@
            &&& exists|j: int| 0 <= j < segs.len() && segs[j] == normals(segs)[i]
        },
    decreases segs.len(),
{
    if segs.len() > 0 {
        lemma_normals(segs.drop_last());
        let rest = normals(segs.drop_last());
        assert forall|i: int| 0 <= i < normals(segs).len() implies {
            &&& #[trigger] normals(segs)[i].len() > 0
            &&& normals(segs)[i] != "."@
            &&& exists|j: int| 0 <= j < segs.len() && segs[j] == normals(segs)[i]
        } by {
            if i < rest.len() {
                assert(normals(segs)[i] == rest[i]);
                let j = choose|j: int| 0 <= j < segs.drop_last().len() && segs.drop_last()[j] == rest[i];
                assert(segs[j] == rest[i]);
            } else {
                assert(segs[segs.len() - 1] == normals(segs)[i]);
            }
        }
    }
}

/// Appending components never changes the base: the result begins with it.
proof fn lemma_join_all_prefix(os: TargetOs, base: Seq<char>, comps: Seq<Seq<char>>)
    ensures
        spec_join_all(os, base, comps).len() >= base.len(),
        spec_join_all(os, base, comps).take(base.len() as int) == base,
    decreases comps.len(),
{
    if comps.len() > 0 {
        lemma_join_all_prefix(os, base, comps.drop_last());
        let prev = spec_join_all(os, base, comps.drop_last());
        let next = spec_join_all(os, base, comps);
        assert(next.take(prev.len() as int) =~= prev);
        assert(next.take(base.len() as int) =~= prev.take(base.len() as int));
    }
}

/// No archive entry escapes the destination: when an entry is accepted, its
/// path begins with the destination and is the destination followed by
/// plain names only (none empty, `.` or `..`, none holding a separator);
/// entries with a root, a drive prefix or a `..` component are refused.
pub proof fn law_safe_join_stays_inside(os: TargetOs, base: Seq<char>, rel: Seq<char>)
    ensures
        spec_safe_join(os, base, rel) matches Some(p) ==> {
            &&& p.len() >= base.len()
            &&& p.take(base.len() as int) == base
            &&& p == spec_join_all(os, base, normals(segments(os, rel)))
            &&& forall|i: int| 0 <= i < normals(segments(os, rel)).len() ==> {
                let c = #[trigger] normals(segments(os, rel))[i];
                &&& c.len() > 0
                &&& c != "."@
                &&& c != ".."@
                &&& forall|k: int| 0 <= k < c.len() ==> !is_sep(os, c[k])
            }
        },
        has_root_or_prefix(os, rel) ==> spec_safe_join(os, base, rel) is None,
        (exists|i: int| 0 <= i < segments(os, rel).len() && #[trigger] segments(os, rel)[i] == ".."@)
            ==> spec_safe_join(os, base, rel) is None,
{
    let segs = segments(os, rel);
    lemma_join_all_prefix(os, base, normals(segs));
    lemma_normals(segs);
    lemma_segments_no_sep(os, rel, Seq::empty());
    if spec_safe_join(os, base, rel) is Some {
        assert forall|i: int| 0 <= i < normals(segs).len() implies {
            let c = #[trigger] normals(segs)[i];
            &&& c.len() > 0
            &&& c != "."@
            &&& c != ".."@
            &&& forall|k: int| 0 <= k < c.len() ==> !is_sep(os, c[k])
        } by {
            let c = normals(segs)[i];
            let j = choose|j: int| 0 <= j < segs.len() && segs[j] == c;
            assert(segs[j] == c);
            assert forall|k: int| 0 <= k < c.len() implies !is_sep(os, c[k]) by {
                assert(segs[j][k] == c[k]);
            }
        }
    }
}

// ─── Extraction ──────────────────────────────────────────────────────────────

/// An entry of the bundled archive: its stored name, whether it is a
/// directory, and its decompressed contents.
#[derive(Debug, Clone)]
pub struct ZipEntry {
    pub name: String,
    pub is_dir: bool,
    pub data: Vec<u8>,
}

/// The model of a [`ZipEntry`]: name, directory flag and contents.
pub open spec fn entry_view(e: ZipEntry) -> (Seq<char>, bool, Seq<u8>) {
    (e.name@, e.is_dir, e.data@)
}

/// The models of a sequence of entries, in order.
pub open spec fn entry_views(es: Seq<ZipEntry>) -> Seq<(Seq<char>, bool, Seq<u8>)> {
    es.map_values(|e: ZipEntry| entry_view(e))
}

/// The entries that the zip format gives for `archive` (name, directory flag,
/// decompressed contents, in the order of the central directory), or `None`
/// when `archive` is not a readable zip archive.
pub uninterp spec fn zip_entries(archive: Seq<u8>) -> Option<Seq<(Seq<char>, bool, Seq<u8>)>>;

/// Decodes a zip archive held in memory with `zip::ZipArchive` (`new` over a
/// cursor, then `by_index` and `read_to_end` for each entry in turn).
///
/// Trusted: the entries returned are those the zip crate decodes from the
/// bytes, named by [`zip_entries`]; an error means the archive, or one of its
/// entries, could not be decoded.  The text of that error (the zip crate's
/// message) is not stated.
#[verifier::external_body]
pub fn read_zip_entries(archive: &[u8]) -> (r: Result<Vec<ZipEntry>, String>)
    ensures
        match r {
            Ok(es) => zip_entries(archive@) == Some(entry_views(es@)),
            Err(_) => zip_entries(archive@) is None,
        },
{
    let mut zip = zip::ZipArchive::new(std::io::Cursor::new(archive)).map_err(|e| e.to_string())?;
    let mut entries = Vec::new();
    for i in 0..zip.len() {
        let mut f = zip.by_index(i).map_err(|e| e.to_string())?;
        let mut data = Vec::new();
        std::io::Read::read_to_end(&mut f, &mut data).map_err(|e| e.to_string())?;
        entries.push(ZipEntry { name: f.name().to_string(), is_dir: f.is_dir(), data });
    }
    Ok(entries)
}

/// What extracting an entry does: create a directory, or write a file.
#[derive(Debug, Clone)]
pub enum ExtractStep {
    CreateDir(String),
    WriteFile(String, Vec<u8>),
}

/// The model of an [`ExtractStep`].
pub enum ExtractStepView {
    CreateDir(Seq<char>),
    WriteFile(Seq<char>, Seq<u8>),
}

/// The model of an [`ExtractStep`].
pub open spec fn step_view(s: ExtractStep) -> ExtractStepView {
    match s {
        ExtractStep::CreateDir(p) => ExtractStepView::CreateDir(p@),
        ExtractStep::WriteFile(p, d) => ExtractStepView::WriteFile(p@, d@),
    }
}

/// The models of a sequence of steps, in order.
pub open spec fn step_views(ss: Seq<ExtractStep>) -> Seq<ExtractStepView> {
    ss.map_values(|s: ExtractStep| step_view(s))
}

/// The step for entry `e` written at `path`: a directory is created, a file
/// gets the entry's contents.
pub open spec fn step_for(path: Seq<char>, e: (Seq<char>, bool, Seq<u8>)) -> ExtractStepView {
    if e.1 {
        ExtractStepView::CreateDir(path)
    } else {
        ExtractStepView::WriteFile(path, e.2)
    }
}

/// The extraction of `es` into `dst`: entries are taken in order, each at its
/// place below `dst` (see [`spec_safe_join`]), up to the first entry that
/// would leave `dst`.  `steps` are those of the entries before it; `err`
/// names that entry, and is `None` when every entry stays inside.
pub open spec fn is_extraction_plan(
    dst: Seq<char>,
    es: Seq<(Seq<char>, bool, Seq<u8>)>,
    steps: Seq<ExtractStepView>,
    err: Option<AppError>,
) -> bool {
    &&& steps.len() <= es.len()
    &&& forall|j: int| 0 <= j < steps.len() ==> {
        &&& #[trigger] spec_safe_join(TargetOs::Windows, dst, es[j].0) is Some
        &&& steps[j] == step_for(spec_safe_join(TargetOs::Windows, dst, es[j].0)->0, es[j])
    }
    &&& match err {
        None => steps.len() == es.len(),
        Some(AppError::Internal(m)) => {
            &&& steps.len() < es.len()
            &&& spec_safe_join(TargetOs::Windows, dst, es[steps.len() as int].0) is None
            &&& m@ == "Unsafe zip entry path: "@ + es[steps.len() as int].0
        },
        Some(_) => false,
    }
}

/// Copies bytes.
fn copy_bytes(b: &Vec<u8>) -> (r: Vec<u8>)
    ensures
        r@ == b@,
{
    vstd::slice::slice_to_vec(b.as_slice())
}

/// The steps that extract `entries` into `dst_dir`, in order, and the error
/// for the first entry that would leave `dst_dir` (extraction stops there).
pub fn plan_extraction(dst_dir: &str, entries: &Vec<ZipEntry>) -> (r: (Vec<ExtractStep>, Option<AppError>))
    ensures
        is_extraction_plan(dst_dir@, entry_views(entries@), step_views(r.0@), r.1),
{
    let ghost es = entry_views(entries@);
    let mut steps: Vec<ExtractStep> = Vec::new();
    let mut i: usize = 0;
    while i < entries.len()
        invariant
            i <= entries@.len(),
            es == entry_views(entries@),
            steps@.len() == i,
            forall|j: int| 0 <= j < i ==> {
                &&& #[trigger] spec_safe_join(TargetOs::Windows, dst_dir@, es[j].0) is Some
                &&& step_view(steps@[j]) == step_for(spec_safe_join(TargetOs::Windows, dst_dir@, es[j].0)->0, es[j])
            },
        decreases entries.len() - i,
    {
        let e = &entries[i];
        match safe_join(TargetOs::Windows, dst_dir, e.name.as_str()) {
            None => {
                let err = unsafe_entry(e.name.as_str());
                return (steps, Some(err));
            },
            Some(p) => {
                let step = if e.is_dir {
                    ExtractStep::CreateDir(p)
                } else {
                    ExtractStep::WriteFile(p, copy_bytes(&e.data))
                };
                steps.push(step);
            },
        }
        i += 1;
    }
    (steps, None)
}

/// Decodes the bundled archive `archive` and plans its extraction into
/// `dst_dir`: an error when the bytes are not a readable zip archive, else the
/// plan of [`plan_extraction`] for the decoded entries.
pub fn plan_bundle_extraction(archive: &[u8], dst_dir: &str) -> (r: Result<(Vec<ExtractStep>, Option<AppError>), AppError>)
    ensures
        match r {
            Ok((steps, err)) => zip_entries(archive@) matches Some(es) && is_extraction_plan(dst_dir@, es, step_views(steps@), err),
            Err(AppError::Internal(_)) => zip_entries(archive@) is None,
            Err(_) => false,
        },
{
    match read_zip_entries(archive) {
        Ok(entries) => Ok(plan_extraction(dst_dir, &entries)),
        Err(m) => Err(AppError::Internal(m)),
    }
}

/// The path a step creates or writes.
pub open spec fn step_path(s: ExtractStepView) -> Seq<char> {
    match s {
        ExtractStepView::CreateDir(p) => p,
        ExtractStepView::WriteFile(p, _) => p,
    }
}

/// Extraction stays inside the destination: every step of an extraction plan
/// creates or writes a path that begins with the destination directory, and
/// a file is written with exactly the contents of its entry.
pub proof fn law_extraction_stays_inside(
    dst: Seq<char>,
    es: Seq<(Seq<char>, bool, Seq<u8>)>,
    steps: Seq<ExtractStepView>,
    err: Option<AppError>,
)
    requires
        is_extraction_plan(dst, es, steps, err),
    ensures
        forall|j: int| 0 <= j < steps.len() ==> {
            &&& step_path(#[trigger] steps[j]).len() >= dst.len()
            &&& step_path(steps[j]).take(dst.len() as int) == dst
            &&& (steps[j] is CreateDir <==> es[j].1)
            &&& (steps[j] matches ExtractStepView::WriteFile(_, d) ==> d == es[j].2)
        },
{
    assert forall|j: int| 0 <= j < steps.len() implies {
        &&& step_path(#[trigger] steps[j]).len() >= dst.len()
        &&& step_path(steps[j]).take(dst.len() as int) == dst
        &&& (steps[j] is CreateDir <==> es[j].1)
        &&& (steps[j] matches ExtractStepView::WriteFile(_, d) ==> d == es[j].2)
    } by {
        law_safe_join_stays_inside(TargetOs::Windows, dst, es[j].0);
        assert(spec_safe_join(TargetOs::Windows, dst, es[j].0) is Some);
    }
}

} // verus!
