//! Platform facts: J-Link's executable names, where J-Link is looked for, and
//! the environment (`PATH`, `LD_LIBRARY_PATH`) that makes it runnable.

pub mod linux;
pub mod macos;
pub mod windows;

use vstd::prelude::*;

use crate::jlink::types::opt_view;
use crate::paths::{TargetOs, join, spec_join};
use crate::text::{
    chars_of, contains, eq_chars, free_of, spec_contains, join_entries, join_with, lemma_split_join, lemma_split_pieces_free,
    lemma_split_prepend, lowercase, spec_split, split, string_of, string_views, to_lowercase, views,
};

verus! {

/// The J-Link Commander command and executable file names of a platform.
pub struct PlatformConfig {
    pub jlink_bin: &'static str,
    pub jlink_executable: &'static str,
}

/// J-Link Commander's command and executable file names on `os`.
pub fn config(os: TargetOs) -> (c: PlatformConfig)
    ensures
        os == TargetOs::Windows ==> c.jlink_bin@ == "JLink"@ && c.jlink_executable@ == "JLink.exe"@,
        os != TargetOs::Windows ==> c.jlink_bin@ == "JLinkExe"@ && c.jlink_executable@ == "JLinkExe"@,
{
    match os {
        TargetOs::Windows => PlatformConfig { jlink_bin: "JLink", jlink_executable: "JLink.exe" },
        TargetOs::MacOs => PlatformConfig { jlink_bin: "JLinkExe", jlink_executable: "JLinkExe" },
        TargetOs::Linux => PlatformConfig { jlink_bin: "JLinkExe", jlink_executable: "JLinkExe" },
    }
}

/// Where J-Link is looked for on `os` (`profile`: `%USERPROFILE%`, used on Windows).
pub open spec fn spec_search_dirs(os: TargetOs, profile: Option<Seq<char>>) -> Seq<Seq<char>> {
    match os {
        TargetOs::Windows => windows::spec_search_dirs(profile),
        TargetOs::MacOs => macos::spec_search_dirs(),
        TargetOs::Linux => linux::spec_search_dirs(),
    }
}

/// Where J-Link is looked for on `os` (`user_profile`: `%USERPROFILE%` when set,
/// read on Windows only).
pub fn search_dirs(os: TargetOs, user_profile: Option<&str>) -> (r: Vec<String>)
    ensures
        string_views(r@) == spec_search_dirs(
            os,
            match user_profile {
                Some(p) => Some(p@),
                None => None,
            },
        ),
{
    match os {
        TargetOs::Windows => windows::search_dirs(user_profile),
        TargetOs::MacOs => macos::search_dirs(),
        TargetOs::Linux => linux::search_dirs(),
    }
}

/// What was seen of one search directory.
pub struct SearchDirObservation {
    /// The directory.
    pub dir: String,
    /// It exists.
    pub exists: bool,
    /// Its sub-directories that hold the J-Link executable, in the order the
    /// directory listing gave them.
    pub subdirs_with_executable: Vec<String>,
    /// The executable lies directly in it.
    pub has_executable: bool,
}

/// The model of a [`SearchDirObservation`].
pub struct SearchDirView {
    pub dir: Seq<char>,
    pub exists: bool,
    pub subdirs_with_executable: Seq<Seq<char>>,
    pub has_executable: bool,
}

impl View for SearchDirObservation {
    type V = SearchDirView;

    open spec fn view(&self) -> SearchDirView {
        SearchDirView {
            dir: self.dir@,
            exists: self.exists,
            subdirs_with_executable: string_views(self.subdirs_with_executable@),
            has_executable: self.has_executable,
        }
    }
}

/// The J-Link directory found: in the first existing search directory that
/// has one, its first sub-directory holding the executable, else the search
/// directory itself when the executable lies in it.
pub open spec fn spec_find_jlink(obs: Seq<SearchDirView>) -> Option<Seq<char>>
    decreases obs.len(),
{
    if obs.len() == 0 {
        None
    } else if obs[0].exists && obs[0].subdirs_with_executable.len() > 0 {
        Some(obs[0].subdirs_with_executable[0])
    } else if obs[0].exists && obs[0].has_executable {
        Some(obs[0].dir)
    } else {
        spec_find_jlink(obs.drop_first())
    }
}

/// The directory that holds the J-Link executable, from what was seen of the
/// search directories, in search order.
pub fn find_jlink_in_search_dirs(obs: &Vec<SearchDirObservation>) -> (r: Option<String>)
    ensures
        opt_view(r) == spec_find_jlink(obs@.map_values(|o: SearchDirObservation| o@)),
{
    let ghost all = obs@.map_values(|o: SearchDirObservation| o@);
    let mut i: usize = 0;
    assert(all.skip(0) =~= all);
    while i < obs.len()
        invariant
            i <= obs.len(),
            all == obs@.map_values(|o: SearchDirObservation| o@),
            spec_find_jlink(all) == spec_find_jlink(all.skip(i as int)),
        decreases obs.len() - i,
    {
        let o = &obs[i];
        assert(all.skip(i as int)[0] == o@);
        assert(all.skip(i as int).drop_first() =~= all.skip(i + 1));
        if o.exists && o.subdirs_with_executable.len() > 0 {
            return Some(String::from_str(o.subdirs_with_executable[0].as_str()));
        }
        if o.exists && o.has_executable {
            return Some(String::from_str(o.dir.as_str()));
        }
        i += 1;
    }
    None
}

/// A search directory where J-Link was seen: it exists and the executable
/// lies in it or in one of its sub-directories.
pub open spec fn qualifies(o: SearchDirView) -> bool {
    o.exists && (o.subdirs_with_executable.len() > 0 || o.has_executable)
}

/// The directory a qualifying search directory gives: its first
/// sub-directory holding the executable, else itself.
pub open spec fn found_in(o: SearchDirView) -> Seq<char> {
    if o.subdirs_with_executable.len() > 0 {
        o.subdirs_with_executable[0]
    } else {
        o.dir
    }
}

/// J-Link is found exactly when some search directory shows it, and then in
/// the first such directory in search order: in its first sub-directory that
/// holds the executable if there is one, else in the directory itself.
pub proof fn law_find_jlink_first_match(obs: Seq<SearchDirView>)
    ensures
        spec_find_jlink(obs) is None <==> forall|i: int| 0 <= i < obs.len() ==> !qualifies(#[trigger] obs[i]),
        spec_find_jlink(obs) matches Some(p) ==> exists|i: int|
            0 <= i < obs.len() && qualifies(#[trigger] obs[i]) && p == found_in(obs[i]) && forall|j: int|
                0 <= j < i ==> !qualifies(#[trigger] obs[j]),
    decreases obs.len(),
{
    if obs.len() > 0 {
        let rest = obs.drop_first();
        law_find_jlink_first_match(rest);
        if qualifies(obs[0]) {
            assert(spec_find_jlink(obs) == Some(found_in(obs[0])));
        } else {
            assert(spec_find_jlink(obs) == spec_find_jlink(rest));
            assert forall|i: int| 0 <= i < rest.len() implies rest[i] == obs[i + 1] by {}
            if spec_find_jlink(rest) is None {
                assert forall|i: int| 0 <= i < obs.len() implies !qualifies(#[trigger] obs[i]) by {
                    if i > 0 {
                        assert(obs[i] == rest[i - 1]);
                    }
                }
            } else {
                let p = spec_find_jlink(rest)->0;
                let k = choose|k: int|
                    0 <= k < rest.len() && qualifies(#[trigger] rest[k]) && p == found_in(rest[k]) && forall|j: int|
                        0 <= j < k ==> !qualifies(#[trigger] rest[j]);
                assert(obs[k + 1] == rest[k]);
                assert forall|j: int| 0 <= j < k + 1 implies !qualifies(#[trigger] obs[j]) by {
                    if j > 0 {
                        assert(obs[j] == rest[j - 1]);
                    }
                }
                assert(qualifies(obs[k + 1]));
            }
        }
    }
}

// ─── Environment ─────────────────────────────────────────────────────────────

/// The `PATH` list separator of `os`.
pub open spec fn path_sep(os: TargetOs) -> char {
    if os == TargetOs::Windows {
        ';'
    } else {
        ':'
    }
}

/// `entry` of `PATH` names `dir`: the same text, compared lower-cased on
/// Windows, where file names ignore case.
pub open spec fn path_entry_matches(os: TargetOs, entry: Seq<char>, dir: Seq<char>) -> bool {
    if os == TargetOs::Windows {
        lowercase(entry) == lowercase(dir)
    } else {
        entry == dir
    }
}

/// One of the entries of the `PATH` value `current` names `dir`.
pub open spec fn path_has_entry(os: TargetOs, current: Seq<char>, dir: Seq<char>) -> bool {
    exists|i: int|
        0 <= i < spec_split(current, path_sep(os)).len() && path_entry_matches(
            os,
            #[trigger] spec_split(current, path_sep(os))[i],
            dir,
        )
}

/// `PATH` already holds `dir`: one of its entries names `dir`, and the
/// lower-cased `PATH` holds the lower-cased `dir`.
pub open spec fn path_holds(os: TargetOs, current: Seq<char>, dir: Seq<char>) -> bool {
    path_has_entry(os, current, dir) && spec_contains(lowercase(current), lowercase(dir))
}

/// The new `PATH` value that puts `dir` in front of `current`, so that it wins
/// over any stale entry, unless `PATH` already holds `dir` (see
/// [`path_holds`]); `None` when `PATH` stays as it is.
pub open spec fn spec_prepend_path(os: TargetOs, current: Seq<char>, dir: Seq<char>) -> Option<Seq<char>> {
    if path_holds(os, current, dir) {
        None
    } else {
        Some(dir + seq![path_sep(os)] + current)
    }
}

/// The `PATH` list separator of `os`.
fn path_sep_char(os: TargetOs) -> (c: char)
    ensures
        c == path_sep(os),
{
    match os {
        TargetOs::Windows => ';',
        _ => ':',
    }
}

/// The new `PATH` value that makes `dir` usable in this process (`current`:
/// the value of `PATH`, empty when unset): `dir` in front, unless an entry
/// already names it (`None`).
pub fn prepend_to_process_path(os: TargetOs, current: &str, dir: &str) -> (r: Option<String>)
    ensures
        opt_view(r) == spec_prepend_path(os, current@, dir@),
{
    let sep = path_sep_char(os);
    let cur = chars_of(current);
    let d = chars_of(dir);
    let ld = chars_of(to_lowercase(dir).as_str());
    let lc = chars_of(to_lowercase(current).as_str());
    let holds_text = contains(lc.as_slice(), ld.as_slice());
    let pieces = split(cur.as_slice(), sep);
    let ghost ps = views(pieces@);
    let mut i: usize = 0;
    while i < pieces.len()
        invariant
            i <= pieces.len(),
            ps == views(pieces@),
            ps == spec_split(current@, sep),
            sep == path_sep(os),
            d@ == dir@,
            ld@ == lowercase(dir@),
            holds_text == spec_contains(lowercase(current@), lowercase(dir@)),
            forall|j: int| 0 <= j < i ==> !(path_entry_matches(os, #[trigger] ps[j], dir@) && holds_text),
        decreases pieces.len() - i,
    {
        let piece = pieces[i].as_slice();
        let matches = if os == TargetOs::Windows {
            let text = string_of(piece);
            let lower = chars_of(to_lowercase(text.as_str()).as_str());
            eq_chars(lower.as_slice(), ld.as_slice())
        } else {
            eq_chars(piece, d.as_slice())
        };
        if matches && holds_text {
            assert(path_entry_matches(os, ps[i as int], dir@));
            return None;
        }
        i += 1;
    }
    let mut v = String::from_str(dir);
    crate::text::push_char(&mut v, sep);
    v.append(current);
    assert(v@ =~= dir@ + seq![path_sep(os)] + current@);
    Some(v)
}

/// The name under which the environment holds `PATH`: the first of `names`
/// that lower-cases to `path`, else `PATH`.
pub open spec fn spec_path_key(names: Seq<Seq<char>>) -> Seq<char>
    decreases names.len(),
{
    if names.len() == 0 {
        "PATH"@
    } else if lowercase(names[0]) == "path"@ {
        names[0]
    } else {
        spec_path_key(names.drop_first())
    }
}

/// The name under which the environment holds `PATH` (`names`: the names of
/// the environment variables, in the order the environment lists them).
pub fn path_key(names: &Vec<String>) -> (r: String)
    ensures
        r@ == spec_path_key(string_views(names@)),
{
    let ghost all = string_views(names@);
    let key = chars_of("path");
    let mut i: usize = 0;
    assert(all.skip(0) =~= all);
    while i < names.len()
        invariant
            i <= names.len(),
            all == string_views(names@),
            key@ == "path"@,
            spec_path_key(all) == spec_path_key(all.skip(i as int)),
        decreases names.len() - i,
    {
        assert(all.skip(i as int)[0] == names@[i as int]@);
        assert(all.skip(i as int).drop_first() =~= all.skip(i + 1));
        let lower = chars_of(to_lowercase(names[i].as_str()).as_str());
        if eq_chars(lower.as_slice(), key.as_slice()) {
            return String::from_str(names[i].as_str());
        }
        i += 1;
    }
    String::from_str("PATH")
}

/// Once `PATH` has been updated for a valid `dir` (one without the list
/// separator), an entry names `dir`; when the update changed `PATH`, `dir` is
/// its first entry.  Updating again changes nothing whenever the lower-cased
/// new value holds the lower-cased `dir` (Unicode lower-casing of a whole
/// value can differ from that of its parts, e.g. for a final sigma).
pub proof fn law_prepend_path_idempotent(os: TargetOs, current: Seq<char>, dir: Seq<char>)
    requires
        free_of(dir, path_sep(os)),
    ensures
        ({
            let after = match spec_prepend_path(os, current, dir) {
                Some(v) => v,
                None => current,
            };
            &&& path_has_entry(os, after, dir)
            &&& spec_contains(lowercase(after), lowercase(dir)) ==> spec_prepend_path(os, after, dir) is None
        }),
        spec_prepend_path(os, current, dir) matches Some(v) ==> spec_split(v, path_sep(os))[0] == dir,
{
    if !path_holds(os, current, dir) {
        let v = dir + seq![path_sep(os)] + current;
        lemma_split_prepend(dir, current, path_sep(os));
        assert(spec_split(v, path_sep(os))[0] == dir);
        assert(path_entry_matches(os, spec_split(v, path_sep(os))[0], dir));
    }
}

/// `dir` is a non-empty entry of the `:`-separated list `current`.
pub open spec fn ld_list_has(current: Seq<char>, dir: Seq<char>) -> bool {
    exists|i: int| 0 <= i < spec_split(current, ':').len() && #[trigger] spec_split(current, ':')[i] == dir && dir.len() > 0
}

/// The new `LD_LIBRARY_PATH` value with `dir` in front, unless `dir` is
/// already one of its entries; `None` when it stays as it is.
pub open spec fn spec_prepend_ld(current: Seq<char>, dir: Seq<char>) -> Option<Seq<char>> {
    if ld_list_has(current, dir) {
        None
    } else {
        Some(dir + ":"@ + current)
    }
}

/// The new `LD_LIBRARY_PATH` value with `dir` in front (`current`: its value,
/// empty when unset); `None` when `dir` is already one of its entries.
pub fn prepend_ld_library_path(current: &str, dir: &str) -> (r: Option<String>)
    ensures
        opt_view(r) == spec_prepend_ld(current@, dir@),
{
    let cur = chars_of(current);
    let d = chars_of(dir);
    let pieces = split(cur.as_slice(), ':');
    let ghost ps = views(pieces@);
    let mut i: usize = 0;
    while i < pieces.len()
        invariant
            i <= pieces.len(),
            ps == views(pieces@),
            ps == spec_split(current@, ':'),
            d@ == dir@,
            forall|j: int| 0 <= j < i ==> !(ps[j] == dir@ && dir@.len() > 0),
        decreases pieces.len() - i,
    {
        if d.len() > 0 && eq_chars(pieces[i].as_slice(), d.as_slice()) {
            assert(ps[i as int] == dir@);
            return None;
        }
        i += 1;
    }
    let mut v = String::from_str(dir);
    v.append(":");
    v.append(current);
    Some(v)
}

/// Which architecture sub-directories a SEGGER install directory has.
pub struct SeggerLayout {
    pub x86: bool,
    pub x86_64: bool,
    pub amd64: bool,
}

/// The entries that lead `LD_LIBRARY_PATH` for a SEGGER tree: `install_dir`
/// first, then those of its `amd64`, `x86_64` and `x86` sub-directories that
/// exist.
pub open spec fn ld_front(install_dir: Seq<char>, layout: SeggerLayout) -> Seq<Seq<char>> {
    let a = if layout.amd64 { seq![spec_join(TargetOs::Linux, install_dir, "amd64"@)] } else { Seq::empty() };
    let b = if layout.x86_64 { seq![spec_join(TargetOs::Linux, install_dir, "x86_64"@)] } else { Seq::empty() };
    let c = if layout.x86 { seq![spec_join(TargetOs::Linux, install_dir, "x86"@)] } else { Seq::empty() };
    seq![install_dir] + a + b + c
}

/// The entries of `entries` that are not among `front`, in order.
pub open spec fn keep_entries(entries: Seq<Seq<char>>, front: Seq<Seq<char>>) -> Seq<Seq<char>>
    decreases entries.len(),
{
    if entries.len() == 0 {
        Seq::empty()
    } else {
        let rest = keep_entries(entries.drop_last(), front);
        if front.contains(entries.last()) {
            rest
        } else {
            rest.push(entries.last())
        }
    }
}

/// `LD_LIBRARY_PATH` for a SEGGER tree on Linux: `install_dir` leftmost
/// (highest priority), then its architecture sub-directories that exist,
/// then the other entries of `current` in their order, earlier copies of
/// the new entries dropped.
pub open spec fn spec_segger_ld(current: Seq<char>, install_dir: Seq<char>, layout: SeggerLayout) -> Seq<char> {
    let front = ld_front(install_dir, layout);
    join_entries(front + keep_entries(spec_split(current, ':'), front), ':')
}

/// A copy of `v`.
fn copy_chars(v: &[char]) -> (r: Vec<char>)
    ensures
        r@ == v@,
{
    let mut r: Vec<char> = Vec::new();
    let mut i: usize = 0;
    while i < v.len()
        invariant
            i <= v.len(),
            r@ == v@.take(i as int),
        decreases v.len() - i,
    {
        r.push(v[i]);
        assert(v@.take(i + 1) =~= v@.take(i as int).push(v@[i as int]));
        i += 1;
    }
    assert(v@.take(v@.len() as int) =~= v@);
    r
}

/// `e` is one of `front`.
fn among(e: &[char], front: &Vec<Vec<char>>) -> (r: bool)
    ensures
        r == views(front@).contains(e@),
{
    let ghost fv = views(front@);
    let mut i: usize = 0;
    while i < front.len()
        invariant
            i <= front.len(),
            fv == views(front@),
            forall|j: int| 0 <= j < i ==> fv[j] != e@,
        decreases front.len() - i,
    {
        if eq_chars(front[i].as_slice(), e) {
            assert(fv[i as int] == e@);
            return true;
        }
        i += 1;
    }
    false
}

/// The entries that lead `LD_LIBRARY_PATH` for the SEGGER tree `install_dir`.
fn ld_front_exec(install_dir: &str, layout: &SeggerLayout) -> (r: Vec<Vec<char>>)
    ensures
        views(r@) == ld_front(install_dir@, *layout),
{
    let mut r: Vec<Vec<char>> = Vec::new();
    r.push(chars_of(install_dir));
    let ghost mut acc: Seq<Seq<char>> = seq![install_dir@];
    assert(views(r@) =~= acc);
    if layout.amd64 {
        let ghost before = views(r@);
        let p = join(TargetOs::Linux, install_dir, "amd64");
        r.push(chars_of(p.as_str()));
        assert(views(r@) =~= before.push(p@));
    }
    if layout.x86_64 {
        let ghost before = views(r@);
        let p = join(TargetOs::Linux, install_dir, "x86_64");
        r.push(chars_of(p.as_str()));
        assert(views(r@) =~= before.push(p@));
    }
    if layout.x86 {
        let ghost before = views(r@);
        let p = join(TargetOs::Linux, install_dir, "x86");
        r.push(chars_of(p.as_str()));
        assert(views(r@) =~= before.push(p@));
    }
    assert(views(r@) =~= ld_front(install_dir@, *layout));
    r
}

/// `LD_LIBRARY_PATH` for the SEGGER tree `install_dir` (`current`: its value,
/// empty when unset; `layout`: which architecture sub-directories exist):
/// `install_dir` first, then its sub-directories, then the other entries.
pub fn prepend_ld_library_path_segger_layout(current: &str, install_dir: &str, layout: &SeggerLayout) -> (r: String)
    ensures
        r@ == spec_segger_ld(current@, install_dir@, *layout),
{
    let front = ld_front_exec(install_dir, layout);
    let mut all = ld_front_exec(install_dir, layout);
    let ghost fv = views(front@);
    let cur = chars_of(current);
    let pieces = split(cur.as_slice(), ':');
    let ghost ps = views(pieces@);
    let mut i: usize = 0;
    assert(keep_entries(ps.take(0), fv) =~= Seq::<Seq<char>>::empty());
    assert(views(all@) =~= fv + keep_entries(ps.take(0), fv));
    while i < pieces.len()
        invariant
            i <= pieces.len(),
            ps == views(pieces@),
            ps == spec_split(current@, ':'),
            fv == views(front@),
            fv == ld_front(install_dir@, *layout),
            views(all@) == fv + keep_entries(ps.take(i as int), fv),
        decreases pieces.len() - i,
    {
        assert(ps.take(i + 1).drop_last() =~= ps.take(i as int));
        assert(ps.take(i + 1).last() == ps[i as int]);
        let piece = pieces[i].as_slice();
        if !among(piece, &front) {
            let ghost before = views(all@);
            all.push(copy_chars(piece));
            assert(views(all@) =~= before.push(ps[i as int]));
            assert(fv + keep_entries(ps.take(i as int), fv).push(ps[i as int]) =~= (fv + keep_entries(
                ps.take(i as int),
                fv,
            )).push(ps[i as int]));
        }
        i += 1;
    }
    assert(ps.take(ps.len() as int) =~= ps);
    join_with(&all, ':')
}

/// `s` holds no `:`.
pub open spec fn no_colon(s: Seq<char>) -> bool {
    forall|k: int| 0 <= k < s.len() ==> s[k] != ':'
}

/// A component joined below `dir` differs from `dir`.
proof fn lemma_join_longer(dir: Seq<char>, comp: Seq<char>)
    requires
        comp.len() > 0,
        no_colon(dir),
        no_colon(comp),
    ensures
        spec_join(TargetOs::Linux, dir, comp).len() > dir.len(),
        no_colon(spec_join(TargetOs::Linux, dir, comp)),
{
}

/// The kept entries are entries of `entries` that are not among `front`.
proof fn lemma_keep_entries(entries: Seq<Seq<char>>, front: Seq<Seq<char>>)
    ensures
        forall|i: int| 0 <= i < keep_entries(entries, front).len() ==> {
            &&& !front.contains(#[trigger] keep_entries(entries, front)[i])
            &&& entries.contains(keep_entries(entries, front)[i])
        },
    decreases entries.len(),
{
    if entries.len() > 0 {
        let init = entries.drop_last();
        lemma_keep_entries(init, front);
        let rest = keep_entries(init, front);
        assert forall|i: int| 0 <= i < keep_entries(entries, front).len() implies {
            &&& !front.contains(#[trigger] keep_entries(entries, front)[i])
            &&& entries.contains(keep_entries(entries, front)[i])
        } by {
            if i < rest.len() {
                assert(keep_entries(entries, front)[i] == rest[i]);
                let j = choose|j: int| 0 <= j < init.len() && init[j] == rest[i];
                assert(entries[j] == init[j]);
            } else {
                assert(keep_entries(entries, front)[i] == entries.last());
                assert(entries[entries.len() - 1] == entries.last());
            }
        }
    }
}

/// For a valid `install_dir` (non-empty, without `:`), the SEGGER layout
/// update puts `install_dir` leftmost (highest priority) whatever
/// `LD_LIBRARY_PATH` held, lists it only once, follows it with its existing
/// architecture sub-directories, and keeps every other entry after them.
pub proof fn law_segger_ld_install_dir_first(current: Seq<char>, install_dir: Seq<char>, layout: SeggerLayout)
    requires
        install_dir.len() > 0,
        no_colon(install_dir),
    ensures
        ({
            let front = ld_front(install_dir, layout);
            let entries = spec_split(spec_segger_ld(current, install_dir, layout), ':');
            &&& entries == front + keep_entries(spec_split(current, ':'), front)
            &&& entries[0] == install_dir
            &&& forall|i: int| 0 < i < entries.len() ==> #[trigger] entries[i] != install_dir
            &&& forall|e: Seq<char>| #[trigger] spec_split(current, ':').contains(e) && !front.contains(e)
                ==> entries.contains(e)
        }),
{
    let front = ld_front(install_dir, layout);
    let pieces = spec_split(current, ':');
    let kept = keep_entries(pieces, front);
    let all = front + kept;
    assert(no_colon("x86"@) && "x86"@.len() > 0) by { reveal_strlit("x86"); }
    assert(no_colon("x86_64"@) && "x86_64"@.len() > 0) by { reveal_strlit("x86_64"); }
    assert(no_colon("amd64"@) && "amd64"@.len() > 0) by { reveal_strlit("amd64"); }
    lemma_join_longer(install_dir, "x86"@);
    lemma_join_longer(install_dir, "x86_64"@);
    lemma_join_longer(install_dir, "amd64"@);
    assert forall|k: int| 0 <= k < front.len() implies no_colon(#[trigger] front[k]) && (k > 0 ==> front[k].len()
        > install_dir.len()) by {}
    lemma_split_pieces_free(current, ':', Seq::empty());
    lemma_keep_entries(pieces, front);
    assert forall|i: int| 0 <= i < all.len() implies free_of(#[trigger] all[i], ':') by {
        if i < front.len() {
            assert(all[i] == front[i]);
        } else {
            assert(all[i] == kept[i - front.len()]);
            let j = choose|j: int| 0 <= j < pieces.len() && pieces[j] == kept[i - front.len()];
            assert(free_of(pieces[j], ':'));
        }
    }
    lemma_split_join(all, ':');
    assert(front[0] == install_dir);
    assert forall|i: int| 0 < i < all.len() implies #[trigger] all[i] != install_dir by {
        if i < front.len() {
            assert(all[i] == front[i]);
        } else {
            assert(all[i] == kept[i - front.len()]);
            assert(!front.contains(kept[i - front.len()]));
            assert(front[0] == install_dir);
        }
    }
    assert forall|e: Seq<char>| #[trigger] pieces.contains(e) && !front.contains(e) implies all.contains(e) by {
        lemma_keep_has(pieces, front, e);
        let j = choose|j: int| 0 <= j < kept.len() && kept[j] == e;
        assert(all[front.len() + j] == e);
    }
}

/// An entry of `entries` that is not among `front` is kept.
proof fn lemma_keep_has(entries: Seq<Seq<char>>, front: Seq<Seq<char>>, e: Seq<char>)
    requires
        entries.contains(e),
        !front.contains(e),
    ensures
        keep_entries(entries, front).contains(e),
    decreases entries.len(),
{
    let init = entries.drop_last();
    if entries.last() == e {
        let k = keep_entries(entries, front);
        assert(k[k.len() - 1] == e);
    } else {
        let j = choose|j: int| 0 <= j < entries.len() && entries[j] == e;
        assert(j < entries.len() - 1);
        assert(init[j] == e);
        lemma_keep_has(init, front, e);
        let r = keep_entries(init, front);
        let m = choose|m: int| 0 <= m < r.len() && r[m] == e;
        assert(keep_entries(entries, front)[m] == e);
    }
}

/// The environment values that make J-Link runnable.
pub struct RuntimeEnv {
    /// `PATH` (empty when unset).
    pub path: String,
    /// `LD_LIBRARY_PATH` (empty when unset).
    pub ld_library_path: String,
}

/// The environment after making the J-Link installation in `install_dir`
/// runnable: `install_dir` on `PATH` on every system, and on Linux the SEGGER
/// tree on `LD_LIBRARY_PATH`.
pub fn ensure_jlink_runtime_env(os: TargetOs, install_dir: &str, env: RuntimeEnv, layout: &SeggerLayout) -> (r: RuntimeEnv)
    ensures
        r.path@ == match spec_prepend_path(os, env.path@, install_dir@) {
            Some(v) => v,
            None => env.path@,
        },
        r.ld_library_path@ == if os == TargetOs::Linux {
            spec_segger_ld(env.ld_library_path@, install_dir@, *layout)
        } else {
            env.ld_library_path@
        },
{
    let path = match prepend_to_process_path(os, env.path.as_str(), install_dir) {
        Some(v) => v,
        None => env.path,
    };
    let ld_library_path = if os == TargetOs::Linux {
        prepend_ld_library_path_segger_layout(env.ld_library_path.as_str(), install_dir, layout)
    } else {
        env.ld_library_path
    };
    RuntimeEnv { path, ld_library_path }
}

} // verus!
