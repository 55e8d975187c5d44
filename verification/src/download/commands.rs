//! Decisions of the download and install commands: whether an installer is
//! already there, whether a downloaded file can be installed, and which files
//! a cancelled download leaves to delete.

use vstd::prelude::*;

use crate::download::types::{DownloadConfig, InstallResult, InstallView, ScanInstallerResult};
use crate::paths::TargetOs;
use crate::text::{chars_of, ends_with, push_decimal, spec_ends_with, spec_starts_with, starts_with, decimal, string_views};

verus! {

/// The smallest file that can be a J-Link installer (bytes).
pub const MIN_INSTALLER_SIZE: u64 = 10_000_000;

// ─── Looking for an installer ────────────────────────────────────────────────

/// An installer file is there: on Windows any file at the download path, on
/// other systems a cached file larger than [`MIN_INSTALLER_SIZE`].
pub open spec fn installer_present(os: TargetOs, exists: bool, size: u64) -> bool {
    if os == TargetOs::Windows {
        exists
    } else {
        exists && size > MIN_INSTALLER_SIZE
    }
}

/// The answer to "is an installer already there?" (`path`: the download path
/// on Windows, the cached installer elsewhere; `exists` / `size`: what the
/// file system reports of it).
pub fn scan_for_installer(os: TargetOs, path: &str, exists: bool, size: u64) -> (r: ScanInstallerResult)
    ensures
        r.found == installer_present(os, exists, size),
        r.found ==> r.path@ == path@,
        !r.found ==> r.path@ == Seq::<char>::empty() && r.message@ == "Not found"@,
        r.found && os == TargetOs::Windows ==> r.message@ == "Installer found"@,
        r.found && os != TargetOs::Windows ==> r.message@ == "Installer cached"@,
{
    let found = if os == TargetOs::Windows {
        exists
    } else {
        exists && size > MIN_INSTALLER_SIZE
    };
    if !found {
        ScanInstallerResult { found, path: String::new(), message: String::from_str("Not found") }
    } else if os == TargetOs::Windows {
        ScanInstallerResult { found, path: String::from_str(path), message: String::from_str("Installer found") }
    } else {
        ScanInstallerResult { found, path: String::from_str(path), message: String::from_str("Installer cached") }
    }
}

// ─── Installing ──────────────────────────────────────────────────────────────

/// The refusal of a file of `size` bytes, too small to be an installer.
pub open spec fn too_small(size: u64) -> InstallView {
    InstallView {
        success: false,
        cancelled: None,
        message: "File too small ("@ + decimal(size as nat) + " bytes). Please re-download."@,
        path: None,
    }
}

/// Whether a file of `file_size` bytes may be installed: `None` when it may,
/// else the result that refuses it (files under [`MIN_INSTALLER_SIZE`] bytes;
/// a missing file counts as size 0).
pub fn check_installer_size(file_size: u64) -> (r: Option<InstallResult>)
    ensures
        match r {
            None => file_size >= MIN_INSTALLER_SIZE,
            Some(res) => file_size < MIN_INSTALLER_SIZE && res@ == too_small(file_size),
        },
{
    if file_size < MIN_INSTALLER_SIZE {
        let mut message = String::from_str("File too small (");
        push_decimal_u64(&mut message, file_size);
        message.append(" bytes). Please re-download.");
        Some(InstallResult { success: false, cancelled: None, message, path: None })
    } else {
        None
    }
}

/// Appends the decimal representation of `n`.
pub(crate) fn push_decimal_u64(s: &mut String, n: u64)
    ensures
        final(s)@ == old(s)@ + decimal(n as nat),
    decreases n,
{
    if n < 10 {
        push_decimal(s, n as usize);
    } else {
        push_decimal_u64(s, n / 10);
        let ghost mid = s@;
        push_decimal(s, (n % 10) as usize);
        assert(decimal((n % 10) as nat) =~= seq![crate::text::digit_char((n % 10) as nat)]);
        assert(old(s)@ + decimal((n / 10) as nat) + decimal((n % 10) as nat) =~= old(s)@ + decimal(n as nat));
    }
}

// ─── Cancelling a download ───────────────────────────────────────────────────

/// The files a cancelled download removes when they exist: the browser's
/// temporary file, the HTTP temporary file and the (partial) final file.
pub fn cancel_download_files(cfg: &DownloadConfig) -> (r: Vec<String>)
    ensures
        string_views(r@) == seq![cfg.save_tmp@, cfg.save_http_tmp@, cfg.save_final@],
{
    let r = vec![
        String::from_str(cfg.save_tmp.as_str()),
        String::from_str(cfg.save_http_tmp.as_str()),
        String::from_str(cfg.save_final.as_str()),
    ];
    assert(string_views(r@) =~= seq![cfg.save_tmp@, cfg.save_http_tmp@, cfg.save_final@]);
    r
}

/// What a cancel request does: nothing once the download has completed
/// (`None`), else remove the files of [`cancel_download_files`] that exist.
pub fn plan_cancel(download_complete: bool, cfg: &DownloadConfig) -> (r: Option<Vec<String>>)
    ensures
        download_complete ==> r is None,
        !download_complete ==> (r matches Some(files) && string_views(files@) == seq![
            cfg.save_tmp@,
            cfg.save_http_tmp@,
            cfg.save_final@,
        ]),
{
    if download_complete {
        None
    } else {
        Some(cancel_download_files(cfg))
    }
}

/// An entry of the downloads directory.
pub struct DownloadDirEntry {
    /// Its file name (empty when it is not valid Unicode).
    pub name: String,
    /// Its modification time in whole seconds since the Unix epoch (0 before it).
    pub mtime_secs: u64,
    /// Its modification time in nanoseconds relative to the Unix epoch.
    pub mtime_nanos: i128,
}

/// The installer extension a browser download has on `os`.
pub open spec fn download_ext(os: TargetOs) -> Seq<char> {
    if os == TargetOs::MacOs {
        ".pkg"@
    } else {
        ".deb"@
    }
}

/// `name` is a J-Link installer download, finished or partial (`.wkdownload`).
pub open spec fn is_jlink_download(os: TargetOs, name: Seq<char>) -> bool {
    &&& spec_starts_with(name, "JLink"@)
    &&& (spec_ends_with(name, download_ext(os)) || spec_ends_with(name, download_ext(os) + ".wkdownload"@))
}

/// `e` is a J-Link download modified since the download started.
pub open spec fn is_recent_download(os: TargetOs, e: DownloadDirEntry, start_secs: u64) -> bool {
    is_jlink_download(os, e.name@) && e.mtime_secs >= start_secs
}

/// `e` is a partial browser download.
pub open spec fn is_partial(e: DownloadDirEntry) -> bool {
    spec_ends_with(e.name@, ".wkdownload"@)
}

/// The indices below `n` of the recent partial downloads, in order.
pub open spec fn partials_upto(os: TargetOs, es: Seq<DownloadDirEntry>, start_secs: u64, n: int) -> Seq<int>
    decreases n,
{
    if n <= 0 {
        Seq::empty()
    } else {
        let rest = partials_upto(os, es, start_secs, n - 1);
        if is_recent_download(os, es[n - 1], start_secs) && is_partial(es[n - 1]) {
            rest.push(n - 1)
        } else {
            rest
        }
    }
}

/// The index below `n` of the newest recent finished download (the first one
/// among equally new ones).
pub open spec fn newest_upto(os: TargetOs, es: Seq<DownloadDirEntry>, start_secs: u64, n: int) -> Option<int>
    decreases n,
{
    if n <= 0 {
        None
    } else {
        let best = newest_upto(os, es, start_secs, n - 1);
        let e = es[n - 1];
        if is_recent_download(os, e, start_secs) && !is_partial(e) && (match best {
            None => true,
            Some(b) => e.mtime_nanos > es[b].mtime_nanos,
        }) {
            Some(n - 1)
        } else {
            best
        }
    }
}

/// The entries a cancelled download deletes from the downloads directory
/// (Linux and macOS): every recent partial download, then the newest recent
/// finished one.
pub open spec fn spec_stale_downloads(os: TargetOs, es: Seq<DownloadDirEntry>, start_secs: u64) -> Seq<int> {
    let partials = partials_upto(os, es, start_secs, es.len() as int);
    match newest_upto(os, es, start_secs, es.len() as int) {
        Some(b) => partials.push(b),
        None => partials,
    }
}

/// `name` is a J-Link download.
fn jlink_download(os: TargetOs, name: &[char]) -> (r: bool)
    ensures
        r == is_jlink_download(os, name@),
{
    let ext = if os == TargetOs::MacOs {
        chars_of(".pkg")
    } else {
        chars_of(".deb")
    };
    let mut partial_ext = String::from_str(if os == TargetOs::MacOs {
        ".pkg"
    } else {
        ".deb"
    });
    partial_ext.append(".wkdownload");
    starts_with(name, chars_of("JLink").as_slice()) && (ends_with(name, ext.as_slice()) || ends_with(
        name,
        chars_of(partial_ext.as_str()).as_slice(),
    ))
}

/// Which entries of the downloads directory a cancelled download deletes
/// (`entries`: the directory's entries whose time could be read, in listing
/// order; `start_secs`: when the download started): the indices of every
/// J-Link download (`JLink*` with the platform's installer extension, or that
/// plus `.wkdownload`) modified since the start that is still partial, then
/// the newest such finished one.
pub fn stale_downloads(os: TargetOs, entries: &Vec<DownloadDirEntry>, start_secs: u64) -> (r: Vec<usize>)
    ensures
        r@.map_values(|i: usize| i as int) == spec_stale_downloads(os, entries@, start_secs),
{
    let ghost es = entries@;
    let mut partials: Vec<usize> = Vec::new();
    let mut best: Option<usize> = None;
    let mut i: usize = 0;
    while i < entries.len()
        invariant
            i <= entries.len(),
            es == entries@,
            partials@.map_values(|k: usize| k as int) == partials_upto(os, es, start_secs, i as int),
            match best {
                None => newest_upto(os, es, start_secs, i as int) is None,
                Some(b) => newest_upto(os, es, start_secs, i as int) == Some(b as int) && b < i,
            },
        decreases entries.len() - i,
    {
        let e = &entries[i];
        let name = chars_of(e.name.as_str());
        let recent = jlink_download(os, name.as_slice()) && e.mtime_secs >= start_secs;
        let partial = ends_with(name.as_slice(), chars_of(".wkdownload").as_slice());
        let ghost before = partials@;
        if recent && partial {
            partials.push(i);
            assert(partials@.map_values(|k: usize| k as int) =~= before.map_values(|k: usize| k as int).push(i as int));
        }
        if recent && !partial {
            let newer = match best {
                None => true,
                Some(b) => e.mtime_nanos > entries[b].mtime_nanos,
            };
            if newer {
                best = Some(i);
            }
        }
        i += 1;
    }
    let ghost before = partials@;
    match best {
        Some(b) => {
            partials.push(b);
            assert(partials@.map_values(|k: usize| k as int) =~= before.map_values(|k: usize| k as int).push(b as int));
        },
        None => {},
    }
    partials
}

/// A cancelled download deletes only J-Link downloads modified since it
/// started, never a file it did not download; and of the finished ones it
/// deletes the newest: no other recent finished J-Link download is newer.
pub proof fn law_cancel_deletes_only_new_jlink_downloads(os: TargetOs, es: Seq<DownloadDirEntry>, start_secs: u64)
    ensures
        forall|k: int| 0 <= k < spec_stale_downloads(os, es, start_secs).len() ==> {
            let i = #[trigger] spec_stale_downloads(os, es, start_secs)[k];
            &&& 0 <= i < es.len()
            &&& is_recent_download(os, es[i], start_secs)
        },
        newest_upto(os, es, start_secs, es.len() as int) matches Some(b) ==> forall|j: int|
            0 <= j < es.len() && is_recent_download(os, #[trigger] es[j], start_secs) && !is_partial(es[j])
                ==> es[j].mtime_nanos <= es[b].mtime_nanos,
{
    lemma_partials(os, es, start_secs, es.len() as int);
    lemma_newest(os, es, start_secs, es.len() as int);
}

/// The partial downloads found below `n` are recent J-Link downloads below `n`.
proof fn lemma_partials(os: TargetOs, es: Seq<DownloadDirEntry>, start_secs: u64, n: int)
    requires
        n <= es.len(),
    ensures
        forall|k: int| 0 <= k < partials_upto(os, es, start_secs, n).len() ==> {
            let i = #[trigger] partials_upto(os, es, start_secs, n)[k];
            &&& 0 <= i < n
            &&& is_recent_download(os, es[i], start_secs)
        },
    decreases n,
{
    if n > 0 {
        lemma_partials(os, es, start_secs, n - 1);
        let rest = partials_upto(os, es, start_secs, n - 1);
        let all = partials_upto(os, es, start_secs, n);
        assert forall|k: int| 0 <= k < all.len() implies {
            let i = #[trigger] all[k];
            &&& 0 <= i < n
            &&& is_recent_download(os, es[i], start_secs)
        } by {
            if k < rest.len() {
                assert(all[k] == rest[k]);
            }
        }
    }
}

/// The newest finished download below `n` is one, and none below `n` is newer.
proof fn lemma_newest(os: TargetOs, es: Seq<DownloadDirEntry>, start_secs: u64, n: int)
    requires
        n <= es.len(),
    ensures
        newest_upto(os, es, start_secs, n) matches Some(b) ==> {
            &&& 0 <= b < n
            &&& is_recent_download(os, es[b], start_secs)
            &&& !is_partial(es[b])
            &&& forall|j: int|
                0 <= j < n && is_recent_download(os, #[trigger] es[j], start_secs) && !is_partial(es[j])
                    ==> es[j].mtime_nanos <= es[b].mtime_nanos
        },
        newest_upto(os, es, start_secs, n) is None ==> forall|j: int|
            0 <= j < n ==> !(is_recent_download(os, #[trigger] es[j], start_secs) && !is_partial(es[j])),
    decreases n,
{
    if n > 0 {
        lemma_newest(os, es, start_secs, n - 1);
    }
}

} // verus!
