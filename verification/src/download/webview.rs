//! The browser (hidden web view) download of SEGGER's installer: which
//! download to accept, and the bookkeeping around each download attempt.
//!
//! A [`DownloadTracker`] holds what the attempts share: the file being
//! downloaded (so that a cancel can delete it), the last file a finished
//! attempt produced (a fallback), when the current attempt started, and a
//! generation number that tells stale events of earlier attempts apart.

use vstd::prelude::*;

use crate::download::commands::MIN_INSTALLER_SIZE;
use crate::download::types::DownloadProgress;
use crate::jlink::types::opt_view;
use crate::paths::TargetOs;
use crate::text::{chars_of, contains, decimal, ends_with, push_decimal, spec_contains, spec_ends_with};

verus! {

/// The size shown for a Windows browser download until the file is seen
/// (bytes).
pub const EXPECTED_INSTALLER_SIZE: u64 = 64_602_096;

/// State shared by the browser download attempts.
pub struct DownloadTracker {
    /// The file being downloaded, so that cancel can delete it.
    pub current_download_path: Option<String>,
    /// The last file a successful attempt (of any generation) produced.
    pub last_success_path: Option<String>,
    /// When the current attempt started (seconds since the Unix epoch).
    pub download_start_secs: u64,
    /// The number of the current attempt.
    pub generation: u32,
}

/// The model of a [`DownloadTracker`].
pub struct TrackerView {
    pub current_download_path: Option<Seq<char>>,
    pub last_success_path: Option<Seq<char>>,
    pub download_start_secs: u64,
    pub generation: u32,
}

impl View for DownloadTracker {
    type V = TrackerView;

    open spec fn view(&self) -> TrackerView {
        TrackerView {
            current_download_path: opt_view(self.current_download_path),
            last_success_path: opt_view(self.last_success_path),
            download_start_secs: self.download_start_secs,
            generation: self.generation,
        }
    }
}

/// The attempt number after `g` (wrapping, as an atomic counter does).
pub open spec fn next_generation(g: u32) -> u32 {
    if g == u32::MAX {
        0
    } else {
        (g + 1) as u32
    }
}

/// The installer extension the browser downloads on `os`.
pub open spec fn spec_installer_extension(os: TargetOs) -> Seq<char> {
    match os {
        TargetOs::Windows => ".exe"@,
        TargetOs::MacOs => ".pkg"@,
        TargetOs::Linux => ".deb"@,
    }
}

/// The browser download to accept: a J-Link installer for this platform.
pub open spec fn spec_accepts_request(os: TargetOs, url: Seq<char>) -> bool {
    spec_contains(url, "JLink"@) && spec_ends_with(url, spec_installer_extension(os))
}

/// What a failed attempt leads to.
pub enum FailedDownloadPlan {
    /// Use the file an earlier attempt finished (its path and size).
    UseFallback { path: String, size: u64 },
    /// Report the cancellation.
    ReportCancelled,
    /// Close all downloader windows and ask the user interface to retry.
    Retry,
}

/// What was seen of the last successful download's file.
pub struct FileSeen {
    pub exists: bool,
    pub size: u64,
}

impl DownloadTracker {
    /// No attempt yet.
    pub fn new() -> (t: DownloadTracker)
        ensures
            t@ == (TrackerView {
                current_download_path: None,
                last_success_path: None,
                download_start_secs: 0,
                generation: 0,
            }),
    {
        DownloadTracker {
            current_download_path: None,
            last_success_path: None,
            download_start_secs: 0,
            generation: 0,
        }
    }

    /// Starts a new attempt at `now_secs`: forgets the paths, records the
    /// start and returns the new attempt's number.
    pub fn begin_download(&mut self, now_secs: u64) -> (g: u32)
        ensures
            g == next_generation(old(self).generation),
            final(self)@ == (TrackerView {
                current_download_path: None,
                last_success_path: None,
                download_start_secs: now_secs,
                generation: g,
            }),
    {
        clear_current_download_path(self);
        self.last_success_path = None;
        self.download_start_secs = now_secs;
        self.generation = if self.generation == u32::MAX {
            0
        } else {
            self.generation + 1
        };
        self.generation
    }

    /// Events of attempt `g` are current (not stale).
    pub fn is_current(&self, g: u32) -> (r: bool)
        ensures
            r == (g == self.generation),
    {
        g == self.generation
    }

    /// Windows: the accepted download goes to `save_tmp`; records it as the
    /// file being downloaded and gives the first progress to report.
    pub fn on_windows_request(&mut self, save_tmp: &str) -> (p: DownloadProgress)
        ensures
            final(self)@ == (TrackerView { current_download_path: Some(save_tmp@), ..old(self)@ }),
            p == (DownloadProgress { percent: 0, transferred: 0, total: EXPECTED_INSTALLER_SIZE }),
    {
        self.current_download_path = Some(String::from_str(save_tmp));
        DownloadProgress { percent: 0, transferred: 0, total: EXPECTED_INSTALLER_SIZE }
    }

    /// An attempt finished: a successful one's file is kept as the fallback,
    /// whatever its generation.
    pub fn note_finished(&mut self, success: bool, path: Option<&str>)
        ensures
            final(self)@ == if success && path is Some {
                TrackerView { last_success_path: Some(path->0@), ..old(self)@ }
            } else {
                old(self)@
            },
    {
        if success {
            match path {
                Some(p) => {
                    self.last_success_path = Some(String::from_str(p));
                },
                None => {},
            }
        }
    }

    /// The completed download's file is now `path`.
    pub fn record_completed(&mut self, path: &str)
        ensures
            final(self)@ == (TrackerView { current_download_path: Some(path@), ..old(self)@ }),
    {
        self.current_download_path = Some(String::from_str(path));
    }

    /// What a failed, current attempt leads to (`cancelled`: the user
    /// cancelled; `last`: what is seen of the last successful file): the
    /// fallback file when not cancelled and it exists with more than
    /// [`MIN_INSTALLER_SIZE`] bytes, else the cancellation or a retry.
    pub fn after_failed_download(&self, cancelled: bool, last: FileSeen) -> (plan: FailedDownloadPlan)
        ensures
            match plan {
                FailedDownloadPlan::UseFallback { path, size } => {
                    &&& !cancelled
                    &&& self.last_success_path is Some
                    &&& path@ == self.last_success_path->0@
                    &&& last.exists
                    &&& last.size > MIN_INSTALLER_SIZE
                    &&& size == last.size
                },
                FailedDownloadPlan::ReportCancelled => cancelled,
                FailedDownloadPlan::Retry => !cancelled && !(self.last_success_path is Some && last.exists
                    && last.size > MIN_INSTALLER_SIZE),
            },
    {
        if !cancelled {
            match &self.last_success_path {
                Some(p) => {
                    if last.exists && last.size > MIN_INSTALLER_SIZE {
                        return FailedDownloadPlan::UseFallback { path: String::from_str(p.as_str()), size: last.size };
                    }
                },
                None => {},
            }
            FailedDownloadPlan::Retry
        } else {
            FailedDownloadPlan::ReportCancelled
        }
    }
}

/// Forgets the file being downloaded.
pub fn clear_current_download_path(tracker: &mut DownloadTracker)
    ensures
        final(tracker)@ == (TrackerView { current_download_path: None, ..old(tracker)@ }),
{
    tracker.current_download_path = None;
}

/// When the current attempt started (seconds since the Unix epoch).
pub fn get_download_start_secs(tracker: &DownloadTracker) -> (r: u64)
    ensures
        r == tracker.download_start_secs,
{
    tracker.download_start_secs
}

/// What a successful, current browser download leads to.
pub enum SucceededDownloadPlan {
    /// Only close the downloader window: on Windows the poll of the
    /// temporary file reports completion, and elsewhere another path (the
    /// direct HTTP download) completed first.
    CloseWindow,
    /// The user cancelled while the file was buffered: delete this file and
    /// report the cancellation.
    DiscardCancelled { path: String },
    /// Keep this file as the installer: cache it, report completion, close
    /// the window.
    Keep { path: String },
}

/// What a successful, current browser download leads to (`won`: this
/// download was the first to mark the download complete; `cancelled`: the
/// user cancelled; `path`: the file the browser reports, if any).
pub fn after_successful_download(
    os: TargetOs,
    won: bool,
    cancelled: bool,
    path: Option<&str>,
    save_final: &str,
) -> (plan: SucceededDownloadPlan)
    ensures
        os == TargetOs::Windows || !won ==> plan is CloseWindow,
        os != TargetOs::Windows && won && cancelled ==> (plan matches SucceededDownloadPlan::DiscardCancelled { path: p }
            && p@ == match path {
            Some(q) => q@,
            None => save_final@,
        }),
        os != TargetOs::Windows && won && !cancelled ==> (plan matches SucceededDownloadPlan::Keep { path: p } && p@
            == match path {
            Some(q) => q@,
            None => save_final@,
        }),
{
    if os == TargetOs::Windows || !won {
        return SucceededDownloadPlan::CloseWindow;
    }
    let p = finished_download_path(path, save_final);
    if cancelled {
        SucceededDownloadPlan::DiscardCancelled { path: p }
    } else {
        SucceededDownloadPlan::Keep { path: p }
    }
}

/// The label of the downloader window of attempt `g`.
pub open spec fn spec_downloader_label(g: u32) -> Seq<char> {
    "jlink-downloader-"@ + decimal(g as nat)
}

/// The label of the downloader window of attempt `g`.
pub fn downloader_label(g: u32) -> (r: String)
    ensures
        r@ == spec_downloader_label(g),
{
    let mut r = String::from_str("jlink-downloader-");
    push_decimal(&mut r, g as usize);
    r
}

/// The installer extension the browser downloads on `os`.
pub fn installer_extension(os: TargetOs) -> (r: &'static str)
    ensures
        r@ == spec_installer_extension(os),
{
    match os {
        TargetOs::Windows => ".exe",
        TargetOs::MacOs => ".pkg",
        TargetOs::Linux => ".deb",
    }
}

/// The browser download to accept: `url` names J-Link and ends with the
/// platform's installer extension.
pub fn accepts_download_request(os: TargetOs, url: &str) -> (r: bool)
    ensures
        r == spec_accepts_request(os, url@),
{
    let u = chars_of(url);
    contains(u.as_slice(), chars_of("JLink").as_slice()) && ends_with(
        u.as_slice(),
        chars_of(installer_extension(os)).as_slice(),
    )
}

/// The file a finished browser download produced: the path it reports, else
/// the configured final path.
pub fn finished_download_path(path: Option<&str>, save_final: &str) -> (r: String)
    ensures
        r@ == match path {
            Some(p) => p@,
            None => save_final@,
        },
{
    match path {
        Some(p) => String::from_str(p),
        None => String::from_str(save_final),
    }
}

/// The progress reported once a browser download is complete (`size`: the
/// file's size, 0 when unreadable).
pub fn completion_progress(size: u64) -> (p: DownloadProgress)
    ensures
        p == (DownloadProgress { percent: 100, transferred: size, total: size }),
{
    DownloadProgress { percent: 100, transferred: size, total: size }
}

/// Each attempt gets a new number, so that events of the attempt before are
/// recognised as stale; starting an attempt forgets the files of earlier ones.
pub proof fn law_new_attempt_makes_old_stale(g: u32)
    ensures
        next_generation(g) != g,
{
}

} // verus!
