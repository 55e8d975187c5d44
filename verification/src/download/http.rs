//! Direct HTTP download: checking the response and reporting progress.
//!
//! The transfer itself (requests, streaming, files) is done by the caller;
//! this module decides whether a response is worth streaming and what
//! progress each received chunk amounts to.

use vstd::prelude::*;

use crate::download::types::DownloadProgress;
use crate::error::AppError;
use crate::text::{chars_of, contains, spec_ascii_lower, spec_contains, to_ascii_lowercase};

verus! {

/// A response with this `Content-Type` (`None`: absent or not text) may be
/// the installer: servers that omit it may still send binaries, and a text or
/// HTML page is SEGGER's license gate.
pub open spec fn spec_looks_like_binary(content_type: Option<Seq<char>>) -> bool {
    let ct = spec_ascii_lower(
        match content_type {
            Some(c) => c,
            None => Seq::empty(),
        },
    );
    ct.len() == 0 || !(spec_contains(ct, "text/"@) || spec_contains(ct, "application/xhtml"@) || spec_contains(
        ct,
        "application/html"@,
    ))
}

/// A response with this `Content-Type` may be the installer.
pub fn looks_like_binary(content_type: Option<&str>) -> (r: bool)
    ensures
        r == spec_looks_like_binary(
            match content_type {
                Some(c) => Some(c@),
                None => None,
            },
        ),
{
    let raw = match content_type {
        Some(c) => chars_of(c),
        None => Vec::new(),
    };
    let ct = to_ascii_lowercase(raw.as_slice());
    if ct.len() == 0 {
        return true;
    }
    !(contains(ct.as_slice(), chars_of("text/").as_slice()) || contains(
        ct.as_slice(),
        chars_of("application/xhtml").as_slice(),
    ) || contains(ct.as_slice(), chars_of("application/html").as_slice()))
}

/// Whether a response is streamed: an error unless its status is a success
/// (`status`: the status as text, e.g. `404 Not Found`) and it may be the
/// installer.
pub fn check_response(status_is_success: bool, status: &str, content_type: Option<&str>) -> (r: Result<(), AppError>)
    ensures
        !status_is_success ==> (r matches Err(AppError::DownloadFailed(m)) && m@ == "HTTP "@ + status@),
        status_is_success && !spec_looks_like_binary(
            match content_type {
                Some(c) => Some(c@),
                None => None,
            },
        ) ==> (r matches Err(AppError::DownloadFailed(m)) && m@
            == "Server returned HTML/text (likely license gate)"@),
        r is Ok <==> status_is_success && spec_looks_like_binary(
            match content_type {
                Some(c) => Some(c@),
                None => None,
            },
        ),
{
    if !status_is_success {
        let mut m = String::from_str("HTTP ");
        m.append(status);
        return Err(AppError::DownloadFailed(m));
    }
    if !looks_like_binary(content_type) {
        return Err(AppError::DownloadFailed(String::from_str("Server returned HTML/text (likely license gate)")));
    }
    Ok(())
}

/// `a * b`, or `u64::MAX` when that does not fit (`u64::saturating_mul`).
pub open spec fn sat_mul(a: u64, b: u64) -> u64 {
    if a * b > u64::MAX {
        u64::MAX
    } else {
        (a * b) as u64
    }
}

/// `a + b`, or `u64::MAX` when that does not fit (`u64::saturating_add`).
pub open spec fn sat_add(a: u64, b: u64) -> u64 {
    if a + b > u64::MAX {
        u64::MAX
    } else {
        (a + b) as u64
    }
}

/// The percentage shown while streaming: `transferred / total`, capped at 99
/// so that 100 is reported only once the file is in place; 0 when the total
/// size is unknown.
pub open spec fn spec_percent(transferred: u64, total: u64) -> u32 {
    if total > 0 {
        let p = sat_mul(transferred, 100) / total;
        if p < 99 {
            p as u32
        } else {
            99
        }
    } else {
        0
    }
}

/// The running count of a streamed download.
pub struct StreamProgress {
    /// Bytes received so far (saturating).
    pub transferred: u64,
    /// The announced size (0 when unknown).
    pub total: u64,
}

impl StreamProgress {
    /// A download of `total` announced bytes (0 when unknown), nothing received yet.
    pub fn new(total: u64) -> (s: StreamProgress)
        ensures
            s.transferred == 0,
            s.total == total,
    {
        StreamProgress { transferred: 0, total }
    }

    /// Takes the next chunk of the stream: a cancelled download stops with
    /// `Cancelled` before anything else; a chunk that failed to arrive
    /// (`Err`: its error's message) fails the download; a chunk of `len`
    /// bytes is counted and gives the progress to report.
    pub fn on_chunk(&mut self, cancelled: bool, chunk: Result<u64, String>) -> (r: Result<DownloadProgress, AppError>)
        ensures
            final(self).total == old(self).total,
            cancelled ==> (r matches Err(AppError::Cancelled) && final(self).transferred == old(self).transferred),
            !cancelled ==> match chunk {
                Err(e) => (r matches Err(AppError::DownloadFailed(m)) && m@ == e@)
                    && final(self).transferred == old(self).transferred,
                Ok(len) => {
                    &&& final(self).transferred == sat_add(old(self).transferred, len)
                    &&& r == Ok::<DownloadProgress, AppError>(
                        DownloadProgress {
                            percent: spec_percent(final(self).transferred, final(self).total),
                            transferred: final(self).transferred,
                            total: final(self).total,
                        },
                    )
                },
            },
    {
        if cancelled {
            return Err(AppError::Cancelled);
        }
        let len = match chunk {
            Err(e) => return Err(AppError::DownloadFailed(e)),
            Ok(len) => len,
        };
        self.transferred = self.transferred.saturating_add(len);
        let percent: u32 = if self.total > 0 {
            let scaled: u64 = if self.transferred > u64::MAX / 100 {
                u64::MAX
            } else {
                self.transferred * 100
            };
            assert(scaled == sat_mul(self.transferred, 100));
            let q = scaled / self.total;
            if q < 99 {
                q as u32
            } else {
                99
            }
        } else {
            0
        };
        Ok(DownloadProgress { percent, transferred: self.transferred, total: self.total })
    }
}

/// The progress reported once the file is in place (`size`: its size on
/// disk, 0 when unreadable; `total`: the announced size).
pub fn completed_progress(size: u64, total: u64) -> (p: DownloadProgress)
    ensures
        p == (DownloadProgress { percent: 100, transferred: size, total: if size >= total { size } else { total } }),
{
    DownloadProgress { percent: 100, transferred: size, total: if size >= total { size } else { total } }
}

/// While streaming, progress never reaches 100% and never goes back: more
/// bytes received never show a smaller percentage.
pub proof fn law_stream_progress_monotone(t1: u64, t2: u64, total: u64)
    requires
        t1 <= t2,
    ensures
        spec_percent(t1, total) <= spec_percent(t2, total),
        spec_percent(t2, total) <= 99,
{
    if total > 0 {
        assert(sat_mul(t1, 100) <= sat_mul(t2, 100)) by (nonlinear_arith)
            requires
                t1 <= t2,
        {
        }
        vstd::arithmetic::div_mod::lemma_div_is_ordered(sat_mul(t1, 100) as int, sat_mul(t2, 100) as int, total as int);
    }
}

/// Each chunk counts towards the transferred bytes: the count never
/// decreases.
pub proof fn law_transferred_grows(t: u64, len: u64)
    ensures
        sat_add(t, len) >= t,
        t + len <= u64::MAX ==> sat_add(t, len) == t + len,
{
}

} // verus!
