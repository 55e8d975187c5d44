//! Application error type.
//!
//! Every operation that can fail reports an [`AppError`]; its message is the
//! text shown to the user.

use vstd::prelude::*;

verus! {

/// The errors the application reports.
#[derive(Debug, Clone)]
pub enum AppError {
    /// The J-Link binary was not found or could not be executed.
    JLinkNotFound(String),
    /// A J-Link command failed.
    JLinkFailed(String),
    /// A download failed (network, file system, ...).
    DownloadFailed(String),
    /// An installation failed.
    InstallFailed(String),
    /// The user cancelled the operation.
    Cancelled,
    /// A platform-specific error (registry, PATH, ...).
    Platform(String),
    /// An I/O error.
    Io(String),
    /// An unexpected error.
    Internal(String),
}

/// The message of an error.
pub open spec fn error_message(e: AppError) -> Seq<char> {
    match e {
        AppError::JLinkNotFound(m) => "JLink not found: "@ + m@,
        AppError::JLinkFailed(m) => "JLink command failed: "@ + m@,
        AppError::DownloadFailed(m) => "Download failed: "@ + m@,
        AppError::InstallFailed(m) => "Installation failed: "@ + m@,
        AppError::Cancelled => "Cancelled"@,
        AppError::Platform(m) => "Platform error: "@ + m@,
        AppError::Io(m) => "IO error: "@ + m@,
        AppError::Internal(m) => "Internal error: "@ + m@,
    }
}

/// `prefix` followed by `m`.
fn prefixed(prefix: &str, m: &String) -> (r: String)
    ensures
        r@ == prefix@ + m@,
{
    let mut r = String::from_str(prefix);
    r.append(m.as_str());
    r
}

impl AppError {
    /// The message shown for this error.
    pub fn message(&self) -> (r: String)
        ensures
            r@ == error_message(*self),
    {
        match self {
            AppError::JLinkNotFound(m) => prefixed("JLink not found: ", m),
            AppError::JLinkFailed(m) => prefixed("JLink command failed: ", m),
            AppError::DownloadFailed(m) => prefixed("Download failed: ", m),
            AppError::InstallFailed(m) => prefixed("Installation failed: ", m),
            AppError::Cancelled => String::from_str("Cancelled"),
            AppError::Platform(m) => prefixed("Platform error: ", m),
            AppError::Io(m) => prefixed("IO error: ", m),
            AppError::Internal(m) => prefixed("Internal error: ", m),
        }
    }
}

} // verus!
