//! Types for download and install operations, and where installers are kept.

use vstd::prelude::*;

use crate::jlink::types::opt_view;
use crate::paths::{TargetArch, TargetOs, join, spec_join};
use crate::text::spec_starts_with;
use crate::platform::windows::{roaming_segger, roaming_segger_dir};
use crate::download::webview::{installer_extension, spec_installer_extension};

verus! {

/// Progress of a download, as reported to the user interface.
#[derive(Debug, Clone, Copy, PartialEq, Eq, Structural)]
pub struct DownloadProgress {
    pub percent: u32,
    pub transferred: u64,
    pub total: u64,
}

/// Outcome of an installation.
#[derive(Debug, Clone)]
pub struct InstallResult {
    pub success: bool,
    pub cancelled: Option<bool>,
    pub message: String,
    pub path: Option<String>,
}

/// The model of an [`InstallResult`].
pub struct InstallView {
    pub success: bool,
    pub cancelled: Option<bool>,
    pub message: Seq<char>,
    pub path: Option<Seq<char>>,
}

impl View for InstallResult {
    type V = InstallView;

    open spec fn view(&self) -> InstallView {
        InstallView {
            success: self.success,
            cancelled: self.cancelled,
            message: self.message@,
            path: opt_view(self.path),
        }
    }
}

/// Outcome of looking for an installer that was downloaded before.
#[derive(Debug, Clone)]
pub struct ScanInstallerResult {
    pub found: bool,
    pub path: String,
    pub message: String,
}

/// Directories of the user's environment that downloads depend on, each
/// `None` where the system does not provide it.
pub struct PlatformDirs {
    /// `%USERPROFILE%` (Windows).
    pub user_profile: Option<String>,
    /// The home directory.
    pub home_dir: Option<String>,
    /// The downloads directory.
    pub download_dir: Option<String>,
    /// The local application data directory.
    pub data_local_dir: Option<String>,
}

/// The model of an optional directory: the empty path when absent
/// (`unwrap_or_default`).
pub open spec fn dir_or_empty(d: Option<String>) -> Seq<char> {
    match d {
        Some(s) => s@,
        None => Seq::empty(),
    }
}

/// Platform-specific download configuration.
pub struct DownloadConfig {
    /// Direct download URL of the installer.
    pub url: &'static str,
    /// Where the browser download is saved while it runs (`.tmp`).
    pub save_tmp: String,
    /// Where the direct HTTP download is saved while it runs (`.http.tmp`).
    pub save_http_tmp: String,
    /// Where the finished installer is kept (`.exe` / `.pkg` / `.deb`).
    pub save_final: String,
    /// Where an existing installer is looked for (Windows).
    pub scan_path: String,
}

/// The file name, without extension, of the installer SEGGER offers for a
/// platform.
pub open spec fn installer_stem(os: TargetOs, arch: TargetArch) -> Seq<char> {
    match os {
        TargetOs::Windows => if arch == TargetArch::Aarch64 {
            "JLink_Windows_arm64"@
        } else if arch == TargetArch::X86 {
            "JLink_Windows"@
        } else {
            "JLink_Windows_x86_64"@
        },
        TargetOs::MacOs => if arch == TargetArch::Aarch64 {
            "JLink_MacOSX_arm64"@
        } else if arch == TargetArch::X86_64 {
            "JLink_MacOSX"@
        } else {
            "JLink_MacOSX_universal"@
        },
        TargetOs::Linux => if arch == TargetArch::Aarch64 {
            "JLink_Linux_arm64"@
        } else if arch == TargetArch::Arm {
            "JLink_Linux_arm"@
        } else if arch == TargetArch::X86 {
            "JLink_Linux_i386"@
        } else {
            "JLink_Linux_x86_64"@
        },
    }
}

/// The URL of the installer SEGGER offers for a platform.
pub open spec fn installer_url(os: TargetOs, arch: TargetArch) -> Seq<char> {
    match os {
        TargetOs::Windows => if arch == TargetArch::Aarch64 {
            "https://www.segger.com/downloads/jlink/JLink_Windows_arm64.exe"@
        } else if arch == TargetArch::X86 {
            "https://www.segger.com/downloads/jlink/JLink_Windows.exe"@
        } else {
            "https://www.segger.com/downloads/jlink/JLink_Windows_x86_64.exe"@
        },
        TargetOs::MacOs => if arch == TargetArch::Aarch64 {
            "https://www.segger.com/downloads/jlink/JLink_MacOSX_arm64.pkg"@
        } else if arch == TargetArch::X86_64 {
            "https://www.segger.com/downloads/jlink/JLink_MacOSX.pkg"@
        } else {
            "https://www.segger.com/downloads/jlink/JLink_MacOSX_universal.pkg"@
        },
        TargetOs::Linux => if arch == TargetArch::Aarch64 {
            "https://www.segger.com/downloads/jlink/JLink_Linux_arm64.deb"@
        } else if arch == TargetArch::Arm {
            "https://www.segger.com/downloads/jlink/JLink_Linux_arm.deb"@
        } else if arch == TargetArch::X86 {
            "https://www.segger.com/downloads/jlink/JLink_Linux_i386.deb"@
        } else {
            "https://www.segger.com/downloads/jlink/JLink_Linux_x86_64.deb"@
        },
    }
}

/// The URL and the file name stem of the installer SEGGER offers for a platform.
fn installer(os: TargetOs, arch: TargetArch) -> (r: (&'static str, &'static str))
    ensures
        r.0@ == installer_url(os, arch),
        r.1@ == installer_stem(os, arch),
{
    match os {
        TargetOs::Windows => if arch == TargetArch::Aarch64 {
            ("https://www.segger.com/downloads/jlink/JLink_Windows_arm64.exe", "JLink_Windows_arm64")
        } else if arch == TargetArch::X86 {
            ("https://www.segger.com/downloads/jlink/JLink_Windows.exe", "JLink_Windows")
        } else {
            ("https://www.segger.com/downloads/jlink/JLink_Windows_x86_64.exe", "JLink_Windows_x86_64")
        },
        TargetOs::MacOs => if arch == TargetArch::Aarch64 {
            ("https://www.segger.com/downloads/jlink/JLink_MacOSX_arm64.pkg", "JLink_MacOSX_arm64")
        } else if arch == TargetArch::X86_64 {
            ("https://www.segger.com/downloads/jlink/JLink_MacOSX.pkg", "JLink_MacOSX")
        } else {
            ("https://www.segger.com/downloads/jlink/JLink_MacOSX_universal.pkg", "JLink_MacOSX_universal")
        },
        TargetOs::Linux => if arch == TargetArch::Aarch64 {
            ("https://www.segger.com/downloads/jlink/JLink_Linux_arm64.deb", "JLink_Linux_arm64")
        } else if arch == TargetArch::Arm {
            ("https://www.segger.com/downloads/jlink/JLink_Linux_arm.deb", "JLink_Linux_arm")
        } else if arch == TargetArch::X86 {
            ("https://www.segger.com/downloads/jlink/JLink_Linux_i386.deb", "JLink_Linux_i386")
        } else {
            ("https://www.segger.com/downloads/jlink/JLink_Linux_x86_64.deb", "JLink_Linux_x86_64")
        },
    }
}

/// SEGGER's download directory.
pub open spec fn segger_downloads() -> Seq<char> {
    "https://www.segger.com/downloads/jlink/"@
}

/// `stem` names a file by itself: it is not empty and holds no dot and no
/// path separator, so that it is a file's whole stem.
pub open spec fn plain_stem(stem: Seq<char>) -> bool {
    stem.len() > 0 && forall|k: int| 0 <= k < stem.len() ==> stem[k] != '.' && stem[k] != '/' && stem[k] != '\\'
}

/// The installer of every platform is SEGGER's download directory followed
/// by the installer's file name, which is a plain stem with the platform's
/// installer extension (`.exe`, `.pkg`, `.deb`); with [`DownloadConfig::for_platform`]
/// this makes `save_tmp` the final file with extension `tmp` and the URL end
/// in the final file's name.
pub proof fn law_installer_names(os: TargetOs, arch: TargetArch)
    ensures
        installer_url(os, arch) == segger_downloads() + installer_stem(os, arch) + spec_installer_extension(os),
        plain_stem(installer_stem(os, arch)),
{
    if os == TargetOs::Windows && arch == TargetArch::Aarch64 {
        reveal_strlit("https://www.segger.com/downloads/jlink/JLink_Windows_arm64.exe");
        reveal_strlit("JLink_Windows_arm64");
        reveal_strlit(".exe");
        reveal_strlit("https://www.segger.com/downloads/jlink/");
        assert(installer_url(os, arch) =~= segger_downloads() + installer_stem(os, arch) + spec_installer_extension(os));
        assert(plain_stem(installer_stem(os, arch)));
    }
    if os == TargetOs::Windows && arch == TargetArch::X86 {
        reveal_strlit("https://www.segger.com/downloads/jlink/JLink_Windows.exe");
        reveal_strlit("JLink_Windows");
        reveal_strlit(".exe");
        reveal_strlit("https://www.segger.com/downloads/jlink/");
        assert(installer_url(os, arch) =~= segger_downloads() + installer_stem(os, arch) + spec_installer_extension(os));
        assert(plain_stem(installer_stem(os, arch)));
    }
    if os == TargetOs::Windows {
        reveal_strlit("https://www.segger.com/downloads/jlink/JLink_Windows_x86_64.exe");
        reveal_strlit("JLink_Windows_x86_64");
        reveal_strlit(".exe");
        reveal_strlit("https://www.segger.com/downloads/jlink/");
        assert(installer_url(os, arch) =~= segger_downloads() + installer_stem(os, arch) + spec_installer_extension(os));
        assert(plain_stem(installer_stem(os, arch)));
    }
    if os == TargetOs::MacOs && arch == TargetArch::Aarch64 {
        reveal_strlit("https://www.segger.com/downloads/jlink/JLink_MacOSX_arm64.pkg");
        reveal_strlit("JLink_MacOSX_arm64");
        reveal_strlit(".pkg");
        reveal_strlit("https://www.segger.com/downloads/jlink/");
        assert(installer_url(os, arch) =~= segger_downloads() + installer_stem(os, arch) + spec_installer_extension(os));
        assert(plain_stem(installer_stem(os, arch)));
    }
    if os == TargetOs::MacOs && arch == TargetArch::X86_64 {
        reveal_strlit("https://www.segger.com/downloads/jlink/JLink_MacOSX.pkg");
        reveal_strlit("JLink_MacOSX");
        reveal_strlit(".pkg");
        reveal_strlit("https://www.segger.com/downloads/jlink/");
        assert(installer_url(os, arch) =~= segger_downloads() + installer_stem(os, arch) + spec_installer_extension(os));
        assert(plain_stem(installer_stem(os, arch)));
    }
    if os == TargetOs::MacOs {
        reveal_strlit("https://www.segger.com/downloads/jlink/JLink_MacOSX_universal.pkg");
        reveal_strlit("JLink_MacOSX_universal");
        reveal_strlit(".pkg");
        reveal_strlit("https://www.segger.com/downloads/jlink/");
        assert(installer_url(os, arch) =~= segger_downloads() + installer_stem(os, arch) + spec_installer_extension(os));
        assert(plain_stem(installer_stem(os, arch)));
    }
    if os == TargetOs::Linux && arch == TargetArch::Aarch64 {
        reveal_strlit("https://www.segger.com/downloads/jlink/JLink_Linux_arm64.deb");
        reveal_strlit("JLink_Linux_arm64");
        reveal_strlit(".deb");
        reveal_strlit("https://www.segger.com/downloads/jlink/");
        assert(installer_url(os, arch) =~= segger_downloads() + installer_stem(os, arch) + spec_installer_extension(os));
        assert(plain_stem(installer_stem(os, arch)));
    }
    if os == TargetOs::Linux && arch == TargetArch::Arm {
        reveal_strlit("https://www.segger.com/downloads/jlink/JLink_Linux_arm.deb");
        reveal_strlit("JLink_Linux_arm");
        reveal_strlit(".deb");
        reveal_strlit("https://www.segger.com/downloads/jlink/");
        assert(installer_url(os, arch) =~= segger_downloads() + installer_stem(os, arch) + spec_installer_extension(os));
        assert(plain_stem(installer_stem(os, arch)));
    }
    if os == TargetOs::Linux && arch == TargetArch::X86 {
        reveal_strlit("https://www.segger.com/downloads/jlink/JLink_Linux_i386.deb");
        reveal_strlit("JLink_Linux_i386");
        reveal_strlit(".deb");
        reveal_strlit("https://www.segger.com/downloads/jlink/");
        assert(installer_url(os, arch) =~= segger_downloads() + installer_stem(os, arch) + spec_installer_extension(os));
        assert(plain_stem(installer_stem(os, arch)));
    }
    if os == TargetOs::Linux {
        reveal_strlit("https://www.segger.com/downloads/jlink/JLink_Linux_x86_64.deb");
        reveal_strlit("JLink_Linux_x86_64");
        reveal_strlit(".deb");
        reveal_strlit("https://www.segger.com/downloads/jlink/");
        assert(installer_url(os, arch) =~= segger_downloads() + installer_stem(os, arch) + spec_installer_extension(os));
        assert(plain_stem(installer_stem(os, arch)));
    }
}

/// The name every installer for `os` begins with.
pub open spec fn installer_family(os: TargetOs) -> Seq<char> {
    match os {
        TargetOs::Windows => "JLink_Windows"@,
        TargetOs::MacOs => "JLink_MacOSX"@,
        TargetOs::Linux => "JLink_Linux"@,
    }
}

/// The installer chosen for a host is built for that host's system and
/// architecture: its name begins with the system's family, an arm64 host
/// always gets the `_arm64` build of its system, an x86_64 host the `_x86_64`
/// build (the plain Intel build on macOS), a 32-bit Linux host the `_arm` or
/// `_i386` build, and a 32-bit x86 Windows host the plain 32-bit build; other
/// hosts get the x86_64 build on Windows and Linux and the universal build on
/// macOS.
pub proof fn law_installer_matches_architecture(os: TargetOs, arch: TargetArch)
    ensures
        spec_starts_with(installer_stem(os, arch), installer_family(os)),
        arch == TargetArch::Aarch64 ==> installer_stem(os, arch) == installer_family(os) + "_arm64"@,
        arch == TargetArch::X86_64 && os != TargetOs::MacOs ==> installer_stem(os, arch) == installer_family(os)
            + "_x86_64"@,
        arch == TargetArch::X86_64 && os == TargetOs::MacOs ==> installer_stem(os, arch) == installer_family(os),
        arch == TargetArch::Arm && os == TargetOs::Linux ==> installer_stem(os, arch) == installer_family(os) + "_arm"@,
        arch == TargetArch::X86 && os == TargetOs::Linux ==> installer_stem(os, arch) == installer_family(os) + "_i386"@,
        arch == TargetArch::X86 && os == TargetOs::Windows ==> installer_stem(os, arch) == installer_family(os),
        os != TargetOs::MacOs && (arch == TargetArch::Other || (arch == TargetArch::Arm && os == TargetOs::Windows))
            ==> installer_stem(os, arch) == installer_family(os) + "_x86_64"@,
        os == TargetOs::MacOs && (arch == TargetArch::Other || arch == TargetArch::Arm || arch == TargetArch::X86)
            ==> installer_stem(os, arch) == installer_family(os) + "_universal"@,
{
    reveal_strlit("JLink_Windows");
    reveal_strlit("JLink_MacOSX");
    reveal_strlit("JLink_Linux");
    reveal_strlit("_arm64");
    reveal_strlit("_x86_64");
    reveal_strlit("_arm");
    reveal_strlit("_i386");
    reveal_strlit("_universal");
    reveal_strlit("JLink_Windows_arm64");
    reveal_strlit("JLink_Windows_x86_64");
    reveal_strlit("JLink_MacOSX_arm64");
    reveal_strlit("JLink_MacOSX_universal");
    reveal_strlit("JLink_Linux_arm64");
    reveal_strlit("JLink_Linux_arm");
    reveal_strlit("JLink_Linux_i386");
    reveal_strlit("JLink_Linux_x86_64");
    let f = installer_family(os);
    let st = installer_stem(os, arch);
    assert(st.take(f.len() as int) =~= f);
    assert(installer_family(os) + "_arm64"@ =~= installer_stem(os, TargetArch::Aarch64));
    if os != TargetOs::MacOs {
        assert(installer_family(os) + "_x86_64"@ =~= installer_stem(os, TargetArch::X86_64));
        assert(installer_family(os) + "_x86_64"@ =~= installer_stem(os, TargetArch::Other));
    } else {
        assert(installer_family(os) + "_universal"@ =~= installer_stem(os, TargetArch::Other));
        assert(installer_family(os) + "_universal"@ =~= installer_stem(os, TargetArch::Arm));
        assert(installer_family(os) + "_universal"@ =~= installer_stem(os, TargetArch::X86));
    }
    if os == TargetOs::Linux {
        assert(installer_family(os) + "_arm"@ =~= installer_stem(os, TargetArch::Arm));
        assert(installer_family(os) + "_i386"@ =~= installer_stem(os, TargetArch::X86));
    }
    if os == TargetOs::Windows {
        assert(installer_family(os) + "_x86_64"@ =~= installer_stem(os, TargetArch::Arm));
    }
}

/// The directory that downloads are saved to: `%USERPROFILE%` (else the home
/// directory) `\AppData\Roaming\SEGGER` on Windows, the downloads directory
/// elsewhere; a missing directory counts as the empty path.
pub open spec fn spec_save_dir(os: TargetOs, user_profile: Option<String>, home_dir: Option<String>, download_dir: Option<String>) -> Seq<char> {
    if os == TargetOs::Windows {
        roaming_segger(
            match user_profile {
                Some(p) => p@,
                None => dir_or_empty(home_dir),
            },
        )
    } else {
        dir_or_empty(download_dir)
    }
}

/// A copy of an optional directory, or the empty path.
fn dir_string(d: &Option<String>) -> (r: String)
    ensures
        r@ == dir_or_empty(*d),
{
    match d {
        Some(s) => String::from_str(s.as_str()),
        None => String::new(),
    }
}

impl DownloadConfig {
    /// The download configuration of the platform `os` / `arch`, with the
    /// user's directories `dirs`.
    pub fn for_platform(os: TargetOs, arch: TargetArch, dirs: &PlatformDirs) -> (c: DownloadConfig)
        ensures
            ({
                let stem = installer_stem(os, arch);
                let dir = spec_save_dir(os, dirs.user_profile, dirs.home_dir, dirs.download_dir);
                &&& c.url@ == installer_url(os, arch)
                &&& c.save_final@ == spec_join(os, dir, stem + spec_installer_extension(os))
                &&& c.save_tmp@ == spec_join(os, dir, stem + ".tmp"@)
                &&& c.save_http_tmp@ == spec_join(os, dir, stem + ".http.tmp"@)
                &&& c.scan_path@ == c.save_final@
            }),
    {
        let (url, stem) = installer(os, arch);
        let dir = if os == TargetOs::Windows {
            let profile = match &dirs.user_profile {
                Some(p) => String::from_str(p.as_str()),
                None => dir_string(&dirs.home_dir),
            };
            roaming_segger_dir(profile.as_str())
        } else {
            dir_string(&dirs.download_dir)
        };
        let mut file = String::from_str(stem);
        file.append(installer_extension(os));
        let mut tmp = String::from_str(stem);
        tmp.append(".tmp");
        let mut http_tmp = String::from_str(stem);
        http_tmp.append(".http.tmp");
        DownloadConfig {
            url,
            save_tmp: join(os, dir.as_str(), tmp.as_str()),
            save_http_tmp: join(os, dir.as_str(), http_tmp.as_str()),
            save_final: join(os, dir.as_str(), file.as_str()),
            scan_path: join(os, dir.as_str(), file.as_str()),
        }
    }
}

/// The file name of the cached installer on `os`.
pub open spec fn cached_installer_name(os: TargetOs) -> Seq<char> {
    match os {
        TargetOs::MacOs => "JLink_installer.pkg"@,
        TargetOs::Windows => "JLink_installer.exe"@,
        TargetOs::Linux => "JLink_installer.deb"@,
    }
}

/// The local application data directory, else `~/.local/share`.
pub open spec fn spec_data_dir(os: TargetOs, data_local_dir: Option<String>, home_dir: Option<String>) -> Seq<char> {
    match data_local_dir {
        Some(d) => d@,
        None => spec_join(os, spec_join(os, dir_or_empty(home_dir), ".local"@), "share"@),
    }
}

/// Where the downloaded installer is cached in the application's data.
pub open spec fn spec_cached_installer_path(os: TargetOs, data_local_dir: Option<String>, home_dir: Option<String>) -> Seq<char> {
    spec_join(
        os,
        spec_join(os, spec_data_dir(os, data_local_dir, home_dir), "com.probeconfigurator.app"@),
        cached_installer_name(os),
    )
}

/// Where the downloaded installer is cached in the application's local data
/// (Linux and macOS keep it there so that cleaning up the downloads
/// directory on cancel cannot lose it).
pub fn cached_installer_path(os: TargetOs, dirs: &PlatformDirs) -> (r: String)
    ensures
        r@ == spec_cached_installer_path(os, dirs.data_local_dir, dirs.home_dir),
{
    let data_dir = match &dirs.data_local_dir {
        Some(d) => String::from_str(d.as_str()),
        None => {
            let home = dir_string(&dirs.home_dir);
            let local = join(os, home.as_str(), ".local");
            join(os, local.as_str(), "share")
        },
    };
    let name = match os {
        TargetOs::MacOs => "JLink_installer.pkg",
        TargetOs::Windows => "JLink_installer.exe",
        TargetOs::Linux => "JLink_installer.deb",
    };
    let app_dir = join(os, data_dir.as_str(), "com.probeconfigurator.app");
    join(os, app_dir.as_str(), name)
}

} // verus!
