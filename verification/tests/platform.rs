use winusb_switcher::error::AppError;
use winusb_switcher::paths::{join, TargetOs};
use winusb_switcher::platform::{
    config, ensure_jlink_runtime_env, find_jlink_in_search_dirs, path_key, prepend_ld_library_path,
    prepend_ld_library_path_segger_layout, prepend_to_process_path, search_dirs, RuntimeEnv,
    SearchDirObservation, SeggerLayout,
};
use winusb_switcher::state::JLinkState;

#[test]
fn platform_command_names() {
    let w = config(TargetOs::Windows);
    assert_eq!((w.jlink_bin, w.jlink_executable), ("JLink", "JLink.exe"));
    let m = config(TargetOs::MacOs);
    assert_eq!((m.jlink_bin, m.jlink_executable), ("JLinkExe", "JLinkExe"));
    let l = config(TargetOs::Linux);
    assert_eq!((l.jlink_bin, l.jlink_executable), ("JLinkExe", "JLinkExe"));
}

#[test]
fn search_directories() {
    assert_eq!(
        search_dirs(TargetOs::Linux, Some("/home/x")),
        vec!["/usr/bin", "/usr/local/bin", "/opt/SEGGER/JLink"]
    );
    assert_eq!(
        search_dirs(TargetOs::Windows, Some("C:\\Users\\bob")),
        vec![
            "C:\\Users\\bob\\AppData\\Roaming\\SEGGER",
            "C:\\Program Files\\SEGGER",
            "C:\\Program Files (x86)\\SEGGER"
        ]
    );
    assert_eq!(
        search_dirs(TargetOs::Windows, None),
        vec!["C:\\Program Files\\SEGGER", "C:\\Program Files (x86)\\SEGGER"]
    );
    assert_eq!(search_dirs(TargetOs::MacOs, None), vec!["/Applications/SEGGER"]);
}

#[test]
fn path_joining() {
    assert_eq!(join(TargetOs::Linux, "/a", "b"), "/a/b");
    assert_eq!(join(TargetOs::Linux, "/a/", "b"), "/a/b");
    assert_eq!(join(TargetOs::Linux, "", "b"), "b");
    assert_eq!(join(TargetOs::Windows, "C:", "b"), "C:b");
    assert_eq!(join(TargetOs::Windows, "C:\\x", "b"), "C:\\x\\b");
    assert_eq!(join(TargetOs::Windows, "C:/x/", "b"), "C:/x/b");
    assert_eq!(join(TargetOs::Linux, "C:", "b"), "C:/b");
}

fn obs(dir: &str, exists: bool, subdirs: &[&str], has: bool) -> SearchDirObservation {
    SearchDirObservation {
        dir: dir.to_string(),
        exists,
        subdirs_with_executable: subdirs.iter().map(|s| s.to_string()).collect(),
        has_executable: has,
    }
}

#[test]
fn finds_jlink_in_search_order() {
    let seen = vec![
        obs("/gone", false, &["/gone/JLink"], true),
        obs("/usr/bin", true, &[], false),
        obs("/opt/SEGGER", true, &["/opt/SEGGER/JLink_V1", "/opt/SEGGER/JLink_V2"], true),
    ];
    assert_eq!(find_jlink_in_search_dirs(&seen).as_deref(), Some("/opt/SEGGER/JLink_V1"));
    let direct = vec![obs("/usr/bin", true, &[], true), obs("/opt", true, &["/opt/x"], false)];
    assert_eq!(find_jlink_in_search_dirs(&direct).as_deref(), Some("/usr/bin"));
    assert_eq!(find_jlink_in_search_dirs(&vec![obs("/a", true, &[], false)]), None);
}

#[test]
fn path_prepending() {
    assert_eq!(prepend_to_process_path(TargetOs::Windows, "C:\\Windows", "C:\\SEGGER"), Some("C:\\SEGGER;C:\\Windows".to_string()));
    assert_eq!(prepend_to_process_path(TargetOs::Windows, "c:\\segger\\jlink;C:\\Windows", "C:\\SEGGER\\JLink"), None);
    assert_eq!(prepend_to_process_path(TargetOs::Linux, "/usr/bin", "/opt/j"), Some("/opt/j:/usr/bin".to_string()));
    assert_eq!(prepend_to_process_path(TargetOs::Linux, "", "/opt/j"), Some("/opt/j:".to_string()));
}

#[test]
fn path_compares_whole_entries() {
    assert_eq!(
        prepend_to_process_path(TargetOs::Linux, "/opt/SEGGER/JLink_V798:/usr/bin", "/opt/SEGGER/JLink"),
        Some("/opt/SEGGER/JLink:/opt/SEGGER/JLink_V798:/usr/bin".to_string())
    );
    assert_eq!(prepend_to_process_path(TargetOs::Linux, "/usr/bin:/opt/SEGGER/JLink", "/opt/SEGGER/JLink"), None);
    assert_eq!(
        prepend_to_process_path(TargetOs::Linux, "/opt/segger/jlink", "/opt/SEGGER/JLink"),
        Some("/opt/SEGGER/JLink:/opt/segger/jlink".to_string())
    );
    assert_eq!(
        prepend_to_process_path(TargetOs::Windows, "C:\\SEGGER\\JLink_V798;C:\\W", "C:\\SEGGER\\JLink"),
        Some("C:\\SEGGER\\JLink;C:\\SEGGER\\JLink_V798;C:\\W".to_string())
    );
    // Lower-casing the whole value makes the last sigma final (ς), so the
    // lower-cased PATH does not hold the lower-cased directory (σ).
    assert_eq!(prepend_to_process_path(TargetOs::Linux, "A:Σ", "Σ"), Some("Σ:A:Σ".to_string()));
    // Updating twice changes nothing more.
    let once = prepend_to_process_path(TargetOs::Windows, "C:\\W", "C:\\J").unwrap();
    assert_eq!(prepend_to_process_path(TargetOs::Windows, &once, "C:\\J"), None);
}

#[test]
fn path_variable_name() {
    let names = vec!["HOME".to_string(), "Path".to_string(), "PATH".to_string()];
    assert_eq!(path_key(&names), "Path");
    assert_eq!(path_key(&vec!["HOME".to_string()]), "PATH");
}

#[test]
fn ld_library_path_prepending() {
    assert_eq!(prepend_ld_library_path("/a:/b", "/b"), None);
    assert_eq!(prepend_ld_library_path("/a:/bc", "/b"), Some("/b:/a:/bc".to_string()));
    assert_eq!(prepend_ld_library_path("", "/b"), Some("/b:".to_string()));
    assert_eq!(prepend_ld_library_path("/a::", ""), Some(":/a::".to_string()));
}

#[test]
fn segger_layout_puts_install_dir_first() {
    let layout = SeggerLayout { x86: true, x86_64: true, amd64: false };
    assert_eq!(
        prepend_ld_library_path_segger_layout("/usr/lib", "/opt/j", &layout),
        "/opt/j:/opt/j/x86_64:/opt/j/x86:/usr/lib"
    );
    let none = SeggerLayout { x86: false, x86_64: false, amd64: false };
    assert_eq!(prepend_ld_library_path_segger_layout("/opt/j:/x", "/opt/j", &none), "/opt/j:/x");
    let only64 = SeggerLayout { x86: false, x86_64: true, amd64: false };
    assert_eq!(prepend_ld_library_path_segger_layout("/x:/opt/jl", "/opt/jl", &only64), "/opt/jl:/opt/jl/x86_64:/x");
    let all = SeggerLayout { x86: true, x86_64: true, amd64: true };
    assert_eq!(
        prepend_ld_library_path_segger_layout("/opt/j/x86:/y", "/opt/j", &all),
        "/opt/j:/opt/j/amd64:/opt/j/x86_64:/opt/j/x86:/y"
    );
}

#[test]
fn runtime_env_per_platform() {
    let layout = SeggerLayout { x86: false, x86_64: true, amd64: false };
    let env = RuntimeEnv { path: "/usr/bin".to_string(), ld_library_path: String::new() };
    let r = ensure_jlink_runtime_env(TargetOs::Linux, "/opt/j", env, &layout);
    assert_eq!(r.path, "/opt/j:/usr/bin");
    assert_eq!(r.ld_library_path, "/opt/j:/opt/j/x86_64:");
    let env = RuntimeEnv { path: "C:\\W".to_string(), ld_library_path: "keep".to_string() };
    let r = ensure_jlink_runtime_env(TargetOs::Windows, "C:\\J", env, &layout);
    assert_eq!(r.path, "C:\\J;C:\\W");
    assert_eq!(r.ld_library_path, "keep");
}

#[test]
fn state_reads_back_writes() {
    let mut s = JLinkState::new("JLink");
    assert_eq!(s.get(), "JLink");
    s.set("C:\\SEGGER\\JLink.exe".to_string());
    assert_eq!(s.get(), "C:\\SEGGER\\JLink.exe");
    assert_eq!(s.get(), "C:\\SEGGER\\JLink.exe");
}

#[test]
fn error_messages() {
    assert_eq!(AppError::JLinkNotFound("x".into()).message(), "JLink not found: x");
    assert_eq!(AppError::JLinkFailed("x".into()).message(), "JLink command failed: x");
    assert_eq!(AppError::DownloadFailed("x".into()).message(), "Download failed: x");
    assert_eq!(AppError::InstallFailed("x".into()).message(), "Installation failed: x");
    assert_eq!(AppError::Cancelled.message(), "Cancelled");
    assert_eq!(AppError::Platform("x".into()).message(), "Platform error: x");
    assert_eq!(AppError::Io("x".into()).message(), "IO error: x");
    assert_eq!(AppError::Internal("x".into()).message(), "Internal error: x");
}
