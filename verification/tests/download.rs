use winusb_switcher::bundled_jlink::{
    bundle_unsupported, bundled_install_paths, bundled_zip_candidates, bundled_zip_path, plan_bundle_extraction,
    plan_extraction, read_zip_entries, safe_join, unsafe_entry, ExtractStep, ZipEntry,
};
use winusb_switcher::download::commands::{
    cancel_download_files, check_installer_size, plan_cancel, scan_for_installer, stale_downloads, DownloadDirEntry,
};
use winusb_switcher::download::http::{check_response, completed_progress, looks_like_binary, StreamProgress};
use winusb_switcher::download::installer::{
    linux_install_result, macos_install_result, macos_install_script, windows_install_command, windows_launch_failed,
    CommandOutcome, InstallStep, InstallTick, InstallWatch, JLinkDirSeen, ProcessState,
};
use winusb_switcher::download::types::{cached_installer_path, DownloadConfig, DownloadProgress, PlatformDirs};
use winusb_switcher::download::webview::{
    accepts_download_request, after_successful_download, clear_current_download_path, SucceededDownloadPlan, completion_progress, downloader_label,
    finished_download_path, get_download_start_secs, DownloadTracker, FailedDownloadPlan, FileSeen,
};
use winusb_switcher::error::AppError;
use winusb_switcher::paths::{TargetArch, TargetOs};

fn dirs() -> PlatformDirs {
    PlatformDirs {
        user_profile: Some("C:\\Users\\bob".to_string()),
        home_dir: Some("/home/bob".to_string()),
        download_dir: Some("/home/bob/Downloads".to_string()),
        data_local_dir: Some("/home/bob/.local/share".to_string()),
    }
}

#[test]
fn download_config_per_platform() {
    let w = DownloadConfig::for_platform(TargetOs::Windows, TargetArch::X86_64, &dirs());
    assert_eq!(w.url, "https://www.segger.com/downloads/jlink/JLink_Windows_x86_64.exe");
    assert_eq!(w.save_final, "C:\\Users\\bob\\AppData\\Roaming\\SEGGER\\JLink_Windows_x86_64.exe");
    assert_eq!(w.save_tmp, "C:\\Users\\bob\\AppData\\Roaming\\SEGGER\\JLink_Windows_x86_64.tmp");
    assert_eq!(w.save_http_tmp, "C:\\Users\\bob\\AppData\\Roaming\\SEGGER\\JLink_Windows_x86_64.http.tmp");
    assert_eq!(w.scan_path, w.save_final);
    let w32 = DownloadConfig::for_platform(TargetOs::Windows, TargetArch::X86, &dirs());
    assert_eq!(w32.url, "https://www.segger.com/downloads/jlink/JLink_Windows.exe");
    let m = DownloadConfig::for_platform(TargetOs::MacOs, TargetArch::Aarch64, &dirs());
    assert_eq!(m.url, "https://www.segger.com/downloads/jlink/JLink_MacOSX_arm64.pkg");
    assert_eq!(m.save_final, "/home/bob/Downloads/JLink_MacOSX_arm64.pkg");
    let mu = DownloadConfig::for_platform(TargetOs::MacOs, TargetArch::Arm, &dirs());
    assert_eq!(mu.url, "https://www.segger.com/downloads/jlink/JLink_MacOSX_universal.pkg");
    let l = DownloadConfig::for_platform(TargetOs::Linux, TargetArch::Other, &dirs());
    assert_eq!(l.url, "https://www.segger.com/downloads/jlink/JLink_Linux_x86_64.deb");
    assert_eq!(l.save_tmp, "/home/bob/Downloads/JLink_Linux_x86_64.tmp");
    let li = DownloadConfig::for_platform(TargetOs::Linux, TargetArch::X86, &dirs());
    assert_eq!(li.url, "https://www.segger.com/downloads/jlink/JLink_Linux_i386.deb");
    let none = PlatformDirs { user_profile: None, home_dir: None, download_dir: None, data_local_dir: None };
    let w0 = DownloadConfig::for_platform(TargetOs::Windows, TargetArch::Aarch64, &none);
    assert_eq!(w0.save_final, "AppData\\Roaming\\SEGGER\\JLink_Windows_arm64.exe");
    let l0 = DownloadConfig::for_platform(TargetOs::Linux, TargetArch::Arm, &none);
    assert_eq!(l0.save_final, "JLink_Linux_arm.deb");
}

#[test]
fn cached_installer_locations() {
    assert_eq!(
        cached_installer_path(TargetOs::Linux, &dirs()),
        "/home/bob/.local/share/com.probeconfigurator.app/JLink_installer.deb"
    );
    let no_data = PlatformDirs { data_local_dir: None, ..dirs() };
    assert_eq!(
        cached_installer_path(TargetOs::MacOs, &no_data),
        "/home/bob/.local/share/com.probeconfigurator.app/JLink_installer.pkg"
    );
}

#[test]
fn installer_scan() {
    let r = scan_for_installer(TargetOs::Windows, "C:\\x.exe", true, 5);
    assert!(r.found);
    assert_eq!((r.path.as_str(), r.message.as_str()), ("C:\\x.exe", "Installer found"));
    let r = scan_for_installer(TargetOs::Linux, "/c.deb", true, 10_000_000);
    assert!(!r.found);
    assert_eq!((r.path.as_str(), r.message.as_str()), ("", "Not found"));
    let r = scan_for_installer(TargetOs::Linux, "/c.deb", true, 10_000_001);
    assert_eq!((r.found, r.message.as_str()), (true, "Installer cached"));
}

#[test]
fn installer_size_check() {
    let r = check_installer_size(123).unwrap();
    assert!(!r.success);
    assert_eq!(r.cancelled, None);
    assert_eq!(r.message, "File too small (123 bytes). Please re-download.");
    assert_eq!(check_installer_size(0).unwrap().message, "File too small (0 bytes). Please re-download.");
    assert!(check_installer_size(10_000_000).is_none());
}

fn entry(name: &str, secs: u64) -> DownloadDirEntry {
    DownloadDirEntry { name: name.to_string(), mtime_secs: secs, mtime_nanos: secs as i128 * 1_000_000_000 }
}

#[test]
fn cancel_cleanup_selection() {
    let es = vec![
        entry("JLink_Linux_x86_64.deb", 50),
        entry("JLink_Linux_x86_64.deb.wkdownload", 120),
        entry("JLink_Linux_x86_64 (1).deb", 130),
        entry("JLink_Linux_x86_64 (2).deb", 110),
        entry("Other.deb", 200),
        entry("JLink_MacOSX.pkg", 200),
    ];
    assert_eq!(stale_downloads(TargetOs::Linux, &es, 100), vec![1, 2]);
    assert_eq!(stale_downloads(TargetOs::MacOs, &es, 100), vec![5]);
    assert!(stale_downloads(TargetOs::Linux, &es, 1000).is_empty());
}

#[test]
fn cancel_file_list() {
    let c = DownloadConfig::for_platform(TargetOs::Linux, TargetArch::X86_64, &dirs());
    assert_eq!(cancel_download_files(&c), vec![c.save_tmp.clone(), c.save_http_tmp.clone(), c.save_final.clone()]);
}

#[test]
fn content_type_decision() {
    assert!(looks_like_binary(None));
    assert!(looks_like_binary(Some("")));
    assert!(looks_like_binary(Some("application/octet-stream")));
    assert!(!looks_like_binary(Some("Text/HTML; charset=utf-8")));
    assert!(!looks_like_binary(Some("application/XHTML+xml")));
    assert!(!looks_like_binary(Some("application/html")));
}

#[test]
fn response_checks() {
    match check_response(false, "404 Not Found", None) {
        Err(AppError::DownloadFailed(m)) => assert_eq!(m, "HTTP 404 Not Found"),
        other => panic!("unexpected {:?}", other),
    }
    match check_response(true, "200 OK", Some("text/html")) {
        Err(AppError::DownloadFailed(m)) => assert_eq!(m, "Server returned HTML/text (likely license gate)"),
        other => panic!("unexpected {:?}", other),
    }
    assert!(check_response(true, "200 OK", Some("application/x-msdownload")).is_ok());
}

#[test]
fn stream_progress_percentages() {
    let mut p = StreamProgress::new(1000);
    assert_eq!(p.on_chunk(false, Ok(250)).unwrap(), DownloadProgress { percent: 25, transferred: 250, total: 1000 });
    assert_eq!(p.on_chunk(false, Ok(740)).unwrap().percent, 99);
    assert_eq!(p.on_chunk(false, Ok(10)).unwrap().percent, 99);
    assert_eq!(p.transferred, 1000);
    let mut unknown = StreamProgress::new(0);
    assert_eq!(unknown.on_chunk(false, Ok(5)).unwrap(), DownloadProgress { percent: 0, transferred: 5, total: 0 });
    let mut huge = StreamProgress::new(u64::MAX);
    huge.on_chunk(false, Ok(u64::MAX)).unwrap();
    assert_eq!(huge.on_chunk(false, Ok(1)).unwrap().transferred, u64::MAX);
    assert_eq!(completed_progress(10, 5), DownloadProgress { percent: 100, transferred: 10, total: 10 });
    assert_eq!(completed_progress(3, 5), DownloadProgress { percent: 100, transferred: 3, total: 5 });
}

#[test]
fn stream_stops_on_cancel_and_chunk_errors() {
    let mut p = StreamProgress::new(100);
    assert!(matches!(p.on_chunk(true, Ok(10)), Err(AppError::Cancelled)));
    assert!(matches!(p.on_chunk(true, Err("reset".into())), Err(AppError::Cancelled)));
    match p.on_chunk(false, Err("connection reset".into())) {
        Err(AppError::DownloadFailed(m)) => assert_eq!(m, "connection reset"),
        other => panic!("unexpected {:?}", other),
    }
    assert_eq!(p.transferred, 0);
}

#[test]
fn cancel_is_ignored_after_completion() {
    let c = DownloadConfig::for_platform(TargetOs::Windows, TargetArch::X86_64, &dirs());
    assert!(plan_cancel(true, &c).is_none());
    assert_eq!(plan_cancel(false, &c).unwrap(), vec![c.save_tmp.clone(), c.save_http_tmp.clone(), c.save_final.clone()]);
}

#[test]
fn installer_names_follow_the_final_file() {
    for (os, ext) in [(TargetOs::Windows, ".exe"), (TargetOs::MacOs, ".pkg"), (TargetOs::Linux, ".deb")] {
        for arch in [TargetArch::X86_64, TargetArch::X86, TargetArch::Aarch64, TargetArch::Arm, TargetArch::Other] {
            let c = DownloadConfig::for_platform(os, arch, &dirs());
            assert!(c.save_final.ends_with(ext));
            let stem = &c.save_final[..c.save_final.len() - ext.len()];
            assert_eq!(c.save_tmp, format!("{}.tmp", stem));
            assert_eq!(c.save_http_tmp, format!("{}.http.tmp", stem));
            let sep = if os == TargetOs::Windows { '\\' } else { '/' };
            let file = c.save_final.rsplit(sep).next().unwrap();
            assert_eq!(c.url, format!("https://www.segger.com/downloads/jlink/{}", file));
        }
    }
}

#[test]
fn installer_commands() {
    assert_eq!(
        windows_install_command("C:\\Users\\o'neil\\J.exe", "C:\\Users\\o'neil\\SEGGER"),
        "Start-Process -FilePath 'C:\\Users\\o`'neil\\J.exe' -ArgumentList '/S','/D=C:\\Users\\o`'neil\\SEGGER' -Verb RunAs -Wait"
    );
    assert_eq!(
        macos_install_script("/tmp/J.pkg"),
        "do shell script \"installer -pkg \\\"/tmp/J.pkg\\\" -target /\" with administrator privileges"
    );
}

#[test]
fn installer_outcomes() {
    let ok = linux_install_result(CommandOutcome::Success, Some("/opt/SEGGER/JLink".into()));
    assert!(ok.success);
    assert_eq!(ok.message, "J-Link installed successfully.");
    assert_eq!(ok.path.as_deref(), Some("/opt/SEGGER/JLink"));
    let dismissed = linux_install_result(CommandOutcome::Failure { code: Some(126) }, None);
    assert_eq!((dismissed.cancelled, dismissed.message.as_str()), (Some(true), "Installation cancelled."));
    let failed = linux_install_result(CommandOutcome::Failure { code: Some(1) }, None);
    assert_eq!((failed.cancelled, failed.message.as_str()), (None, "Installation failed."));
    let nolaunch = linux_install_result(CommandOutcome::LaunchError("x".into()), None);
    assert_eq!(nolaunch.message, "Installation failed.");
    let mac = macos_install_result(CommandOutcome::Failure { code: None }, None);
    assert_eq!((mac.cancelled, mac.message.as_str()), (Some(true), "Installation cancelled."));
    let mac_err = macos_install_result(CommandOutcome::LaunchError("no osascript".into()), None);
    assert_eq!((mac_err.cancelled, mac_err.message.as_str()), (None, "Install failed: no osascript"));
    let launch = windows_launch_failed("denied");
    assert_eq!((launch.cancelled, launch.message.as_str()), (Some(true), "Failed to launch installer: denied"));
}

fn tick(cancelled: bool, process: ProcessState, dir: Option<JLinkDirSeen>, secs: u64) -> InstallTick {
    InstallTick { cancelled, process, jlink_dir: dir, elapsed_secs: secs }
}

fn seen(exists: bool, mtime: Option<u128>) -> Option<JLinkDirSeen> {
    Some(JLinkDirSeen { dir: "C:\\SEGGER\\JLink".to_string(), dll_exists: exists, dll_mtime_ms: mtime })
}

#[test]
fn windows_install_watch() {
    let mut w = InstallWatch::new(1_000);
    // An old installation is not taken for the new one while the installer runs.
    assert!(matches!(w.tick(tick(false, ProcessState::Running, seen(true, Some(999)), 0)), InstallStep::Continue));
    assert!(matches!(w.tick(tick(false, ProcessState::Running, seen(true, Some(999)), 1)), InstallStep::Continue));
    assert!(matches!(w.tick(tick(false, ProcessState::Running, seen(true, Some(999)), 1)), InstallStep::Continue));
    // A modification time alone does not count when the DLL is not there.
    let mut v = InstallWatch::new(0);
    v.tick(tick(false, ProcessState::Running, seen(false, Some(5)), 0));
    v.tick(tick(false, ProcessState::Running, seen(false, Some(5)), 0));
    assert!(matches!(v.tick(tick(false, ProcessState::Running, seen(false, Some(5)), 0)), InstallStep::Continue));
    // A fresh DLL on a checking tick completes it.
    w.tick(tick(false, ProcessState::Running, seen(true, Some(2_000)), 2));
    w.tick(tick(false, ProcessState::Running, seen(true, Some(2_000)), 2));
    match w.tick(tick(false, ProcessState::Running, seen(true, Some(2_000)), 2)) {
        InstallStep::Finish(r) => {
            assert!(r.success);
            assert_eq!(r.path.as_deref(), Some("C:\\SEGGER\\JLink"));
        }
        _ => panic!("expected completion on the sixth tick"),
    }

    let mut w = InstallWatch::new(1_000);
    match w.tick(tick(false, ProcessState::ExitedSuccessfully, seen(true, Some(1)), 0)) {
        InstallStep::Finish(r) => assert!(r.success),
        _ => panic!("an exited installer only needs the DLL"),
    }

    let mut w = InstallWatch::new(0);
    match w.tick(tick(true, ProcessState::Running, None, 0)) {
        InstallStep::Cancel(r) => assert_eq!((r.cancelled, r.message.as_str()), (Some(true), "Installation cancelled.")),
        _ => panic!("cancel wins"),
    }
    match w.tick(tick(false, ProcessState::ExitedWithFailure, None, 0)) {
        InstallStep::Finish(r) => assert_eq!(r.message, "UAC denied or installation failed."),
        _ => panic!("expected failure"),
    }
    match w.tick(tick(false, ProcessState::WaitError("boom".into()), None, 0)) {
        InstallStep::Finish(r) => assert_eq!((r.cancelled, r.message.as_str()), (None, "Process error: boom")),
        _ => panic!("expected failure"),
    }

    let mut w = InstallWatch::new(0);
    assert!(matches!(w.tick(tick(false, ProcessState::ExitedSuccessfully, None, 15)), InstallStep::Continue));
    match w.tick(tick(false, ProcessState::Running, None, 16)) {
        InstallStep::Finish(r) => {
            assert_eq!(r.message, "Installation finished but J-Link was not detected. Please try again.")
        }
        _ => panic!("grace period is over"),
    }

    let mut w = InstallWatch::new(0);
    match w.tick(tick(false, ProcessState::Running, None, 121)) {
        InstallStep::TimeOut(r) => assert_eq!(r.message, "Installation timed out."),
        _ => panic!("expected a time-out"),
    }
}

#[test]
fn browser_download_bookkeeping() {
    let mut t = DownloadTracker::new();
    let g1 = t.begin_download(1_700_000_000);
    assert_eq!(g1, 1);
    assert_eq!(get_download_start_secs(&t), 1_700_000_000);
    assert_eq!(downloader_label(g1), "jlink-downloader-1");
    assert_eq!(t.on_windows_request("C:\\x.tmp"), DownloadProgress { percent: 0, transferred: 0, total: 64_602_096 });
    assert_eq!(t.current_download_path.as_deref(), Some("C:\\x.tmp"));
    clear_current_download_path(&mut t);
    assert_eq!(t.current_download_path, None);
    t.note_finished(true, Some("/d/JLink.deb"));
    let g2 = t.begin_download(5);
    assert_eq!(g2, 2);
    assert!(!t.is_current(g1));
    assert!(t.is_current(g2));
    assert_eq!(t.last_success_path, None);
    t.note_finished(false, Some("/d/ignored.deb"));
    assert_eq!(t.last_success_path, None);
    t.note_finished(true, Some("/d/JLink.deb"));
    match t.after_failed_download(false, FileSeen { exists: true, size: 20_000_000 }) {
        FailedDownloadPlan::UseFallback { path, size } => assert_eq!((path.as_str(), size), ("/d/JLink.deb", 20_000_000)),
        _ => panic!("expected the fallback"),
    }
    assert!(matches!(t.after_failed_download(false, FileSeen { exists: true, size: 10 }), FailedDownloadPlan::Retry));
    assert!(matches!(t.after_failed_download(true, FileSeen { exists: true, size: 20_000_000 }), FailedDownloadPlan::ReportCancelled));
    t.record_completed("/safe/JLink_installer.deb");
    assert_eq!(t.current_download_path.as_deref(), Some("/safe/JLink_installer.deb"));
    assert_eq!(completion_progress(7), DownloadProgress { percent: 100, transferred: 7, total: 7 });
    assert_eq!(finished_download_path(None, "/d/final.deb"), "/d/final.deb");
    assert_eq!(finished_download_path(Some("/d/got.deb"), "/d/final.deb"), "/d/got.deb");
}

#[test]
fn successful_browser_download_plans() {
    assert!(matches!(after_successful_download(TargetOs::Windows, true, false, Some("/a"), "/f"), SucceededDownloadPlan::CloseWindow));
    assert!(matches!(after_successful_download(TargetOs::Linux, false, false, Some("/a"), "/f"), SucceededDownloadPlan::CloseWindow));
    match after_successful_download(TargetOs::Linux, true, true, None, "/f") {
        SucceededDownloadPlan::DiscardCancelled { path } => assert_eq!(path, "/f"),
        _ => panic!("expected a discard"),
    }
    match after_successful_download(TargetOs::MacOs, true, false, Some("/d/JLink.pkg"), "/f") {
        SucceededDownloadPlan::Keep { path } => assert_eq!(path, "/d/JLink.pkg"),
        _ => panic!("expected to keep the file"),
    }
}

#[test]
fn generation_wraps() {
    let mut t = DownloadTracker::new();
    t.generation = u32::MAX;
    assert_eq!(t.begin_download(0), 0);
}

#[test]
fn browser_download_requests() {
    assert!(accepts_download_request(TargetOs::Windows, "https://x/JLink_Windows_x86_64.exe"));
    assert!(!accepts_download_request(TargetOs::Windows, "https://x/JLink_Windows_x86_64.exe?x=1"));
    assert!(!accepts_download_request(TargetOs::Linux, "https://x/JLink_Windows.exe"));
    assert!(accepts_download_request(TargetOs::MacOs, "https://x/JLink_MacOSX.pkg"));
    assert!(!accepts_download_request(TargetOs::Linux, "https://x/other.deb"));
}

#[test]
fn bundled_archive_locations() {
    assert_eq!(
        bundled_zip_candidates(TargetOs::Windows, "C:\\App"),
        vec!["C:\\App\\resources\\jlink\\JLink_V930a.zip", "C:\\App\\jlink\\JLink_V930a.zip"]
    );
    let cands = vec!["a".to_string(), "b".to_string()];
    assert_eq!(bundled_zip_path("C:\\App", &cands, &vec![false, true]).unwrap(), "b");
    match bundled_zip_path("C:\\App", &cands, &vec![false, false]) {
        Err(AppError::Internal(m)) => assert_eq!(m, "Bundled J-Link zip not found in resources (looked under C:\\App)"),
        other => panic!("unexpected {:?}", other),
    }
    let (dst, exe) = bundled_install_paths("C:\\Users\\bob");
    assert_eq!(dst, "C:\\Users\\bob\\AppData\\Roaming\\SEGGER\\JLink_V930a");
    assert_eq!(exe, "C:\\Users\\bob\\AppData\\Roaming\\SEGGER\\JLink_V930a\\JLink.exe");
    assert_eq!(bundle_unsupported().message(), "Internal error: WinUSB Switcher Lite bundled J-Link is currently implemented for Windows only");
    assert_eq!(unsafe_entry("../x").message(), "Internal error: Unsafe zip entry path: ../x");
}

#[test]
fn zip_entries_stay_inside_destination() {
    let w = TargetOs::Windows;
    assert_eq!(safe_join(w, "C:\\D", "a/b.dll").as_deref(), Some("C:\\D\\a\\b.dll"));
    assert_eq!(safe_join(w, "C:\\D", "./a//b\\c").as_deref(), Some("C:\\D\\a\\b\\c"));
    assert_eq!(safe_join(w, "C:\\D", "dir/").as_deref(), Some("C:\\D\\dir"));
    assert_eq!(safe_join(w, "C:\\D", "../evil"), None);
    assert_eq!(safe_join(w, "C:\\D", "a\\..\\..\\evil"), None);
    assert_eq!(safe_join(w, "C:\\D", "/abs"), None);
    assert_eq!(safe_join(w, "C:\\D", "\\abs"), None);
    assert_eq!(safe_join(w, "C:\\D", "C:evil"), None);
    assert_eq!(safe_join(TargetOs::Linux, "/d", "C:ok").as_deref(), Some("/d/C:ok"));
    assert_eq!(safe_join(TargetOs::Linux, "/d", "a\\b").as_deref(), Some("/d/a\\b"));
    assert_eq!(safe_join(TargetOs::Linux, "/d", "..."), Some("/d/...".to_string()));
}

fn zip_entry(name: &str, is_dir: bool, data: &[u8]) -> ZipEntry {
    ZipEntry { name: name.to_string(), is_dir, data: data.to_vec() }
}

fn zip_bytes(files: &[(&str, &[u8])], dirs: &[&str]) -> Vec<u8> {
    let mut w = zip::ZipWriter::new(std::io::Cursor::new(Vec::new()));
    let opts = zip::write::SimpleFileOptions::default().compression_method(zip::CompressionMethod::Stored);
    for d in dirs {
        w.add_directory(*d, opts).unwrap();
    }
    for (name, data) in files {
        w.start_file(*name, opts).unwrap();
        std::io::Write::write_all(&mut w, data).unwrap();
    }
    w.finish().unwrap().into_inner()
}

#[test]
fn extraction_plan_follows_entries_in_order() {
    let entries = vec![zip_entry("sub/", true, b""), zip_entry("sub/JLink.dll", false, b"dll"), zip_entry("JLink.exe", false, b"MZ")];
    let (steps, err) = plan_extraction("C:\\D", &entries);
    assert!(err.is_none());
    assert_eq!(steps.len(), 3);
    match &steps[0] {
        ExtractStep::CreateDir(p) => assert_eq!(p, "C:\\D\\sub"),
        other => panic!("unexpected {:?}", other),
    }
    match &steps[1] {
        ExtractStep::WriteFile(p, d) => {
            assert_eq!(p, "C:\\D\\sub\\JLink.dll");
            assert_eq!(d, b"dll");
        },
        other => panic!("unexpected {:?}", other),
    }
    match &steps[2] {
        ExtractStep::WriteFile(p, d) => {
            assert_eq!(p, "C:\\D\\JLink.exe");
            assert_eq!(d, b"MZ");
        },
        other => panic!("unexpected {:?}", other),
    }
}

#[test]
fn extraction_stops_at_first_unsafe_entry() {
    let entries = vec![zip_entry("a.txt", false, b"a"), zip_entry("../evil.dll", false, b"x"), zip_entry("b.txt", false, b"b")];
    let (steps, err) = plan_extraction("C:\\D", &entries);
    assert_eq!(steps.len(), 1);
    match err {
        Some(AppError::Internal(m)) => assert_eq!(m, "Unsafe zip entry path: ../evil.dll"),
        other => panic!("unexpected {:?}", other),
    }
    let (steps, err) = plan_extraction("C:\\D", &vec![zip_entry("C:\\Windows\\x.dll", false, b"")]);
    assert!(steps.is_empty());
    assert!(matches!(err, Some(AppError::Internal(_))));
    let (steps, err) = plan_extraction("C:\\D", &Vec::new());
    assert!(steps.is_empty() && err.is_none());
}

#[test]
fn bundled_archive_is_decoded_and_planned() {
    let bytes = zip_bytes(&[("JLink_V930a/JLink.exe", b"MZ-exe"), ("JLink_V930a/readme.txt", b"hello")], &["JLink_V930a/"]);
    let entries = read_zip_entries(&bytes).unwrap();
    assert_eq!(entries.len(), 3);
    assert_eq!(entries[0].name, "JLink_V930a/");
    assert!(entries[0].is_dir);
    assert_eq!(entries[1].name, "JLink_V930a/JLink.exe");
    assert!(!entries[1].is_dir);
    assert_eq!(entries[1].data, b"MZ-exe");
    assert_eq!(entries[2].data, b"hello");
    let (steps, err) = plan_bundle_extraction(&bytes, "C:\\S").unwrap();
    assert!(err.is_none());
    assert_eq!(steps.len(), 3);
    match &steps[1] {
        ExtractStep::WriteFile(p, d) => {
            assert_eq!(p, "C:\\S\\JLink_V930a\\JLink.exe");
            assert_eq!(d, b"MZ-exe");
        },
        other => panic!("unexpected {:?}", other),
    }
    let evil = zip_bytes(&[("ok.txt", b"1"), ("../../evil.txt", b"2")], &[]);
    let (steps, err) = plan_bundle_extraction(&evil, "C:\\S").unwrap();
    assert_eq!(steps.len(), 1);
    match err {
        Some(AppError::Internal(m)) => assert_eq!(m, "Unsafe zip entry path: ../../evil.txt"),
        other => panic!("unexpected {:?}", other),
    }
}

#[test]
fn unreadable_archive_is_an_internal_error() {
    assert!(read_zip_entries(b"not a zip archive").is_err());
    match plan_bundle_extraction(b"not a zip archive", "C:\\S") {
        Err(AppError::Internal(m)) => assert!(!m.is_empty()),
        other => panic!("unexpected {:?}", other),
    }
}
