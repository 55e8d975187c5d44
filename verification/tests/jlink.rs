use winusb_switcher::jlink::firmware::update;
use winusb_switcher::jlink::scan::{firmware_fetch_script, scan_probes};
use winusb_switcher::jlink::scripts;
use winusb_switcher::jlink::types::{FirmwareUpdateResult, UsbDriverMode};
use winusb_switcher::jlink::usb_driver::{switch, SwitchAction, SwitchPhase};

const EMU_LIST: &str = "SEGGER J-Link Commander V9.30a\r\n\
J-Link[0]: Connection: USB, Serial number: 801234567, ProductName: J-Link EDU Mini, Nickname: <not set>\r\n\
Some unrelated line, Serial number: 1\n\
  >J-Link[1]: Connection: USB, Serial number:  69000001 , ProductName: J-Link PLUS, Nickname: Bench\n\
J-Link[2]: Connection: USB, ProductName: Broken\n";

const FW_OUT: &str = "Connecting to J-Link via USB...O.K.\n\
Firmware: J-Link EDU Mini V1 compiled Feb 20 2024 16:03:48\n\
Hardware version: V1.00\n\
Connecting to J-Link via USB...FAILED\n\
Firmware: J-Link V11 compiled   Mar  1 2024 10:00:00  \r\n";

#[test]
fn parses_probe_list() {
    let probes = scan_probes(EMU_LIST, None);
    assert_eq!(probes.len(), 2);
    assert_eq!(probes[0].id, "801234567");
    assert_eq!(probes[0].serial_number, "801234567");
    assert_eq!(probes[0].product_name, "J-Link EDU Mini");
    assert_eq!(probes[0].nick_name, "");
    assert_eq!(probes[0].provider, "JLink");
    assert_eq!(probes[0].connection, "USB");
    assert_eq!(probes[0].driver, "Unknown");
    assert_eq!(probes[0].firmware, None);
    assert_eq!(probes[1].serial_number, "69000001");
    assert_eq!(probes[1].nick_name, "Bench");
    assert_eq!(probes[1].product_name, "J-Link PLUS");
}

#[test]
fn attaches_firmware_dates_in_order() {
    let probes = scan_probes(EMU_LIST, Some(FW_OUT));
    assert_eq!(probes[0].firmware.as_deref(), Some("Feb 20 2024 16:03:48"));
    assert_eq!(probes[1].firmware.as_deref(), Some("Mar  1 2024 10:00:00"));
}

#[test]
fn missing_firmware_dates_stay_empty() {
    let probes = scan_probes(EMU_LIST, Some("Firmware: compiled\nnothing here\n"));
    assert_eq!(probes[0].firmware, None);
    assert_eq!(probes[1].firmware, None);
    let one = scan_probes(EMU_LIST, Some("Firmware: X compiled Jan 1 2020\n"));
    assert_eq!(one[0].firmware.as_deref(), Some("Jan 1 2020"));
    assert_eq!(one[1].firmware, None);
}

#[test]
fn empty_output_lists_no_probe() {
    assert!(scan_probes("", None).is_empty());
    assert_eq!(firmware_fetch_script(0), None);
}

#[test]
fn firmware_fetch_script_selects_each_probe() {
    assert_eq!(
        firmware_fetch_script(3).unwrap(),
        "exec DisableAutoUpdateFW\nselectprobe\n0\nselectprobe\n1\nselectprobe\n2\nexit\n"
    );
    assert_eq!(scripts::fetch_firmware_dates(0), "exec DisableAutoUpdateFW\nexit\n");
}

#[test]
fn scripts_have_exact_text() {
    assert_eq!(scripts::detect(), "\n\nExit\n");
    assert_eq!(scripts::show_emu_list(), "ShowEmuList\nExit\n");
    assert_eq!(scripts::update_firmware(12), "exec EnableAutoUpdateFW\nselectprobe\n12\nexit\n");
    assert_eq!(
        scripts::set_usb_driver_webusb(0),
        "exec DisableAutoUpdateFW\nselectprobe\n0\nWebUSBEnable\nsleep 100\nexit\n"
    );
    assert_eq!(
        scripts::set_usb_driver_segger(3),
        "exec DisableAutoUpdateFW\nselectprobe\n3\nWebUSBDisable\nsleep 100\nexit\n"
    );
    assert_eq!(
        scripts::set_usb_driver_winusb_enable(105),
        "exec DisableAutoUpdateFW\nselectprobe\n105\nWinUSBEnable\nsleep 100\nexit\n"
    );
    assert_eq!(
        scripts::set_usb_driver_winusb_disable(9),
        "exec DisableAutoUpdateFW\nselectprobe\n9\nWinUSBDisable\nsleep 100\nexit\n"
    );
    assert_eq!(
        scripts::set_usb_driver_reboot(10),
        "exec DisableAutoUpdateFW\nselectprobe\n10\nreboot\nsleep 100\nexit\n"
    );
}

#[test]
fn firmware_update_outcomes() {
    let updated = update(&Ok("Firmware: J-Link V11 compiled Mar 1 2024\nNew firmware booted successfully\n".to_string()));
    match updated {
        FirmwareUpdateResult::Updated { firmware } => assert_eq!(firmware, "Mar 1 2024"),
        other => panic!("unexpected {:?}", other),
    }
    let current = update(&Ok("Firmware: J-Link V11 compiled Mar 1 2024\n".to_string()));
    match current {
        FirmwareUpdateResult::Current { firmware } => assert_eq!(firmware, "Mar 1 2024"),
        other => panic!("unexpected {:?}", other),
    }
    let unparsed = update(&Ok("New firmware booted successfully\n".to_string()));
    match unparsed {
        FirmwareUpdateResult::Failed { error } => assert_eq!(error, "Could not parse firmware version from output"),
        other => panic!("unexpected {:?}", other),
    }
    let failed = update(&Err("JLink command failed: spawn".to_string()));
    match failed {
        FirmwareUpdateResult::Failed { error } => assert_eq!(error, "JLink command failed: spawn"),
        other => panic!("unexpected {:?}", other),
    }
}

#[test]
fn firmware_uses_first_firmware_line_only() {
    // The first firmware line has no "compiled " (no space): nothing is parsed.
    let r = update(&Ok("Firmware: X compiled\nFirmware: Y compiled Jan 2 2020\n".to_string()));
    assert!(matches!(r, FirmwareUpdateResult::Failed { .. }));
}

fn run(action: SwitchAction) -> String {
    match action {
        SwitchAction::Run(s) => s,
        SwitchAction::Finish(r) => panic!("finished early: {:?}", r),
    }
}

#[test]
fn switch_succeeds_after_confirmed_write() {
    let (mut sw, a) = switch(2, UsbDriverMode::WinUsb);
    assert_eq!(run(a), scripts::update_firmware(2));
    let a = sw.step(Ok("Firmware: V11 compiled Mar 1 2024\n".to_string()));
    assert_eq!(run(a), scripts::set_usb_driver_webusb(2));
    let a = sw.step(Ok("Probe configured successfully.\n".to_string()));
    assert_eq!(run(a), scripts::set_usb_driver_reboot(2));
    let a = sw.step(Ok("Rebooted successfully\n".to_string()));
    match a {
        SwitchAction::Finish(r) => {
            assert!(r.success);
            assert_eq!(r.error, None);
            assert!(!r.reboot_not_supported);
        }
        SwitchAction::Run(_) => panic!("expected the end"),
    }
    assert!(matches!(sw.phase, SwitchPhase::Done(_)));
    // A finished switch keeps answering with its result.
    assert!(matches!(sw.step(Err("ignored".to_string())), SwitchAction::Finish(r) if r.success));
}

#[test]
fn switch_falls_back_to_winusb_commands() {
    let (mut sw, _) = switch(0, UsbDriverMode::Segger);
    let a = sw.step(Ok("Firmware: V11 compiled Mar 1 2024\nNew firmware booted successfully\n".to_string()));
    assert_eq!(run(a), scripts::set_usb_driver_segger(0));
    let a = sw.step(Ok("Unknown command 'WebUSBDisable'\n".to_string()));
    assert_eq!(run(a), scripts::set_usb_driver_winusb_disable(0));
    let a = sw.step(Ok("Probe configured successfully.\n".to_string()));
    assert_eq!(run(a), scripts::set_usb_driver_reboot(0));
    match sw.step(Ok("Command not supported by connected probe.\n".to_string())) {
        SwitchAction::Finish(r) => {
            assert!(r.success);
            assert!(r.reboot_not_supported);
        }
        SwitchAction::Run(_) => panic!("expected the end"),
    }
}

fn finish(action: SwitchAction) -> winusb_switcher::jlink::types::UsbDriverResult {
    match action {
        SwitchAction::Finish(r) => r,
        SwitchAction::Run(s) => panic!("expected the end, got {}", s),
    }
}

#[test]
fn switch_stops_when_firmware_update_fails() {
    let (mut sw, _) = switch(1, UsbDriverMode::WinUsb);
    let r = finish(sw.step(Err("JLink not found: JLink".to_string())));
    assert!(!r.success);
    assert_eq!(r.error.as_deref(), Some("Firmware update failed: JLink not found: JLink"));
    let (mut sw, _) = switch(1, UsbDriverMode::WinUsb);
    let r = finish(sw.step(Ok("garbage".to_string())));
    assert_eq!(
        r.error.as_deref(),
        Some("Firmware update failed: Could not parse firmware version from output")
    );
}

#[test]
fn switch_reports_unsupported_and_unexpected_writes() {
    let (mut sw, _) = switch(1, UsbDriverMode::WinUsb);
    sw.step(Ok("Firmware: V compiled D\n".to_string()));
    sw.step(Ok("Syntax error\n".to_string()));
    let r = finish(sw.step(Ok("Unknown command\n".to_string())));
    assert_eq!(
        r.error.as_deref(),
        Some("This J-Link version does not support USB driver switching commands.")
    );

    let (mut sw, _) = switch(1, UsbDriverMode::WinUsb);
    sw.step(Ok("Firmware: V compiled D\n".to_string()));
    let r = finish(sw.step(Ok("Connecting...\r\nProbe busy\r\n".to_string())));
    assert_eq!(r.error.as_deref(), Some("Unexpected response from J-Link: Probe busy"));
    assert!(!r.reboot_not_supported);

    let (mut sw, _) = switch(1, UsbDriverMode::WinUsb);
    sw.step(Ok("Firmware: V compiled D\n".to_string()));
    let r = finish(sw.step(Ok(String::new())));
    assert_eq!(r.error.as_deref(), Some("Unexpected response from J-Link: (no output)"));

    let (mut sw, _) = switch(1, UsbDriverMode::WinUsb);
    sw.step(Ok("Firmware: V compiled D\n".to_string()));
    let r = finish(sw.step(Err("JLink command failed: io".to_string())));
    assert_eq!(r.error.as_deref(), Some("JLink command failed: io"));
}

#[test]
fn switch_reboot_failure_still_succeeds() {
    let (mut sw, _) = switch(4, UsbDriverMode::WinUsb);
    sw.step(Ok("Firmware: V compiled D\n".to_string()));
    sw.step(Ok("Probe configured successfully.".to_string()));
    let r = finish(sw.step(Err("timeout".to_string())));
    assert!(r.success);
    assert!(!r.reboot_not_supported);
}

#[test]
fn switch_ends_within_four_sessions() {
    let outcomes = ["x", "y", "z", "w"];
    for mode in [UsbDriverMode::WinUsb, UsbDriverMode::Segger] {
        let (mut sw, mut action) = switch(0, mode);
        let mut runs = 0;
        while let SwitchAction::Run(_) = action {
            action = sw.step(Ok(outcomes[runs].to_string()));
            runs += 1;
            assert!(runs <= 4);
        }
    }
}
