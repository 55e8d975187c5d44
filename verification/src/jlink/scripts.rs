//! J-Link Commander scripts.
//!
//! J-Link Commander reads its commands from standard input when started with
//! `-NoGUI 1`; commands are separated by newlines and `exit` ends the session.

use vstd::prelude::*;

use crate::text::{decimal, push_decimal};

verus! {

/// The `selectprobe` lines for probes `0..count`.
pub open spec fn select_lines(count: nat) -> Seq<char>
    decreases count,
{
    if count == 0 {
        Seq::empty()
    } else {
        select_lines((count - 1) as nat) + "selectprobe\n"@ + decimal((count - 1) as nat) + "\n"@
    }
}

/// The script that reads the firmware dates of probes `0..count`.
pub open spec fn spec_fetch_firmware_dates(count: nat) -> Seq<char> {
    "exec DisableAutoUpdateFW\n"@ + select_lines(count) + "exit\n"@
}

/// Selects each of the first `count` probes in turn, so that the banner of
/// each reports its firmware build date.
pub fn fetch_firmware_dates(count: usize) -> (s: String)
    ensures
        s@ == spec_fetch_firmware_dates(count as nat),
{
    let mut s = String::from_str("exec DisableAutoUpdateFW\n");
    let mut i: usize = 0;
    while i < count
        invariant
            i <= count,
            s@ == "exec DisableAutoUpdateFW\n"@ + select_lines(i as nat),
        decreases count - i,
    {
        s.append("selectprobe\n");
        push_decimal(&mut s, i);
        s.append("\n");
        assert(s@ =~= "exec DisableAutoUpdateFW\n"@ + select_lines((i + 1) as nat));
        i += 1;
    }
    s.append("exit\n");
    s
}

/// Probes the version banner: used to detect J-Link and read its version.
pub fn detect() -> (s: &'static str)
    ensures
        s@ == "\n\nExit\n"@,
{
    "\n\nExit\n"
}

/// Lists all connected probes.
pub fn show_emu_list() -> (s: &'static str)
    ensures
        s@ == "ShowEmuList\nExit\n"@,
{
    "ShowEmuList\nExit\n"
}

/// The text of the `update_firmware` script for probe `probe_index`.
pub open spec fn spec_update_firmware(probe_index: nat) -> Seq<char> {
    "exec EnableAutoUpdateFW\nselectprobe\n"@ + decimal(probe_index) + "\nexit\n"@
}

/// Updates the firmware of probe `probe_index`: `exec EnableAutoUpdateFW`
/// makes J-Link flash newer firmware when there is one.
pub fn update_firmware(probe_index: usize) -> (s: String)
    ensures
        s@ == spec_update_firmware(probe_index as nat),
{
    let mut s = String::from_str("exec EnableAutoUpdateFW\nselectprobe\n");
    push_decimal(&mut s, probe_index);
    s.append("\nexit\n");
    s
}

/// The text of the `set_usb_driver_webusb` script for probe `probe_index`.
pub open spec fn spec_set_usb_driver_webusb(probe_index: nat) -> Seq<char> {
    "exec DisableAutoUpdateFW\nselectprobe\n"@ + decimal(probe_index) + "\nWebUSBEnable\nsleep 100\nexit\n"@
}

/// Session 1: switches probe `probe_index` to the WinUSB driver with
/// `WebUSBEnable`.  A reboot session must follow; J-Link answers
/// "Probe configured successfully." when the write took.
pub fn set_usb_driver_webusb(probe_index: usize) -> (s: String)
    ensures
        s@ == spec_set_usb_driver_webusb(probe_index as nat),
{
    let mut s = String::from_str("exec DisableAutoUpdateFW\nselectprobe\n");
    push_decimal(&mut s, probe_index);
    s.append("\nWebUSBEnable\nsleep 100\nexit\n");
    s
}

/// The text of the `set_usb_driver_segger` script for probe `probe_index`.
pub open spec fn spec_set_usb_driver_segger(probe_index: nat) -> Seq<char> {
    "exec DisableAutoUpdateFW\nselectprobe\n"@ + decimal(probe_index) + "\nWebUSBDisable\nsleep 100\nexit\n"@
}

/// Session 1: switches probe `probe_index` back to the SEGGER driver with
/// `WebUSBDisable`.  A reboot session must follow.
pub fn set_usb_driver_segger(probe_index: usize) -> (s: String)
    ensures
        s@ == spec_set_usb_driver_segger(probe_index as nat),
{
    let mut s = String::from_str("exec DisableAutoUpdateFW\nselectprobe\n");
    push_decimal(&mut s, probe_index);
    s.append("\nWebUSBDisable\nsleep 100\nexit\n");
    s
}

/// The text of the `set_usb_driver_winusb_enable` script for probe `probe_index`.
pub open spec fn spec_set_usb_driver_winusb_enable(probe_index: nat) -> Seq<char> {
    "exec DisableAutoUpdateFW\nselectprobe\n"@ + decimal(probe_index) + "\nWinUSBEnable\nsleep 100\nexit\n"@
}

/// Session 1, fallback: `WinUSBEnable`, for J-Link versions without
/// `WebUSBEnable`.
pub fn set_usb_driver_winusb_enable(probe_index: usize) -> (s: String)
    ensures
        s@ == spec_set_usb_driver_winusb_enable(probe_index as nat),
{
    let mut s = String::from_str("exec DisableAutoUpdateFW\nselectprobe\n");
    push_decimal(&mut s, probe_index);
    s.append("\nWinUSBEnable\nsleep 100\nexit\n");
    s
}

/// The text of the `set_usb_driver_winusb_disable` script for probe `probe_index`.
pub open spec fn spec_set_usb_driver_winusb_disable(probe_index: nat) -> Seq<char> {
    "exec DisableAutoUpdateFW\nselectprobe\n"@ + decimal(probe_index) + "\nWinUSBDisable\nsleep 100\nexit\n"@
}

/// Session 1, fallback: `WinUSBDisable`, for J-Link versions without
/// `WebUSBDisable`.
pub fn set_usb_driver_winusb_disable(probe_index: usize) -> (s: String)
    ensures
        s@ == spec_set_usb_driver_winusb_disable(probe_index as nat),
{
    let mut s = String::from_str("exec DisableAutoUpdateFW\nselectprobe\n");
    push_decimal(&mut s, probe_index);
    s.append("\nWinUSBDisable\nsleep 100\nexit\n");
    s
}

/// The text of the `set_usb_driver_reboot` script for probe `probe_index`.
pub open spec fn spec_set_usb_driver_reboot(probe_index: nat) -> Seq<char> {
    "exec DisableAutoUpdateFW\nselectprobe\n"@ + decimal(probe_index) + "\nreboot\nsleep 100\nexit\n"@
}

/// Session 2: reboots probe `probe_index` so that the driver change takes
/// effect; it must be a fresh session after the enable / disable step.
pub fn set_usb_driver_reboot(probe_index: usize) -> (s: String)
    ensures
        s@ == spec_set_usb_driver_reboot(probe_index as nat),
{
    let mut s = String::from_str("exec DisableAutoUpdateFW\nselectprobe\n");
    push_decimal(&mut s, probe_index);
    s.append("\nreboot\nsleep 100\nexit\n");
    s
}

} // verus!
