//! Data reported by, and requested from, J-Link Commander.

use vstd::prelude::*;

verus! {

/// A connected J-Link probe, as listed by `ShowEmuList`.
#[derive(Debug, Clone)]
pub struct Probe {
    pub id: String,
    pub serial_number: String,
    pub product_name: String,
    pub nick_name: String,
    pub provider: String,
    pub connection: String,
    pub driver: String,
    pub firmware: Option<String>,
}

/// The model of a [`Probe`]: its fields as character sequences.
pub struct ProbeView {
    pub id: Seq<char>,
    pub serial_number: Seq<char>,
    pub product_name: Seq<char>,
    pub nick_name: Seq<char>,
    pub provider: Seq<char>,
    pub connection: Seq<char>,
    pub driver: Seq<char>,
    pub firmware: Option<Seq<char>>,
}

/// The model of an optional string.
pub open spec fn opt_view(o: Option<String>) -> Option<Seq<char>> {
    match o {
        Some(s) => Some(s@),
        None => None,
    }
}

/// The model of a session outcome: the standard output of a J-Link run, or
/// the message of the error that kept it from running.
pub open spec fn output_view(r: Result<String, String>) -> Result<Seq<char>, Seq<char>> {
    match r {
        Ok(s) => Ok(s@),
        Err(e) => Err(e@),
    }
}

impl View for Probe {
    type V = ProbeView;

    open spec fn view(&self) -> ProbeView {
        ProbeView {
            id: self.id@,
            serial_number: self.serial_number@,
            product_name: self.product_name@,
            nick_name: self.nick_name@,
            provider: self.provider@,
            connection: self.connection@,
            driver: self.driver@,
            firmware: opt_view(self.firmware),
        }
    }
}

/// The models of a sequence of probes.
pub open spec fn probe_views(s: Seq<Probe>) -> Seq<ProbeView> {
    s.map_values(|p: Probe| p@)
}

/// Outcome of a firmware update session.
#[derive(Debug, Clone)]
pub enum FirmwareUpdateResult {
    /// New firmware was flashed; `firmware` is its build date.
    Updated { firmware: String },
    /// The probe already ran the current firmware.
    Current { firmware: String },
    /// The session failed or its output could not be read.
    Failed { error: String },
}

/// The model of a [`FirmwareUpdateResult`].
pub enum FirmwareUpdateView {
    Updated { firmware: Seq<char> },
    Current { firmware: Seq<char> },
    Failed { error: Seq<char> },
}

impl View for FirmwareUpdateResult {
    type V = FirmwareUpdateView;

    open spec fn view(&self) -> FirmwareUpdateView {
        match self {
            FirmwareUpdateResult::Updated { firmware } => FirmwareUpdateView::Updated { firmware: firmware@ },
            FirmwareUpdateResult::Current { firmware } => FirmwareUpdateView::Current { firmware: firmware@ },
            FirmwareUpdateResult::Failed { error } => FirmwareUpdateView::Failed { error: error@ },
        }
    }
}

/// The USB driver a probe is switched to.
#[derive(Debug, Clone, Copy, PartialEq, Eq, Structural)]
pub enum UsbDriverMode {
    /// WinUSB (WebUSB) driver mode.
    WinUsb,
    /// SEGGER's own USB driver.
    Segger,
}

/// Outcome of a USB driver switch.
#[derive(Debug, Clone)]
pub struct UsbDriverResult {
    pub success: bool,
    pub error: Option<String>,
    pub reboot_not_supported: bool,
}

/// The model of a [`UsbDriverResult`].
pub struct UsbDriverView {
    pub success: bool,
    pub error: Option<Seq<char>>,
    pub reboot_not_supported: bool,
}

impl View for UsbDriverResult {
    type V = UsbDriverView;

    open spec fn view(&self) -> UsbDriverView {
        UsbDriverView {
            success: self.success,
            error: opt_view(self.error),
            reboot_not_supported: self.reboot_not_supported,
        }
    }
}

} // verus!
