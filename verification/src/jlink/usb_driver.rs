//! USB driver switching (WinUSB / SEGGER) as a protocol of J-Link sessions.
//!
//! A switch runs up to four J-Link Commander sessions: a firmware update, the
//! driver write (`WebUSBEnable` / `WebUSBDisable`), a fallback write with the
//! older `WinUSB*` command when the first one is not understood, and a reboot.
//! [`switch`] starts the protocol and [`UsbDriverSwitch::step`] takes the
//! outcome of each session and says what to do next; the caller runs the
//! sessions.

use vstd::prelude::*;

use crate::jlink::firmware::{spec_update, update};
use crate::jlink::scripts::{
    self, spec_set_usb_driver_reboot, spec_set_usb_driver_segger, spec_set_usb_driver_webusb,
    spec_set_usb_driver_winusb_disable, spec_set_usb_driver_winusb_enable, spec_update_firmware,
};
use crate::jlink::types::{
    FirmwareUpdateResult, FirmwareUpdateView, UsbDriverMode, UsbDriverResult, UsbDriverView,
    output_view,
};
use crate::text::{chars_of, contains, copy_string, decimal, spec_contains, spec_lines, split_lines, string_of};

verus! {

// ─── Model ───────────────────────────────────────────────────────────────────

/// The session whose outcome a switch waits for, or its result once done.
#[derive(Debug)]
pub enum SwitchPhase {
    Firmware,
    Primary,
    Fallback,
    Reboot,
    Done(UsbDriverResult),
}

/// The model of a [`SwitchPhase`].
pub enum PhaseView {
    Firmware,
    Primary,
    Fallback,
    Reboot,
    Done(UsbDriverView),
}

/// What the caller does next.
#[derive(Debug)]
pub enum SwitchAction {
    /// Run a J-Link Commander session with this script and hand its outcome to `step`.
    Run(String),
    /// The switch is over; this is its result.
    Finish(UsbDriverResult),
}

/// The model of a [`SwitchAction`].
pub enum ActionView {
    Run(Seq<char>),
    Finish(UsbDriverView),
}

/// A USB driver switch in progress.
#[derive(Debug)]
pub struct UsbDriverSwitch {
    pub probe_index: usize,
    pub mode: UsbDriverMode,
    pub phase: SwitchPhase,
}

impl View for SwitchPhase {
    type V = PhaseView;

    open spec fn view(&self) -> PhaseView {
        match self {
            SwitchPhase::Firmware => PhaseView::Firmware,
            SwitchPhase::Primary => PhaseView::Primary,
            SwitchPhase::Fallback => PhaseView::Fallback,
            SwitchPhase::Reboot => PhaseView::Reboot,
            SwitchPhase::Done(r) => PhaseView::Done(r@),
        }
    }
}

impl View for SwitchAction {
    type V = ActionView;

    open spec fn view(&self) -> ActionView {
        match self {
            SwitchAction::Run(s) => ActionView::Run(s@),
            SwitchAction::Finish(r) => ActionView::Finish(r@),
        }
    }
}

/// J-Link did not understand the command (`Unknown command`, `Syntax error`
/// or `not supported` in its output).
pub open spec fn spec_command_not_supported(stdout: Seq<char>) -> bool {
    ||| spec_contains(stdout, "Unknown command"@)
    ||| spec_contains(stdout, "Syntax error"@)
    ||| spec_contains(stdout, "not supported"@)
}

/// J-Link confirmed the driver write.
pub open spec fn spec_write_succeeded(stdout: Seq<char>) -> bool {
    spec_contains(stdout, "Probe configured successfully"@)
}

/// The last line of `stdout`, or `(no output)` when it has none.
pub open spec fn last_line_or_none(stdout: Seq<char>) -> Seq<char> {
    let ls = spec_lines(stdout);
    if ls.len() > 0 {
        ls.last()
    } else {
        "(no output)"@
    }
}

/// A failed switch with this message.
pub open spec fn failure(msg: Seq<char>) -> UsbDriverView {
    UsbDriverView { success: false, error: Some(msg), reboot_not_supported: false }
}

/// The script of the first driver write for `mode`.
pub open spec fn primary_script(mode: UsbDriverMode, probe_index: nat) -> Seq<char> {
    match mode {
        UsbDriverMode::WinUsb => spec_set_usb_driver_webusb(probe_index),
        UsbDriverMode::Segger => spec_set_usb_driver_segger(probe_index),
    }
}

/// The script of the fallback driver write for `mode`.
pub open spec fn fallback_script(mode: UsbDriverMode, probe_index: nat) -> Seq<char> {
    match mode {
        UsbDriverMode::WinUsb => spec_set_usb_driver_winusb_enable(probe_index),
        UsbDriverMode::Segger => spec_set_usb_driver_winusb_disable(probe_index),
    }
}

/// Finishing with `r`.
pub open spec fn done(r: UsbDriverView) -> (PhaseView, ActionView) {
    (PhaseView::Done(r), ActionView::Finish(r))
}

/// What follows the output of the session that wrote the driver setting.
pub open spec fn after_write(probe_index: nat, stdout: Seq<char>) -> (PhaseView, ActionView) {
    if !spec_write_succeeded(stdout) {
        if spec_command_not_supported(stdout) {
            done(failure("This J-Link version does not support USB driver switching commands."@))
        } else {
            done(failure("Unexpected response from J-Link: "@ + last_line_or_none(stdout)))
        }
    } else {
        (PhaseView::Reboot, ActionView::Run(spec_set_usb_driver_reboot(probe_index)))
    }
}

/// One step of the protocol: from the phase and the outcome of the session it
/// waited for (standard output, or the error that kept it from running) to
/// the next phase and what to do.
pub open spec fn spec_step(
    probe_index: nat,
    mode: UsbDriverMode,
    phase: PhaseView,
    output: Result<Seq<char>, Seq<char>>,
) -> (PhaseView, ActionView) {
    match phase {
        PhaseView::Firmware => match spec_update(output) {
            FirmwareUpdateView::Failed { error } => done(failure("Firmware update failed: "@ + error)),
            _ => (PhaseView::Primary, ActionView::Run(primary_script(mode, probe_index))),
        },
        PhaseView::Primary => match output {
            Err(e) => done(failure(e)),
            Ok(out) => if spec_command_not_supported(out) {
                (PhaseView::Fallback, ActionView::Run(fallback_script(mode, probe_index)))
            } else {
                after_write(probe_index, out)
            },
        },
        PhaseView::Fallback => match output {
            Err(e) => done(failure(e)),
            Ok(out) => after_write(probe_index, out),
        },
        PhaseView::Reboot => done(
            UsbDriverView {
                success: true,
                error: None,
                reboot_not_supported: match output {
                    Ok(out) => spec_contains(out, "Command not supported by connected probe."@),
                    Err(_) => false,
                },
            },
        ),
        PhaseView::Done(r) => done(r),
    }
}

/// The phase reached after handing the outcomes `outs` to the switch, one
/// session after the other.
pub open spec fn run_sessions(
    probe_index: nat,
    mode: UsbDriverMode,
    phase: PhaseView,
    outs: Seq<Result<Seq<char>, Seq<char>>>,
) -> PhaseView
    decreases outs.len(),
{
    if outs.len() == 0 {
        phase
    } else {
        run_sessions(probe_index, mode, spec_step(probe_index, mode, phase, outs[0]).0, outs.drop_first())
    }
}

/// How many sessions a switch in `phase` may still run.
pub open spec fn sessions_left(phase: PhaseView) -> nat {
    match phase {
        PhaseView::Firmware => 4,
        PhaseView::Primary => 3,
        PhaseView::Fallback => 2,
        PhaseView::Reboot => 1,
        PhaseView::Done(_) => 0,
    }
}

/// The outcome of the session that wrote the driver setting: the fallback
/// write when J-Link did not understand the first one, else the first one.
pub open spec fn write_outcome(
    primary: Result<Seq<char>, Seq<char>>,
    fallback: Result<Seq<char>, Seq<char>>,
) -> Result<Seq<char>, Seq<char>> {
    match primary {
        Ok(out) => if spec_command_not_supported(out) {
            fallback
        } else {
            primary
        },
        Err(_) => primary,
    }
}

// ─── Laws ────────────────────────────────────────────────────────────────────

/// Each session brings a switch closer to its end, and a finished switch
/// stays finished with the same result.
pub proof fn lemma_step_progress(
    probe_index: nat,
    mode: UsbDriverMode,
    phase: PhaseView,
    output: Result<Seq<char>, Seq<char>>,
)
    ensures
        phase !is Done ==> sessions_left(spec_step(probe_index, mode, phase, output).0) < sessions_left(phase),
        phase is Done ==> spec_step(probe_index, mode, phase, output).0 == phase,
{
}

/// A switch ends after at most four J-Link sessions: whatever those sessions
/// report, the protocol is then done.
pub proof fn law_switch_ends_within_four_sessions(
    probe_index: nat,
    mode: UsbDriverMode,
    outs: Seq<Result<Seq<char>, Seq<char>>>,
)
    requires
        outs.len() >= 4,
    ensures
        run_sessions(probe_index, mode, PhaseView::Firmware, outs) is Done,
{
    lemma_runs_end(probe_index, mode, PhaseView::Firmware, outs);
}

/// With at least as many outcomes as sessions left, the run ends done.
proof fn lemma_runs_end(
    probe_index: nat,
    mode: UsbDriverMode,
    phase: PhaseView,
    outs: Seq<Result<Seq<char>, Seq<char>>>,
)
    requires
        outs.len() >= sessions_left(phase),
    ensures
        run_sessions(probe_index, mode, phase, outs) is Done,
    decreases outs.len(),
{
    if outs.len() > 0 {
        lemma_step_progress(probe_index, mode, phase, outs[0]);
        lemma_runs_end(
            probe_index,
            mode,
            spec_step(probe_index, mode, phase, outs[0]).0,
            outs.drop_first(),
        );
    }
}

/// A switch succeeds exactly when the firmware session succeeded and J-Link
/// confirmed the driver write ("Probe configured successfully") in the
/// session that wrote it; the reboot session never decides success.  A
/// successful switch carries no error and a failed one always does.
pub proof fn law_switch_success(
    probe_index: nat,
    mode: UsbDriverMode,
    outs: Seq<Result<Seq<char>, Seq<char>>>,
)
    requires
        outs.len() == 4,
    ensures
        run_sessions(probe_index, mode, PhaseView::Firmware, outs) matches PhaseView::Done(r) && {
            &&& r.success <==> {
                &&& spec_update(outs[0]) !is Failed
                &&& write_outcome(outs[1], outs[2]) matches Ok(out)
                &&& spec_write_succeeded(out)
            }
            &&& r.success <==> r.error is None
            &&& !r.success ==> !r.reboot_not_supported
        },
{
    reveal_with_fuel(run_sessions, 5);
    assert(outs.drop_first().drop_first().drop_first().drop_first().len() == 0);
    assert(outs.drop_first()[0] == outs[1]);
    assert(outs.drop_first().drop_first()[0] == outs[2]);
    assert(outs.drop_first().drop_first().drop_first()[0] == outs[3]);
}

/// The first session of a switch updates the firmware of the chosen probe,
/// and when that succeeds the next one writes the driver for the chosen mode
/// to the same probe; a reboot is asked for only after a confirmed write.
pub proof fn law_switch_sessions(
    probe_index: nat,
    mode: UsbDriverMode,
    phase: PhaseView,
    output: Result<Seq<char>, Seq<char>>,
)
    ensures
        phase is Firmware && spec_update(output) !is Failed ==> spec_step(probe_index, mode, phase, output).1
            == ActionView::Run(primary_script(mode, probe_index)),
        spec_step(probe_index, mode, phase, output).0 is Reboot ==> {
            &&& spec_step(probe_index, mode, phase, output).1 == ActionView::Run(
                spec_set_usb_driver_reboot(probe_index),
            )
            &&& (phase is Primary || phase is Fallback)
            &&& output matches Ok(out)
            &&& spec_write_succeeded(out)
        },
{
}

// ─── Executable functions ────────────────────────────────────────────────────

/// J-Link did not understand the command.
fn command_not_supported(stdout: &[char]) -> (r: bool)
    ensures
        r == spec_command_not_supported(stdout@),
{
    contains(stdout, chars_of("Unknown command").as_slice())
        || contains(stdout, chars_of("Syntax error").as_slice())
        || contains(stdout, chars_of("not supported").as_slice())
}

/// J-Link confirmed the driver write.
fn write_succeeded(stdout: &[char]) -> (r: bool)
    ensures
        r == spec_write_succeeded(stdout@),
{
    contains(stdout, chars_of("Probe configured successfully").as_slice())
}

/// A failed switch with this message.
fn failed(msg: String) -> (r: UsbDriverResult)
    ensures
        r@ == failure(msg@),
{
    UsbDriverResult { success: false, error: Some(msg), reboot_not_supported: false }
}

/// What follows the output of the driver write session.
fn after_write_exec(probe_index: usize, stdout: &[char]) -> (r: (SwitchPhase, SwitchAction))
    ensures
        (r.0@, r.1@) == after_write(probe_index as nat, stdout@),
{
    if !write_succeeded(stdout) {
        if command_not_supported(stdout) {
            let msg = String::from_str("This J-Link version does not support USB driver switching commands.");
            (SwitchPhase::Done(failed(copy_string(&msg))), SwitchAction::Finish(failed(msg)))
        } else {
            let lines = split_lines(stdout);
            let mut msg = String::from_str("Unexpected response from J-Link: ");
            if lines.len() > 0 {
                let last = lines.len() - 1;
                let s = string_of(lines[last].as_slice());
                msg.append(s.as_str());
            } else {
                msg.append("(no output)");
            }
            (SwitchPhase::Done(failed(copy_string(&msg))), SwitchAction::Finish(failed(msg)))
        }
    } else {
        (SwitchPhase::Reboot, SwitchAction::Run(scripts::set_usb_driver_reboot(probe_index)))
    }
}

/// A copy of a switch result.
fn copy_result(r: &UsbDriverResult) -> (c: UsbDriverResult)
    ensures
        c@ == r@,
{
    UsbDriverResult {
        success: r.success,
        error: match &r.error {
            Some(e) => Some(copy_string(e)),
            None => None,
        },
        reboot_not_supported: r.reboot_not_supported,
    }
}

/// Starts switching probe `probe_index` to `mode`: the first session updates
/// the probe's firmware.
pub fn switch(probe_index: usize, mode: UsbDriverMode) -> (r: (UsbDriverSwitch, SwitchAction))
    ensures
        r.0.probe_index == probe_index,
        r.0.mode == mode,
        r.0.phase@ == PhaseView::Firmware,
        r.1@ == ActionView::Run(spec_update_firmware(probe_index as nat)),
{
    (
        UsbDriverSwitch { probe_index, mode, phase: SwitchPhase::Firmware },
        SwitchAction::Run(scripts::update_firmware(probe_index)),
    )
}

impl UsbDriverSwitch {
    /// Takes the outcome of the session asked for last (its standard output,
    /// or the message of the error that kept it from running) and says what
    /// to do next.
    pub fn step(&mut self, output: Result<String, String>) -> (action: SwitchAction)
        ensures
            final(self).probe_index == old(self).probe_index,
            final(self).mode == old(self).mode,
            (final(self).phase@, action@) == spec_step(
                old(self).probe_index as nat,
                old(self).mode,
                old(self).phase@,
                output_view(output),
            ),
    {
        let idx = self.probe_index;
        let mode = self.mode;
        match &self.phase {
            SwitchPhase::Firmware => {
                let fw = update(&output);
                match fw {
                    FirmwareUpdateResult::Failed { error } => {
                        let mut msg = String::from_str("Firmware update failed: ");
                        msg.append(error.as_str());
                        self.phase = SwitchPhase::Done(failed(copy_string(&msg)));
                        SwitchAction::Finish(failed(msg))
                    },
                    _ => {
                        self.phase = SwitchPhase::Primary;
                        SwitchAction::Run(
                            match mode {
                                UsbDriverMode::WinUsb => scripts::set_usb_driver_webusb(idx),
                                UsbDriverMode::Segger => scripts::set_usb_driver_segger(idx),
                            },
                        )
                    },
                }
            },
            SwitchPhase::Primary => match output {
                Err(e) => {
                    self.phase = SwitchPhase::Done(failed(copy_string(&e)));
                    SwitchAction::Finish(failed(e))
                },
                Ok(out) => {
                    let chars = chars_of(out.as_str());
                    if command_not_supported(chars.as_slice()) {
                        self.phase = SwitchPhase::Fallback;
                        SwitchAction::Run(
                            match mode {
                                UsbDriverMode::WinUsb => scripts::set_usb_driver_winusb_enable(idx),
                                UsbDriverMode::Segger => scripts::set_usb_driver_winusb_disable(idx),
                            },
                        )
                    } else {
                        let (p, a) = after_write_exec(idx, chars.as_slice());
                        self.phase = p;
                        a
                    }
                },
            },
            SwitchPhase::Fallback => match output {
                Err(e) => {
                    self.phase = SwitchPhase::Done(failed(copy_string(&e)));
                    SwitchAction::Finish(failed(e))
                },
                Ok(out) => {
                    let chars = chars_of(out.as_str());
                    let (p, a) = after_write_exec(idx, chars.as_slice());
                    self.phase = p;
                    a
                },
            },
            SwitchPhase::Reboot => {
                let rns = match &output {
                    Ok(out) => contains(
                        chars_of(out.as_str()).as_slice(),
                        chars_of("Command not supported by connected probe.").as_slice(),
                    ),
                    Err(_) => false,
                };
                let r = UsbDriverResult { success: true, error: None, reboot_not_supported: rns };
                self.phase = SwitchPhase::Done(copy_result(&r));
                SwitchAction::Finish(r)
            },
            SwitchPhase::Done(r) => {
                let c = copy_result(r);
                SwitchAction::Finish(c)
            },
        }
    }
}

/// The driver a switch writes is the one asked for, in both of its write
/// sessions.  After a firmware session that did not fail, the first write is
/// `WebUSBEnable` for WinUSB and `WebUSBDisable` for the SEGGER driver, on the
/// chosen probe; when J-Link does not understand it, the fallback is the same
/// script with `WebUSB` replaced by the older `WinUSB` command, so it still
/// enables WinUSB exactly when WinUSB was asked for and disables it otherwise.
pub proof fn law_fallback_writes_requested_mode(
    probe_index: nat,
    mode: UsbDriverMode,
    firmware_output: Result<Seq<char>, Seq<char>>,
    out: Seq<char>,
)
    ensures
        ({
            let pre = "exec DisableAutoUpdateFW\nselectprobe\n"@ + decimal(probe_index) + "\n"@;
            let post = (if mode == UsbDriverMode::WinUsb {
                "Enable"@
            } else {
                "Disable"@
            }) + "\nsleep 100\nexit\n"@;
            &&& spec_update(firmware_output) !is Failed ==> spec_step(
                probe_index,
                mode,
                PhaseView::Firmware,
                firmware_output,
            ) == (PhaseView::Primary, ActionView::Run(pre + "WebUSB"@ + post))
            &&& spec_command_not_supported(out) ==> spec_step(probe_index, mode, PhaseView::Primary, Ok(out))
                == (PhaseView::Fallback, ActionView::Run(pre + "WinUSB"@ + post))
        }),
{
    reveal_strlit("exec DisableAutoUpdateFW\nselectprobe\n");
    reveal_strlit("\n");
    reveal_strlit("Enable");
    reveal_strlit("Disable");
    reveal_strlit("\nsleep 100\nexit\n");
    reveal_strlit("WebUSB");
    reveal_strlit("WinUSB");
    reveal_strlit("\nWebUSBEnable\nsleep 100\nexit\n");
    reveal_strlit("\nWebUSBDisable\nsleep 100\nexit\n");
    reveal_strlit("\nWinUSBEnable\nsleep 100\nexit\n");
    reveal_strlit("\nWinUSBDisable\nsleep 100\nexit\n");
    let pre = "exec DisableAutoUpdateFW\nselectprobe\n"@ + decimal(probe_index) + "\n"@;
    let head = "exec DisableAutoUpdateFW\nselectprobe\n"@ + decimal(probe_index);
    let post = (if mode == UsbDriverMode::WinUsb {
        "Enable"@
    } else {
        "Disable"@
    }) + "\nsleep 100\nexit\n"@;
    if mode == UsbDriverMode::WinUsb {
        assert(pre + "WebUSB"@ + post =~= head + "\nWebUSBEnable\nsleep 100\nexit\n"@);
        assert(pre + "WinUSB"@ + post =~= head + "\nWinUSBEnable\nsleep 100\nexit\n"@);
    } else {
        assert(pre + "WebUSB"@ + post =~= head + "\nWebUSBDisable\nsleep 100\nexit\n"@);
        assert(pre + "WinUSB"@ + post =~= head + "\nWinUSBDisable\nsleep 100\nexit\n"@);
    }
}

} // verus!
