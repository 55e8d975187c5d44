//! Platform-specific J-Link installation: the commands that run the
//! installers and how their outcomes read.
//!
//! On Windows the installer runs elevated through PowerShell and the
//! installation is watched tick by tick ([`InstallWatch`]); on macOS and
//! Linux the installer command's exit status decides.

use vstd::prelude::*;

use crate::download::types::{InstallResult, InstallView};
use crate::jlink::types::opt_view;
use crate::text::{chars_of, push_char};

verus! {

// ─── Commands ────────────────────────────────────────────────────────────────

/// `s` with every `'` escaped for a PowerShell single-quoted string (`` `' ``).
pub open spec fn escape_quotes(s: Seq<char>) -> Seq<char>
    decreases s.len(),
{
    if s.len() == 0 {
        Seq::empty()
    } else {
        escape_quotes(s.drop_last()) + if s.last() == '\'' {
            seq!['`', '\'']
        } else {
            seq![s.last()]
        }
    }
}

/// Appends `s` with its single quotes escaped.
fn push_escaped(out: &mut String, s: &str)
    ensures
        final(out)@ == old(out)@ + escape_quotes(s@),
{
    let cs = chars_of(s);
    let mut i: usize = 0;
    while i < cs.len()
        invariant
            i <= cs.len(),
            cs@ == s@,
            out@ == old(out)@ + escape_quotes(cs@.take(i as int)),
        decreases cs.len() - i,
    {
        let ghost before = out@;
        assert(cs@.take(i + 1).drop_last() =~= cs@.take(i as int));
        if cs[i] == '\'' {
            push_char(out, '`');
            push_char(out, '\'');
            assert(out@ =~= before + seq!['`', '\'']);
        } else {
            push_char(out, cs[i]);
            assert(out@ =~= before + seq![cs[i as int]]);
        }
        i += 1;
    }
    assert(cs@.take(cs@.len() as int) =~= cs@);
}

/// The PowerShell command that runs the Windows installer silently and
/// elevated into `dest`, waiting for it to finish.
pub open spec fn spec_windows_install_command(installer: Seq<char>, dest: Seq<char>) -> Seq<char> {
    "Start-Process -FilePath '"@ + escape_quotes(installer) + "' -ArgumentList '/S','/D="@ + escape_quotes(dest)
        + "' -Verb RunAs -Wait"@
}

/// The PowerShell command that runs the Windows installer `installer`
/// silently and elevated into `dest`, waiting for it to finish.
pub fn windows_install_command(installer: &str, dest: &str) -> (r: String)
    ensures
        r@ == spec_windows_install_command(installer@, dest@),
{
    let mut r = String::from_str("Start-Process -FilePath '");
    push_escaped(&mut r, installer);
    r.append("' -ArgumentList '/S','/D=");
    push_escaped(&mut r, dest);
    r.append("' -Verb RunAs -Wait");
    r
}

/// The AppleScript that installs the macOS package `installer` with
/// administrator privileges.
pub open spec fn spec_macos_install_script(installer: Seq<char>) -> Seq<char> {
    "do shell script \"installer -pkg \\\""@ + installer + "\\\" -target /\" with administrator privileges"@
}

/// The AppleScript that installs the macOS package `installer`.
pub fn macos_install_script(installer: &str) -> (r: String)
    ensures
        r@ == spec_macos_install_script(installer@),
{
    let mut r = String::from_str("do shell script \"installer -pkg \\\"");
    r.append(installer);
    r.append("\\\" -target /\" with administrator privileges");
    r
}

// ─── Outcomes ────────────────────────────────────────────────────────────────

/// How an installer command ended.
pub enum CommandOutcome {
    /// It exited successfully.
    Success,
    /// It exited unsuccessfully, with this exit code when there is one.
    Failure { code: Option<i32> },
    /// It could not be started (the error's message).
    LaunchError(String),
}

/// The result of a successful installation into `path`.
pub open spec fn installed(path: Option<Seq<char>>) -> InstallView {
    InstallView { success: true, cancelled: None, message: "J-Link installed successfully."@, path }
}

/// A failed installation.
pub open spec fn not_installed(cancelled: Option<bool>, message: Seq<char>) -> InstallView {
    InstallView { success: false, cancelled, message, path: None }
}

/// The result of the macOS installer command (`jlink_dir`: where J-Link was
/// found afterwards).
pub open spec fn spec_macos_result(outcome: CommandOutcome, jlink_dir: Option<Seq<char>>) -> InstallView {
    match outcome {
        CommandOutcome::Success => installed(jlink_dir),
        CommandOutcome::Failure { .. } => not_installed(Some(true), "Installation cancelled."@),
        CommandOutcome::LaunchError(e) => not_installed(None, "Install failed: "@ + e@),
    }
}

/// The result of the Linux installer command (`pkexec dpkg -i`): exit code
/// 126 means the user dismissed the authentication.
pub open spec fn spec_linux_result(outcome: CommandOutcome, jlink_dir: Option<Seq<char>>) -> InstallView {
    match outcome {
        CommandOutcome::Success => installed(jlink_dir),
        CommandOutcome::Failure { code } => if code == Some(126i32) {
            not_installed(Some(true), "Installation cancelled."@)
        } else {
            not_installed(None, "Installation failed."@)
        },
        CommandOutcome::LaunchError(_) => not_installed(None, "Installation failed."@),
    }
}

/// A successful installation into `path`.
fn installed_result(path: Option<String>) -> (r: InstallResult)
    ensures
        r@ == installed(opt_view(path)),
{
    InstallResult { success: true, cancelled: None, message: String::from_str("J-Link installed successfully."), path }
}

/// A failed installation.
fn failed_result(cancelled: Option<bool>, message: String) -> (r: InstallResult)
    ensures
        r@ == not_installed(cancelled, message@),
{
    InstallResult { success: false, cancelled, message, path: None }
}

/// The result of the macOS installer command.
pub fn macos_install_result(outcome: CommandOutcome, jlink_dir: Option<String>) -> (r: InstallResult)
    ensures
        r@ == spec_macos_result(outcome, opt_view(jlink_dir)),
{
    match outcome {
        CommandOutcome::Success => installed_result(jlink_dir),
        CommandOutcome::Failure { .. } => failed_result(Some(true), String::from_str("Installation cancelled.")),
        CommandOutcome::LaunchError(e) => {
            let mut m = String::from_str("Install failed: ");
            m.append(e.as_str());
            failed_result(None, m)
        },
    }
}

/// The result of the Linux installer command.
pub fn linux_install_result(outcome: CommandOutcome, jlink_dir: Option<String>) -> (r: InstallResult)
    ensures
        r@ == spec_linux_result(outcome, opt_view(jlink_dir)),
{
    match outcome {
        CommandOutcome::Success => installed_result(jlink_dir),
        CommandOutcome::Failure { code } => {
            let dismissed = match code {
                Some(c) => c == 126,
                None => false,
            };
            if dismissed {
                failed_result(Some(true), String::from_str("Installation cancelled."))
            } else {
                failed_result(None, String::from_str("Installation failed."))
            }
        },
        CommandOutcome::LaunchError(_) => failed_result(None, String::from_str("Installation failed.")),
    }
}

/// The result when PowerShell could not be started on Windows.
pub fn windows_launch_failed(error: &str) -> (r: InstallResult)
    ensures
        r@ == not_installed(Some(true), "Failed to launch installer: "@ + error@),
{
    let mut m = String::from_str("Failed to launch installer: ");
    m.append(error);
    failed_result(Some(true), m)
}

// ─── Watching the Windows installer ──────────────────────────────────────────

/// What `try_wait` said of the PowerShell process.
pub enum ProcessState {
    Running,
    ExitedSuccessfully,
    ExitedWithFailure,
    /// Waiting failed (the error's message).
    WaitError(String),
}

/// The J-Link directory found in the search directories, and its DLL.
pub struct JLinkDirSeen {
    pub dir: String,
    /// `JLink_x64.dll` exists in it.
    pub dll_exists: bool,
    /// The DLL's modification time in milliseconds since the Unix epoch
    /// (0 before it), when it could be read.
    pub dll_mtime_ms: Option<u128>,
}

/// What one tick (every 300 ms) of the watch sees.
pub struct InstallTick {
    /// The user asked to cancel.
    pub cancelled: bool,
    /// The PowerShell process.
    pub process: ProcessState,
    /// The J-Link directory found, if any.
    pub jlink_dir: Option<JLinkDirSeen>,
    /// Whole seconds since the watch began.
    pub elapsed_secs: u64,
}

/// What the watch does after a tick.
pub enum InstallStep {
    /// Keep watching.
    Continue,
    /// The installation is over with this result.
    Finish(InstallResult),
    /// Kill the installer's process tree; the installation is cancelled.
    Cancel(InstallResult),
    /// Kill the installer; the installation timed out.
    TimeOut(InstallResult),
}

/// The watch of a running Windows installation.
pub struct InstallWatch {
    /// When the installation started, in milliseconds since the Unix epoch.
    pub start_ms: u128,
    /// PowerShell (run with `-Wait`) has exited: the installer is done.
    pub ps_exited: bool,
    /// Ticks seen so far.
    pub ticks: u64,
}

/// The model of an [`InstallStep`].
pub enum StepView {
    Continue,
    Finish(InstallView),
    Cancel(InstallView),
    TimeOut(InstallView),
}

impl View for InstallStep {
    type V = StepView;

    open spec fn view(&self) -> StepView {
        match self {
            InstallStep::Continue => StepView::Continue,
            InstallStep::Finish(r) => StepView::Finish(r@),
            InstallStep::Cancel(r) => StepView::Cancel(r@),
            InstallStep::TimeOut(r) => StepView::TimeOut(r@),
        }
    }
}

/// The J-Link directory counts as the new installation: its DLL must exist,
/// and while the installer still runs it must also have been written since
/// the installation started (so that an older installation is not taken for
/// the new one); once the installer is done, existing is enough.
pub open spec fn accepts(seen: JLinkDirSeen, ps_exited: bool, start_ms: u128) -> bool {
    seen.dll_exists && (ps_exited || match seen.dll_mtime_ms {
        Some(m) => m >= start_ms,
        None => false,
    })
}

/// The failure reported when the installer finished but J-Link is not found.
pub open spec fn not_detected() -> InstallView {
    not_installed(None, "Installation finished but J-Link was not detected. Please try again."@)
}

/// The tick count after one more tick (wrapping, as an unbounded count never is).
pub open spec fn next_tick(ticks: u64) -> u64 {
    if ticks == u64::MAX {
        0
    } else {
        (ticks + 1) as u64
    }
}

/// The watch after a tick.
pub open spec fn spec_watch_after(w: InstallWatch, t: InstallTick) -> InstallWatch {
    let exited = spec_tick(w, t).0;
    let counted = !t.cancelled && !(spec_tick(w, t).1 is Finish && !w.ps_exited && (t.process is ExitedWithFailure
        || t.process is WaitError));
    InstallWatch {
        start_ms: w.start_ms,
        ps_exited: exited,
        ticks: if counted {
            next_tick(w.ticks)
        } else {
            w.ticks
        },
    }
}

/// What follows a tick, and whether PowerShell has exited afterwards.
pub open spec fn spec_tick(w: InstallWatch, t: InstallTick) -> (bool, StepView) {
    if t.cancelled {
        (w.ps_exited, StepView::Cancel(not_installed(Some(true), "Installation cancelled."@)))
    } else {
        let early: Option<InstallView> = if !w.ps_exited {
            match t.process {
                ProcessState::ExitedWithFailure => Some(
                    not_installed(Some(true), "UAC denied or installation failed."@),
                ),
                ProcessState::WaitError(e) => Some(not_installed(None, "Process error: "@ + e@)),
                _ => None,
            }
        } else {
            None
        };
        let exited = w.ps_exited || t.process is ExitedSuccessfully;
        match early {
            Some(r) => (exited, StepView::Finish(r)),
            None => {
                let ticks = next_tick(w.ticks);
                let check = ticks % 3 == 0 || exited;
                let grace_over = exited && t.elapsed_secs > 15;
                if check && t.jlink_dir is Some && accepts(t.jlink_dir->0, exited, w.start_ms) {
                    (exited, StepView::Finish(installed(Some(t.jlink_dir->0.dir@))))
                } else if check && grace_over {
                    (exited, StepView::Finish(not_detected()))
                } else if t.elapsed_secs > 120 {
                    (exited, StepView::TimeOut(not_installed(None, "Installation timed out."@)))
                } else {
                    (exited, StepView::Continue)
                }
            },
        }
    }
}

impl InstallWatch {
    /// Starts watching an installation that started at `start_ms`.
    pub fn new(start_ms: u128) -> (w: InstallWatch)
        ensures
            w.start_ms == start_ms,
            !w.ps_exited,
            w.ticks == 0,
    {
        InstallWatch { start_ms, ps_exited: false, ticks: 0 }
    }

    /// Takes what a tick saw and says what to do.
    pub fn tick(&mut self, t: InstallTick) -> (step: InstallStep)
        ensures
            *final(self) == spec_watch_after(*old(self), t),
            (final(self).ps_exited, step@) == spec_tick(*old(self), t),
    {
        if t.cancelled {
            return InstallStep::Cancel(failed_result(Some(true), String::from_str("Installation cancelled.")));
        }
        if !self.ps_exited {
            match &t.process {
                ProcessState::ExitedWithFailure => {
                    return InstallStep::Finish(
                        failed_result(Some(true), String::from_str("UAC denied or installation failed.")),
                    );
                },
                ProcessState::ExitedSuccessfully => {
                    self.ps_exited = true;
                },
                ProcessState::Running => {},
                ProcessState::WaitError(e) => {
                    let mut m = String::from_str("Process error: ");
                    m.append(e.as_str());
                    return InstallStep::Finish(failed_result(None, m));
                },
            }
        }
        self.ticks = if self.ticks == u64::MAX {
            0
        } else {
            self.ticks + 1
        };
        let check = self.ticks % 3 == 0 || self.ps_exited;
        let grace_over = self.ps_exited && t.elapsed_secs > 15;
        if check {
            match t.jlink_dir {
                Some(seen) => {
                    let accept = seen.dll_exists && (self.ps_exited || match seen.dll_mtime_ms {
                        Some(m) => m >= self.start_ms,
                        None => false,
                    });
                    if accept {
                        return InstallStep::Finish(installed_result(Some(seen.dir)));
                    }
                },
                None => {},
            }
            if grace_over {
                return InstallStep::Finish(
                    failed_result(
                        None,
                        String::from_str("Installation finished but J-Link was not detected. Please try again."),
                    ),
                );
            }
        }
        if t.elapsed_secs > 120 {
            return InstallStep::TimeOut(failed_result(None, String::from_str("Installation timed out.")));
        }
        InstallStep::Continue
    }
}

/// The result an install step carries, if any.
pub open spec fn step_result(step: StepView) -> Option<InstallView> {
    match step {
        StepView::Continue => None,
        StepView::Finish(r) => Some(r),
        StepView::Cancel(r) => Some(r),
        StepView::TimeOut(r) => Some(r),
    }
}

/// A Windows installation is reported successful only for a J-Link directory
/// that was seen with its DLL, and while the installer still runs only when
/// that DLL was written after the installation started; a successful result
/// says so and names that directory, every other result names none; a
/// cancel request always wins, and only a cancel or a time-out kills the
/// installer.
pub proof fn law_windows_install_success(w: InstallWatch, t: InstallTick)
    ensures
        t.cancelled ==> spec_tick(w, t).1 is Cancel,
        step_result(spec_tick(w, t).1) matches Some(r) ==> (r.success <==> r.path is Some),
        match spec_tick(w, t).1 {
            StepView::Finish(r) => r.success ==> {
                &&& !t.cancelled
                &&& r.cancelled is None
                &&& r.message == "J-Link installed successfully."@
                &&& t.jlink_dir is Some
                &&& r.path == Some(t.jlink_dir->0.dir@)
                &&& t.jlink_dir->0.dll_exists
                &&& accepts(t.jlink_dir->0, spec_tick(w, t).0, w.start_ms)
                &&& !spec_tick(w, t).0 ==> (t.jlink_dir->0.dll_mtime_ms matches Some(m) && m >= w.start_ms)
            },
            StepView::Cancel(r) => !r.success,
            StepView::TimeOut(r) => !r.success,
            StepView::Continue => true,
        },
{
}

/// Once PowerShell has exited it is never waited for again: the watch keeps
/// knowing that the installer is done.
pub proof fn law_windows_exit_is_kept(w: InstallWatch, t: InstallTick)
    requires
        w.ps_exited,
    ensures
        spec_tick(w, t).0,
{
}

/// On macOS the installer runs behind the administrator prompt, and every
/// unsuccessful exit of that command, whatever its exit code (or none), is
/// reported as a cancellation: not installed, cancelled, with the message
/// `Installation cancelled.`.  Only a successful exit installs, and only an
/// unsuccessful exit counts as cancelled.
pub proof fn law_macos_failure_is_cancellation(code: Option<i32>, outcome: CommandOutcome, jlink_dir: Option<Seq<char>>)
    ensures
        spec_macos_result(CommandOutcome::Failure { code }, jlink_dir) == (InstallView {
            success: false,
            cancelled: Some(true),
            message: "Installation cancelled."@,
            path: None,
        }),
        spec_macos_result(outcome, jlink_dir).success <==> outcome is Success,
        spec_macos_result(outcome, jlink_dir).cancelled == Some(true) <==> outcome is Failure,
{
}

/// On Linux (`pkexec dpkg -i`) only exit code 126, the dismissed
/// authentication, is a cancellation; every other unsuccessful exit, and a
/// failure to start the command, is a plain failure.  On both Linux and
/// macOS a successful exit reports success with the J-Link directory found
/// afterwards.
pub proof fn law_linux_cancellation_is_exit_126(code: Option<i32>, jlink_dir: Option<Seq<char>>)
    ensures
        spec_linux_result(CommandOutcome::Failure { code }, jlink_dir) == (InstallView {
            success: false,
            cancelled: if code == Some(126i32) { Some(true) } else { None },
            message: if code == Some(126i32) { "Installation cancelled."@ } else { "Installation failed."@ },
            path: None,
        }),
        spec_linux_result(CommandOutcome::Success, jlink_dir) == (InstallView {
            success: true,
            cancelled: None,
            message: "J-Link installed successfully."@,
            path: jlink_dir,
        }),
        spec_macos_result(CommandOutcome::Success, jlink_dir) == spec_linux_result(CommandOutcome::Success, jlink_dir),
{
}

} // verus!
