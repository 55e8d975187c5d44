//! Firmware update: reading the outcome of an `update_firmware` session.

use vstd::prelude::*;

use crate::jlink::scan::{date_of_line, is_firmware_line};
use crate::jlink::types::{FirmwareUpdateResult, FirmwareUpdateView, output_view};
use crate::text::{
    chars_of, contains, find, spec_contains, spec_lines, split_lines, string_of, trim, views,
};

verus! {

/// The first line of `lines` that reports a firmware build.
pub open spec fn first_firmware_line(lines: Seq<Seq<char>>) -> Option<Seq<char>>
    decreases lines.len(),
{
    if lines.len() == 0 {
        None
    } else if is_firmware_line(lines[0]) {
        Some(lines[0])
    } else {
        first_firmware_line(lines.drop_first())
    }
}

/// The firmware build date that the first firmware line of `stdout` names
/// after `compiled `; empty when there is no such line or date.
pub open spec fn reported_firmware(stdout: Seq<char>) -> Seq<char> {
    match first_firmware_line(spec_lines(stdout)) {
        Some(l) => date_of_line(l),
        None => Seq::empty(),
    }
}

/// The outcome of a firmware update session, from what the session returned:
/// its standard output, or the message of the error that kept it from running.
pub open spec fn spec_update(output: Result<Seq<char>, Seq<char>>) -> FirmwareUpdateView {
    match output {
        Err(e) => FirmwareUpdateView::Failed { error: e },
        Ok(out) => {
            let fw = reported_firmware(out);
            if fw.len() == 0 {
                FirmwareUpdateView::Failed { error: "Could not parse firmware version from output"@ }
            } else if spec_contains(out, "New firmware booted successfully"@) {
                FirmwareUpdateView::Updated { firmware: fw }
            } else {
                FirmwareUpdateView::Current { firmware: fw }
            }
        },
    }
}

/// The date of the first firmware line of `lines`, from index `i` on.
fn first_firmware_date(lines: &Vec<Vec<char>>) -> (r: Vec<char>)
    ensures
        r@ == match first_firmware_line(views(lines@)) {
            Some(l) => date_of_line(l),
            None => Seq::<char>::empty(),
        },
{
    let ghost ls = views(lines@);
    let mut i: usize = 0;
    assert(ls.skip(0) =~= ls);
    while i < lines.len()
        invariant
            i <= lines.len(),
            ls == views(lines@),
            first_firmware_line(ls) == first_firmware_line(ls.skip(i as int)),
        decreases lines.len() - i,
    {
        assert(ls.skip(i as int)[0] == lines@[i as int]@);
        assert(ls.skip(i as int).drop_first() =~= ls.skip(i + 1));
        let line = lines[i].as_slice();
        if contains(line, chars_of("Firmware:").as_slice()) && contains(line, chars_of("compiled").as_slice()) {
            let key = chars_of("compiled ");
            return match find(line, key.as_slice()) {
                Some(pos) => {
                    let n = line.len();
                    trim(&line[pos + key.len()..n])
                },
                None => Vec::new(),
            };
        }
        i += 1;
    }
    Vec::new()
}

/// The outcome of a firmware update session (`output`: its standard output, or
/// the message of the error that kept it from running).
pub fn update(output: &Result<String, String>) -> (r: FirmwareUpdateResult)
    ensures
        r@ == spec_update(output_view(*output)),
{
    match output {
        Err(e) => FirmwareUpdateResult::Failed { error: String::from_str(e.as_str()) },
        Ok(stdout) => {
            let chars = chars_of(stdout.as_str());
            let lines = split_lines(chars.as_slice());
            let fw = first_firmware_date(&lines);
            if fw.len() == 0 {
                FirmwareUpdateResult::Failed {
                    error: String::from_str("Could not parse firmware version from output"),
                }
            } else if contains(chars.as_slice(), chars_of("New firmware booted successfully").as_slice()) {
                FirmwareUpdateResult::Updated { firmware: string_of(fw.as_slice()) }
            } else {
                FirmwareUpdateResult::Current { firmware: string_of(fw.as_slice()) }
            }
        },
    }
}

/// An update session that ran and reported a firmware date was an update
/// exactly when its output, anywhere, says `New firmware booted
/// successfully`; otherwise the probe already ran current firmware.  Whether
/// the session failed depends only on the reported date, never on the boot
/// message, and a session that could not run fails with its own error.
pub proof fn law_update_outcome_follows_boot_message(out: Seq<char>, error: Seq<char>)
    ensures
        spec_update(Ok(out)) is Updated <==> (spec_update(Ok(out)) !is Failed && spec_contains(
            out,
            "New firmware booted successfully"@,
        )),
        spec_update(Ok(out)) is Current <==> (spec_update(Ok(out)) !is Failed && !spec_contains(
            out,
            "New firmware booted successfully"@,
        )),
        spec_update(Ok(out)) is Failed <==> reported_firmware(out).len() == 0,
        spec_update(Err(error)) == (FirmwareUpdateView::Failed { error }),
{
}

} // verus!
