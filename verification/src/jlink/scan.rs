//! Probe listing: parsing `ShowEmuList` output and the firmware dates that a
//! second session reports.

use vstd::prelude::*;

use crate::jlink::scripts;
use crate::jlink::types::{Probe, ProbeView, opt_view, probe_views};
use crate::text::{
    chars_of, eq_chars, find, spec_find, spec_lines, spec_trim, split_lines,
    string_of, trim, views, spec_contains, contains, copy_string,
};

verus! {

// ─── Specifications ──────────────────────────────────────────────────────────

/// The value that follows `prefix` in `line`, up to the next comma, trimmed;
/// empty when `line` does not hold `prefix`.
pub open spec fn field_of(line: Seq<char>, prefix: Seq<char>) -> Seq<char> {
    match spec_find(line, prefix) {
        Some(pos) => {
            let rest = line.skip(pos + prefix.len());
            let end = match spec_find(rest, seq![',']) {
                Some(e) => e,
                None => rest.len() as int,
            };
            spec_trim(rest.take(end))
        },
        None => Seq::empty(),
    }
}

/// The probe that one line of `ShowEmuList` output describes: the text from
/// `J-Link[` on must name a non-empty serial number.
pub open spec fn probe_of_line(line: Seq<char>) -> Option<ProbeView> {
    match spec_find(line, "J-Link["@) {
        None => None,
        Some(pos) => {
            let l = line.skip(pos);
            let serial = field_of(l, "Serial number: "@);
            if serial.len() == 0 {
                None
            } else {
                let nick_raw = field_of(l, "Nickname: "@);
                Some(
                    ProbeView {
                        id: serial,
                        serial_number: serial,
                        product_name: field_of(l, "ProductName: "@),
                        nick_name: if nick_raw == "<not set>"@ {
                            Seq::empty()
                        } else {
                            nick_raw
                        },
                        provider: "JLink"@,
                        connection: field_of(l, "Connection: "@),
                        driver: "Unknown"@,
                        firmware: None,
                    },
                )
            }
        },
    }
}

/// The probes that `lines` describe, in order.
pub open spec fn probes_of_lines(lines: Seq<Seq<char>>) -> Seq<ProbeView>
    decreases lines.len(),
{
    if lines.len() == 0 {
        Seq::empty()
    } else {
        let rest = probes_of_lines(lines.drop_last());
        match probe_of_line(lines.last()) {
            Some(p) => rest.push(p),
            None => rest,
        }
    }
}

/// The probes that `ShowEmuList` output lists.
pub open spec fn spec_parse_probe_list(stdout: Seq<char>) -> Seq<ProbeView> {
    probes_of_lines(spec_lines(stdout))
}

/// `line` reports a firmware build (`Firmware: ... compiled ...`).
pub open spec fn is_firmware_line(line: Seq<char>) -> bool {
    spec_contains(line, "Firmware:"@) && spec_contains(line, "compiled"@)
}

/// The build date after `compiled ` in `line`, trimmed; empty without it.
pub open spec fn date_of_line(line: Seq<char>) -> Seq<char> {
    match spec_find(line, "compiled "@) {
        Some(p) => spec_trim(line.skip(p + "compiled "@.len())),
        None => Seq::empty(),
    }
}

/// The non-empty firmware dates that `lines` report, in order.
pub open spec fn dates_of_lines(lines: Seq<Seq<char>>) -> Seq<Seq<char>>
    decreases lines.len(),
{
    if lines.len() == 0 {
        Seq::empty()
    } else {
        let rest = dates_of_lines(lines.drop_last());
        let l = lines.last();
        if is_firmware_line(l) && date_of_line(l).len() > 0 {
            rest.push(date_of_line(l))
        } else {
            rest
        }
    }
}

/// The firmware date of each of `count` probes: the `i`-th reported date,
/// or nothing where the session failed or reported fewer dates.
pub open spec fn spec_firmware_dates(stdout: Option<Seq<char>>, count: nat) -> Seq<Option<Seq<char>>> {
    Seq::new(
        count,
        |i: int|
            match stdout {
                Some(s) => if i < dates_of_lines(spec_lines(s)).len() {
                    Some(dates_of_lines(spec_lines(s))[i])
                } else {
                    None
                },
                None => None,
            },
    )
}

/// The probes of `list` with their firmware dates taken from `dates`.
pub open spec fn with_firmware(list: Seq<ProbeView>, dates: Seq<Option<Seq<char>>>) -> Seq<ProbeView> {
    Seq::new(list.len(), |i: int| ProbeView { firmware: dates[i], ..list[i] })
}

/// The result of a scan: the listed probes, each with the firmware date the
/// firmware session reported for it.
pub open spec fn spec_scan(list_stdout: Seq<char>, firmware_stdout: Option<Seq<char>>) -> Seq<ProbeView> {
    let list = spec_parse_probe_list(list_stdout);
    with_firmware(list, spec_firmware_dates(firmware_stdout, list.len()))
}

// ─── Laws ────────────────────────────────────────────────────────────────────

/// Every probe read from `lines` is identified by its non-empty serial
/// number, is a J-Link probe with an unknown driver and no firmware date yet,
/// and there are never more probes than lines.
proof fn lemma_probes_of_lines(lines: Seq<Seq<char>>)
    ensures
        probes_of_lines(lines).len() <= lines.len(),
        forall|i: int| 0 <= i < probes_of_lines(lines).len() ==> {
            let p = #[trigger] probes_of_lines(lines)[i];
            &&& p.id == p.serial_number
            &&& p.serial_number.len() > 0
            &&& p.provider == "JLink"@
            &&& p.driver == "Unknown"@
            &&& p.firmware is None
            &&& p.nick_name != "<not set>"@
        },
    decreases lines.len(),
{
    assert("<not set>"@.len() > 0) by {
        reveal_strlit("<not set>");
    }
    if lines.len() > 0 {
        lemma_probes_of_lines(lines.drop_last());
        let rest = probes_of_lines(lines.drop_last());
        assert forall|i: int| 0 <= i < probes_of_lines(lines).len() implies {
            let p = #[trigger] probes_of_lines(lines)[i];
            &&& p.id == p.serial_number
            &&& p.serial_number.len() > 0
            &&& p.provider == "JLink"@
            &&& p.driver == "Unknown"@
            &&& p.firmware is None
            &&& p.nick_name != "<not set>"@
        } by {
            if i < rest.len() {
                assert(probes_of_lines(lines)[i] == rest[i]);
            }
        }
    }
}

/// A scan lists each probe under its non-empty serial number (which is also
/// its id), as a J-Link probe whose driver is not known yet, never with the
/// placeholder nickname `<not set>`, and lists no more probes than the
/// listing has lines; the listing itself gives no firmware date, the firmware
/// session only adds dates.
pub proof fn law_scanned_probes_are_identified(list_stdout: Seq<char>, firmware_stdout: Option<Seq<char>>)
    ensures
        forall|i: int| 0 <= i < spec_parse_probe_list(list_stdout).len() ==> {
            let q = #[trigger] spec_parse_probe_list(list_stdout)[i];
            &&& q.firmware is None
            &&& q.nick_name != "<not set>"@
            &&& q.id == q.serial_number
            &&& q.serial_number.len() > 0
        },
        spec_scan(list_stdout, firmware_stdout).len() == spec_parse_probe_list(list_stdout).len(),
        spec_parse_probe_list(list_stdout).len() <= spec_lines(list_stdout).len(),
        forall|i: int| 0 <= i < spec_scan(list_stdout, firmware_stdout).len() ==> {
            let p = #[trigger] spec_scan(list_stdout, firmware_stdout)[i];
            let q = spec_parse_probe_list(list_stdout)[i];
            &&& p.id == p.serial_number
            &&& p.serial_number.len() > 0
            &&& p.provider == "JLink"@
            &&& p.driver == "Unknown"@
            &&& p == ProbeView { firmware: p.firmware, ..q }
        },
{
    lemma_probes_of_lines(spec_lines(list_stdout));
}

/// `line` of a firmware session reports a firmware build date: it holds both
/// `Firmware:` and `compiled`, and a date follows `compiled `.
pub open spec fn line_reports_firmware_date(line: Seq<char>) -> bool {
    &&& spec_contains(line, "Firmware:"@)
    &&& spec_contains(line, "compiled"@)
    &&& date_of_line(line).len() > 0
}

/// The dates read from `lines` are those of the lines that report a firmware
/// date, in order, and each comes from such a line.
proof fn lemma_dates_of_lines(lines: Seq<Seq<char>>)
    ensures
        dates_of_lines(lines) == lines.filter(|l: Seq<char>| line_reports_firmware_date(l)).map_values(
            |l: Seq<char>| date_of_line(l),
        ),
        forall|j: int|
            #![trigger dates_of_lines(lines)[j]]
            0 <= j < dates_of_lines(lines).len() ==> exists|k: int|
                0 <= k < lines.len() && line_reports_firmware_date(#[trigger] lines[k]) && date_of_line(lines[k])
                    == dates_of_lines(lines)[j],
    decreases lines.len(),
{
    reveal(Seq::filter);
    let p = |l: Seq<char>| line_reports_firmware_date(l);
    let d = |l: Seq<char>| date_of_line(l);
    if lines.len() > 0 {
        let init = lines.drop_last();
        lemma_dates_of_lines(init);
        let rest = dates_of_lines(init);
        let last = lines.last();
        assert(lines.filter(p) == if p(last) { init.filter(p).push(last) } else { init.filter(p) });
        if p(last) {
            assert(init.filter(p).push(last).map_values(d) =~= init.filter(p).map_values(d).push(d(last)));
        }
        assert forall|j: int| #![trigger dates_of_lines(lines)[j]] 0 <= j < dates_of_lines(lines).len() implies exists|k: int|
            0 <= k < lines.len() && line_reports_firmware_date(#[trigger] lines[k]) && date_of_line(lines[k])
                == dates_of_lines(lines)[j] by {
            if j < rest.len() {
                let k = choose|k: int|
                    0 <= k < init.len() && line_reports_firmware_date(#[trigger] init[k]) && date_of_line(init[k])
                        == rest[j];
                assert(lines[k] == init[k]);
            } else {
                assert(lines[lines.len() - 1] == last);
            }
        }
    } else {
        assert(lines.filter(p).map_values(d) =~= Seq::<Seq<char>>::empty());
    }
}

/// The firmware date a scan attaches to each probe comes from the firmware
/// session, and only from lines that report a firmware build
/// (`Firmware: ... compiled <date>`): the `i`-th probe gets the date of the
/// `i`-th such line with a date, in the session's order, and no date when
/// there are fewer such lines or the session could not run.  A line without
/// `Firmware:` (such as the DLL's own `compiled` banner) never yields a date.
pub proof fn law_firmware_dates_come_from_firmware_lines(list_stdout: Seq<char>, firmware_stdout: Option<Seq<char>>)
    ensures
        forall|i: int| 0 <= i < spec_scan(list_stdout, firmware_stdout).len() ==> {
            let f = (#[trigger] spec_scan(list_stdout, firmware_stdout)[i]).firmware;
            match firmware_stdout {
                None => f is None,
                Some(out) => {
                    let dated = spec_lines(out).filter(|l: Seq<char>| line_reports_firmware_date(l)).map_values(
                        |l: Seq<char>| date_of_line(l),
                    );
                    f == if i < dated.len() {
                        Some(dated[i])
                    } else {
                        None
                    }
                },
            }
        },
        forall|i: int| 0 <= i < spec_scan(list_stdout, firmware_stdout).len() ==> {
            (#[trigger] spec_scan(list_stdout, firmware_stdout)[i]).firmware matches Some(date) ==> {
                &&& firmware_stdout is Some
                &&& exists|k: int|
                    0 <= k < spec_lines(firmware_stdout->0).len() && spec_contains(
                        #[trigger] spec_lines(firmware_stdout->0)[k],
                        "Firmware:"@,
                    ) && spec_contains(spec_lines(firmware_stdout->0)[k], "compiled"@) && date_of_line(
                        spec_lines(firmware_stdout->0)[k],
                    ) == date && date.len() > 0
            }
        },
{
    if let Some(out) = firmware_stdout {
        lemma_dates_of_lines(spec_lines(out));
    }
}

// ─── Executable functions ────────────────────────────────────────────────────

/// The value that follows `prefix` in `line`, up to the next comma, trimmed.
pub(crate) fn extract_field(line: &[char], prefix: &[char]) -> (r: Vec<char>)
    ensures
        r@ == field_of(line@, prefix@),
{
    match find(line, prefix) {
        Some(pos) => {
            let n = line.len();
            let rest = &line[pos + prefix.len()..n];
            assert(rest@ == line@.skip(pos + prefix@.len()));
            let comma = chars_of(",");
            assert(comma@ =~= seq![',']) by {
                reveal_strlit(",");
            }
            let end = match find(rest, comma.as_slice()) {
                Some(e) => e,
                None => rest.len(),
            };
            let piece = &rest[0..end];
            assert(piece@ == rest@.take(end as int));
            trim(piece)
        },
        None => Vec::new(),
    }
}

/// The probe that one line of `ShowEmuList` output describes.
fn probe_from_line(line: &[char]) -> (r: Option<Probe>)
    ensures
        match r {
            Some(p) => probe_of_line(line@) == Some(p@),
            None => probe_of_line(line@) is None,
        },
{
    let marker = chars_of("J-Link[");
    let pos = match find(line, marker.as_slice()) {
        Some(p) => p,
        None => return None,
    };
    let l = &line[pos..line.len()];
    assert(l@ == line@.skip(pos as int));
    let serial = extract_field(l, chars_of("Serial number: ").as_slice());
    if serial.len() == 0 {
        return None;
    }
    let nick_raw = extract_field(l, chars_of("Nickname: ").as_slice());
    let not_set = chars_of("<not set>");
    let nick_name = if eq_chars(nick_raw.as_slice(), not_set.as_slice()) {
        String::new()
    } else {
        string_of(nick_raw.as_slice())
    };
    let product = extract_field(l, chars_of("ProductName: ").as_slice());
    let connection = extract_field(l, chars_of("Connection: ").as_slice());
    Some(
        Probe {
            id: string_of(serial.as_slice()),
            serial_number: string_of(serial.as_slice()),
            product_name: string_of(product.as_slice()),
            nick_name,
            provider: String::from_str("JLink"),
            connection: string_of(connection.as_slice()),
            driver: String::from_str("Unknown"),
            firmware: None,
        },
    )
}

/// The probes that `ShowEmuList` output lists, in order.
pub(crate) fn parse_probe_list(stdout: &str) -> (res: Vec<Probe>)
    ensures
        probe_views(res@) == spec_parse_probe_list(stdout@),
{
    let chars = chars_of(stdout);
    let lines = split_lines(chars.as_slice());
    let ghost ls = views(lines@);
    let mut res: Vec<Probe> = Vec::new();
    let mut i: usize = 0;
    while i < lines.len()
        invariant
            i <= lines.len(),
            ls == views(lines@),
            ls == spec_lines(stdout@),
            probe_views(res@) == probes_of_lines(ls.take(i as int)),
        decreases lines.len() - i,
    {
        assert(ls.take(i + 1).drop_last() =~= ls.take(i as int));
        assert(ls.take(i + 1).last() == lines@[i as int]@);
        let ghost before = res@;
        match probe_from_line(lines[i].as_slice()) {
            Some(p) => {
                res.push(p);
                assert(probe_views(res@) =~= probe_views(before).push(p@));
            },
            None => {},
        }
        i += 1;
    }
    assert(ls.take(ls.len() as int) =~= ls);
    res
}

/// The models of a sequence of optional strings.
pub open spec fn opt_views(s: Seq<Option<String>>) -> Seq<Option<Seq<char>>> {
    s.map_values(|o: Option<String>| opt_view(o))
}

/// The model of an optional `&str`.
pub open spec fn opt_str_view(o: Option<&str>) -> Option<Seq<char>> {
    match o {
        Some(s) => Some(s@),
        None => None,
    }
}

/// The firmware build date that `line` reports after `compiled `, if it is
/// a firmware line that names one.
fn date_from_line(line: &[char]) -> (r: Vec<char>)
    ensures
        r@ == date_of_line(line@),
{
    let key = chars_of("compiled ");
    match find(line, key.as_slice()) {
        Some(pos) => {
            let n = line.len();
            let rest = &line[pos + key.len()..n];
            trim(rest)
        },
        None => Vec::new(),
    }
}

/// `line` reports a firmware build.
fn firmware_line(line: &[char]) -> (r: bool)
    ensures
        r == is_firmware_line(line@),
{
    contains(line, chars_of("Firmware:").as_slice()) && contains(line, chars_of("compiled").as_slice())
}

/// The firmware date of each of `count` probes, read from the output of the
/// firmware session (`None` when that session could not run).
pub(crate) fn fetch_firmware_dates(stdout: Option<&str>, count: usize) -> (res: Vec<Option<String>>)
    ensures
        res@.len() == count,
        opt_views(res@) == spec_firmware_dates(opt_str_view(stdout), count as nat),
{
    let mut res: Vec<Option<String>> = Vec::new();
    let mut k: usize = 0;
    while k < count
        invariant
            k <= count,
            res@.len() == k,
            forall|j: int| 0 <= j < k ==> res@[j] is None,
        decreases count - k,
    {
        res.push(None);
        k += 1;
    }
    let out = match stdout {
        None => {
            assert(opt_views(res@) =~= spec_firmware_dates(opt_str_view(stdout), count as nat));
            return res;
        },
        Some(out) => out,
    };
    let chars = chars_of(out);
    let lines = split_lines(chars.as_slice());
    let ghost ls = views(lines@);
    let mut idx: usize = 0;
    let mut i: usize = 0;
    while i < lines.len()
        invariant
            i <= lines.len(),
            ls == views(lines@),
            ls == spec_lines(out@),
            res@.len() == count,
            idx <= count,
            idx == count || idx == dates_of_lines(ls.take(i as int)).len(),
            idx <= dates_of_lines(ls.take(i as int)).len(),
            forall|j: int| 0 <= j < count ==> opt_view(#[trigger] res@[j]) == if j < dates_of_lines(ls.take(i as int)).len() {
                Some(dates_of_lines(ls.take(i as int))[j])
            } else {
                None::<Seq<char>>
            },
        decreases lines.len() - i,
    {
        assert(ls.take(i + 1).drop_last() =~= ls.take(i as int));
        assert(ls.take(i + 1).last() == lines@[i as int]@);
        let line = lines[i].as_slice();
        if firmware_line(line) {
            let date = date_from_line(line);
            if date.len() > 0 && idx < count {
                res.set(idx, Some(string_of(date.as_slice())));
                idx += 1;
            }
        }
        i += 1;
    }
    assert(ls.take(ls.len() as int) =~= ls);
    assert(opt_views(res@) =~= spec_firmware_dates(opt_str_view(stdout), count as nat));
    res
}

/// The script of the session that reads the firmware dates of the listed
/// probes; there is none when no probe is listed.
pub fn firmware_fetch_script(probe_count: usize) -> (r: Option<String>)
    ensures
        match r {
            Some(s) => probe_count > 0 && s@ == scripts::spec_fetch_firmware_dates(probe_count as nat),
            None => probe_count == 0,
        },
{
    if probe_count == 0 {
        None
    } else {
        Some(scripts::fetch_firmware_dates(probe_count))
    }
}

/// The probes listed by `ShowEmuList` (`list_stdout`), each with the firmware
/// date that the firmware session (`firmware_stdout`; `None` when it could not
/// run) reported for it.
pub fn scan_probes(list_stdout: &str, firmware_stdout: Option<&str>) -> (res: Vec<Probe>)
    ensures
        probe_views(res@) == spec_scan(list_stdout@, opt_str_view(firmware_stdout)),
{
    let probes = parse_probe_list(list_stdout);
    let n = probes.len();
    let dates = fetch_firmware_dates(firmware_stdout, n);
    let ghost list = spec_parse_probe_list(list_stdout@);
    let ghost ds = spec_firmware_dates(opt_str_view(firmware_stdout), n as nat);
    let mut res: Vec<Probe> = Vec::new();
    let mut i: usize = 0;
    while i < n
        invariant
            i <= n,
            n == probes@.len(),
            dates@.len() == n,
            probe_views(probes@) == list,
            opt_views(dates@) == ds,
            res@.len() == i,
            forall|j: int| 0 <= j < i ==> (#[trigger] res@[j])@ == with_firmware(list, ds)[j],
        decreases n - i,
    {
        let p = &probes[i];
        let firmware = match &dates[i] {
            Some(d) => Some(copy_string(d)),
            None => None,
        };
        assert(opt_view(firmware) == ds[i as int]);
        assert(p@ == list[i as int]);
        res.push(
            Probe {
                id: copy_string(&p.id),
                serial_number: copy_string(&p.serial_number),
                product_name: copy_string(&p.product_name),
                nick_name: copy_string(&p.nick_name),
                provider: copy_string(&p.provider),
                connection: copy_string(&p.connection),
                driver: copy_string(&p.driver),
                firmware,
            },
        );
        i += 1;
    }
    assert(probe_views(res@) =~= spec_scan(list_stdout@, opt_str_view(firmware_stdout)));
    res
}

} // verus!
