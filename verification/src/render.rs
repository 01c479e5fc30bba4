//! The report renderer: turns a [`ReportModel`] into an ordered sequence
//! of display lines and lays them out beside a fixed ASCII logo panel.
//!
//! The panel has exactly `LOGO_HEIGHT` rows, each pre-padded to
//! `LOGO_WIDTH` characters. Report line `i` is paired positionally with
//! panel row `i`; report lines beyond the panel get `LOGO_WIDTH` literal
//! spaces in place of panel art, and panel rows beyond the report are
//! printed alone. One blank line frames the block on each side.

use vstd::prelude::*;

use crate::duration::{format_duration, spec_format_duration};
use crate::model::{DiskEntry, NetworkEntry, ReportModel, TemperatureEntry};
use crate::text::{repeat_str, spec_dec, u64_to_dec};

verus! {

/// Rows in the logo panel.
pub const LOGO_HEIGHT: usize = 9;

/// Characters in each logo panel row.
pub const LOGO_WIDTH: usize = 32;

/// Bytes in a megabyte (2^20), the unit network traffic is displayed in.
pub const BYTES_PER_MB: u64 = 1048576;

/// Panel row `i` of the logo, a pre-authored string of exactly
/// `LOGO_WIDTH` characters.
pub open spec fn spec_logo_row(i: int) -> Seq<char> {
    if i == 1 {
        "    #       #      *#*          "@
    } else if i == 2 {
        "    ##     ##      *#*          "@
    } else if i == 3 {
        "    #  # #  #      *#*          "@
    } else if i == 4 {
        "    #   #   #      *#*          "@
    } else if i == 5 {
        "    #       #      *#*          "@
    } else if i == 6 {
        "    #       #      *#*          "@
    } else if i == 7 {
        "    #       #      *#*          "@
    } else {
        "                                "@
    }
}

/// The prefix put in front of report lines that have no panel row left:
/// `LOGO_WIDTH` space characters.
pub open spec fn spec_logo_pad() -> Seq<char> {
    Seq::new(LOGO_WIDTH as nat, |i: int| ' ')
}

/// Every logo panel row is `LOGO_WIDTH` characters wide, so pairing a row
/// with a report line and padding an unmatched report line indent the
/// report text by the same amount.
pub proof fn lemma_logo_rows_width()
    ensures
        forall|i: int| 0 <= i < LOGO_HEIGHT ==> (#[trigger] spec_logo_row(i)).len() == LOGO_WIDTH,
        spec_logo_pad().len() == LOGO_WIDTH,
{
    reveal_strlit("    #       #      *#*          ");
    reveal_strlit("    ##     ##      *#*          ");
    reveal_strlit("    #  # #  #      *#*          ");
    reveal_strlit("    #   #   #      *#*          ");
    reveal_strlit("                                ");
}

/// Returns panel row `i` as an owned string.
pub fn logo_row(i: usize) -> (r: String)
    requires
        i < LOGO_HEIGHT,
    ensures
        r@ == spec_logo_row(i as int),
{
    match i {
        1 => String::from_str("    #       #      *#*          "),
        2 => String::from_str("    ##     ##      *#*          "),
        3 => String::from_str("    #  # #  #      *#*          "),
        4 => String::from_str("    #   #   #      *#*          "),
        5 => String::from_str("    #       #      *#*          "),
        6 => String::from_str("    #       #      *#*          "),
        7 => String::from_str("    #       #      *#*          "),
        _ => String::from_str("                                "),
    }
}

/// The identity line: `"{username}@{hostname}"`.
pub open spec fn spec_identity_line(username: Seq<char>, hostname: Seq<char>) -> Seq<char> {
    username + "@"@ + hostname
}

/// The separator under the identity line: one dash per character of the
/// identity line, i.e. `len(username) + len(hostname) + 1` dashes.
pub open spec fn spec_separator_line(username: Seq<char>, hostname: Seq<char>) -> Seq<char> {
    Seq::new(username.len() + hostname.len() + 1, |i: int| '-')
}

/// The OS line: `"OS:        {osName}"`.
pub open spec fn spec_os_line(os_name: Seq<char>) -> Seq<char> {
    "OS:        "@ + os_name
}

/// The kernel line: `"Kernel:    {kernelVersion}"`.
pub open spec fn spec_kernel_line(kernel_version: Seq<char>) -> Seq<char> {
    "Kernel:    "@ + kernel_version
}

/// The uptime line: `"Uptime:    {formatted duration}"`.
pub open spec fn spec_uptime_line(uptime_seconds: int) -> Seq<char> {
    "Uptime:    "@ + spec_format_duration(uptime_seconds)
}

/// One disk line:
/// `"Disk:      {mount} - {used} GB used / {total} GB total, FS: {fs}"`.
pub open spec fn spec_disk_line(d: DiskEntry) -> Seq<char> {
    "Disk:      "@ + d.mount_point@ + " - "@ + spec_dec(d.used_gb as int) + " GB used / "@
        + spec_dec(d.total_gb as int) + " GB total, FS: "@ + d.filesystem@
}

/// One temperature line: `"Temp:      {label} - {reading}°C"`.
pub open spec fn spec_temp_line(t: TemperatureEntry) -> Seq<char> {
    "Temp:      "@ + t.label@ + " - "@ + t.celsius_text@ + "°C"@
}

/// One network line, with byte counters shown as whole megabytes (floor
/// division by 2^20) and packet counters shown as they are.
pub open spec fn spec_network_line(n: NetworkEntry) -> Seq<char> {
    "Network:   "@ + n.interface_name@ + " - "@ + spec_dec(
        n.bytes_sent as int / BYTES_PER_MB as int,
    ) + " MB sent, "@ + spec_dec(n.bytes_received as int / BYTES_PER_MB as int) + " MB recv, "@
        + spec_dec(n.packets_sent as int) + " pkts sent, "@ + spec_dec(n.packets_received as int)
        + " pkts recv"@
}

/// All report lines of a model, in fixed order: identity, separator, OS,
/// kernel and uptime, then one line per disk, temperature and network
/// entry, each category in the model's enumeration order.
pub open spec fn spec_report_lines(m: ReportModel) -> Seq<Seq<char>> {
    seq![
        spec_identity_line(m.username@, m.hostname@),
        spec_separator_line(m.username@, m.hostname@),
        spec_os_line(m.os_name@),
        spec_kernel_line(m.kernel_version@),
        spec_uptime_line(m.uptime_seconds as int),
    ] + m.disks@.map_values(|d: DiskEntry| spec_disk_line(d)) + m.temperatures@.map_values(
        |t: TemperatureEntry| spec_temp_line(t),
    ) + m.networks@.map_values(|n: NetworkEntry| spec_network_line(n))
}

/// Builds the separator line: it has exactly one dash per character of
/// the identity line above it, for any username and hostname, including
/// empty ones (a single dash when both are empty).
pub fn separator_line(username: &str, hostname: &str) -> (r: String)
    requires
        username@.len() + hostname@.len() + 1 <= usize::MAX,
    ensures
        r@ == spec_separator_line(username@, hostname@),
        r@.len() == username@.len() + hostname@.len() + 1,
        forall|i: int| 0 <= i < r@.len() ==> r@[i] == '-',
{
    let ul = username.unicode_len();
    let hl = hostname.unicode_len();
    proof {
        reveal_strlit("-");
    }
    let r = repeat_str("-", ul + hl + 1);
    assert(r@ =~= spec_separator_line(username@, hostname@));
    r
}

/// Builds one disk line.
pub fn disk_line(d: &DiskEntry) -> (r: String)
    ensures
        r@ == spec_disk_line(*d),
{
    let mut s = String::from_str("Disk:      ");
    s.append(d.mount_point.as_str());
    s.append(" - ");
    let used = u64_to_dec(d.used_gb);
    s.append(used.as_str());
    s.append(" GB used / ");
    let total = u64_to_dec(d.total_gb);
    s.append(total.as_str());
    s.append(" GB total, FS: ");
    s.append(d.filesystem.as_str());
    assert(s@ =~= spec_disk_line(*d));
    s
}

/// Builds one temperature line.
pub fn temp_line(t: &TemperatureEntry) -> (r: String)
    ensures
        r@ == spec_temp_line(*t),
{
    let mut s = String::from_str("Temp:      ");
    s.append(t.label.as_str());
    s.append(" - ");
    s.append(t.celsius_text.as_str());
    s.append("°C");
    assert(s@ =~= spec_temp_line(*t));
    s
}

/// Builds one network line.
pub fn network_line(n: &NetworkEntry) -> (r: String)
    ensures
        r@ == spec_network_line(*n),
{
    let mut s = String::from_str("Network:   ");
    s.append(n.interface_name.as_str());
    s.append(" - ");
    let sent = u64_to_dec(n.bytes_sent / BYTES_PER_MB);
    s.append(sent.as_str());
    s.append(" MB sent, ");
    let received = u64_to_dec(n.bytes_received / BYTES_PER_MB);
    s.append(received.as_str());
    s.append(" MB recv, ");
    let ps = u64_to_dec(n.packets_sent);
    s.append(ps.as_str());
    s.append(" pkts sent, ");
    let pr = u64_to_dec(n.packets_received);
    s.append(pr.as_str());
    s.append(" pkts recv");
    assert(s@ =~= spec_network_line(*n));
    s
}

/// Assembles every report line of the model, in the fixed order of
/// `spec_report_lines`.
pub fn build_report_lines(m: &ReportModel) -> (lines: Vec<String>)
    requires
        m.username@.len() + m.hostname@.len() + 1 <= usize::MAX,
    ensures
        lines@.len() == spec_report_lines(*m).len(),
        forall|i: int| 0 <= i < lines@.len() ==> lines@[i]@ == spec_report_lines(*m)[i],
{
    let mut lines: Vec<String> = Vec::new();
    let mut ident = String::new();
    ident.append(m.username.as_str());
    ident.append("@");
    ident.append(m.hostname.as_str());
    assert(ident@ =~= spec_identity_line(m.username@, m.hostname@));
    lines.push(ident);
    lines.push(separator_line(m.username.as_str(), m.hostname.as_str()));
    let mut os = String::from_str("OS:        ");
    os.append(m.os_name.as_str());
    lines.push(os);
    let mut kernel = String::from_str("Kernel:    ");
    kernel.append(m.kernel_version.as_str());
    lines.push(kernel);
    let mut uptime = String::from_str("Uptime:    ");
    let formatted = format_duration(m.uptime_seconds);
    uptime.append(formatted.as_str());
    lines.push(uptime);
    assert(forall|i: int| 0 <= i < 5 ==> lines@[i]@ == spec_report_lines(*m)[i]);
    let mut k: usize = 0;
    while k < m.disks.len()
        invariant
            m.username@.len() + m.hostname@.len() + 1 <= usize::MAX,
            k <= m.disks@.len(),
            lines@.len() == 5 + k,
            forall|i: int| 0 <= i < lines@.len() ==> lines@[i]@ == spec_report_lines(*m)[i],
        decreases m.disks@.len() - k,
    {
        assert(spec_report_lines(*m)[5 + k] == spec_disk_line(m.disks@[k as int]));
        lines.push(disk_line(&m.disks[k]));
        k = k + 1;
    }
    let mut k: usize = 0;
    while k < m.temperatures.len()
        invariant
            m.username@.len() + m.hostname@.len() + 1 <= usize::MAX,
            k <= m.temperatures@.len(),
            lines@.len() == 5 + m.disks@.len() + k,
            forall|i: int| 0 <= i < lines@.len() ==> lines@[i]@ == spec_report_lines(*m)[i],
        decreases m.temperatures@.len() - k,
    {
        assert(spec_report_lines(*m)[lines@.len() as int] == spec_temp_line(
            m.temperatures@[k as int],
        ));
        lines.push(temp_line(&m.temperatures[k]));
        k = k + 1;
    }
    let mut k: usize = 0;
    while k < m.networks.len()
        invariant
            m.username@.len() + m.hostname@.len() + 1 <= usize::MAX,
            k <= m.networks@.len(),
            lines@.len() == 5 + m.disks@.len() + m.temperatures@.len() + k,
            forall|i: int| 0 <= i < lines@.len() ==> lines@[i]@ == spec_report_lines(*m)[i],
        decreases m.networks@.len() - k,
    {
        assert(spec_report_lines(*m)[lines@.len() as int] == spec_network_line(
            m.networks@[k as int],
        ));
        lines.push(network_line(&m.networks[k]));
        k = k + 1;
    }
    lines
}

/// The pairing of report lines with the logo panel, by index: while both
/// remain, panel row `i` directly precedes report line `i`; report lines
/// past the panel get `LOGO_WIDTH` spaces instead of art; panel rows past
/// the report stand alone.
pub open spec fn spec_paired(lines: Seq<Seq<char>>) -> Seq<Seq<char>> {
    Seq::new(
        if lines.len() < LOGO_HEIGHT {
            LOGO_HEIGHT as nat
        } else {
            lines.len()
        },
        |i: int|
            if i < lines.len() {
                if i < LOGO_HEIGHT {
                    spec_logo_row(i) + lines[i]
                } else {
                    spec_logo_pad() + lines[i]
                }
            } else {
                spec_logo_row(i)
            },
    )
}

/// Pairs report lines with the logo panel by index. The postconditions
/// state the pairing invariant exactly: every line up to the panel height
/// is panel row plus report line with nothing between, every later report
/// line is prefixed with exactly `LOGO_WIDTH` spaces, and every unmatched
/// trailing panel row is printed alone.
pub fn pair_with_logo(lines: &Vec<String>) -> (out: Vec<String>)
    ensures
        out@.len() == spec_paired(lines@.map_values(|s: String| s@)).len(),
        forall|i: int|
            0 <= i < out@.len() ==> out@[i]@ == spec_paired(lines@.map_values(|s: String| s@))[i],
        forall|i: int|
            0 <= i < lines@.len() && i < LOGO_HEIGHT ==> out@[i]@ == spec_logo_row(i)
                + lines@[i]@,
        forall|i: int|
            LOGO_HEIGHT <= i < lines@.len() ==> out@[i]@ == spec_logo_pad() + lines@[i]@,
        forall|i: int| lines@.len() <= i < LOGO_HEIGHT ==> out@[i]@ == spec_logo_row(i),
{
    let mut out: Vec<String> = Vec::new();
    let mut i: usize = 0;
    while i < lines.len()
        invariant
            i <= lines@.len(),
            out@.len() == i,
            forall|j: int|
                0 <= j < i && j < LOGO_HEIGHT ==> out@[j]@ == spec_logo_row(j) + lines@[j]@,
            forall|j: int| LOGO_HEIGHT <= j < i ==> out@[j]@ == spec_logo_pad() + lines@[j]@,
        decreases lines@.len() - i,
    {
        if i < LOGO_HEIGHT {
            let mut row = logo_row(i);
            row.append(lines[i].as_str());
            out.push(row);
        } else {
            proof {
                reveal_strlit(" ");
            }
            let mut row = repeat_str(" ", LOGO_WIDTH);
            assert(row@ =~= spec_logo_pad());
            row.append(lines[i].as_str());
            out.push(row);
        }
        i = i + 1;
    }
    while i < LOGO_HEIGHT
        invariant
            lines@.len() <= i,
            i <= LOGO_HEIGHT || i == lines@.len(),
            out@.len() == i,
            forall|j: int|
                0 <= j < lines@.len() && j < LOGO_HEIGHT ==> out@[j]@ == spec_logo_row(j)
                    + lines@[j]@,
            forall|j: int| LOGO_HEIGHT <= j < lines@.len() ==> out@[j]@ == spec_logo_pad()
                + lines@[j]@,
            forall|j: int| lines@.len() <= j < i ==> out@[j]@ == spec_logo_row(j),
        decreases LOGO_HEIGHT - i,
    {
        out.push(logo_row(i));
        i = i + 1;
    }
    proof {
        let lv = lines@.map_values(|s: String| s@);
        assert(lv.len() == lines@.len());
        assert(out@.len() == spec_paired(lv).len());
        assert forall|j: int| 0 <= j < out@.len() implies out@[j]@ == spec_paired(lv)[j] by {
            if j < lv.len() {
                assert(lv[j] == lines@[j]@);
            }
        }
    }
    out
}

/// The whole rendered block: one blank line, then the paired report and
/// panel lines, then one blank line.
pub open spec fn spec_render(m: ReportModel) -> Seq<Seq<char>> {
    seq![Seq::<char>::empty()] + spec_paired(spec_report_lines(m)) + seq![Seq::<char>::empty()]
}

/// Renders a report model into the full ordered sequence of display
/// lines, ready to be written out one per line.
pub fn render(m: &ReportModel) -> (out: Vec<String>)
    requires
        m.username@.len() + m.hostname@.len() + 1 <= usize::MAX,
    ensures
        out@.len() == spec_render(*m).len(),
        forall|i: int| 0 <= i < out@.len() ==> out@[i]@ == spec_render(*m)[i],
{
    let report = build_report_lines(m);
    proof {
        assert(report@.map_values(|s: String| s@) =~= spec_report_lines(*m));
    }
    let mut out = pair_with_logo(&report);
    out.insert(0, String::new());
    out.push(String::new());
    proof {
        let rendered = spec_render(*m);
        assert forall|i: int| 0 <= i < out@.len() implies out@[i]@ == rendered[i] by {
            if i == 0 {
            } else if i < out@.len() - 1 {
                assert(rendered[i] == spec_paired(spec_report_lines(*m))[i - 1]);
            }
        }
    }
    out
}

/// Degradation: a model with no disks, no temperature sensors and no
/// network interfaces still renders, to exactly the five header lines
/// paired with the first five panel rows, followed by the remaining
/// panel rows alone.
pub proof fn lemma_degraded_report(m: ReportModel)
    requires
        m.disks@.len() == 0,
        m.temperatures@.len() == 0,
        m.networks@.len() == 0,
    ensures
        spec_report_lines(m).len() == 5,
        spec_paired(spec_report_lines(m)).len() == LOGO_HEIGHT,
        forall|i: int|
            0 <= i < 5 ==> spec_paired(spec_report_lines(m))[i] == spec_logo_row(i)
                + spec_report_lines(m)[i],
        forall|i: int|
            5 <= i < LOGO_HEIGHT ==> spec_paired(spec_report_lines(m))[i] == spec_logo_row(i),
{
}

} // verus!
