use sysreport::model::{DiskEntry, NetworkEntry, ReportModel, TemperatureEntry, BYTES_PER_GB};
use sysreport::render::{
    build_report_lines, disk_line, logo_row, network_line, pair_with_logo, render, separator_line,
    temp_line, BYTES_PER_MB,
};

fn sample_model() -> ReportModel {
    ReportModel {
        username: String::from("alice"),
        hostname: String::from("box"),
        os_name: String::from("TestOS"),
        kernel_version: String::from("1.0"),
        uptime_seconds: 3661,
        disks: Vec::new(),
        temperatures: Vec::new(),
        networks: Vec::new(),
    }
}

fn numbered_lines(n: usize) -> Vec<String> {
    (0..n).map(|i| format!("report line {}", i)).collect()
}

#[test]
fn logo_rows_are_fixed_width() {
    for i in 0..9 {
        assert_eq!(logo_row(i).chars().count(), 32, "row {}", i);
    }
}

#[test]
fn pairing_at_exact_panel_height() {
    let lines = numbered_lines(9);
    let out = pair_with_logo(&lines);
    assert_eq!(out.len(), 9);
    for i in 0..9 {
        assert_eq!(out[i], format!("{}{}", logo_row(i), lines[i]));
    }
}

#[test]
fn pairing_with_extra_report_lines() {
    let lines = numbered_lines(12);
    let out = pair_with_logo(&lines);
    assert_eq!(out.len(), 12);
    for i in 0..9 {
        assert_eq!(out[i], format!("{}{}", logo_row(i), lines[i]));
    }
    for i in 9..12 {
        assert_eq!(out[i], format!("{}{}", " ".repeat(32), lines[i]));
    }
}

#[test]
fn pairing_with_missing_report_lines() {
    let lines = numbered_lines(5);
    let out = pair_with_logo(&lines);
    assert_eq!(out.len(), 9);
    for i in 0..5 {
        assert_eq!(out[i], format!("{}{}", logo_row(i), lines[i]));
    }
    for i in 5..9 {
        assert_eq!(out[i], logo_row(i));
    }
}

#[test]
fn pairing_with_no_report_lines() {
    let out = pair_with_logo(&Vec::new());
    assert_eq!(out.len(), 9);
    for i in 0..9 {
        assert_eq!(out[i], logo_row(i));
    }
}

#[test]
fn separator_matches_identity_width() {
    assert_eq!(separator_line("alice", "box"), "-".repeat(9));
    assert_eq!(separator_line("a", ""), "--");
    assert_eq!(separator_line("", ""), "-");
}

#[test]
fn separator_counts_characters_not_bytes() {
    // Two-byte characters still count once each: 4 + 3 + 1 dashes.
    assert_eq!(separator_line("żółć", "bóx"), "-".repeat(8));
}

#[test]
fn disk_line_layout() {
    let e = DiskEntry::new(String::from("/home"), 20 * BYTES_PER_GB, 13 * BYTES_PER_GB, b"ext4");
    assert_eq!(disk_line(&e), "Disk:      /home - 7 GB used / 20 GB total, FS: ext4");
}

#[test]
fn temp_line_layout() {
    let t = TemperatureEntry {
        label: String::from("coretemp core0"),
        celsius_text: String::from("45.5"),
    };
    assert_eq!(temp_line(&t), "Temp:      coretemp core0 - 45.5\u{b0}C");
}

#[test]
fn temp_line_prints_an_unknown_reading() {
    let t = TemperatureEntry { label: String::from("bad probe"), celsius_text: String::from("NaN") };
    assert_eq!(temp_line(&t), "Temp:      bad probe - NaN\u{b0}C");
}

#[test]
fn network_line_layout() {
    let n = NetworkEntry {
        interface_name: String::from("eth0"),
        bytes_sent: 3 * BYTES_PER_MB + 7,
        bytes_received: BYTES_PER_MB - 1,
        packets_sent: 42,
        packets_received: 7,
    };
    assert_eq!(
        network_line(&n),
        "Network:   eth0 - 3 MB sent, 0 MB recv, 42 pkts sent, 7 pkts recv"
    );
}

#[test]
fn report_lines_in_fixed_order() {
    let mut model = sample_model();
    model.disks.push(DiskEntry::new(String::from("/"), 10 * BYTES_PER_GB, 5 * BYTES_PER_GB, b"ext4"));
    let lines = build_report_lines(&model);
    assert_eq!(lines.len(), 6);
    assert_eq!(lines[0], "alice@box");
    assert_eq!(lines[1], "---------");
    assert_eq!(lines[2], "OS:        TestOS");
    assert_eq!(lines[3], "Kernel:    1.0");
    assert_eq!(lines[4], "Uptime:    1h 1m");
    assert_eq!(lines[5], "Disk:      / - 5 GB used / 10 GB total, FS: ext4");
}

#[test]
fn degraded_report_still_renders() {
    let model = sample_model();
    let out = render(&model);
    // one blank line, five paired header lines, four bare panel rows, one blank line
    assert_eq!(out.len(), 11);
    assert_eq!(out[0], "");
    assert_eq!(out[10], "");
    let headers = build_report_lines(&model);
    assert_eq!(headers.len(), 5);
    for i in 0..5 {
        assert_eq!(out[i + 1], format!("{}{}", logo_row(i), headers[i]));
    }
    for i in 5..9 {
        assert_eq!(out[i + 1], logo_row(i));
    }
}

#[test]
fn end_to_end_scenario() {
    let mut model = sample_model();
    model.disks.push(DiskEntry::new(String::from("/"), 10 * BYTES_PER_GB, 5 * BYTES_PER_GB, b"ext4"));
    let out = render(&model);
    assert!(out.iter().any(|l| l.contains("Disk:      / - 5 GB used / 10 GB total, FS: ext4")));
    assert!(out.iter().any(|l| l.contains("Uptime:    1h 1m")));
    assert!(out.iter().any(|l| l.contains("alice@box")));
    // the separator pairs with panel row 1 and holds exactly 9 dashes
    assert_eq!(out[2], format!("{}{}", logo_row(1), "-".repeat(9)));
}
