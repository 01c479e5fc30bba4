use sysreport::model::{or_unknown, DiskEntry, BYTES_PER_GB};

#[test]
fn or_unknown_keeps_a_value() {
    assert_eq!(or_unknown(Some(String::from("host-7"))), "host-7");
}

#[test]
fn or_unknown_falls_back() {
    assert_eq!(or_unknown(None), "unknown");
}

#[test]
fn disk_entry_whole_gigabytes() {
    let e = DiskEntry::new(String::from("/"), 10 * BYTES_PER_GB, 5 * BYTES_PER_GB, b"ext4");
    assert_eq!(e.mount_point, "/");
    assert_eq!(e.total_gb, 10);
    assert_eq!(e.used_gb, 5);
    assert_eq!(e.filesystem, "ext4");
}

#[test]
fn disk_entry_floors_both_divisions() {
    let e = DiskEntry::new(String::from("/data"), 3 * BYTES_PER_GB - 1, 0, b"xfs");
    assert_eq!(e.total_gb, 2);
    assert_eq!(e.used_gb, 2);
    assert!(e.used_gb <= e.total_gb);
}

#[test]
fn disk_entry_nothing_used() {
    let e = DiskEntry::new(String::from("/mnt"), 4 * BYTES_PER_GB, 4 * BYTES_PER_GB, b"btrfs");
    assert_eq!(e.total_gb, 4);
    assert_eq!(e.used_gb, 0);
}

#[test]
fn disk_entry_empty_disk() {
    let e = DiskEntry::new(String::from("/void"), 0, 0, b"tmpfs");
    assert_eq!(e.total_gb, 0);
    assert_eq!(e.used_gb, 0);
}

#[test]
fn disk_entry_decodes_filesystem_lossily() {
    let raw: [u8; 3] = [0xff, b'f', b's'];
    let e = DiskEntry::new(String::from("/x"), BYTES_PER_GB, 0, &raw);
    assert_eq!(e.filesystem, "\u{fffd}fs");
}
