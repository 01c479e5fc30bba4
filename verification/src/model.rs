//! The report model: one immutable snapshot of host metrics, assembled by
//! the caller from whatever the platform offers and consumed by the
//! renderer. Unavailable metrics degrade to documented fallback values
//! rather than failing, so a model can always be built.

use vstd::prelude::*;
use vstd::utf8::{decode_utf8, valid_utf8};

verus! {

/// Bytes in a gigabyte (2^30), the unit disk sizes are displayed in.
pub const BYTES_PER_GB: u64 = 1073741824;

/// One mounted filesystem: its mount point, its size and used share in
/// whole gigabytes, and its filesystem type decoded from raw bytes.
#[derive(Debug)]
pub struct DiskEntry {
    pub mount_point: String,
    pub total_gb: u64,
    pub used_gb: u64,
    pub filesystem: String,
}

/// One temperature sensor: its label and its reading, already rendered as
/// text by the caller. The reading is kept as text because a failed probe
/// may report a non-finite value, which must still be printed verbatim.
#[derive(Debug)]
pub struct TemperatureEntry {
    pub label: String,
    pub celsius_text: String,
}

/// One network interface with its cumulative traffic counters, counted by
/// the platform since the interface was reset, not since this process
/// started.
#[derive(Debug)]
pub struct NetworkEntry {
    pub interface_name: String,
    pub bytes_sent: u64,
    pub bytes_received: u64,
    pub packets_sent: u64,
    pub packets_received: u64,
}

/// The assembled snapshot. The entry sequences keep the order in which the
/// platform enumerated them; that order is not stable across runs and the
/// report inherits the ambiguity deliberately.
#[derive(Debug)]
pub struct ReportModel {
    pub username: String,
    pub hostname: String,
    pub os_name: String,
    pub kernel_version: String,
    pub uptime_seconds: u64,
    pub disks: Vec<DiskEntry>,
    pub temperatures: Vec<TemperatureEntry>,
    pub networks: Vec<NetworkEntry>,
}

impl DiskEntry {
    /// A well-formed entry never claims more used space than total space.
    pub open spec fn wf(self) -> bool {
        self.used_gb <= self.total_gb
    }

    /// Builds a disk entry from one platform reading: byte counts become
    /// whole gigabytes by floor division, and the raw filesystem-type
    /// bytes are decoded losslessly where valid and lossily otherwise.
    /// Available space never exceeds total space in one consistent
    /// snapshot, so the used share is their difference.
    pub fn new(mount_point: String, total_bytes: u64, available_bytes: u64, filesystem_raw: &[u8]) -> (r:
        DiskEntry)
        requires
            available_bytes <= total_bytes,
        ensures
            r.mount_point == mount_point,
            r.total_gb == total_bytes as int / BYTES_PER_GB as int,
            r.used_gb == (total_bytes - available_bytes) as int / BYTES_PER_GB as int,
            r.filesystem@ == lossy_of(filesystem_raw@),
            valid_utf8(filesystem_raw@) ==> r.filesystem@ == decode_utf8(filesystem_raw@),
            r.wf(),
    {
        proof {
            vstd::arithmetic::div_mod::lemma_div_is_ordered(
                (total_bytes - available_bytes) as int,
                total_bytes as int,
                BYTES_PER_GB as int,
            );
        }
        DiskEntry {
            mount_point,
            total_gb: total_bytes / BYTES_PER_GB,
            used_gb: (total_bytes - available_bytes) / BYTES_PER_GB,
            filesystem: decode_lossy(filesystem_raw),
        }
    }
}

/// What lossy UTF-8 decoding makes of a byte sequence. The result depends
/// on the bytes alone; where they are valid UTF-8 it is pinned down below
/// as `decode_utf8`, and where they are not, invalid parts come out as
/// replacement characters.
pub uninterp spec fn lossy_of(bytes: Seq<u8>) -> Seq<char>;

/// Relies on `String::from_utf8_lossy`: decodes UTF-8 bytes to text,
/// substituting U+FFFD for each invalid sequence and never failing; valid
/// UTF-8 input passes through decoded unchanged.
#[verifier::external_body]
fn decode_lossy(bytes: &[u8]) -> (r: String)
    ensures
        r@ == lossy_of(bytes@),
        valid_utf8(bytes@) ==> r@ == decode_utf8(bytes@),
{
    String::from_utf8_lossy(bytes).into_owned()
}

/// Substitutes the documented fallback for a string metric whose query
/// failed: the value itself where the platform gave one, the literal
/// `"unknown"` otherwise.
pub fn or_unknown(value: Option<String>) -> (r: String)
    ensures
        value is Some ==> r == value->0,
        value is None ==> r@ == "unknown"@,
{
    match value {
        Some(v) => v,
        None => String::from_str("unknown"),
    }
}

} // verus!
