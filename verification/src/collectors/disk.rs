//! Disk information collector.

use vstd::prelude::*;
use vstd::string::*;
use crate::error::AppError;
use crate::numfmt::{
    format_bytes_string, spec_format_bytes, fixed1_string, spec_fixed1, percent_hundredths,
    spec_percent_hundredths,
};
use crate::sysapi;
use crate::text::push_char;

verus! {

/// Disk/volume information.
#[derive(Debug, Clone)]
pub struct DiskInfo {
    /// Mount point or drive letter.
    pub mount_point: String,
    /// Filesystem type (e.g., "NTFS", "ext4", "APFS").
    pub filesystem: String,
    /// Total space in bytes.
    pub total_bytes: u64,
    /// Available space in bytes.
    pub available_bytes: u64,
    /// Used space in bytes.
    pub used_bytes: u64,
    /// Whether this is a removable disk.
    pub is_removable: bool,
    /// Disk name/label.
    pub name: String,
}

impl DiskInfo {
    /// A collected disk record never reports more used than total space,
    /// and empty pseudo-filesystems are filtered out.
    pub open spec fn wf(&self) -> bool {
        self.used_bytes <= self.total_bytes && self.total_bytes > 0
    }

    /// Format a byte count as human-readable text.
    pub fn format_bytes(bytes: u64) -> (r: String)
        ensures
            r@ == spec_format_bytes(bytes as nat),
    {
        format_bytes_string(bytes)
    }

    /// Formatted total space.
    pub fn total_formatted(&self) -> (r: String)
        ensures
            r@ == spec_format_bytes(self.total_bytes as nat),
    {
        Self::format_bytes(self.total_bytes)
    }

    /// Formatted available space.
    pub fn available_formatted(&self) -> (r: String)
        ensures
            r@ == spec_format_bytes(self.available_bytes as nat),
    {
        Self::format_bytes(self.available_bytes)
    }

    /// Formatted used space.
    pub fn used_formatted(&self) -> (r: String)
        ensures
            r@ == spec_format_bytes(self.used_bytes as nat),
    {
        Self::format_bytes(self.used_bytes)
    }

    /// Usage summary: used, total, and the percentage with one decimal,
    /// as in `"10.00 GB / 100.00 GB (10.0%)"`.
    pub fn usage_string(&self) -> (r: String)
        ensures
            r@ == spec_format_bytes(self.used_bytes as nat) + " / "@ + spec_format_bytes(
                self.total_bytes as nat,
            ) + " ("@ + spec_fixed1(
                (spec_percent_hundredths(self.used_bytes as nat, self.total_bytes as nat) + 5)
                    / 10,
            ) + "%)"@,
    {
        let mut r = self.used_formatted();
        r.append(" / ");
        let total = self.total_formatted();
        r.append(total.as_str());
        r.append(" (");
        let h = percent_hundredths(self.used_bytes, self.total_bytes);
        let tenths = fixed1_string((h + 5) / 10);
        r.append(tenths.as_str());
        r.append("%)");
        r
    }

    /// Display name: the label with the mount point, or the mount point
    /// alone when the disk has no label.
    pub fn display_name(&self) -> (r: String)
        ensures
            self.name@.len() == 0 ==> r@ == self.mount_point@,
            self.name@.len() > 0 ==> r@ == self.name@ + " ("@ + self.mount_point@ + ")"@,
    {
        if self.name.as_str().unicode_len() == 0 {
            self.mount_point.clone()
        } else {
            let mut r = self.name.clone();
            r.append(" (");
            r.append(self.mount_point.as_str());
            r.append(")");
            r
        }
    }
}

/// The record a listing row yields: rows with no reported capacity
/// (virtual filesystems) are dropped; used space is the total less the
/// available space, floored at zero.
pub open spec fn spec_disk_record(row: (String, String, u64, u64, bool, String)) -> Option<
    DiskInfo,
> {
    if row.2 > 0 {
        Some(
            DiskInfo {
                mount_point: row.0,
                filesystem: row.1,
                total_bytes: row.2,
                available_bytes: row.3,
                used_bytes: if row.3 >= row.2 {
                    0
                } else {
                    (row.2 - row.3) as u64
                },
                is_removable: row.4,
                name: row.5,
            },
        )
    } else {
        None
    }
}

/// The disk records of the listing rows, in order.
pub open spec fn spec_disk_records(rows: Seq<(String, String, u64, u64, bool, String)>) -> Seq<
    DiskInfo,
>
    decreases rows.len(),
{
    if rows.len() == 0 {
        Seq::empty()
    } else {
        spec_disk_records(rows.drop_last()) + (match spec_disk_record(rows.last()) {
            Some(d) => seq![d],
            None => Seq::<DiskInfo>::empty(),
        })
    }
}

/// Turn the listing rows (mount point, filesystem, total bytes,
/// available bytes, removable, label) into disk records: zero-capacity
/// rows are dropped, used space is derived, and every record is
/// well-formed.
pub fn disk_records_from_rows(rows: &Vec<(String, String, u64, u64, bool, String)>) -> (out: Vec<
    DiskInfo,
>)
    ensures
        out@ == spec_disk_records(rows@),
        forall|i: int| 0 <= i < out@.len() ==> (#[trigger] out@[i]).wf(),
{
    let mut out: Vec<DiskInfo> = Vec::new();
    let mut i: usize = 0;
    proof {
        assert(rows@.take(0) =~= Seq::<(String, String, u64, u64, bool, String)>::empty());
    }
    while i < rows.len()
        invariant
            i <= rows@.len(),
            out@ == spec_disk_records(rows@.take(i as int)),
            forall|k: int| 0 <= k < out@.len() ==> (#[trigger] out@[k]).wf(),
        decreases rows.len() - i,
    {
        proof {
            assert(rows@.take(i + 1).drop_last() =~= rows@.take(i as int));
            assert(rows@.take(i + 1).last() == rows@[i as int]);
        }
        let row = &rows[i];
        let mount_point = row.0.clone();
        let filesystem = row.1.clone();
        let total = row.2;
        let available = row.3;
        let removable = row.4;
        let name = row.5.clone();
        if total > 0 {
            let used = if available >= total {
                0
            } else {
                total - available
            };
            out.push(
                DiskInfo {
                    mount_point,
                    filesystem,
                    total_bytes: total,
                    available_bytes: available,
                    used_bytes: used,
                    is_removable: removable,
                    name,
                },
            );
        }
        i = i + 1;
    }
    proof {
        assert(rows@.take(rows@.len() as int) =~= rows@);
    }
    out
}

/// Collect the mounted disks: the host's listing rows turned into
/// records by the verified step above. Collection itself cannot fail:
/// an empty list is the degenerate outcome.
pub fn collect() -> (r: Result<Vec<DiskInfo>, AppError>)
    ensures
        r.is_ok(),
        r matches Ok(v) ==> forall|i: int| 0 <= i < v@.len() ==> (#[trigger] v@[i]).wf(),
{
    let disks = sysinfo::Disks::new_with_refreshed_list();
    let rows = sysapi::disk_rows(&disks);
    Ok(disk_records_from_rows(&rows))
}

} // verus!
