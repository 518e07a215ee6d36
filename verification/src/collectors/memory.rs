//! Memory information collector.

use vstd::prelude::*;
use vstd::string::*;
use crate::error::AppError;
use crate::numfmt::{
    format_bytes_string, spec_format_bytes, fixed1_string, spec_fixed1, percent_hundredths,
    spec_percent_hundredths,
};

verus! {

/// Memory information.
#[derive(Debug, Clone)]
pub struct MemoryInfo {
    /// Total physical memory in bytes.
    pub total_bytes: u64,
    /// Used physical memory in bytes.
    pub used_bytes: u64,
    /// Available physical memory in bytes.
    pub available_bytes: u64,
    /// Total swap in bytes.
    pub swap_total_bytes: u64,
    /// Used swap in bytes.
    pub swap_used_bytes: u64,
}

impl MemoryInfo {
    /// Format a byte count as human-readable text.
    pub fn format_bytes(bytes: u64) -> (r: String)
        ensures
            r@ == spec_format_bytes(bytes as nat),
    {
        format_bytes_string(bytes)
    }

    /// Formatted total memory.
    pub fn total_formatted(&self) -> (r: String)
        ensures
            r@ == spec_format_bytes(self.total_bytes as nat),
    {
        Self::format_bytes(self.total_bytes)
    }

    /// Formatted used memory.
    pub fn used_formatted(&self) -> (r: String)
        ensures
            r@ == spec_format_bytes(self.used_bytes as nat),
    {
        Self::format_bytes(self.used_bytes)
    }

    /// Formatted available memory.
    pub fn available_formatted(&self) -> (r: String)
        ensures
            r@ == spec_format_bytes(self.available_bytes as nat),
    {
        Self::format_bytes(self.available_bytes)
    }

    /// Usage summary: used, total, and the percentage with one decimal.
    pub fn usage_string(&self) -> (r: String)
        ensures
            r@ == spec_format_bytes(self.used_bytes as nat) + " / "@ + spec_format_bytes(
                self.total_bytes as nat,
            ) + " ("@ + spec_fixed1(
                (spec_percent_hundredths(self.used_bytes as nat, self.total_bytes as nat) + 5)
                    / 10,
            ) + "%)"@,
    {
        let mut r = self.used_formatted();
        r.append(" / ");
        let total = self.total_formatted();
        r.append(total.as_str());
        r.append(" (");
        let h = percent_hundredths(self.used_bytes, self.total_bytes);
        let tenths = fixed1_string((h + 5) / 10);
        r.append(tenths.as_str());
        r.append("%)");
        r
    }
}

/// Collect the current memory figures. Reading them cannot fail.
pub fn collect() -> (r: Result<MemoryInfo, AppError>)
    ensures
        r.is_ok(),
{
    let mut sys = sysinfo::System::new();
    sys.refresh_memory();
    Ok(
        MemoryInfo {
            total_bytes: sys.total_memory(),
            used_bytes: sys.used_memory(),
            available_bytes: sys.available_memory(),
            swap_total_bytes: sys.total_swap(),
            swap_used_bytes: sys.used_swap(),
        },
    )
}

} // verus!
