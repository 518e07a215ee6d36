//! Operating system information collector.

use vstd::prelude::*;
use vstd::string::*;
use crate::error::AppError;
use crate::numfmt::{spec_dec, u64_to_string};

verus! {

/// Operating system information.
#[derive(Debug, Clone)]
pub struct OsInfo {
    /// OS name (e.g., "Windows 11", "macOS", "Ubuntu").
    pub name: String,
    /// OS version string.
    pub version: String,
    /// Kernel version.
    pub kernel_version: String,
    /// System hostname.
    pub hostname: String,
    /// System architecture (e.g., "x86_64", "aarch64").
    pub architecture: String,
    /// System uptime in seconds.
    pub uptime_seconds: u64,
}

/// An optional probe result, or the placeholder for an unknown fact.
pub open spec fn or_unknown(v: Option<String>) -> Seq<char> {
    match v {
        Some(s) => s@,
        None => "Unknown"@,
    }
}

fn unwrap_or_unknown(v: Option<String>) -> (r: String)
    ensures
        r@ == or_unknown(v),
{
    match v {
        Some(s) => s,
        None => "Unknown".to_owned(),
    }
}

/// Assemble the OS record from raw probe results: absent facts become
/// the literal `"Unknown"`.
pub fn os_info_from_parts(
    name: Option<String>,
    version: Option<String>,
    kernel: Option<String>,
    hostname: Option<String>,
    architecture: String,
    uptime_seconds: u64,
) -> (o: OsInfo)
    ensures
        o.name@ == or_unknown(name),
        o.version@ == or_unknown(version),
        o.kernel_version@ == or_unknown(kernel),
        o.hostname@ == or_unknown(hostname),
        o.architecture == architecture,
        o.uptime_seconds == uptime_seconds,
{
    OsInfo {
        name: unwrap_or_unknown(name),
        version: unwrap_or_unknown(version),
        kernel_version: unwrap_or_unknown(kernel),
        hostname: unwrap_or_unknown(hostname),
        architecture,
        uptime_seconds,
    }
}

/// Collect OS information. The architecture is handed in by the caller
/// (it is a compile-time fact of the running binary). Collection cannot
/// fail: unknown facts collapse to `"Unknown"`.
pub fn collect(architecture: String) -> (r: Result<OsInfo, AppError>)
    ensures
        r.is_ok(),
        r matches Ok(o) ==> o.architecture == architecture,
{
    let name = sysinfo::System::name();
    let version = sysinfo::System::os_version();
    let kernel = sysinfo::System::kernel_version();
    let hostname = sysinfo::System::host_name();
    let uptime = sysinfo::System::uptime();
    Ok(os_info_from_parts(name, version, kernel, hostname, architecture, uptime))
}

/// Uptime rendered as `"Nd Nh Nm"`, `"Nh Nm"` or `"Nm"`, the larger
/// units omitted while they are zero.
pub open spec fn spec_uptime_formatted(up: nat) -> Seq<char> {
    let days = up / 86400;
    let hours = (up % 86400) / 3600;
    let minutes = (up % 3600) / 60;
    if days > 0 {
        spec_dec(days) + "d "@ + spec_dec(hours) + "h "@ + spec_dec(minutes) + "m"@
    } else if hours > 0 {
        spec_dec(hours) + "h "@ + spec_dec(minutes) + "m"@
    } else {
        spec_dec(minutes) + "m"@
    }
}

impl OsInfo {
    /// Format the uptime as a human-readable string.
    pub fn uptime_formatted(&self) -> (r: String)
        ensures
            r@ == spec_uptime_formatted(self.uptime_seconds as nat),
    {
        let days = self.uptime_seconds / 86400;
        let hours = (self.uptime_seconds % 86400) / 3600;
        let minutes = (self.uptime_seconds % 3600) / 60;
        if days > 0 {
            let mut r = u64_to_string(days);
            r.append("d ");
            let h = u64_to_string(hours);
            r.append(h.as_str());
            r.append("h ");
            let m = u64_to_string(minutes);
            r.append(m.as_str());
            r.append("m");
            r
        } else if hours > 0 {
            let mut r = u64_to_string(hours);
            r.append("h ");
            let m = u64_to_string(minutes);
            r.append(m.as_str());
            r.append("m");
            r
        } else {
            let mut r = u64_to_string(minutes);
            r.append("m");
            r
        }
    }

    /// The OS name and version joined with one space.
    pub fn full_name(&self) -> (r: String)
        ensures
            r@ == self.name@ + " "@ + self.version@,
    {
        let mut r = self.name.clone();
        r.append(" ");
        r.append(self.version.as_str());
        r
    }
}

} // verus!
