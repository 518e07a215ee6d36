//! System information collectors and the snapshot they merge into.
//!
//! Each collector produces one typed record or an error; the merge step
//! here is pure and deterministic. The OS, CPU and memory collectors are
//! mandatory: their failure aborts the report. The disk, network,
//! session and platform collectors are optional: their failure leaves
//! their fields empty and the report still succeeds.

pub mod cpu;
pub mod disk;
pub mod memory;
pub mod network;
pub mod os;
pub mod platform;
pub mod session;

use vstd::prelude::*;
use vstd::string::*;
use crate::error::AppError;
use crate::numfmt::{
    fixed1_string, fixed2_string, percent_hundredths, scaled_hundredths, spec_dec, spec_fixed1,
    spec_fixed2, spec_percent_hundredths, spec_scaled100, u64_to_string, GB,
};
use crate::text::spec_starts_with;
use cpu::CpuInfo;
use disk::DiskInfo;
use memory::MemoryInfo;
use network::NetworkInfo;
use os::{spec_uptime_formatted, OsInfo};
use platform::PlatformInfo;
use session::SessionInfo;

verus! {

/// Controls how much data to collect.
#[derive(Debug, Clone, Copy, PartialEq, Eq, Structural)]
pub enum CollectMode {
    /// Full collection: all fields, all subprocess calls.
    Full,
    /// Fast collection: skip slow probes; their fields become absent.
    Fast,
}

/// Collected system information: the one immutable snapshot of a report.
/// Percentages are stored in hundredths of a percent (`0 ..= 10000`),
/// derived, never collected.
#[derive(Debug, Clone)]
pub struct SystemInfo {
    // OS section
    pub os_name: String,
    pub os_version: String,
    pub kernel: String,
    pub architecture: String,
    // Network section
    pub hostname: String,
    pub machine_ip: Option<String>,
    pub client_ip: Option<String>,
    pub dns_servers: Vec<String>,
    pub username: String,
    // CPU section
    pub processor: String,
    pub cores: usize,
    pub sockets: Option<u64>,
    pub hypervisor: Option<String>,
    pub cpu_freq_mhz: u64,
    pub load_1m: Option<u64>,
    pub load_5m: Option<u64>,
    pub load_15m: Option<u64>,
    pub gpus: Vec<String>,
    // Disk section
    pub disk_used_bytes: u64,
    pub disk_total_bytes: u64,
    pub disk_percent_hundredths: u64,
    pub zfs_health: Option<String>,
    // Memory section
    pub mem_used_bytes: u64,
    pub mem_total_bytes: u64,
    pub mem_percent_hundredths: u64,
    // Session section
    pub last_login: Option<String>,
    pub last_login_ip: Option<String>,
    pub uptime_seconds: u64,
    pub shell: Option<String>,
    pub terminal: Option<String>,
    pub locale: Option<String>,
    pub battery: Option<String>,
    /// The collection mode used.
    pub mode: CollectMode,
}

/// A primary volume: the filesystem root, or a `C`-lettered volume.
pub open spec fn is_primary_mount(m: Seq<char>) -> bool {
    m == "/"@ || spec_starts_with(m, "C:"@)
}

/// Index of the first disk on a primary mount; the length when none is.
pub open spec fn find_primary(disks: Seq<DiskInfo>) -> int
    decreases disks.len(),
{
    if disks.len() == 0 {
        0
    } else if is_primary_mount(disks[0].mount_point@) {
        0
    } else {
        1 + find_primary(disks.skip(1))
    }
}

proof fn lemma_find_primary(disks: Seq<DiskInfo>, k: int)
    requires
        0 <= k <= disks.len(),
        forall|m: int| 0 <= m < k ==> !is_primary_mount(#[trigger] disks[m].mount_point@),
        k < disks.len() ==> is_primary_mount(disks[k].mount_point@),
    ensures
        find_primary(disks) == k,
    decreases disks.len(),
{
    if k == 0 {
    } else {
        assert(!is_primary_mount(disks[0].mount_point@));
        let t = disks.skip(1);
        assert forall|m: int| 0 <= m < k - 1 implies !is_primary_mount(
            #[trigger] t[m].mount_point@,
        ) by {
            assert(t[m] == disks[m + 1]);
        }
        if k - 1 < t.len() {
            assert(t[k - 1] == disks[k]);
        }
        lemma_find_primary(t, k - 1);
    }
}

/// Addition that cannot exceed the machine word: the sum, or the
/// largest representable value.
pub open spec fn sat_add(a: nat, b: nat) -> nat {
    if a + b > u64::MAX {
        u64::MAX as nat
    } else {
        a + b
    }
}

/// Total used bytes over the non-removable disks (saturating).
pub open spec fn sum_used(disks: Seq<DiskInfo>) -> nat
    decreases disks.len(),
{
    if disks.len() == 0 {
        0
    } else {
        sat_add(
            sum_used(disks.drop_last()),
            if !disks.last().is_removable {
                disks.last().used_bytes as nat
            } else {
                0
            },
        )
    }
}

/// Total size over the non-removable disks (saturating).
pub open spec fn sum_total(disks: Seq<DiskInfo>) -> nat
    decreases disks.len(),
{
    if disks.len() == 0 {
        0
    } else {
        sat_add(
            sum_total(disks.drop_last()),
            if !disks.last().is_removable {
                disks.last().total_bytes as nat
            } else {
                0
            },
        )
    }
}

/// The disk-aggregation rule, in tie-break order: the first primary
/// volume wins; else the non-removable disks are summed; else (all
/// removable, so the sums are zero, but disks exist) the first disk.
pub open spec fn spec_aggregate(disks: Seq<DiskInfo>) -> (nat, nat) {
    let p = find_primary(disks);
    if p < disks.len() {
        (disks[p].used_bytes as nat, disks[p].total_bytes as nat)
    } else if sum_total(disks) == 0 && disks.len() > 0 {
        (disks[0].used_bytes as nat, disks[0].total_bytes as nat)
    } else {
        (sum_used(disks), sum_total(disks))
    }
}

proof fn lemma_sums_ordered(disks: Seq<DiskInfo>)
    requires
        forall|i: int| 0 <= i < disks.len() ==> (#[trigger] disks[i]).wf(),
    ensures
        sum_used(disks) <= sum_total(disks),
    decreases disks.len(),
{
    if disks.len() > 0 {
        let t = disks.drop_last();
        assert(forall|i: int| 0 <= i < t.len() ==> (#[trigger] t[i]) == disks[i]);
        lemma_sums_ordered(t);
        assert(disks.last().wf());
    }
}

/// Aggregate the disk list into one used/total pair, by the tie-break
/// rule: primary volume first, else the sum over non-removable disks,
/// else the first disk. On well-formed records the result never reports
/// more used than total.
pub fn aggregate_disk_usage(disks: &Vec<DiskInfo>) -> (r: (u64, u64))
    ensures
        r.0 == spec_aggregate(disks@).0,
        r.1 == spec_aggregate(disks@).1,
        (forall|i: int| 0 <= i < disks@.len() ==> (#[trigger] disks@[i]).wf()) ==> r.0 <= r.1,
{
    let n = disks.len();
    let mut i: usize = 0;
    while i < n
        invariant
            n == disks@.len(),
            i <= n,
            forall|m: int| 0 <= m < i ==> !is_primary_mount(#[trigger] disks@[m].mount_point@),
        decreases n - i,
    {
        let d: &DiskInfo = &disks[i];
        if crate::text::str_eq(d.mount_point.as_str(), "/") || crate::text::starts_with_str(
            d.mount_point.as_str(),
            "C:",
        ) {
            proof {
                lemma_find_primary(disks@, i as int);
            }
            return (d.used_bytes, d.total_bytes);
        }
        i = i + 1;
    }
    proof {
        lemma_find_primary(disks@, n as int);
    }
    let mut total_used: u64 = 0;
    let mut total_size: u64 = 0;
    let mut j: usize = 0;
    proof {
        assert(disks@.take(0) =~= Seq::<DiskInfo>::empty());
    }
    while j < n
        invariant
            n == disks@.len(),
            j <= n,
            total_used == sum_used(disks@.take(j as int)),
            total_size == sum_total(disks@.take(j as int)),
        decreases n - j,
    {
        proof {
            assert(disks@.take(j + 1).drop_last() =~= disks@.take(j as int));
            assert(disks@.take(j + 1).last() == disks@[j as int]);
        }
        let d: &DiskInfo = &disks[j];
        if !d.is_removable {
            total_used = if d.used_bytes > u64::MAX - total_used {
                u64::MAX
            } else {
                total_used + d.used_bytes
            };
            total_size = if d.total_bytes > u64::MAX - total_size {
                u64::MAX
            } else {
                total_size + d.total_bytes
            };
        }
        j = j + 1;
    }
    proof {
        assert(disks@.take(n as int) =~= disks@);
        if forall|i2: int| 0 <= i2 < disks@.len() ==> (#[trigger] disks@[i2]).wf() {
            lemma_sums_ordered(disks@);
        }
    }
    if total_size == 0 && n > 0 {
        let d0: &DiskInfo = &disks[0];
        (d0.used_bytes, d0.total_bytes)
    } else {
        (total_used, total_size)
    }
}

/// The derivation step of the aggregator is a pure function: derived
/// disk figures and percentages computed twice from the same raw
/// collector outputs are identical.
pub proof fn lemma_aggregator_deterministic(
    disks: Seq<DiskInfo>,
    a1: (u64, u64),
    a2: (u64, u64),
    p1: u64,
    p2: u64,
)
    requires
        a1.0 == spec_aggregate(disks).0 && a1.1 == spec_aggregate(disks).1,
        a2.0 == spec_aggregate(disks).0 && a2.1 == spec_aggregate(disks).1,
        p1 == spec_percent_hundredths(a1.0 as nat, a1.1 as nat),
        p2 == spec_percent_hundredths(a2.0 as nat, a2.1 as nat),
    ensures
        a1 == a2,
        p1 == p2,
{
}

/// The hypervisor label: what the platform collector detected; with no
/// detection, bare metal is asserted only in full mode (fast mode did
/// not look, so it cannot claim).
pub fn hypervisor_label(virtualization: Option<String>, mode: CollectMode) -> (r: Option<String>)
    ensures
        virtualization is Some ==> r == virtualization,
        virtualization is None && mode == CollectMode::Full ==> (r matches Some(v) && v@
            == "Bare Metal"@),
        virtualization is None && mode == CollectMode::Fast ==> r is None,
{
    match virtualization {
        Some(v) => Some(v),
        None => {
            if mode == CollectMode::Full {
                Some("Bare Metal".to_owned())
            } else {
                None
            }
        },
    }
}

impl SystemInfo {
    /// Merge the seven collector results into one snapshot. The OS, CPU
    /// and memory results are mandatory: the first error among them (in
    /// that order) aborts the merge and is returned. The disk, network
    /// and session results are optional: an error leaves their fields
    /// empty or defaulted, and the snapshot is still produced. The
    /// platform record never fails (absent fields stand for failures).
    /// Both percentages are derived, in range, and zero on a zero total.
    pub fn assemble(
        mode: CollectMode,
        os: Result<OsInfo, AppError>,
        cpu: Result<CpuInfo, AppError>,
        mem: Result<MemoryInfo, AppError>,
        disks: Result<Vec<DiskInfo>, AppError>,
        net: Result<NetworkInfo, AppError>,
        session: Result<SessionInfo, AppError>,
        platform: PlatformInfo,
        default_arch: String,
    ) -> (r: Result<SystemInfo, AppError>)
        ensures
            os matches Err(e) ==> r == Result::<SystemInfo, AppError>::Err(e),
            os is Ok ==> (cpu matches Err(e) ==> r == Result::<SystemInfo, AppError>::Err(e)),
            os is Ok && cpu is Ok ==> (mem matches Err(e) ==> r == Result::<
                SystemInfo,
                AppError,
            >::Err(e)),
            os is Ok && cpu is Ok && mem is Ok ==> r is Ok,
            r matches Ok(s) ==> {
                &&& os matches Ok(o) && s.os_name == o.name && s.os_version == o.version
                    && s.kernel == o.kernel_version && s.hostname == o.hostname
                    && s.uptime_seconds == o.uptime_seconds
                &&& cpu matches Ok(c) && s.processor == c.brand && s.cores == c.logical_cores
                    && s.sockets == c.sockets && s.cpu_freq_mhz == c.frequency_mhz && s.load_1m
                    == c.load_1m && s.load_5m == c.load_5m && s.load_15m == c.load_15m
                &&& mem matches Ok(m) && s.mem_total_bytes == m.total_bytes
                &&& {
                    let dlist = match disks {
                        Ok(v) => v@,
                        Err(_) => Seq::<DiskInfo>::empty(),
                    };
                    s.disk_total_bytes == spec_aggregate(dlist).1 && s.disk_used_bytes == (
                    if spec_aggregate(dlist).0 > spec_aggregate(dlist).1 {
                        spec_aggregate(dlist).1
                    } else {
                        spec_aggregate(dlist).0
                    })
                }
                &&& s.disk_used_bytes <= s.disk_total_bytes
                &&& mem matches Ok(m) && s.mem_used_bytes == (if m.used_bytes > m.total_bytes {
                    m.total_bytes
                } else {
                    m.used_bytes
                })
                &&& s.mem_used_bytes <= s.mem_total_bytes
                &&& s.disk_percent_hundredths == spec_percent_hundredths(
                    s.disk_used_bytes as nat,
                    s.disk_total_bytes as nat,
                ) && s.disk_percent_hundredths <= 10000 && (s.disk_total_bytes == 0
                    ==> s.disk_percent_hundredths == 0)
                &&& s.mem_percent_hundredths == spec_percent_hundredths(
                    s.mem_used_bytes as nat,
                    s.mem_total_bytes as nat,
                ) && s.mem_percent_hundredths <= 10000 && (s.mem_total_bytes == 0
                    ==> s.mem_percent_hundredths == 0)
                &&& (match net {
                    Ok(n) => s.machine_ip == n.machine_ip && s.client_ip == n.client_ip
                        && s.dns_servers == n.dns_servers,
                    Err(_) => s.machine_ip is None && s.client_ip is None && s.dns_servers@.len()
                        == 0,
                })
                &&& (match session {
                    Ok(se) => s.username == se.username && s.last_login == se.last_login
                        && s.last_login_ip == se.last_login_ip,
                    Err(_) => s.username@ == "Unknown"@ && s.last_login is None && s.last_login_ip
                        is None,
                })
                &&& (match platform.virtualization {
                    Some(v) => s.hypervisor == Some(v),
                    None => if mode == CollectMode::Full {
                        s.hypervisor matches Some(h) && h@ == "Bare Metal"@
                    } else {
                        s.hypervisor is None
                    },
                })
                &&& s.architecture == (match platform.architecture {
                    Some(a) => a,
                    None => default_arch,
                })
                &&& s.gpus == platform.gpus && s.shell == platform.shell && s.terminal
                    == platform.terminal && s.locale == platform.locale && s.battery
                    == platform.battery
                &&& s.zfs_health is None
                &&& s.mode == mode
            },
    {
        let os_info = match os {
            Ok(o) => o,
            Err(e) => {
                return Err(e);
            },
        };
        let cpu_info = match cpu {
            Ok(c) => c,
            Err(e) => {
                return Err(e);
            },
        };
        let mem_info = match mem {
            Ok(m) => m,
            Err(e) => {
                return Err(e);
            },
        };
        let disk_list: Vec<DiskInfo> = match disks {
            Ok(v) => v,
            Err(_) => Vec::new(),
        };
        let net_info: NetworkInfo = match net {
            Ok(n) => n,
            Err(_) => NetworkInfo { machine_ip: None, client_ip: None, dns_servers: Vec::new() },
        };
        let (username, last_login, last_login_ip): (String, Option<String>, Option<String>) =
            match session {
            Ok(se) => (se.username, se.last_login, se.last_login_ip),
            Err(_) => ("Unknown".to_owned(), None, None),
        };
        let (disk_used_raw, disk_total) = aggregate_disk_usage(&disk_list);
        // the snapshot never reports more used than total, whatever a
        // probe claimed
        let disk_used = if disk_used_raw > disk_total {
            disk_total
        } else {
            disk_used_raw
        };
        let mem_used = if mem_info.used_bytes > mem_info.total_bytes {
            mem_info.total_bytes
        } else {
            mem_info.used_bytes
        };
        let disk_percent_hundredths = percent_hundredths(disk_used, disk_total);
        let mem_percent_hundredths = percent_hundredths(mem_used, mem_info.total_bytes);
        let hypervisor = hypervisor_label(platform.virtualization, mode);
        let architecture = match platform.architecture {
            Some(a) => a,
            None => default_arch,
        };
        Ok(
            SystemInfo {
                os_name: os_info.name,
                os_version: os_info.version,
                kernel: os_info.kernel_version,
                architecture,
                hostname: os_info.hostname,
                machine_ip: net_info.machine_ip,
                client_ip: net_info.client_ip,
                dns_servers: net_info.dns_servers,
                username,
                processor: cpu_info.brand,
                cores: cpu_info.logical_cores,
                sockets: cpu_info.sockets,
                hypervisor,
                cpu_freq_mhz: cpu_info.frequency_mhz,
                load_1m: cpu_info.load_1m,
                load_5m: cpu_info.load_5m,
                load_15m: cpu_info.load_15m,
                gpus: platform.gpus,
                disk_used_bytes: disk_used,
                disk_total_bytes: disk_total,
                disk_percent_hundredths,
                zfs_health: None,
                mem_used_bytes: mem_used,
                mem_total_bytes: mem_info.total_bytes,
                mem_percent_hundredths,
                last_login,
                last_login_ip,
                uptime_seconds: os_info.uptime_seconds,
                shell: platform.shell,
                terminal: platform.terminal,
                locale: platform.locale,
                battery: platform.battery,
                mode,
            },
        )
    }

    /// Format the uptime as a human-readable string.
    pub fn uptime_formatted(&self) -> (r: String)
        ensures
            r@ == spec_uptime_formatted(self.uptime_seconds as nat),
    {
        let days = self.uptime_seconds / 86400;
        let hours = (self.uptime_seconds % 86400) / 3600;
        let minutes = (self.uptime_seconds % 3600) / 60;
        if days > 0 {
            let mut r = u64_to_string(days);
            r.append("d ");
            let h = u64_to_string(hours);
            r.append(h.as_str());
            r.append("h ");
            let m = u64_to_string(minutes);
            r.append(m.as_str());
            r.append("m");
            r
        } else if hours > 0 {
            let mut r = u64_to_string(hours);
            r.append("h ");
            let m = u64_to_string(minutes);
            r.append(m.as_str());
            r.append("m");
            r
        } else {
            let mut r = u64_to_string(minutes);
            r.append("m");
            r
        }
    }

    /// Bytes expressed in whole gigabytes with two decimals.
    pub fn format_gb(bytes: u64) -> (r: String)
        ensures
            r@ == spec_fixed2(spec_scaled100(bytes as nat, GB as nat)),
    {
        fixed2_string(scaled_hundredths(bytes, GB))
    }

    /// The disk usage row text, as a specification value.
    pub open spec fn spec_disk_usage_str(&self) -> Seq<char> {
        spec_fixed2(spec_scaled100(self.disk_used_bytes as nat, GB as nat)) + "/"@ + spec_fixed2(
            spec_scaled100(self.disk_total_bytes as nat, GB as nat),
        ) + " GB ["@ + spec_fixed2(self.disk_percent_hundredths as nat) + "%]"@
    }

    /// The memory usage row text, as a specification value.
    pub open spec fn spec_memory_usage_str(&self) -> Seq<char> {
        spec_fixed2(spec_scaled100(self.mem_used_bytes as nat, GB as nat)) + "/"@ + spec_fixed2(
            spec_scaled100(self.mem_total_bytes as nat, GB as nat),
        ) + " GiB ["@ + spec_fixed1(((self.mem_percent_hundredths + 5) / 10) as nat) + "%]"@
    }

    /// The cores row text, as a specification value.
    pub open spec fn spec_cores_str(&self) -> Seq<char> {
        match self.sockets {
            Some(s) => spec_dec(self.cores as nat) + " vCPU(s) / "@ + spec_dec(s as nat)
                + " Socket(s)"@,
            None => spec_dec(self.cores as nat) + " vCPU(s)"@,
        }
    }

    /// The frequency row text, as a specification value.
    pub open spec fn spec_freq_str(&self) -> Seq<char> {
        spec_fixed1(((self.cpu_freq_mhz + 50) / 100) as nat) + " GHz"@
    }

    /// Bytes expressed in whole gibibytes with two decimals.
    pub fn format_gib(bytes: u64) -> (r: String)
        ensures
            r@ == spec_fixed2(spec_scaled100(bytes as nat, GB as nat)),
    {
        fixed2_string(scaled_hundredths(bytes, GB))
    }

    /// The disk usage row: `"u/t GB [p%]"` with two decimals each.
    pub fn disk_usage_str(&self) -> (r: String)
        ensures
            r@ == self.spec_disk_usage_str(),
    {
        let mut r = Self::format_gb(self.disk_used_bytes);
        r.append("/");
        let t = Self::format_gb(self.disk_total_bytes);
        r.append(t.as_str());
        r.append(" GB [");
        let p = fixed2_string(self.disk_percent_hundredths);
        r.append(p.as_str());
        r.append("%]");
        r
    }

    /// The memory usage row: `"u/t GiB [p%]"`, the percentage with one
    /// decimal (rounded half up).
    pub fn memory_usage_str(&self) -> (r: String)
        ensures
            r@ == self.spec_memory_usage_str(),
    {
        let mut r = Self::format_gib(self.mem_used_bytes);
        r.append("/");
        let t = Self::format_gib(self.mem_total_bytes);
        r.append(t.as_str());
        r.append(" GiB [");
        let p = fixed1_string(crate::numfmt::tenths_half_up(self.mem_percent_hundredths));
        r.append(p.as_str());
        r.append("%]");
        r
    }

    /// The cores row: `"N vCPU(s) / M Socket(s)"`, the socket part only
    /// when the socket count was collected.
    pub fn cores_str(&self) -> (r: String)
        ensures
            r@ == self.spec_cores_str(),
    {
        match self.sockets {
            Some(s) => {
                let mut r = u64_to_string(self.cores as u64);
                r.append(" vCPU(s) / ");
                let sk = u64_to_string(s);
                r.append(sk.as_str());
                r.append(" Socket(s)");
                r
            },
            None => {
                let mut r = u64_to_string(self.cores as u64);
                r.append(" vCPU(s)");
                r
            },
        }
    }

    /// The frequency row: `"g.h GHz"` with one decimal (megahertz
    /// rescaled, rounded half up).
    pub fn freq_str(&self) -> (r: String)
        ensures
            r@ == self.spec_freq_str(),
    {
        let mut r = fixed1_string(crate::numfmt::units_half_up(self.cpu_freq_mhz));
        r.append(" GHz");
        r
    }
}

} // verus!
