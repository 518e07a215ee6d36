//! Tests for the disk aggregation rule, the percentage derivation, and
//! the snapshot merge step.

use tr300::collectors::cpu::CpuInfo;
use tr300::collectors::disk::DiskInfo;
use tr300::collectors::memory::MemoryInfo;
use tr300::collectors::network::NetworkInfo;
use tr300::collectors::os::OsInfo;
use tr300::collectors::platform::PlatformInfo;
use tr300::collectors::session::SessionInfo;
use tr300::collectors::{aggregate_disk_usage, CollectMode, SystemInfo};
use tr300::error::AppError;
use tr300::numfmt::percent_hundredths;

fn disk(mount: &str, used: u64, total: u64, removable: bool) -> DiskInfo {
    DiskInfo {
        mount_point: mount.to_string(),
        filesystem: "ext4".to_string(),
        total_bytes: total,
        available_bytes: total - used,
        used_bytes: used,
        is_removable: removable,
        name: String::new(),
    }
}

fn os_ok() -> Result<OsInfo, AppError> {
    Ok(tr300::collectors::os::os_info_from_parts(
        Some("Ubuntu".to_string()),
        Some("24.04".to_string()),
        Some("6.8.0".to_string()),
        Some("host1".to_string()),
        "x86_64".to_string(),
        3661,
    ))
}

fn cpu_ok() -> Result<CpuInfo, AppError> {
    Ok(tr300::collectors::cpu::cpu_info_from_parts(
        CollectMode::Full,
        Some("TestCPU".to_string()),
        Some(4),
        8,
        Some(2400),
        &vec![50, 50, 50, 50, 50, 50, 50, 50],
        Some(1),
        (Some(100), Some(200), Some(300)),
    ))
}

fn mem_ok() -> Result<MemoryInfo, AppError> {
    Ok(MemoryInfo {
        total_bytes: 1000,
        used_bytes: 250,
        available_bytes: 750,
        swap_total_bytes: 0,
        swap_used_bytes: 0,
    })
}

fn net_ok() -> Result<NetworkInfo, AppError> {
    Ok(NetworkInfo {
        machine_ip: Some("192.168.1.10".to_string()),
        client_ip: None,
        dns_servers: vec!["1.1.1.1".to_string()],
    })
}

fn session_ok() -> Result<SessionInfo, AppError> {
    Ok(SessionInfo {
        username: "alice".to_string(),
        home_dir: "/home/alice".to_string(),
        shell: "/bin/bash".to_string(),
        current_dir: "/tmp".to_string(),
        terminal: "xterm".to_string(),
        last_login: Some("Mon Oct 6".to_string()),
        last_login_ip: None,
    })
}

fn platform_default() -> PlatformInfo {
    PlatformInfo {
        desktop_environment: None,
        display_server: None,
        windows_edition: None,
        macos_codename: None,
        boot_mode: None,
        virtualization: None,
        gpus: Vec::new(),
        architecture: Some("x86_64".to_string()),
        terminal: None,
        shell: None,
        display_resolution: None,
        battery: None,
        locale: None,
    }
}

#[test]
fn aggregation_root_rule_wins_over_sum() {
    let disks = vec![
        disk("/", 10, 100, false),
        disk("/data", 5, 50, false),
    ];
    assert_eq!(aggregate_disk_usage(&disks), (10, 100));
}

#[test]
fn aggregation_drive_letter_counts_as_primary() {
    let disks = vec![
        disk("/data", 5, 50, false),
        disk("C:\\", 7, 70, false),
    ];
    assert_eq!(aggregate_disk_usage(&disks), (7, 70));
}

#[test]
fn aggregation_sums_non_removable() {
    let disks = vec![
        disk("/a", 10, 100, false),
        disk("/b", 5, 50, false),
        disk("/usb", 1, 10, true),
    ];
    assert_eq!(aggregate_disk_usage(&disks), (15, 150));
}

#[test]
fn aggregation_falls_back_to_first_disk() {
    let disks = vec![disk("/mnt/usb", 1, 10, true)];
    assert_eq!(aggregate_disk_usage(&disks), (1, 10));
}

#[test]
fn aggregation_empty_list_is_zero() {
    let disks: Vec<DiskInfo> = Vec::new();
    assert_eq!(aggregate_disk_usage(&disks), (0, 0));
}

#[test]
fn percent_is_clamped_and_zero_on_zero_total() {
    assert_eq!(percent_hundredths(0, 0), 0);
    assert_eq!(percent_hundredths(123, 0), 0);
    assert_eq!(percent_hundredths(25, 100), 2500);
    assert_eq!(percent_hundredths(100, 100), 10000);
    // more used than total still stays within 100%
    assert_eq!(percent_hundredths(200, 100), 10000);
    assert!(percent_hundredths(u64::MAX, 3) <= 10000);
}

#[test]
fn aggregator_derivation_is_deterministic() {
    let disks = vec![
        disk("/x", 30, 100, false),
        disk("/y", 20, 100, false),
    ];
    let a1 = aggregate_disk_usage(&disks);
    let a2 = aggregate_disk_usage(&disks);
    assert_eq!(a1, a2);
    let p1 = percent_hundredths(a1.0, a1.1);
    let p2 = percent_hundredths(a2.0, a2.1);
    assert_eq!(p1, p2);
}

#[test]
fn assemble_twice_gives_identical_derived_fields() {
    let build = || {
        SystemInfo::assemble(
            CollectMode::Full,
            os_ok(),
            cpu_ok(),
            mem_ok(),
            Ok(vec![disk("/", 40, 160, false)]),
            net_ok(),
            session_ok(),
            platform_default(),
            "x86_64".to_string(),
        )
        .unwrap()
    };
    let s1 = build();
    let s2 = build();
    assert_eq!(s1.disk_used_bytes, s2.disk_used_bytes);
    assert_eq!(s1.disk_total_bytes, s2.disk_total_bytes);
    assert_eq!(s1.disk_percent_hundredths, s2.disk_percent_hundredths);
    assert_eq!(s1.mem_percent_hundredths, s2.mem_percent_hundredths);
    assert_eq!(s1.disk_usage_str(), s2.disk_usage_str());
    assert_eq!(s1.memory_usage_str(), s2.memory_usage_str());
}

#[test]
fn mandatory_os_failure_aborts_collection() {
    let r = SystemInfo::assemble(
        CollectMode::Full,
        Err(AppError::system_info("os probe failed".to_string())),
        cpu_ok(),
        mem_ok(),
        Ok(Vec::new()),
        net_ok(),
        session_ok(),
        platform_default(),
        "x86_64".to_string(),
    );
    assert!(r.is_err());
    assert_eq!(r.err().unwrap().message(), "os probe failed");
}

#[test]
fn optional_network_failure_still_produces_snapshot() {
    let r = SystemInfo::assemble(
        CollectMode::Full,
        os_ok(),
        cpu_ok(),
        mem_ok(),
        Ok(vec![disk("/", 10, 100, false)]),
        Err(AppError::platform("network probe failed".to_string())),
        session_ok(),
        platform_default(),
        "x86_64".to_string(),
    );
    let s = r.unwrap();
    assert!(s.machine_ip.is_none());
    assert!(s.client_ip.is_none());
    assert!(s.dns_servers.is_empty());
    // the rest of the snapshot is intact
    assert_eq!(s.os_name, "Ubuntu");
    assert_eq!(s.disk_used_bytes, 10);
    assert_eq!(s.disk_total_bytes, 100);
    assert_eq!(s.disk_percent_hundredths, 1000);
}

#[test]
fn snapshot_percentages_are_derived_and_in_range() {
    let s = SystemInfo::assemble(
        CollectMode::Full,
        os_ok(),
        cpu_ok(),
        mem_ok(),
        Ok(vec![disk("/", 10, 100, false)]),
        net_ok(),
        session_ok(),
        platform_default(),
        "x86_64".to_string(),
    )
    .unwrap();
    assert_eq!(s.disk_percent_hundredths, 1000);
    assert_eq!(s.mem_percent_hundredths, 2500);
    assert!(s.disk_percent_hundredths <= 10000);
    assert!(s.mem_percent_hundredths <= 10000);
    // zero totals give zero percentages
    let s0 = SystemInfo::assemble(
        CollectMode::Full,
        os_ok(),
        cpu_ok(),
        Ok(MemoryInfo {
            total_bytes: 0,
            used_bytes: 0,
            available_bytes: 0,
            swap_total_bytes: 0,
            swap_used_bytes: 0,
        }),
        Ok(Vec::new()),
        net_ok(),
        session_ok(),
        platform_default(),
        "x86_64".to_string(),
    )
    .unwrap();
    assert_eq!(s0.disk_percent_hundredths, 0);
    assert_eq!(s0.mem_percent_hundredths, 0);
}

#[test]
fn snapshot_never_reports_more_used_than_total() {
    // a probe claiming more used than total memory is clamped
    let s = SystemInfo::assemble(
        CollectMode::Full,
        os_ok(),
        cpu_ok(),
        Ok(MemoryInfo {
            total_bytes: 100,
            used_bytes: 150,
            available_bytes: 0,
            swap_total_bytes: 0,
            swap_used_bytes: 0,
        }),
        Ok(Vec::new()),
        net_ok(),
        session_ok(),
        platform_default(),
        "x86_64".to_string(),
    )
    .unwrap();
    assert!(s.mem_used_bytes <= s.mem_total_bytes);
    assert_eq!(s.mem_used_bytes, 100);
    assert_eq!(s.mem_percent_hundredths, 10000);
    assert!(s.disk_used_bytes <= s.disk_total_bytes);
}

#[test]
fn hypervisor_defaults_to_bare_metal_only_in_full_mode() {
    let full = SystemInfo::assemble(
        CollectMode::Full,
        os_ok(),
        cpu_ok(),
        mem_ok(),
        Ok(Vec::new()),
        net_ok(),
        session_ok(),
        platform_default(),
        "x86_64".to_string(),
    )
    .unwrap();
    assert_eq!(full.hypervisor.as_deref(), Some("Bare Metal"));
    let fast = SystemInfo::assemble(
        CollectMode::Fast,
        os_ok(),
        cpu_ok(),
        mem_ok(),
        Ok(Vec::new()),
        net_ok(),
        session_ok(),
        platform_default(),
        "x86_64".to_string(),
    )
    .unwrap();
    assert!(fast.hypervisor.is_none());
    assert_eq!(fast.mode, CollectMode::Fast);
}
