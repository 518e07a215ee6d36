//! Tests for the probe-output parsers: load averages, socket counts,
//! addresses, DNS lists, login records and the platform facts.

use tr300::collectors::cpu::{
    load_averages_unix, load_percent, parse_hundredths, socket_count_from_lscpu,
    socket_count_from_value,
};
use tr300::collectors::network::{
    client_ip_from_env, dns_from_ipconfig_all, dns_from_lines, dns_from_resolv_conf,
    dns_from_resolvectl, dns_from_scutil, machine_ip_from_first_token, machine_ip_from_ipconfig,
    machine_ip_from_route, select_adapter_network, AdapterRecord,
};
use tr300::collectors::platform::linux;
use tr300::collectors::platform::linux::{resolution_from_wlr, resolution_from_xrandr};
use tr300::collectors::platform::macos;
use tr300::collectors::platform::windows;
use tr300::collectors::platform::{shell_from_parts, version_token};
use tr300::collectors::session::{
    last_login_from_outputs, parse_last, parse_lastlog2, parse_net_user_logon,
};
use tr300::text::{parse_u64, tokens, trim_str};

#[test]
fn text_utilities_parse_and_trim() {
    assert_eq!(parse_u64("0"), Some(0));
    assert_eq!(parse_u64("1234"), Some(1234));
    assert_eq!(parse_u64(""), None);
    assert_eq!(parse_u64("12a"), None);
    assert_eq!(parse_u64("99999999999999999999999"), None);
    assert_eq!(trim_str("  x y\t\n"), "x y");
    let toks = tokens(" a  bb\tccc\n");
    assert_eq!(toks, vec!["a".to_string(), "bb".to_string(), "ccc".to_string()]);
}

#[test]
fn decimal_hundredths_parse() {
    assert_eq!(parse_hundredths("0.52"), Some(52));
    assert_eq!(parse_hundredths("1.25"), Some(125));
    assert_eq!(parse_hundredths("3"), Some(300));
    assert_eq!(parse_hundredths("2.5"), Some(250));
    assert_eq!(parse_hundredths("2.527"), Some(252));
    assert_eq!(parse_hundredths("1."), Some(100));
    assert_eq!(parse_hundredths("x"), None);
    assert_eq!(parse_hundredths("1.2.3"), None);
}

#[test]
fn load_normalization_caps_at_full_capacity() {
    // 1.00 load on 4 cores is 25%
    assert_eq!(load_percent(100, 4), 2500);
    // 8.00 load on 4 cores caps at 100%
    assert_eq!(load_percent(800, 4), 10000);
    // no cores known: report full capacity
    assert_eq!(load_percent(100, 0), 10000);
}

#[test]
fn loads_parse_from_kernel_text() {
    let (l1, l5, l15) = load_averages_unix(
        Some("0.52 0.58 0.59 1/234 5678".to_string()),
        None,
        4,
    );
    assert_eq!(l1, Some(1300));
    assert_eq!(l5, Some(1450));
    assert_eq!(l15, Some(1475));
    // malformed text falls back to the caller's triple
    let (f1, f5, f15) = load_averages_unix(
        Some("bad".to_string()),
        Some((100, 200, 400)),
        4,
    );
    assert_eq!(f1, Some(2500));
    assert_eq!(f5, Some(5000));
    assert_eq!(f15, Some(10000));
    // with nothing at all, loads report zero
    assert_eq!(load_averages_unix(None, None, 4), (Some(0), Some(0), Some(0)));
}

#[test]
fn socket_count_parses_listing_or_defaults() {
    let text = "Architecture: x86_64\nSocket(s):           2\nModel name: Foo";
    assert_eq!(socket_count_from_lscpu(text), 2);
    assert_eq!(socket_count_from_lscpu("no such line"), 1);
    assert_eq!(socket_count_from_value(" 2 \n"), 2);
    assert_eq!(socket_count_from_value("0"), 1);
    assert_eq!(socket_count_from_value("junk"), 1);
}

#[test]
fn client_ip_comes_from_session_variables_in_order() {
    let r = client_ip_from_env(
        Some("10.0.0.5 50000 22".to_string()),
        Some("10.9.9.9 1 2 3".to_string()),
    );
    assert_eq!(r.as_deref(), Some("10.0.0.5"));
    let r = client_ip_from_env(None, Some("10.9.9.9 1 2 3".to_string()));
    assert_eq!(r.as_deref(), Some("10.9.9.9"));
    assert_eq!(client_ip_from_env(None, None), None);
    // a set but empty primary variable falls through
    let r = client_ip_from_env(Some("  ".to_string()), Some("10.9.9.9 1".to_string()));
    assert_eq!(r.as_deref(), Some("10.9.9.9"));
}

#[test]
fn machine_ip_parses_probe_output() {
    assert_eq!(
        machine_ip_from_first_token("192.168.1.7 10.0.0.3 \n").as_deref(),
        Some("192.168.1.7")
    );
    assert_eq!(machine_ip_from_first_token("127.0.0.1"), None);
    assert_eq!(machine_ip_from_first_token(""), None);
    assert_eq!(
        machine_ip_from_route("1.0.0.0 via 10.0.0.1 dev eth0 src 10.0.0.17 uid 0").as_deref(),
        Some("10.0.0.17")
    );
    assert_eq!(machine_ip_from_route("no source here"), None);
}

#[test]
fn dns_lists_dedup_in_first_seen_order_capped_at_five() {
    let resolv = "# comment\nnameserver 1.1.1.1\nnameserver 8.8.8.8\nnameserver 1.1.1.1\n";
    assert_eq!(
        dns_from_resolv_conf(resolv),
        vec!["1.1.1.1".to_string(), "8.8.8.8".to_string()]
    );
    let many = "nameserver 1.1.1.1\nnameserver 2.2.2.2\nnameserver 3.3.3.3\nnameserver 4.4.4.4\nnameserver 5.5.5.5\nnameserver 6.6.6.6\n";
    let out = dns_from_resolv_conf(many);
    assert_eq!(out.len(), 5);
    assert_eq!(out[0], "1.1.1.1");
    assert_eq!(out[4], "5.5.5.5");
    assert_eq!(
        dns_from_lines("9.9.9.9\n\n9.9.9.9\n4.4.4.4"),
        vec!["9.9.9.9".to_string(), "4.4.4.4".to_string()]
    );
}

#[test]
fn resolver_status_lines_yield_only_server_addresses() {
    let status = "Global\n  Protocols: +DefaultRoute\n  DNS Servers: 1.1.1.1 8.8.8.8\nLink 2 (eth0)\n  Current Scopes: DNS\n  DNS Servers: 1.1.1.1\n";
    assert_eq!(
        dns_from_resolvectl(status),
        vec!["1.1.1.1".to_string(), "8.8.8.8".to_string()]
    );
    // status text without a server line contributes nothing
    assert!(dns_from_resolvectl("Global\n  Protocols: +DefaultRoute\n").is_empty());
}

#[test]
fn adapter_records_select_first_usable_address() {
    let adapters = vec![
        AdapterRecord {
            addresses: Some(vec!["127.0.0.1".to_string(), "fe80::1".to_string()]),
            dns_search_order: Some(vec!["1.1.1.1".to_string()]),
        },
        AdapterRecord {
            addresses: Some(vec!["10.0.0.9".to_string()]),
            dns_search_order: Some(vec!["8.8.8.8".to_string(), "1.1.1.1".to_string()]),
        },
    ];
    let (ip, dns) = select_adapter_network(&adapters);
    assert_eq!(ip.as_deref(), Some("10.0.0.9"));
    assert_eq!(dns, vec!["1.1.1.1".to_string(), "8.8.8.8".to_string()]);
    let none: Vec<AdapterRecord> = Vec::new();
    let (ip, dns) = select_adapter_network(&none);
    assert!(ip.is_none());
    assert!(dns.is_empty());
}

#[test]
fn address_listing_fallbacks_parse() {
    let listing = "Ethernet adapter Ethernet:\n   IPv4 Address. . . . . . . . . . . : 10.0.0.12\n   Subnet Mask: 255.255.255.0";
    assert_eq!(machine_ip_from_ipconfig(listing).as_deref(), Some("10.0.0.12"));
    assert!(machine_ip_from_ipconfig("   IPv4 Address. . . : 127.0.0.1").is_none());

    let dns_listing = "   DNS Servers . . . . . . . . . . . : 9.9.9.9\n                                       4.4.4.4\n   NetBIOS over Tcpip. . . . : Enabled\n                                       5.5.5.5";
    assert_eq!(
        dns_from_ipconfig_all(dns_listing),
        vec!["9.9.9.9".to_string(), "4.4.4.4".to_string()]
    );
}

#[test]
fn login_records_parse_with_fallback_chain() {
    let lastlog2 = "Username    Port  Latest\nalice  pts/1 2024-05-01 09:00 10.0.0.2";
    let r = parse_lastlog2(lastlog2).unwrap();
    assert_eq!(r.0, "pts/1 2024-05-01 09:00");
    assert_eq!(r.1.as_deref(), Some("10.0.0.2"));

    let last = "alice pts/0 10.0.0.2 Mon Oct 6 09:00:01 still logged in";
    let r = parse_last(last, false).unwrap();
    assert_eq!(r.0, "Mon Oct 6 09:00:01");
    assert_eq!(r.1.as_deref(), Some("10.0.0.2"));

    // local terminals are not reported as origins
    let local = "alice tty1  :0  Mon Oct 6 09:00:01 still";
    let r = parse_last(local, false).unwrap();
    assert!(r.1.is_none());

    // empty history collapses to the unavailable marker
    let (msg, ip) = last_login_from_outputs(
        None,
        None,
        Some("wtmp begins Sat Jan 1".to_string()),
        false,
    );
    assert_eq!(msg, "Login tracking unavailable");
    assert!(ip.is_none());
}

#[test]
fn linux_virtualization_reads_hardware_name_then_cpu_flags() {
    let r = linux::detect_virtualization(Some("VMware Virtual Platform\n".to_string()), None);
    assert_eq!(r.as_deref(), Some("VMware"));
    let r = linux::detect_virtualization(
        Some("Plain Board".to_string()),
        Some("flags: fpu vme hypervisor".to_string()),
    );
    assert_eq!(r.as_deref(), Some("Virtual Machine"));
    assert_eq!(linux::detect_virtualization(None, None), None);
}

#[test]
fn linux_gpus_parse_from_pci_listing() {
    let text = "00:01.0 Host bridge: Intel\n00:02.0 VGA compatible controller: Intel UHD 620\n01:00.0 3D controller: NVIDIA GP108M";
    assert_eq!(
        linux::gpus_from_lspci(text),
        vec!["Intel UHD 620".to_string(), "NVIDIA GP108M".to_string()]
    );
    let cards = vec![
        ("card0".to_string(), true),
        ("card0-eDP-1".to_string(), true),
        ("renderD128".to_string(), true),
        ("card1".to_string(), false),
    ];
    assert_eq!(linux::gpus_from_drm(&cards), vec!["GPU card0".to_string()]);
}

#[test]
fn macos_codename_follows_major_version() {
    assert_eq!(macos::codename_from_version("15.1\n").as_deref(), Some("Sequoia"));
    assert_eq!(macos::codename_from_version("14.5").as_deref(), Some("Sonoma"));
    assert_eq!(macos::codename_from_version("13.0").as_deref(), Some("Ventura"));
    assert_eq!(macos::codename_from_version("12.7").as_deref(), Some("Monterey"));
    assert_eq!(macos::codename_from_version("11.0").as_deref(), Some("Big Sur"));
    assert_eq!(macos::codename_from_version("10.15").as_deref(), Some("Catalina"));
    assert_eq!(macos::codename_from_version("9.0"), None);
    assert_eq!(macos::codename_from_version("junk"), None);
}

#[test]
fn windows_virtualization_reads_identification_strings() {
    let r = windows::detect_virtualization(
        Some("innotek GmbH".to_string()),
        Some("VirtualBox".to_string()),
        None,
    );
    assert_eq!(r.as_deref(), Some("VirtualBox"));
    let r = windows::detect_virtualization(
        Some("Microsoft Corporation".to_string()),
        Some("Virtual Machine".to_string()),
        None,
    );
    assert_eq!(r.as_deref(), Some("Hyper-V"));
    let r = windows::detect_virtualization(
        Some("Dell Inc.".to_string()),
        Some("XPS 13".to_string()),
        Some(true),
    );
    assert_eq!(r.as_deref(), Some("Hypervisor Present"));
    let r = windows::detect_virtualization(
        Some("Dell Inc.".to_string()),
        Some("XPS 13".to_string()),
        Some(false),
    );
    assert!(r.is_none());
}

#[test]
fn windows_battery_codes_decode() {
    assert_eq!(
        windows::battery_label(Some(85), Some(1)).as_deref(),
        Some("85% (Discharging)")
    );
    assert_eq!(
        windows::battery_label(Some(64), Some(2)).as_deref(),
        Some("64% (AC Power)")
    );
    assert_eq!(
        windows::battery_label(Some(10), Some(5)).as_deref(),
        Some("10% (Critical)")
    );
    assert_eq!(
        windows::battery_label(Some(50), None).as_deref(),
        Some("50% (Unknown)")
    );
    assert_eq!(windows::battery_label(None, Some(2)), None);
}

#[test]
fn windows_boot_mode_prefers_firmware_variable() {
    assert_eq!(
        windows::detect_boot_mode(Some("UEFI".to_string()), None).as_deref(),
        Some("UEFI")
    );
    assert_eq!(
        windows::detect_boot_mode(Some("Legacy".to_string()), None).as_deref(),
        Some("Legacy BIOS")
    );
    assert_eq!(
        windows::detect_boot_mode(None, Some("path \\Windows\\system32\\winload.efi".to_string()))
            .as_deref(),
        Some("UEFI")
    );
    assert_eq!(
        windows::detect_boot_mode(None, Some("path winload.exe".to_string())).as_deref(),
        Some("Legacy BIOS")
    );
    assert_eq!(windows::detect_boot_mode(None, None), None);
}

#[test]
fn scutil_listing_yields_deduped_servers() {
    let text = "DNS configuration\n  nameserver[0] : 1.1.1.1\n  nameserver[1] : 8.8.8.8\n  nameserver[0] : 1.1.1.1\n  search domain[0] : lan";
    assert_eq!(
        dns_from_scutil(text),
        vec!["1.1.1.1".to_string(), "8.8.8.8".to_string()]
    );
}

#[test]
fn gpu_lists_are_deduped_in_first_seen_order() {
    // two identical devices in the listing collapse to one entry
    let probes = {
        let mut p = linux_probes_for_gpus();
        p.lspci_out = Some(
            "00:02.0 VGA compatible controller: Same GPU\n01:00.0 3D controller: Same GPU\n02:00.0 VGA compatible controller: Other GPU"
                .to_string(),
        );
        p
    };
    let full = linux::collect(tr300::collectors::CollectMode::Full, probes);
    assert_eq!(full.gpus, vec!["Same GPU".to_string(), "Other GPU".to_string()]);
}

fn linux_probes_for_gpus() -> linux::LinuxProbes {
    linux::LinuxProbes {
        xdg_current_desktop: None,
        desktop_session: None,
        has_gnome_session: false,
        has_kde_session: false,
        xdg_session_type: None,
        has_wayland_display: false,
        has_x11_display: false,
        has_efi_dir: false,
        dmi_product: None,
        cpuinfo: None,
        lspci_out: None,
        drm_cards: Vec::new(),
        architecture: None,
        term_program: None,
        terminal_var: None,
        parent_comm: None,
        term: None,
        shell_path: None,
        shell_version_line: None,
        xrandr_out: None,
        wlr_out: None,
        battery_capacity: None,
        battery_status: None,
        lang: None,
        locale_out: None,
    }
}

#[test]
fn windows_gpu_listing_keeps_nonempty_lines() {
    assert_eq!(
        windows::gpus_from_lines("NVIDIA RTX 4070\n\nIntel UHD Graphics\n"),
        vec!["NVIDIA RTX 4070".to_string(), "Intel UHD Graphics".to_string()]
    );
}

#[test]
fn windows_battery_fallback_decodes_status_codes() {
    assert_eq!(
        windows::battery_from_ps("85% (2)\n").as_deref(),
        Some("85% (AC Power)")
    );
    assert_eq!(
        windows::battery_from_ps("10% (1)").as_deref(),
        Some("10% (Discharging)")
    );
    // a value without a trailing code stays as reported
    assert_eq!(windows::battery_from_ps("77%").as_deref(), Some("77%"));
    assert_eq!(windows::battery_from_ps(""), None);
    assert_eq!(windows::battery_from_ps("no battery"), None);
}

#[test]
fn account_listing_last_logon_parses() {
    let text = "User name                    bob\nLast logon                   10/6/2024 9:00:00 AM\nPassword last set            1/1/2024";
    assert_eq!(
        parse_net_user_logon(text).as_deref(),
        Some("10/6/2024 9:00:00 AM")
    );
    assert!(parse_net_user_logon("nothing relevant").is_none());
}

#[test]
fn resolution_scan_is_absent_without_a_candidate_token() {
    // a connected line whose tokens spell no resolution yields nothing
    assert!(resolution_from_xrandr("eDP-1 connected primary (normal left)").is_none());
    assert!(resolution_from_xrandr("").is_none());
    assert_eq!(
        resolution_from_wlr("  Mode: 2560x1440 px current").as_deref(),
        Some("2560x1440")
    );
    assert!(resolution_from_wlr("Mode: preferred").is_none());
}

#[test]
fn shell_label_is_the_path_tail_with_its_version() {
    assert_eq!(
        shell_from_parts(
            Some("/usr/bin/zsh".to_string()),
            Some("zsh 5.9 (arm64-apple-darwin)".to_string()),
        )
        .as_deref(),
        Some("zsh 5.9")
    );
    // no version token: the bare name
    assert_eq!(
        shell_from_parts(Some("/bin/dash".to_string()), Some("no digits here".to_string()))
            .as_deref(),
        Some("dash")
    );
    assert_eq!(
        shell_from_parts(Some("/bin/fish".to_string()), None).as_deref(),
        Some("fish")
    );
    assert!(shell_from_parts(None, Some("5.9".to_string())).is_none());
    assert_eq!(version_token("GNU bash, version 5.2.21(1)-release").as_deref(), Some("5.2.21"));
    assert!(version_token("no version").is_none());
}

#[test]
fn linux_battery_and_locale_parse_from_plain_values() {
    assert_eq!(
        linux::battery_from_sysfs(Some("85\n".to_string()), Some("Discharging\n".to_string()))
            .as_deref(),
        Some("85% (Discharging)")
    );
    assert_eq!(
        linux::battery_from_sysfs(Some("42".to_string()), None).as_deref(),
        Some("42% (Unknown)")
    );
    assert_eq!(linux::battery_from_sysfs(None, Some("Full".to_string())), None);
    assert_eq!(
        linux::locale_from_probes(Some("de_DE.UTF-8".to_string()), None).as_deref(),
        Some("de_DE")
    );
    assert_eq!(
        linux::locale_from_probes(None, Some("LC_ALL=\nLANG=fr_FR.UTF-8\n".to_string()))
            .as_deref(),
        Some("fr_FR")
    );
    assert_eq!(linux::locale_from_probes(None, None), None);
}
