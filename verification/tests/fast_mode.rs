//! Tests of the fast-mode skip rules: every field documented as skipped
//! in fast mode is absent under `Fast` and present under `Full` when its
//! probe succeeds.

use tr300::collectors::cpu::{cpu_info_from_parts, load_averages_substitute};
use tr300::collectors::platform::linux::LinuxProbes;
use tr300::collectors::platform::macos::MacProbes;
use tr300::collectors::platform::windows::WindowsProbes;
use tr300::collectors::platform::OsFamily;
use tr300::collectors::session::{should_skip_last_login_on_platform, SessionProbes};
use tr300::collectors::CollectMode;

fn usages() -> Vec<u64> {
    vec![10, 20, 30, 40]
}

#[test]
fn sockets_skipped_in_fast_mode() {
    let fast = cpu_info_from_parts(
        CollectMode::Fast,
        Some("X".to_string()),
        Some(2),
        4,
        Some(1000),
        &usages(),
        Some(2),
        (None, None, None),
    );
    assert!(fast.sockets.is_none());
    let full = cpu_info_from_parts(
        CollectMode::Full,
        Some("X".to_string()),
        Some(2),
        4,
        Some(1000),
        &usages(),
        Some(2),
        (None, None, None),
    );
    assert_eq!(full.sockets, Some(2));
}

#[test]
fn socket_probe_failure_falls_back_to_one() {
    let full = cpu_info_from_parts(
        CollectMode::Full,
        None,
        None,
        4,
        None,
        &usages(),
        None,
        (None, None, None),
    );
    assert_eq!(full.sockets, Some(1));
    assert_eq!(full.brand, "Unknown CPU");
    assert_eq!(full.physical_cores, 4);
    assert_eq!(full.frequency_mhz, 0);
}

#[test]
fn cpu_collect_entry_point_carries_the_gating() {
    let fast = tr300::collectors::cpu::collect(
        CollectMode::Fast,
        Some("X".to_string()),
        Some(2),
        4,
        Some(1000),
        &usages(),
        Some(2),
        (None, None, None),
    )
    .unwrap();
    assert!(fast.sockets.is_none());
    let full = tr300::collectors::cpu::collect(
        CollectMode::Full,
        None,
        None,
        4,
        None,
        &usages(),
        None,
        (Some(100), Some(200), Some(300)),
    )
    .unwrap();
    assert_eq!(full.sockets, Some(1));
    assert_eq!(full.load_5m, Some(200));
    // average of 10, 20, 30, 40 whole percents, in hundredths
    assert_eq!(full.usage_hundredths, 2500);
}

#[test]
fn substitute_loads_omitted_in_fast_mode() {
    assert_eq!(load_averages_substitute(CollectMode::Fast, 4200), (None, None, None));
    assert_eq!(
        load_averages_substitute(CollectMode::Full, 4200),
        (Some(4200), Some(4200), Some(4200))
    );
}

fn linux_probes_full() -> LinuxProbes {
    LinuxProbes {
        xdg_current_desktop: Some("GNOME".to_string()),
        desktop_session: None,
        has_gnome_session: false,
        has_kde_session: false,
        xdg_session_type: Some("wayland".to_string()),
        has_wayland_display: true,
        has_x11_display: false,
        has_efi_dir: true,
        dmi_product: None,
        cpuinfo: None,
        lspci_out: Some(
            "00:02.0 VGA compatible controller: Intel Iris Xe\n00:01.0 Host bridge: Intel"
                .to_string(),
        ),
        drm_cards: vec![("card0".to_string(), true)],
        architecture: Some("x86_64".to_string()),
        term_program: None,
        terminal_var: None,
        parent_comm: Some("konsole".to_string()),
        term: Some("xterm-256color".to_string()),
        shell_path: Some("/bin/bash".to_string()),
        shell_version_line: Some("GNU bash, version 5.2.21(1)-release".to_string()),
        xrandr_out: Some("eDP-1 connected primary 1920x1080+0+0".to_string()),
        wlr_out: None,
        battery_capacity: Some("85\n".to_string()),
        battery_status: Some("Charging\n".to_string()),
        lang: Some("en_US.UTF-8".to_string()),
        locale_out: None,
    }
}

#[test]
fn linux_fast_mode_skips_subprocess_probes() {
    let fast = tr300::collectors::platform::linux::collect(
        CollectMode::Fast,
        linux_probes_full(),
    );
    assert!(fast.boot_mode.is_none());
    assert!(fast.gpus.is_empty());
    assert!(fast.display_resolution.is_none());
    // the cheap probes still answer
    assert_eq!(fast.desktop_environment.as_deref(), Some("GNOME"));
    assert_eq!(fast.battery.as_deref(), Some("85% (Charging)"));
    assert_eq!(fast.locale.as_deref(), Some("en_US"));
}

#[test]
fn linux_full_mode_reports_subprocess_probes() {
    let full = tr300::collectors::platform::linux::collect(
        CollectMode::Full,
        linux_probes_full(),
    );
    assert_eq!(full.boot_mode.as_deref(), Some("UEFI"));
    assert_eq!(full.gpus, vec!["Intel Iris Xe".to_string()]);
    assert_eq!(full.display_resolution.as_deref(), Some("1920x1080"));
    assert_eq!(full.terminal.as_deref(), Some("Konsole"));
    assert_eq!(full.shell.as_deref(), Some("bash 5.2.21"));
}

fn mac_probes_full() -> MacProbes {
    MacProbes {
        sw_vers_out: Some("14.5\n".to_string()),
        uname_m_out: Some("arm64\n".to_string()),
        sp_hardware_out: Some("Model Name: MacBook Pro".to_string()),
        hv_vmm_out: Some("0\n".to_string()),
        sp_displays_out: Some(
            "    Chipset Model: Apple M3\n      Resolution: 3024 x 1964 Retina".to_string(),
        ),
        architecture: Some("aarch64".to_string()),
        term_program: Some("Apple_Terminal".to_string()),
        term: None,
        shell_path: Some("/bin/zsh".to_string()),
        shell_version_line: Some("zsh 5.9 (arm64-apple-darwin23.0)".to_string()),
        pmset_out: Some(
            " -InternalBattery-0 (id=123)\t85%; charging; 1:23 remaining".to_string(),
        ),
        lang: None,
        apple_locale_out: Some("en_US\n".to_string()),
    }
}

#[test]
fn macos_fast_mode_skips_profiler_probes() {
    let fast = tr300::collectors::platform::macos::collect(CollectMode::Fast, mac_probes_full());
    assert!(fast.boot_mode.is_none());
    assert!(fast.virtualization.is_none());
    assert!(fast.gpus.is_empty());
    assert!(fast.display_resolution.is_none());
    assert_eq!(fast.desktop_environment.as_deref(), Some("Aqua"));
    assert_eq!(fast.display_server.as_deref(), Some("Quartz"));
    assert_eq!(fast.macos_codename.as_deref(), Some("Sonoma"));
}

#[test]
fn macos_full_mode_reports_profiler_probes() {
    let full = tr300::collectors::platform::macos::collect(CollectMode::Full, mac_probes_full());
    assert_eq!(full.boot_mode.as_deref(), Some("Apple Silicon"));
    assert!(full.virtualization.is_none());
    assert_eq!(full.gpus, vec!["Apple M3".to_string()]);
    assert_eq!(full.display_resolution.as_deref(), Some("3024x1964"));
    assert_eq!(full.terminal.as_deref(), Some("Terminal.app"));
    assert_eq!(full.shell.as_deref(), Some("zsh 5.9"));
    let battery = full.battery.unwrap();
    assert!(battery.contains("85%"));
    assert!(battery.contains("(Charging)"));
    assert_eq!(full.locale.as_deref(), Some("en_US"));
}

fn windows_probes_full() -> WindowsProbes {
    WindowsProbes {
        architecture: Some("x86_64".to_string()),
        has_wt_session: true,
        term_program_vscode: false,
        edition: Some("Windows 11 Pro".to_string()),
        firmware_env: Some("UEFI".to_string()),
        bcdedit_out: None,
        manufacturer: Some("VMware, Inc.".to_string()),
        model: Some("VMware Virtual Platform".to_string()),
        hypervisor_present: Some(true),
        gpus: vec!["Basic Display".to_string()],
        shell_env: None,
        shell_version_line: None,
        powershell_version: Some("5.1".to_string()),
        screen_w: Some(2560),
        screen_h: Some(1440),
        battery_charge: Some(64),
        battery_status: Some(2),
        battery_fallback: None,
        locale: Some("en-US".to_string()),
    }
}

#[test]
fn windows_fast_mode_keeps_only_environment_fields() {
    let fast = tr300::collectors::platform::windows::collect(
        CollectMode::Fast,
        windows_probes_full(),
    );
    assert!(fast.windows_edition.is_none());
    assert!(fast.boot_mode.is_none());
    assert!(fast.virtualization.is_none());
    assert!(fast.gpus.is_empty());
    assert!(fast.shell.is_none());
    assert!(fast.display_resolution.is_none());
    assert!(fast.battery.is_none());
    assert!(fast.locale.is_none());
    assert_eq!(fast.terminal.as_deref(), Some("Windows Terminal"));
}

#[test]
fn windows_full_mode_reports_management_probes() {
    let full = tr300::collectors::platform::windows::collect(
        CollectMode::Full,
        windows_probes_full(),
    );
    assert_eq!(full.windows_edition.as_deref(), Some("Windows 11 Pro"));
    assert_eq!(full.boot_mode.as_deref(), Some("UEFI"));
    assert_eq!(full.virtualization.as_deref(), Some("VMware"));
    assert_eq!(full.shell.as_deref(), Some("PowerShell 5.1"));
    assert_eq!(full.display_resolution.as_deref(), Some("2560x1440"));
    assert_eq!(full.battery.as_deref(), Some("64% (AC Power)"));
    assert_eq!(full.locale.as_deref(), Some("en-US"));
}

fn session_probes() -> SessionProbes {
    SessionProbes {
        username_env: Some("bob".to_string()),
        shell_env: Some("/bin/zsh".to_string()),
        comspec: None,
        has_psmodulepath: false,
        current_dir: Some("/home/bob".to_string()),
        term_program: None,
        wt_session: None,
        term: Some("xterm".to_string()),
        has_conemu: false,
        lastlog2_out: None,
        lastlog_out: None,
        last_out: Some("bob pts/0 10.0.0.2 Mon Oct 6 09:00".to_string()),
        net_user_out: None,
    }
}

#[test]
fn last_login_skipped_in_fast_mode_only_where_slow() {
    assert!(should_skip_last_login_on_platform(OsFamily::Windows));
    assert!(!should_skip_last_login_on_platform(OsFamily::Linux));
    assert!(!should_skip_last_login_on_platform(OsFamily::MacOs));

    let fast_win = tr300::collectors::session::collect(
        CollectMode::Fast,
        OsFamily::Windows,
        session_probes(),
    )
    .unwrap();
    assert!(fast_win.last_login.is_none());
    assert!(fast_win.last_login_ip.is_none());

    let fast_linux = tr300::collectors::session::collect(
        CollectMode::Fast,
        OsFamily::Linux,
        session_probes(),
    )
    .unwrap();
    // the value is the parsed lookup, not a placeholder
    assert_eq!(fast_linux.last_login.as_deref(), Some("Mon Oct 6 09:00"));
    assert_eq!(fast_linux.last_login_ip.as_deref(), Some("10.0.0.2"));
}

#[test]
fn windows_last_login_comes_from_the_account_listing() {
    let mut probes = session_probes();
    probes.net_user_out = Some(
        "User name                    bob\nLast logon                   10/6/2024 9:00:00 AM"
            .to_string(),
    );
    let s = tr300::collectors::session::collect(
        CollectMode::Full,
        OsFamily::Windows,
        probes,
    )
    .unwrap();
    assert_eq!(s.last_login.as_deref(), Some("10/6/2024 9:00:00 AM"));
    assert!(s.last_login_ip.is_none());
}

#[test]
fn platform_dispatch_gates_fast_mode() {
    let fast = tr300::collectors::platform::collect(
        CollectMode::Fast,
        tr300::collectors::platform::PlatformProbes::Linux(linux_probes_full()),
    );
    assert!(fast.gpus.is_empty());
    assert!(fast.display_resolution.is_none());
    assert!(fast.boot_mode.is_none());
}
