//! Tests for the bar renderer, the table renderer and the formatting
//! helpers.

use tr300::collectors::disk::DiskInfo;
use tr300::collectors::memory::MemoryInfo;
use tr300::collectors::network::NetworkInterface;
use tr300::collectors::os::OsInfo;
use tr300::config::{BoxChars, Config, OutputFormat};
use tr300::numfmt::{fixed1_string, fixed2_string, format_bytes_string, u64_to_string};
use tr300::render::bar::{render_bar, render_bar_ascii, render_bar_unicode};
use tr300::render::table::{ReportBuilder, TableRenderer};

#[test]
fn test_bar_empty() {
    let bar = render_bar_unicode(0, 10);
    assert_eq!(bar, "░░░░░░░░░░");
}

#[test]
fn test_bar_full() {
    let bar = render_bar_unicode(100, 10);
    assert_eq!(bar, "██████████");
}

#[test]
fn test_bar_half() {
    let bar = render_bar_unicode(50, 10);
    assert_eq!(bar, "█████░░░░░");
}

#[test]
fn test_bar_clamp_over() {
    let bar = render_bar_unicode(150, 10);
    assert_eq!(bar, "██████████");
}

#[test]
fn test_bar_clamp_under() {
    let bar = render_bar_unicode(-50, 10);
    assert_eq!(bar, "░░░░░░░░░░");
}

#[test]
fn bar_ascii_characters() {
    assert_eq!(render_bar_ascii(50, 4), "##..");
    assert_eq!(render_bar(25, 4, '#', '.'), "#...");
}

#[test]
fn numbers_format_exactly() {
    assert_eq!(u64_to_string(0), "0");
    assert_eq!(u64_to_string(42), "42");
    assert_eq!(u64_to_string(18446744073709551615), "18446744073709551615");
    assert_eq!(fixed2_string(1234), "12.34");
    assert_eq!(fixed2_string(5), "0.05");
    assert_eq!(fixed1_string(105), "10.5");
}

#[test]
fn bytes_format_with_binary_units() {
    assert_eq!(format_bytes_string(0), "0 B");
    assert_eq!(format_bytes_string(512), "512 B");
    assert_eq!(format_bytes_string(1024), "1.00 KB");
    assert_eq!(format_bytes_string(1536), "1.50 KB");
    assert_eq!(format_bytes_string(1048576), "1.00 MB");
    assert_eq!(format_bytes_string(1073741824), "1.00 GB");
    assert_eq!(format_bytes_string(1099511627776), "1.00 TB");
}

#[test]
fn network_interface_traffic_strings() {
    let iface = NetworkInterface {
        name: "eth0".to_string(),
        mac_address: "AA:BB:CC:DD:EE:FF".to_string(),
        rx_bytes: 1536,
        tx_bytes: 0,
        rx_packets: 3,
        tx_packets: 0,
    };
    assert_eq!(iface.rx_formatted(), "1.50 KB");
    assert_eq!(iface.tx_formatted(), "0 B");
    assert_eq!(iface.traffic_string(), "RX: 1.50 KB / TX: 0 B");
    assert!(iface.is_active());
}

#[test]
fn disk_formatting_helpers() {
    let d = DiskInfo {
        mount_point: "/".to_string(),
        filesystem: "ext4".to_string(),
        total_bytes: 2048,
        available_bytes: 1024,
        used_bytes: 1024,
        is_removable: false,
        name: "root".to_string(),
    };
    assert_eq!(d.total_formatted(), "2.00 KB");
    assert_eq!(d.used_formatted(), "1.00 KB");
    assert_eq!(d.available_formatted(), "1.00 KB");
    assert_eq!(d.usage_string(), "1.00 KB / 2.00 KB (50.0%)");
    assert_eq!(d.display_name(), "root (/)");
    let unnamed = DiskInfo { name: String::new(), ..d };
    assert_eq!(unnamed.display_name(), "/");
}

#[test]
fn memory_formatting_helpers() {
    let m = MemoryInfo {
        total_bytes: 4096,
        used_bytes: 1024,
        available_bytes: 3072,
        swap_total_bytes: 0,
        swap_used_bytes: 0,
    };
    assert_eq!(MemoryInfo::format_bytes(4096), "4.00 KB");
    assert_eq!(m.usage_string(), "1.00 KB / 4.00 KB (25.0%)");
}

#[test]
fn uptime_formats_by_magnitude() {
    let mk = |secs: u64| OsInfo {
        name: "X".to_string(),
        version: "1".to_string(),
        kernel_version: "k".to_string(),
        hostname: "h".to_string(),
        architecture: "a".to_string(),
        uptime_seconds: secs,
    };
    assert_eq!(mk(59).uptime_formatted(), "0m");
    assert_eq!(mk(3660).uptime_formatted(), "1h 1m");
    assert_eq!(mk(90061).uptime_formatted(), "1d 1h 1m");
    assert_eq!(mk(90061).full_name(), "X 1");
}

#[test]
fn table_rows_have_exact_layout() {
    let rd = TableRenderer::new(5, 10, BoxChars::ascii());
    assert_eq!(rd.render_row("AB", "hello"), "| AB    | hello      |\n");
    assert_eq!(rd.render_row("TOOLONGLABEL", "0123456789012"), "| TO... | 0123456... |\n");
    assert_eq!(rd.render_top_header(), "++++++++++++++++++++++\n");
    assert_eq!(rd.render_header_bottom(), "++++++++++++++++++++++\n");
}

#[test]
fn table_dividers_have_exact_layout() {
    let rd = TableRenderer::new(3, 4, BoxChars::ascii());
    assert_eq!(rd.render_top_divider(), "+-----+------+\n");
    assert_eq!(rd.render_middle_divider(), "+-----+------+\n");
    assert_eq!(rd.render_footer(), "+-----+------+\n");
    let uni = TableRenderer::new(3, 4, BoxChars::unicode());
    assert_eq!(uni.render_middle_divider(), "├─────┼──────┤\n");
    assert_eq!(uni.render_footer(), "└─────┴──────┘\n");
}

#[test]
fn centered_text_pads_both_sides() {
    let rd = TableRenderer::new(3, 4, BoxChars::ascii());
    // inner width is 12: "abcd" gets 4 each side
    assert_eq!(rd.render_centered("abcd"), "|    abcd    |\n");
    // odd leftover space goes to the right
    assert_eq!(rd.render_centered("abc"), "|    abc     |\n");
}

#[test]
fn report_builder_assembles_sections() {
    let out = ReportBuilder::new(3, 4, BoxChars::ascii())
        .header("T", "S")
        .row("A", "B")
        .divider()
        .row("C", "D")
        .finish();
    let lines: Vec<&str> = out.lines().collect();
    assert_eq!(lines[0], "++++++++++++++");
    assert_eq!(lines[2], "|     T      |");
    assert!(lines.contains(&"| A   | B    |"));
    assert_eq!(lines[lines.len() - 1], "+-----+------+");
}

#[test]
fn config_builders_set_flags() {
    let c = Config::new()
        .with_ascii()
        .with_compact(true)
        .with_colors(false)
        .with_title("MY TITLE".to_string())
        .without_network()
        .without_disks()
        .with_json()
        .with_width(Some(100));
    assert!(!c.use_unicode);
    assert!(c.compact);
    assert!(!c.use_colors);
    assert_eq!(c.title(), "MY TITLE");
    assert!(!c.show_network);
    assert!(!c.show_disks);
    assert_eq!(c.format, OutputFormat::Json);
    assert_eq!(c.width, 100);
    let d = Config::new();
    assert_eq!(d.subtitle(), "TR-300 MACHINE REPORT");
    assert_eq!(d.calculate_widths(2, 100), (5, 32));
    assert_eq!(d.calculate_widths(8, 25), (8, 25));
    assert_eq!(d.table_width(12, 32), 51);
    assert_eq!(d.bar_chars(), ('█', '░'));
}
