//! Tests for the full report texts: the table layout and the JSON
//! document, generated from a fixed snapshot.

use tr300::collectors::{CollectMode, SystemInfo};
use tr300::config::Config;
use tr300::report::{escape_json, generate, generate_json, generate_table};

fn snapshot() -> SystemInfo {
    SystemInfo {
        os_name: "Ubuntu".to_string(),
        os_version: "24.04".to_string(),
        kernel: "6.8.0".to_string(),
        architecture: "x86_64".to_string(),
        hostname: "host1".to_string(),
        machine_ip: Some("192.168.1.10".to_string()),
        client_ip: None,
        dns_servers: vec!["1.1.1.1".to_string(), "8.8.8.8".to_string()],
        username: "alice".to_string(),
        processor: "TestCPU".to_string(),
        cores: 8,
        sockets: Some(1),
        hypervisor: Some("Bare Metal".to_string()),
        cpu_freq_mhz: 2450,
        load_1m: Some(1300),
        load_5m: Some(1450),
        load_15m: Some(1475),
        gpus: vec!["Intel UHD 620".to_string()],
        disk_used_bytes: 107374182400,
        disk_total_bytes: 214748364800,
        disk_percent_hundredths: 5000,
        zfs_health: None,
        mem_used_bytes: 4294967296,
        mem_total_bytes: 17179869184,
        mem_percent_hundredths: 2500,
        last_login: Some("Mon Oct 6 09:00".to_string()),
        last_login_ip: Some("10.0.0.2".to_string()),
        uptime_seconds: 90061,
        shell: Some("bash 5.2.21".to_string()),
        terminal: Some("Konsole".to_string()),
        locale: Some("en_US".to_string()),
        battery: None,
        mode: CollectMode::Full,
    }
}

#[test]
fn table_report_carries_every_expected_row() {
    let out = generate_table(&snapshot(), &Config::new());
    assert!(out.contains("SHAUGHNESSY V DEVELOPMENT INC."));
    assert!(out.contains("TR-300 MACHINE REPORT"));
    assert!(out.contains("OS"));
    assert!(out.contains("Ubuntu 24.04"));
    assert!(out.contains("KERNEL"));
    assert!(out.contains("HOSTNAME"));
    assert!(out.contains("MACHINE IP"));
    assert!(out.contains("192.168.1.10"));
    assert!(out.contains("Not connected"));
    assert!(out.contains("DNS  IP 1"));
    assert!(out.contains("DNS  IP 2"));
    assert!(out.contains("PROCESSOR"));
    assert!(out.contains("CORES"));
    assert!(out.contains("8 vCPU(s) / 1 Socket(s)"));
    assert!(out.contains("GPU"));
    assert!(out.contains("HYPERVISOR"));
    assert!(out.contains("CPU FREQ"));
    assert!(out.contains("2.5 GHz"));
    assert!(out.contains("LOAD  1m"));
    assert!(out.contains("VOLUME"));
    assert!(out.contains("100.00/200.00 GB [50.00%]"));
    assert!(out.contains("DISK USAGE"));
    assert!(out.contains("MEMORY"));
    assert!(out.contains("4.00/16.00 GiB [25.0%]"));
    assert!(out.contains("LAST LOGIN"));
    assert!(out.contains("UPTIME"));
    assert!(out.contains("1d 1h 1m"));
    assert!(out.contains("SHELL"));
    assert!(out.contains("TERMINAL"));
    assert!(out.contains("LOCALE"));
    // no battery row without a battery
    assert!(!out.contains("BATTERY"));
    // every line of the fixed layout is 51 characters wide
    for line in out.lines() {
        assert_eq!(line.chars().count(), 51);
    }
}

#[test]
fn table_report_ascii_mode_uses_ascii_borders() {
    let config = Config::new().with_ascii();
    let out = generate_table(&snapshot(), &config);
    assert!(out.contains('+'));
    assert!(!out.contains('┌'));
    assert!(!out.contains('█'));
    assert!(out.contains('#'));
}

#[test]
fn table_report_honours_custom_title() {
    let config = Config::new().with_title("CUSTOM TITLE".to_string());
    let out = generate_table(&snapshot(), &config);
    assert!(out.contains("CUSTOM TITLE"));
    assert!(!out.contains("SHAUGHNESSY"));
}

#[test]
fn json_report_is_exact_for_a_fixed_snapshot() {
    let mut info = snapshot();
    info.dns_servers = vec!["1.1.1.1".to_string()];
    info.gpus = Vec::new();
    info.load_5m = None;
    let out = generate_json(&info);
    let expected = "{\n  \"os\": {\n    \"name\": \"Ubuntu\",\n    \"version\": \"24.04\",\n    \"kernel\": \"6.8.0\",\n    \"architecture\": \"x86_64\"\n  },\n  \"network\": {\n    \"hostname\": \"host1\",\n    \"machine_ip\": \"192.168.1.10\",\n    \"client_ip\": null,\n    \"dns_servers\": [\"1.1.1.1\"]\n  },\n  \"cpu\": {\n    \"processor\": \"TestCPU\",\n    \"cores\": 8,\n    \"sockets\": 1,\n    \"hypervisor\": \"Bare Metal\",\n    \"frequency_ghz\": 2.45,\n    \"load_1m\": 13.00,\n    \"load_5m\": null,\n    \"load_15m\": 14.75,\n    \"gpus\": []\n  },\n  \"disk\": {\n    \"used_bytes\": 107374182400,\n    \"total_bytes\": 214748364800,\n    \"percent\": 50.00\n  },\n  \"memory\": {\n    \"used_bytes\": 4294967296,\n    \"total_bytes\": 17179869184,\n    \"percent\": 25.00\n  },\n  \"session\": {\n    \"username\": \"alice\",\n    \"last_login\": \"Mon Oct 6 09:00\",\n    \"uptime_seconds\": 90061,\n    \"shell\": \"bash 5.2.21\",\n    \"terminal\": \"Konsole\",\n    \"locale\": \"en_US\",\n    \"battery\": null\n  }\n}";
    assert_eq!(out, expected);
}

#[test]
fn many_gpus_collapse_to_one_compact_row() {
    let mut info = snapshot();
    info.gpus = vec![
        "A".to_string(),
        "B".to_string(),
        "C".to_string(),
        "D".to_string(),
    ];
    let out = generate_table(&info, &Config::new());
    assert!(out.contains("GPUs"));
    assert!(out.contains("A, B, C, D"));
    assert!(!out.contains("GPU 1"));
}

#[test]
fn long_titles_are_truncated_with_ellipsis() {
    let config = Config::new()
        .with_ascii()
        .with_title("A VERY LONG TITLE THAT CANNOT POSSIBLY FIT THE HEADER WIDTH".to_string());
    let out = generate_table(&snapshot(), &config);
    assert!(out.contains("..."));
    for line in out.lines() {
        assert_eq!(line.chars().count(), 51);
    }
}

#[test]
fn json_escapes_special_characters() {
    assert_eq!(escape_json("a\\b"), "a\\\\b");
    assert_eq!(escape_json("say \"hi\""), "say \\\"hi\\\"");
    assert_eq!(escape_json("line1\nline2\tend\r"), "line1\\nline2\\tend\\r");
    assert_eq!(escape_json("plain"), "plain");
}

#[test]
fn generate_dispatches_on_format() {
    let table = generate(&snapshot(), &Config::new());
    assert!(table.contains("KERNEL"));
    let json = generate(&snapshot(), &Config::new().with_json());
    assert!(json.contains("\"os\":"));
    assert!(json.contains("\"cpu\":"));
    assert!(json.contains("\"memory\":"));
}
