use sysinfo_plugin::dispatch::{acknowledgment, route, Plugin, Request};
use sysinfo_plugin::report::{report_command, Report};
use sysinfo_plugin::sensor::{cpu_temperature, label_names_cpu, Sensor};
use sysinfo_plugin::status::{format_status, written_size, DiskRecord, Snapshot};
use sysinfo_plugin::text::{decimal, same_text};

fn sensor(label: &str, reading: &str) -> Sensor {
    Sensor {
        label: label.to_string(),
        reading: Some(reading.to_string()),
    }
}

fn disk(name: &str, available: u64, total: u64, percent: &str) -> DiskRecord {
    DiskRecord {
        name: Some(name.to_string()),
        kind: "SSD".to_string(),
        file_system: Some("ext4".to_string()),
        available: written_size(available),
        total: written_size(total),
        percent: percent.to_string(),
    }
}

fn snapshot() -> Snapshot {
    Snapshot {
        sw_uptime: 3661,
        wan_ip: Some("203.0.113.5".to_string()),
        os_name: Some("Linux".to_string()),
        kernel_version: Some("6.1.0".to_string()),
        os_version: None,
        host_name: Some("box1".to_string()),
        cpu_arch: Some("x86_64".to_string()),
        cpu_count: 8,
        uptime: 60,
        booted: "2024-01-01 00:00:00 +00:00".to_string(),
        sensors: vec![sensor("acpitz", "40"), sensor("CPU Package", "55")],
        load_one: "0.5".to_string(),
        load_five: "0.25".to_string(),
        load_fifteen: "0.1".to_string(),
        memory_available: 1000,
        memory_total: 2000,
        memory_available_text: written_size(1000),
        memory_total_text: written_size(2000),
        disks: vec![disk("/dev/sda1", 1000, 2000, "50.00%")],
    }
}

fn decode(command: &str) -> (String, String) {
    let prefix = "send plugin mqtt report '";
    assert!(command.starts_with(prefix));
    assert!(command.ends_with('\''));
    let json = &command[prefix.len()..command.len() - 1];
    let value: serde_json::Value = serde_json::from_str(json).unwrap();
    let object = value.as_object().unwrap();
    assert_eq!(object.len(), 2);
    (
        object["topic"].as_str().unwrap().to_string(),
        object["payload"].as_str().unwrap().to_string(),
    )
}

#[test]
fn decimal_writes_plain_digits() {
    assert_eq!(decimal(0), "0");
    assert_eq!(decimal(7), "7");
    assert_eq!(decimal(10), "10");
    assert_eq!(decimal(1234567890), "1234567890");
    assert_eq!(decimal(u64::MAX), "18446744073709551615");
}

#[test]
fn same_text_compares_characters() {
    assert!(same_text("report", "report"));
    assert!(!same_text("report", "reports"));
    assert!(!same_text("report", "Report"));
    assert!(same_text("", ""));
}

#[test]
fn cpu_labels_ignore_case() {
    assert!(label_names_cpu("CPU Package"));
    assert!(label_names_cpu("coretemp cpu"));
    assert!(label_names_cpu("k10temp Tctl cPu"));
    assert!(!label_names_cpu("acpitz"));
    assert!(!label_names_cpu("nvme Composite"));
    assert!(!label_names_cpu("cp"));
    assert!(!label_names_cpu(""));
}

#[test]
fn temperature_is_zero_without_sensors() {
    assert_eq!(cpu_temperature(&vec![]), "0");
}

#[test]
fn temperature_is_zero_without_cpu_sensor() {
    let sensors = vec![sensor("acpitz", "40"), sensor("nvme Composite", "38")];
    assert_eq!(cpu_temperature(&sensors), "0");
}

#[test]
fn temperature_of_single_cpu_sensor() {
    let sensors = vec![sensor("acpitz", "40"), sensor("Cpu Die", "61.5")];
    assert_eq!(cpu_temperature(&sensors), "61.5");
}

#[test]
fn temperature_first_cpu_sensor_wins() {
    let sensors = vec![sensor("CPU 0", "50"), sensor("cpu 1", "70")];
    assert_eq!(cpu_temperature(&sensors), "50");
}

#[test]
fn report_topic_is_qualified() {
    let r = Report::new("node7", "hostname", "box1".to_string());
    assert_eq!(r.topic, "tln/node7/hostname");
    assert_eq!(r.payload, "box1");
    assert_eq!(r.encode(), "{\"topic\":\"tln/node7/hostname\",\"payload\":\"box1\"}");
}

#[test]
fn report_round_trips_through_json() {
    for value in ["plain", "with \"quotes\"", "back\\slash", "line\nbreak\ttab", "température °C", ""] {
        let line = report_command("node7", "status", value.to_string());
        let (topic, payload) = decode(&line);
        assert_eq!(topic, "tln/node7/status");
        assert_eq!(payload, value);
    }
}

#[test]
fn report_escapes_payload() {
    let r = Report::new("n", "k", "a\"b".to_string());
    assert_eq!(r.encode(), "{\"topic\":\"tln/n/k\",\"payload\":\"a\\\"b\"}");
    assert_eq!(
        r.command(),
        "send plugin mqtt report '{\"topic\":\"tln/n/k\",\"payload\":\"a\\\"b\"}'"
    );
}

#[test]
fn route_recognises_report_actions() {
    assert_eq!(route("report", "myself"), Request::Myself);
    assert_eq!(route("report", "status"), Request::Status);
    assert_eq!(route("report", "other"), Request::Ignored);
    assert_eq!(route("report", ""), Request::Ignored);
    assert_eq!(route("restart", "myself"), Request::Ignored);
    assert_eq!(route("Report", "status"), Request::Ignored);
    assert_eq!(acknowledgment(), "send");
}

#[test]
fn plugin_name_is_fixed() {
    assert_eq!(Plugin::new(0).name(), "sysinfo");
}

#[test]
fn sw_uptime_counts_from_load() {
    let p = Plugin::new(100);
    assert_eq!(p.start_ts(), 100);
    assert_eq!(p.sw_uptime(100), 0);
    assert_eq!(p.sw_uptime(150), 50);
    assert_eq!(p.sw_uptime(90), 0);
}

#[test]
fn sw_uptime_never_decreases() {
    let p = Plugin::new(1_000);
    let first = p.sw_uptime(1_005);
    let second = p.sw_uptime(1_012);
    assert!(second >= first);
    assert_eq!(second, 12);
}

#[test]
fn myself_emits_five_reports_in_order() {
    let p = Plugin::new(100);
    let sensors = vec![sensor("CPU", "48")];
    let lines = p.myself_commands(
        "node7",
        130,
        4242,
        &Some("box1".to_string()),
        &Some("Linux".to_string()),
        &sensors,
    );
    assert_eq!(lines.len(), 5);
    let decoded: Vec<(String, String)> = lines.iter().map(|l| decode(l)).collect();
    assert_eq!(decoded[0], ("tln/node7/uptime".to_string(), "4242".to_string()));
    assert_eq!(decoded[1], ("tln/node7/sw_uptime".to_string(), "30".to_string()));
    assert_eq!(decoded[2], ("tln/node7/hostname".to_string(), "box1".to_string()));
    assert_eq!(decoded[3], ("tln/node7/os".to_string(), "Linux".to_string()));
    assert_eq!(decoded[4], ("tln/node7/temperature".to_string(), "48".to_string()));
}

#[test]
fn myself_hostname_line_for_node7() {
    let p = Plugin::new(0);
    let lines = p.myself_commands("node7", 1, 1, &Some("box1".to_string()), &None, &vec![]);
    assert!(lines[2].contains("{\"topic\":\"tln/node7/hostname\",\"payload\":\"box1\"}"));
    assert_eq!(decode(&lines[3]).1, "unavailable");
    assert_eq!(decode(&lines[4]).1, "0");
}

#[test]
fn status_report_carries_status_block() {
    let p = Plugin::new(0);
    let snap = snapshot();
    let lines = p.status_commands("node7", &snap);
    assert_eq!(lines.len(), 1);
    let (topic, payload) = decode(&lines[0]);
    assert_eq!(topic, "tln/node7/status");
    assert_eq!(payload, p.status(&snap));
}

#[test]
fn status_block_is_exact() {
    let expected = "Software Info:\n\tUptime: 1h, 1m, 1s\n\
IP Info:\n\tWAN IP: 203.0.113.5\n\
System Info:\n\tOS: Linux\n\tKernel Version: 6.1.0\n\tOS Version: unavailable\n\
\tHost Name: box1\n\tCPU Architecture: x86_64\n\tNB CPUs: 8\n\tUptime: 1m seconds\n\
\tBooted: 2024-01-01 00:00:00 +00:00\n\
Temperature Info:\n\tTemperature: 55°C\n\
CPU Usage:\n\tone minute: 0.5%, five minutes: 0.25%, fifteen minutes: 0.1%\n\
Memory Info:\n\t1.000 KB/2.000 KB (50.00%)\n\
Disk Info:\n\t/dev/sda1: SSD, ext4, 1.000 KB/2.000 KB (50.00%)\n";
    assert_eq!(format_status(&snapshot()), expected);
}

#[test]
fn status_sections_in_fixed_order() {
    let mut snap = snapshot();
    snap.disks.push(disk("/dev/sdb1", 0, 500, "0.00%"));
    let text = format_status(&snap);
    let headers = [
        "Software Info:",
        "IP Info:",
        "System Info:",
        "Temperature Info:",
        "CPU Usage:",
        "Memory Info:",
        "Disk Info:",
    ];
    let lines: Vec<&str> = text.lines().collect();
    let found: Vec<&str> = lines.iter().copied().filter(|l| !l.starts_with('\t')).collect();
    assert_eq!(found, headers);
    for (i, l) in lines.iter().enumerate() {
        if !l.starts_with('\t') {
            assert!(lines[i + 1].starts_with('\t'));
        }
    }
    assert!(text.ends_with("\t/dev/sdb1: SSD, ext4, 0 B/500 B (0.00%)\n"));
}

#[test]
fn memory_share_unavailable_without_total() {
    let mut snap = snapshot();
    snap.memory_available = 0;
    snap.memory_total = 0;
    snap.memory_available_text = written_size(0);
    snap.memory_total_text = written_size(0);
    assert!(format_status(&snap).contains("Memory Info:\n\t0 B/0 B (unavailable)\n"));
}

#[test]
fn memory_share_is_whole_percent() {
    let mut snap = snapshot();
    snap.memory_available = 1;
    snap.memory_total = 3;
    snap.memory_available_text = written_size(1);
    snap.memory_total_text = written_size(3);
    assert!(format_status(&snap).contains("\t1 B/3 B (33.00%)\n"));
}

#[test]
fn missing_fields_show_placeholder() {
    let mut snap = snapshot();
    snap.wan_ip = None;
    snap.disks = vec![DiskRecord {
        name: None,
        kind: "HDD".to_string(),
        file_system: None,
        available: written_size(1),
        total: written_size(1),
        percent: "100.00%".to_string(),
    }];
    let text = format_status(&snap);
    assert!(text.contains("IP Info:\n\tWAN IP: unavailable\n"));
    assert!(text.ends_with("Disk Info:\n\tunavailable: HDD, unavailable, 1 B/1 B (100.00%)\n"));
}

#[test]
fn empty_disk_list_shows_placeholder() {
    let mut snap = snapshot();
    snap.disks = vec![];
    assert!(format_status(&snap).ends_with("Disk Info:\n\tDisks: none\n"));
}

#[test]
fn memory_share_above_total() {
    let mut snap = snapshot();
    snap.memory_available = 3000;
    snap.memory_total = 2000;
    snap.memory_available_text = written_size(3000);
    snap.memory_total_text = written_size(2000);
    assert!(format_status(&snap).contains("\t3.000 KB/2.000 KB (150.00%)\n"));
}

#[test]
fn report_escapes_control_characters() {
    let r = Report::new("n", "k", "\u{1}\u{1f}\u{8}\u{c}\r\n\t\\".to_string());
    assert_eq!(
        r.encode(),
        "{\"topic\":\"tln/n/k\",\"payload\":\"\\u0001\\u001f\\b\\f\\r\\n\\t\\\\\"}"
    );
}

#[test]
fn report_command_is_one_line() {
    let line = report_command("node\n7", "status", "a\nb\n".to_string());
    assert!(!line.contains('\n'));
    let (topic, payload) = decode(&line);
    assert_eq!(topic, "tln/node\n7/status");
    assert_eq!(payload, "a\nb\n");
}

#[test]
fn temperature_skips_cpu_sensor_without_reading() {
    let sensors = vec![
        Sensor { label: "CPU 0".to_string(), reading: None },
        sensor("cpu 1", "70"),
    ];
    assert_eq!(cpu_temperature(&sensors), "70");
    let silent = vec![Sensor { label: "CPU".to_string(), reading: None }];
    assert_eq!(cpu_temperature(&silent), "0");
}

#[test]
fn written_size_uses_units() {
    assert_eq!(written_size(0), "0 B");
    assert_eq!(written_size(999), "999 B");
    assert_eq!(written_size(1_000), "1.000 KB");
    assert_eq!(written_size(2_101_123), "2.101 MB");
}
