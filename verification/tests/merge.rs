use cartographer_agent::device::{Device, ResponseTime};
use cartographer_agent::merge::merged_devices;

fn rt(ms: f64) -> Option<ResponseTime> {
    Some(ResponseTime { bits: ms.to_bits() })
}

fn dev(ip: &str, mac: Option<&str>, time: Option<ResponseTime>) -> Device {
    Device {
        ip: ip.to_string(),
        mac: mac.map(|m| m.to_string()),
        response_time_ms: time,
        hostname: None,
        vendor: None,
        device_type: None,
    }
}

fn ips(devices: &[Device]) -> Vec<String> {
    devices.iter().map(|d| d.ip.clone()).collect()
}

#[test]
fn merge_with_nothing_known_keeps_scan() {
    let new = vec![dev("192.168.1.1", Some("aa:bb"), rt(1.5)), dev("192.168.1.2", None, None)];
    let merged = merged_devices(&Vec::new(), new.clone(), "192.168.1.0/24");
    assert_eq!(merged, new);
}

#[test]
fn merge_by_ip_preserves_missing_health_and_hostname() {
    let mut old = dev("192.168.1.10", Some("AA:BB:CC:DD:EE:01"), rt(3.25));
    old.hostname = Some("printer".to_string());
    old.vendor = Some("HP".to_string());
    let new = dev("192.168.1.10", Some("aa:bb:cc:dd:ee:01"), None);
    let merged = merged_devices(&vec![old], vec![new], "192.168.1.0/24");
    assert_eq!(merged.len(), 1);
    assert_eq!(merged[0].ip, "192.168.1.10");
    assert_eq!(merged[0].response_time_ms, rt(3.25));
    assert_eq!(merged[0].hostname.as_deref(), Some("printer"));
    // Matching by IP carries only health data and hostname over.
    assert_eq!(merged[0].vendor, None);
    assert_eq!(merged[0].mac.as_deref(), Some("aa:bb:cc:dd:ee:01"));
}

#[test]
fn merge_by_ip_replaces_zero_time_but_keeps_measured_time() {
    let old = vec![dev("10.0.0.1", None, rt(5.0)), dev("10.0.0.2", None, rt(6.0))];
    let new = vec![dev("10.0.0.1", None, rt(0.0)), dev("10.0.0.2", None, rt(2.0))];
    let merged = merged_devices(&old, new, "10.0.0.0/8");
    assert_eq!(merged[0].response_time_ms, rt(5.0));
    assert_eq!(merged[1].response_time_ms, rt(2.0));
    assert_eq!(merged.len(), 2);
}

#[test]
fn merge_negative_zero_counts_as_missing() {
    let old = vec![dev("10.0.0.1", None, rt(5.0))];
    let merged = merged_devices(&old, vec![dev("10.0.0.1", None, rt(-0.0))], "10.0.0.0/8");
    assert_eq!(merged[0].response_time_ms, rt(5.0));
}

#[test]
fn merge_zero_time_kept_when_old_has_none() {
    let old = vec![dev("10.0.0.1", None, None)];
    let merged = merged_devices(&old, vec![dev("10.0.0.1", None, rt(0.0))], "10.0.0.0/8");
    assert_eq!(merged[0].response_time_ms, rt(0.0));
}

#[test]
fn merge_by_mac_follows_dhcp_change() {
    let mut old = dev("192.168.1.20", Some("AA-BB-CC-DD-EE-02"), rt(4.0));
    old.hostname = Some("laptop".to_string());
    old.vendor = Some("Dell".to_string());
    old.device_type = Some("computer".to_string());
    let new = dev("192.168.1.21", Some("aa:bb:cc:dd:ee:02"), None);
    let merged = merged_devices(&vec![old], vec![new], "192.168.1.0/24");
    // The old IP was matched by MAC, so it is not kept as an offline entry.
    assert_eq!(ips(&merged), vec!["192.168.1.21"]);
    assert_eq!(merged[0].response_time_ms, rt(4.0));
    assert_eq!(merged[0].hostname.as_deref(), Some("laptop"));
    assert_eq!(merged[0].vendor.as_deref(), Some("Dell"));
    assert_eq!(merged[0].device_type.as_deref(), Some("computer"));
}

#[test]
fn merge_new_fields_win_over_old_ones() {
    let mut old = dev("192.168.1.20", Some("aa:bb:cc:dd:ee:02"), rt(4.0));
    old.vendor = Some("Dell".to_string());
    let mut new = dev("192.168.1.21", Some("aa:bb:cc:dd:ee:02"), rt(1.0));
    new.vendor = Some("Lenovo".to_string());
    let merged = merged_devices(&vec![old], vec![new], "192.168.1.0/24");
    assert_eq!(merged[0].vendor.as_deref(), Some("Lenovo"));
    assert_eq!(merged[0].response_time_ms, rt(1.0));
}

#[test]
fn merge_marks_unseen_in_subnet_devices_offline() {
    let mut old = dev("192.168.1.30", Some("aa:bb:cc:dd:ee:03"), rt(9.0));
    old.hostname = Some("tv".to_string());
    let merged = merged_devices(&vec![old], vec![dev("192.168.1.1", None, rt(1.0))], "192.168.1.0/24");
    assert_eq!(ips(&merged), vec!["192.168.1.1", "192.168.1.30"]);
    assert_eq!(merged[1].response_time_ms, None);
    assert_eq!(merged[1].hostname.as_deref(), Some("tv"));
    assert_eq!(merged[1].mac.as_deref(), Some("aa:bb:cc:dd:ee:03"));
}

#[test]
fn merge_drops_unseen_out_of_subnet_devices() {
    let old = vec![dev("10.8.0.5", None, rt(9.0)), dev("192.168.1.40", None, rt(2.0))];
    let merged = merged_devices(&old, Vec::new(), "192.168.1.0/24");
    assert_eq!(ips(&merged), vec!["192.168.1.40"]);
}

#[test]
fn merge_keeps_unseen_devices_when_subnet_unparsable() {
    let old = vec![dev("10.8.0.5", None, rt(9.0))];
    let merged = merged_devices(&old, Vec::new(), "not a subnet");
    assert_eq!(ips(&merged), vec!["10.8.0.5"]);
    assert_eq!(merged[0].response_time_ms, None);
}

#[test]
fn merge_keeps_unseen_devices_with_unparsable_ip() {
    let old = vec![dev("printer.local", None, rt(9.0))];
    let merged = merged_devices(&old, Vec::new(), "192.168.1.0/24");
    assert_eq!(ips(&merged), vec!["printer.local"]);
}

#[test]
fn merge_drops_ipv6_device_outside_ipv4_subnet() {
    let old = vec![dev("fe80::1", None, rt(9.0))];
    let merged = merged_devices(&old, Vec::new(), "192.168.1.0/24");
    assert!(merged.is_empty());
}

#[test]
fn merge_uses_last_known_entry_for_duplicate_ips() {
    let mut first = dev("192.168.1.50", None, rt(1.0));
    first.hostname = Some("first".to_string());
    let mut second = dev("192.168.1.50", None, rt(2.0));
    second.hostname = Some("second".to_string());
    let merged = merged_devices(&vec![first, second], vec![dev("192.168.1.50", None, None)], "192.168.1.0/24");
    assert_eq!(merged.len(), 1);
    assert_eq!(merged[0].hostname.as_deref(), Some("second"));
    assert_eq!(merged[0].response_time_ms, rt(2.0));
}

#[test]
fn merge_offline_duplicates_collapse_to_last_entry() {
    let mut first = dev("192.168.1.50", None, rt(1.0));
    first.hostname = Some("first".to_string());
    let mut second = dev("192.168.1.50", None, rt(2.0));
    second.hostname = Some("second".to_string());
    let merged = merged_devices(&vec![first, second], Vec::new(), "192.168.1.0/24");
    assert_eq!(merged.len(), 1);
    assert_eq!(merged[0].hostname.as_deref(), Some("second"));
    assert_eq!(merged[0].response_time_ms, None);
}

#[test]
fn merge_rescan_of_known_devices_changes_nothing() {
    let mut a = dev("192.168.1.1", Some("aa:aa:aa:aa:aa:aa"), rt(1.0));
    a.hostname = Some("router".to_string());
    let b = dev("192.168.1.2", None, None);
    let known = vec![a, b];
    let merged = merged_devices(&known, known.clone(), "192.168.1.0/24");
    assert_eq!(merged, known);
}

#[test]
fn merge_keeps_ips_distinct() {
    let old = vec![
        dev("192.168.1.1", Some("11:11:11:11:11:11"), rt(1.0)),
        dev("192.168.1.2", Some("22:22:22:22:22:22"), rt(1.0)),
        dev("192.168.1.3", None, rt(1.0)),
    ];
    let new = vec![
        dev("192.168.1.9", Some("22-22-22-22-22-22"), None),
        dev("192.168.1.1", None, None),
    ];
    let merged = merged_devices(&old, new, "192.168.1.0/24");
    assert_eq!(ips(&merged), vec!["192.168.1.9", "192.168.1.1", "192.168.1.3"]);
    let mut seen = ips(&merged);
    seen.sort();
    seen.dedup();
    assert_eq!(seen.len(), merged.len());
}

#[test]
fn merge_same_scan_twice_is_stable() {
    let mut by_mac = dev("192.168.1.20", Some("AA-BB-CC-DD-EE-02"), rt(4.0));
    by_mac.hostname = Some("laptop".to_string());
    by_mac.vendor = Some("Dell".to_string());
    let old = vec![by_mac, dev("192.168.1.5", None, rt(1.0)), dev("192.168.1.7", None, rt(2.0))];
    let scan = vec![
        dev("192.168.1.21", Some("aa:bb:cc:dd:ee:02"), None),
        dev("192.168.1.5", None, rt(0.0)),
    ];
    let first = merged_devices(&old, scan.clone(), "192.168.1.0/24");
    let second = merged_devices(&first, scan, "192.168.1.0/24");
    assert_eq!(second.len(), first.len());
    for (a, b) in second.iter().zip(first.iter()) {
        assert_eq!(a.ip, b.ip);
        assert_eq!(a.mac, b.mac);
        assert_eq!(a.response_time_ms, b.response_time_ms);
        assert_eq!(a.hostname, b.hostname);
    }
    assert_eq!(first[0].vendor.as_deref(), Some("Dell"));
    assert_eq!(second[0].vendor, None);
    assert_eq!(second[2..], first[2..]);
}
