use beacon::dhcp_storage::{lease_expired, DhcpFile, DhcpStorage};
use beacon::history::{add_connection_to_history, delete_connection_from_history};
use beacon::mac::{mac_to_bytes, parse_mac};
use beacon::types::{
    clone_text, clone_texts, same_text, text_is, Connection, CurrentConnection, DhcpLease, Host,
    Interface, InterfaceType,
};

fn conn(ssid: &str, bssid: &str) -> Connection {
    Connection { ssid: ssid.to_string(), bssid: bssid.to_string(), password: "pw".to_string() }
}

fn file(ifname: &str, ip: u32, start: i64) -> DhcpFile {
    DhcpFile {
        ifname: ifname.to_string(),
        ip_addr: Some(ip),
        subnet_mask: Some(0xFFFF_FF00),
        gateway: Some(0xC0A8_0101),
        dns_servers: vec![0x0808_0808],
        server_id: Some(0xC0A8_0101),
        lease_duration: 3600,
        time_initiated: start,
    }
}

#[test]
fn mac_to_bytes_reads_six_fields() {
    assert_eq!(mac_to_bytes("12:34:56:78:90:ab"), [0x12, 0x34, 0x56, 0x78, 0x90, 0xab]);
    assert_eq!(mac_to_bytes("AA:BB:CC:DD:EE:FF"), [0xaa, 0xbb, 0xcc, 0xdd, 0xee, 0xff]);
}

#[test]
fn mac_to_bytes_short_text_fills_zeros() {
    assert_eq!(mac_to_bytes("01:02"), [1, 2, 0, 0, 0, 0]);
    assert_eq!(mac_to_bytes("+0f:a"), [0x0f, 0x0a, 0, 0, 0, 0]);
}

#[test]
fn parse_mac_rejects_what_mac_to_bytes_cannot_read() {
    assert_eq!(parse_mac("12:34:56:78:90:ab"), Some([0x12, 0x34, 0x56, 0x78, 0x90, 0xab]));
    assert_eq!(parse_mac("12:34:56:78:90:ab:cd"), None);
    assert_eq!(parse_mac("12:34:56:78:90:zz"), None);
    assert_eq!(parse_mac("100:00"), None);
    assert_eq!(parse_mac("12::34"), None);
    assert_eq!(parse_mac("aa:bb:cc:dd:ee:ff\n"), None);
    assert_eq!(parse_mac(""), None);
}

#[test]
fn history_add_is_idempotent() {
    let mut list = vec![conn("a", "B1")];
    assert!(add_connection_to_history(&mut list, conn("b", "B2")));
    assert_eq!(list.len(), 2);
    assert!(!add_connection_to_history(&mut list, conn("b again", "B2")));
    assert_eq!(list.len(), 2);
    assert_eq!(list[1].ssid, "b");
}

#[test]
fn history_delete_forgets_every_match() {
    let mut list = vec![conn("a", "B1"), conn("b", "B2"), conn("c", "B1")];
    assert!(delete_connection_from_history(&mut list, "B1"));
    assert_eq!(list.len(), 1);
    assert_eq!(list[0].bssid, "B2");
    assert!(!delete_connection_from_history(&mut list, "B9"));
    assert_eq!(list.len(), 1);
}

#[test]
fn history_add_then_delete_restores() {
    let mut list = vec![conn("a", "B1")];
    add_connection_to_history(&mut list, conn("n", "B7"));
    delete_connection_from_history(&mut list, "B7");
    assert_eq!(list.len(), 1);
    assert_eq!(list[0].bssid, "B1");
}

#[test]
fn storage_read_after_write() {
    let mut files = vec![file("eth0", 1, 10), file("wlan0", 2, 10)];
    let mut content = file("wlan0", 99, 0);
    DhcpStorage::write_file(&mut files, &mut content, 500);
    assert_eq!(content.time_initiated, 500);
    assert_eq!(files.len(), 2);
    let got = DhcpStorage::read_specific(&files, "wlan0").unwrap();
    assert_eq!(got.ip_addr, Some(99));
    assert_eq!(got.time_initiated, 500);
    let other = DhcpStorage::read_specific(&files, "eth0").unwrap();
    assert_eq!(other.ip_addr, Some(1));
    assert!(DhcpStorage::read_specific(&files, "wlan1").is_none());
}

#[test]
fn storage_write_new_interface_appends() {
    let mut files = vec![file("eth0", 1, 10)];
    let mut content = file("wlan0", 7, 0);
    DhcpStorage::write_file(&mut files, &mut content, 42);
    assert_eq!(files.len(), 2);
    assert_eq!(files[1].ifname, "wlan0");
    assert_eq!(files[1].time_initiated, 42);
}

#[test]
fn storage_get_unique_keeps_first() {
    let files = vec![file("eth0", 1, 10), file("wlan0", 2, 10), file("eth0", 3, 10)];
    let unique = DhcpStorage::get_unique(&files);
    assert_eq!(unique.len(), 2);
    assert_eq!(unique[0].ip_addr, Some(1));
    assert_eq!(unique[1].ifname, "wlan0");
}

#[test]
fn storage_record_from_lease() {
    let mut lease = DhcpLease::empty();
    lease.ip_addr = Some(0xC0A8_0105);
    lease.dns_servers = vec![1, 2];
    lease.lease_duration = 86400;
    let f = DhcpStorage::write_from_dhcplease(&lease, "wlan0".to_string());
    assert_eq!(f.ifname, "wlan0");
    assert_eq!(f.ip_addr, Some(0xC0A8_0105));
    assert_eq!(f.dns_servers, vec![1, 2]);
    assert_eq!(f.lease_duration, 86400);
    assert_eq!(f.time_initiated, 0);
}

#[test]
fn storage_lease_expiry() {
    let f = file("wlan0", 1, 1000);
    assert!(!lease_expired(&f, 4599));
    assert!(lease_expired(&f, 4600));
}

#[test]
fn types_constructors_and_setters() {
    let mut h = Host::new();
    assert!(h.ssid.is_none() && h.bssid.is_none() && !h.is_connected);
    h.set_ssid("home".to_string());
    h.set_bssid("B1".to_string());
    h.set_frequency(5180);
    h.set_signal(60);
    assert_eq!(h.ssid.as_deref(), Some("home"));
    assert_eq!(h.bssid.as_deref(), Some("B1"));
    assert_eq!(h.frequency, Some(5180));
    assert_eq!(h.signal, Some(60));

    let mut i = Interface::new();
    assert!(i.ifindex.is_none() && i.ifname.is_none());
    i.set_ifindex(3);
    i.set_ifname("wlan0".to_string());
    i.set_mac("aa:bb".to_string());
    i.set_iftype(InterfaceType::Wireless);
    let j = i.clone();
    assert!(i.equals(&j));
    assert_eq!(j.ifindex, Some(3));
    assert_eq!(j.iftype, InterfaceType::Wireless);

    let c = CurrentConnection::new();
    assert!(c.ip_addr.is_none() && c.dns_servers.is_empty());
    assert_eq!(c.lease_duration, 0);
}

#[test]
fn types_text_helpers() {
    let a = Some("x".to_string());
    assert!(same_text(&a, &clone_text(&a)));
    assert!(!same_text(&a, &None));
    assert!(same_text(&None, &None));
    assert!(text_is(&a, "x"));
    assert!(!text_is(&None, "x"));
    assert_eq!(clone_texts(&vec!["p".to_string(), "q".to_string()]), vec!["p".to_string(), "q".to_string()]);
}

#[test]
fn history_delete_keeps_access_points_distinct() {
    let mut list = vec![conn("a", "B1"), conn("b", "B2"), conn("c", "B3")];
    delete_connection_from_history(&mut list, "B2");
    assert_eq!(list.len(), 2);
    assert_ne!(list[0].bssid, list[1].bssid);
    add_connection_to_history(&mut list, conn("d", "B1"));
    assert_eq!(list.len(), 2);
}
