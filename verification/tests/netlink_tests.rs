use beacon::daemon::{link_lost, removal_ack, AckStep};
use beacon::family::{read_family, scan_group_id, trim_nuls_exec, walk_groups, FamilyRead, McastSearch};
use beacon::interfaces::{
    apply_connected_host, apply_lease_record, apply_link_address, apply_link_name,
    apply_wireless_attrs, classify_interface, connection_from_link, interface_with_index, link_is_up,
    message_ipv4, needs_wireless_details, route_oif, LinkRead,
};
use beacon::dhcp_storage::DhcpFile;
use beacon::netlink::{nested_attrs, RawAttr};
use beacon::route::{gateway_field, get_gateway_ip, resolv_conf};
use beacon::scan::{find_ssid, format_mac, le_u32, parse_bss, scan_hosts, trigger_scan_step, TriggerStep};
use beacon::types::{CurrentConnection, Host, Interface, InterfaceType};

fn nla(t: u16, payload: &[u8]) -> Vec<u8> {
    let len = (4 + payload.len()) as u16;
    let mut v = Vec::new();
    v.extend_from_slice(&len.to_ne_bytes());
    v.extend_from_slice(&t.to_ne_bytes());
    v.extend_from_slice(payload);
    while v.len() % 4 != 0 {
        v.push(0);
    }
    v
}

fn raw(kind: u16, payload: &[u8]) -> RawAttr {
    RawAttr { kind, payload: payload.to_vec() }
}

fn bss_payload() -> Vec<u8> {
    let mut b = Vec::new();
    b.extend(nla(1, &[0xaa, 0xbb, 0xcc, 0xdd, 0xee, 0xff]));
    b.extend(nla(2, &2412u32.to_le_bytes()));
    b.extend(nla(6, &[1, 2, 0x82, 0x84, 0, 4, b'h', b'o', b'm', b'e']));
    b.extend(nla(7, &(-4550i32).to_le_bytes()));
    b.extend(nla(9, &1u32.to_le_bytes()));
    b
}

#[test]
fn nested_attrs_reads_in_order() {
    let mut buf = nla(3, &7u32.to_ne_bytes());
    buf.extend(nla(4, b"wlan0\0"));
    let attrs = nested_attrs(&buf);
    assert_eq!(attrs.len(), 2);
    assert_eq!(attrs[0].kind, 3);
    assert_eq!(attrs[0].payload, 7u32.to_ne_bytes().to_vec());
    assert_eq!(attrs[1].kind, 4);
    assert_eq!(attrs[1].payload, b"wlan0\0".to_vec());
}

#[test]
fn nested_attrs_stops_at_truncated_attr() {
    let mut buf = nla(3, &[1, 2, 3, 4]);
    buf.extend_from_slice(&[200, 0, 5, 0, 1]);
    let attrs = nested_attrs(&buf);
    assert_eq!(attrs.len(), 1);
}

#[test]
fn parse_bss_reads_access_point() {
    let h = parse_bss(&bss_payload());
    assert_eq!(h.bssid.as_deref(), Some("AA:BB:CC:DD:EE:FF"));
    assert_eq!(h.frequency, Some(2412));
    assert_eq!(h.ssid.as_deref(), Some("home"));
    assert_eq!(h.signal, Some((-45i32) as u32));
    assert!(h.is_connected);
}

#[test]
fn scan_hosts_one_per_bss_attribute() {
    let attrs = vec![raw(3, &[1, 0, 0, 0]), raw(47, &bss_payload()), raw(47, &nla(2, &5180u32.to_le_bytes()))];
    let hosts = scan_hosts(&attrs);
    assert_eq!(hosts.len(), 2);
    assert_eq!(hosts[0].ssid.as_deref(), Some("home"));
    assert_eq!(hosts[1].frequency, Some(5180));
    assert!(hosts[1].ssid.is_none());
    assert!(!hosts[1].is_connected);
}

#[test]
fn find_ssid_takes_last_ssid_element() {
    let ies = [0u8, 1, b'a', 3, 1, 9, 0, 2, b'b', b'c'];
    assert_eq!(find_ssid(&ies), Some((8, 10)));
    assert_eq!(find_ssid(&[3u8, 1, 9]), None);
    assert_eq!(find_ssid(&[0u8, 5, b'x']), None);
}

#[test]
fn format_and_le_helpers() {
    assert_eq!(format_mac(&[0, 1, 0xab, 0x10, 0xff, 0x7], 6), "00:01:AB:10:FF:07");
    assert_eq!(format_mac(&[0x0a, 0x0b, 0x0c], 2), "0A:0B");
    assert_eq!(le_u32(&[0x78, 0x56, 0x34, 0x12, 0]), 0x1234_5678);
}

#[test]
fn trigger_scan_step_decisions() {
    assert_eq!(trigger_scan_step(Some(-16), None), TriggerStep::Wait);
    assert_eq!(trigger_scan_step(Some(-1), Some(34)), TriggerStep::Failed(-1));
    assert_eq!(trigger_scan_step(None, Some(34)), TriggerStep::Done);
    assert_eq!(trigger_scan_step(None, Some(35)), TriggerStep::Aborted);
    assert_eq!(trigger_scan_step(None, Some(33)), TriggerStep::Wait);
    assert_eq!(trigger_scan_step(None, None), TriggerStep::Wait);
}

fn group(name: &[u8], id: u32) -> Vec<u8> {
    let mut g = nla(2, &id.to_le_bytes());
    g.extend(nla(1, name));
    g
}

#[test]
fn scan_group_id_finds_scan_group() {
    let mut groups = nla(1, &group(b"config\0", 5));
    groups.extend(nla(2, &group(b"scan\0", 7)));
    groups.extend(nla(3, &group(b"regulatory\0", 9)));
    assert_eq!(scan_group_id(&groups), McastSearch::Found(7));
}

#[test]
fn scan_group_id_not_found_and_malformed() {
    let groups = nla(1, &group(b"config\0", 5));
    assert_eq!(scan_group_id(&groups), McastSearch::NotFound);
    let mut bad = nla(2, &[1, 2]);
    bad.extend(nla(1, b"scan\0"));
    assert_eq!(scan_group_id(&nla(1, &bad)), McastSearch::Malformed);
}

#[test]
fn trim_nuls_removes_trailing_only() {
    assert_eq!(trim_nuls_exec("scan\0\0"), "scan");
    assert_eq!(trim_nuls_exec("\0a"), "\0a");
}

#[test]
fn interface_classification() {
    assert_eq!(classify_interface("wlp2s0", false), Some(InterfaceType::Wireless));
    assert_eq!(classify_interface("eth0", false), Some(InterfaceType::Wired));
    assert_eq!(classify_interface("enp3s0", false), Some(InterfaceType::Wired));
    assert_eq!(classify_interface("lo", false), Some(InterfaceType::Loopback));
    assert_eq!(classify_interface("docker0", false), None);
    assert_eq!(classify_interface("docker0", true), Some(InterfaceType::Wireless));
}

#[test]
fn link_attributes_fill_interface() {
    let mut i = Interface::new();
    i.iftype = InterfaceType::Unknown;
    apply_link_name(&mut i, "eth0".to_string(), false);
    assert_eq!(i.ifname.as_deref(), Some("eth0"));
    assert_eq!(i.iftype, InterfaceType::Wired);
    apply_link_address(&mut i, &[0xde, 0xad, 0xbe, 0xef, 0, 1]);
    assert_eq!(i.mac.as_deref(), Some("DE:AD:BE:EF:00:01"));
    apply_link_address(&mut i, &[1, 2, 3]);
    assert_eq!(i.mac.as_deref(), Some("DE:AD:BE:EF:00:01"));
    assert!(link_is_up(&[6]));
    assert!(!link_is_up(&[2]));
}

#[test]
fn address_message_gives_ipv4() {
    let attrs = vec![raw(8, &[0, 0, 0, 0]), raw(1, &[10, 0, 0]), raw(2, &[192, 168, 1, 20])];
    assert_eq!(message_ipv4(&attrs), Some(0xC0A8_0114));
    assert_eq!(message_ipv4(&vec![raw(3, b"eth0")]), None);
}

#[test]
fn route_output_interface() {
    let attrs = vec![raw(1, &[8, 8, 8, 8]), raw(4, &3u32.to_ne_bytes())];
    assert_eq!(route_oif(&attrs), Ok(Some(3)));
    assert_eq!(route_oif(&vec![raw(1, &[8, 8, 8, 8])]), Ok(None));
    assert_eq!(route_oif(&vec![raw(4, &[1, 2])]), Err(()));
    let mut a = Interface::new();
    a.ifindex = Some(2);
    let mut b = Interface::new();
    b.ifindex = Some(3);
    b.ifname = Some("wlan0".to_string());
    let found = interface_with_index(&vec![a, b], Some(3)).unwrap();
    assert_eq!(found.ifname.as_deref(), Some("wlan0"));
}

#[test]
fn wireless_attrs_fill_connection() {
    let mut c = CurrentConnection::new();
    c.ifname = Some("wlan0".to_string());
    let attrs = vec![
        raw(3, &5u32.to_le_bytes()),
        raw(4, b"wlan0\0"),
        raw(6, &[1, 2, 3, 4, 5, 6]),
        raw(52, b"home"),
    ];
    apply_wireless_attrs(&mut c, &attrs);
    assert_eq!(c.ifindex, Some(5));
    assert_eq!(c.ifname.as_deref(), Some("wlan0"));
    assert_eq!(c.mac.as_deref(), Some("01:02:03:04:05:06"));
    assert_eq!(c.ssid.as_deref(), Some("home"));
    assert!(needs_wireless_details(&c));
    c.ifname = Some("eth0".to_string());
    assert!(!needs_wireless_details(&c));
}

#[test]
fn connected_host_and_lease_fill_connection() {
    let mut c = CurrentConnection::new();
    let hosts = vec![
        Host { bssid: Some("B0".into()), ssid: Some("a".into()), frequency: Some(1), signal: None, is_connected: false },
        Host { bssid: Some("B1".into()), ssid: Some("b".into()), frequency: Some(2), signal: None, is_connected: true },
    ];
    assert!(apply_connected_host(&mut c, &hosts));
    assert_eq!(c.ssid.as_deref(), Some("b"));
    assert_eq!(c.bssid.as_deref(), Some("B1"));
    assert_eq!(c.frequency, Some(2));
    assert!(!apply_connected_host(&mut c, &vec![]));
    let f = DhcpFile {
        ifname: "wlan0".into(),
        ip_addr: Some(9),
        subnet_mask: Some(0xFFFF_FF00),
        gateway: Some(1),
        dns_servers: vec![7],
        server_id: Some(1),
        lease_duration: 600,
        time_initiated: 50,
    };
    apply_lease_record(&mut c, &vec![f]);
    assert_eq!(c.subnet_mask, Some(0xFFFF_FF00));
    assert_eq!(c.dns_servers, vec![7]);
    assert_eq!(c.lease_duration, 600);
    assert_eq!(c.time_initiated, 50);
    assert!(c.ip_addr.is_none());
}

const ROUTE_TABLE: &str = "Iface\tDestination\tGateway \tFlags\tRefCnt\tUse\tMetric\tMask\t\tMTU\tWindow\tIRTT\n\
wlan0\t0000A8C0\t00000000\t0001\t0\t0\t600\t00FFFFFF\t0\t0\t0\n\
wlan0\t00000000\t0101A8C0\t0003\t0\t0\t600\t00000000\t0\t0\t0\n";

#[test]
fn gateway_from_route_table() {
    assert_eq!(gateway_field(ROUTE_TABLE), Some(0x0101_A8C0));
    let gw = get_gateway_ip(ROUTE_TABLE).unwrap();
    assert_eq!(gw, u32::from_be(0x0101_A8C0));
    assert_eq!(get_gateway_ip("Iface\tDestination\tGateway\n"), None);
    assert_eq!(get_gateway_ip("header\nwlan0\n"), None);
}

#[test]
fn resolver_lines() {
    assert_eq!(
        resolv_conf(&vec![0xC0A8_0101]),
        "nameserver 192.168.1.1\nnameserver 8.8.8.8\nnameserver 1.1.1.1"
    );
    assert_eq!(resolv_conf(&vec![]), "nameserver 8.8.8.8\nnameserver 1.1.1.1");
}

#[test]
fn removal_and_link_decisions() {
    assert_eq!(removal_ack(Some(0), 2), AckStep::Done);
    assert_eq!(removal_ack(Some(-99), 2), AckStep::Failed(-99));
    assert_eq!(removal_ack(None, 3), AckStep::Done);
    assert_eq!(removal_ack(None, 20), AckStep::Wait);
    assert!(link_lost(16, 3, 0x1, 3));
    assert!(!link_lost(16, 3, 0x41, 3));
    assert!(!link_lost(16, 4, 0x0, 3));
    assert!(!link_lost(17, 3, 0x0, 3));
}

#[test]
fn family_attributes_give_id_name_and_scan_group() {
    let mut groups = nla(1, &group(b"config\0", 5));
    groups.extend(nla(2, &group(b"scan\0", 7)));
    let attrs = vec![raw(2, b"nl80211\0"), raw(1, &28u16.to_ne_bytes()), raw(7, &groups), raw(3, &[1, 0, 0, 0])];
    match read_family(&attrs) {
        FamilyRead::Read(info) => {
            assert_eq!(info.name, "nl80211");
            assert_eq!(info.id, 28);
            assert_eq!(info.scan_group_id, 7);
        }
        other => panic!("unexpected outcome {:?}", other),
    }
    assert!(matches!(read_family(&vec![raw(1, &[1])]), FamilyRead::ShortId));
    let mut bad = nla(2, &[1, 2]);
    bad.extend(nla(1, b"scan\0"));
    assert!(matches!(read_family(&vec![raw(7, &nla(1, &bad))]), FamilyRead::MalformedGroup));
    match read_family(&vec![]) {
        FamilyRead::Read(info) => {
            assert_eq!(info.id, 0);
            assert_eq!(info.scan_group_id, 0);
            assert_eq!(info.name, "");
        }
        other => panic!("unexpected outcome {:?}", other),
    }
}

#[test]
fn group_walk_carries_name_and_id() {
    let groups = nla(1, &group(b"config\0", 5));
    assert_eq!(walk_groups(&groups, String::new(), 0), Some(("config".to_string(), 5, false)));
    let only_id = nla(1, &nla(2, &9u32.to_le_bytes()));
    assert_eq!(walk_groups(&only_id, "scan".to_string(), 0), Some(("scan".to_string(), 9, true)));
}

#[test]
fn link_message_gives_connection_record() {
    let attrs = vec![raw(3, b"wlan0\0"), raw(1, &[1, 2, 3, 4, 5, 6]), raw(16, &[6])];
    match connection_from_link(4, &attrs) {
        LinkRead::Up(c) => {
            assert_eq!(c.ifindex, Some(4));
            assert_eq!(c.ifname.as_deref(), Some("wlan0"));
            assert_eq!(c.mac.as_deref(), Some("01:02:03:04:05:06"));
            assert!(c.ip_addr.is_none());
        }
        other => panic!("unexpected outcome {:?}", other),
    }
    assert!(matches!(connection_from_link(4, &vec![raw(3, b"lo\0"), raw(16, &[2])]), LinkRead::Down));
    assert!(matches!(connection_from_link(4, &vec![raw(3, &[0xff, 0xfe, 0])]), LinkRead::BadName));
    assert!(matches!(connection_from_link(4, &vec![raw(16, &[])]), LinkRead::EmptyAttr));
    assert!(matches!(connection_from_link(4, &vec![]), LinkRead::Down));
}

#[test]
fn mac_text_reads_back() {
    use_round_trip(&[0x00, 0x1b, 0x44, 0x11, 0x3a, 0xb7]);
    use_round_trip(&[0xff, 0xff, 0xff, 0xff, 0xff, 0xff]);
}

fn use_round_trip(bytes: &[u8; 6]) {
    let text = format_mac(bytes, 6);
    assert_eq!(beacon::mac::parse_mac(&text), Some(*bytes));
}
