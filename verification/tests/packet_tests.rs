use beacon::backend::after_join;
use beacon::dhcp_out::{
    after_discovery_wait, discover_message, discovery_fields, request_fields, discovery_frame, release_message, release_packet,
    request_message, wired_request_packet, wireless_request_message, wireless_request_packet,
    DhcpKind, DiscoverNext, OutOption, DISCOVER_ATTEMPTS, OFFER_WAIT_SECS,
};
use beacon::frontend::{App, Key, Tab};
use beacon::types::{Connection, Host, Interface, InterfaceType};

const MAC: [u8; 6] = [0x02, 0x11, 0x22, 0x33, 0x44, 0x55];

fn params_of(o: &OutOption) -> Option<Vec<u8>> {
    match o {
        OutOption::Params(p) => Some(p.clone()),
        _ => None,
    }
}

#[test]
fn discovery_message_fields() {
    let m = discover_message(MAC, 0xdead_beef);
    assert!(!m.reply);
    assert_eq!(m.xid, 0xdead_beef);
    assert!(m.broadcast);
    assert_eq!(m.ciaddr, 0);
    assert_eq!(m.chaddr, MAC);
    assert_eq!(m.options.len(), 2);
    assert!(matches!(m.options[0], OutOption::Kind(DhcpKind::Discover)));
    assert_eq!(params_of(&m.options[1]), Some(vec![2, 3, 6, 15, 51]));
}

#[test]
fn wired_request_goes_to_server_or_everyone() {
    let (m, dest) = request_message(MAC, 7, 0xC0A8_0105, 0xC0A8_0101, false);
    assert_eq!(dest, 0xC0A8_0101);
    assert!(!m.broadcast);
    assert_eq!(m.ciaddr, 0xC0A8_0105);
    assert!(matches!(m.options[0], OutOption::Kind(DhcpKind::Request)));
    assert_eq!(params_of(&m.options[1]), Some(vec![1, 3, 6, 15, 51]));
    let (m, dest) = request_message(MAC, 7, 0xC0A8_0105, 0xC0A8_0101, true);
    assert_eq!(dest, 0xffff_ffff);
    assert!(m.broadcast);
}

#[test]
fn wireless_request_names_address_and_server() {
    let m = wireless_request_message(MAC, 9, 0x0A00_0002, Some(0x0A00_0001));
    assert_eq!(m.options.len(), 4);
    assert!(matches!(m.options[1], OutOption::RequestedIp(0x0A00_0002)));
    assert!(matches!(m.options[2], OutOption::ServerId(0x0A00_0001)));
    let m = wireless_request_message(MAC, 9, 0x0A00_0002, None);
    assert_eq!(m.options.len(), 3);
    assert_eq!(params_of(&m.options[2]), Some(vec![1, 3, 6, 15, 51]));
}

#[test]
fn release_message_fields() {
    let m = release_message(MAC, 3, 0x0A00_0002);
    assert!(!m.broadcast);
    assert_eq!(m.ciaddr, 0x0A00_0002);
    assert_eq!(m.options.len(), 1);
    assert!(matches!(m.options[0], OutOption::Kind(DhcpKind::Release)));
}

#[test]
fn encoded_request_bytes() {
    let (m, bytes, dest) = wired_request_packet(MAC, 0x0102_0304, 0xC0A8_0105, 0xC0A8_0101, true);
    assert_eq!(dest, 0xffff_ffff);
    assert_eq!(m.xid, 0x0102_0304);
    assert_eq!(bytes.len(), 272);
    assert_eq!(&bytes[0..4], &[1, 1, 6, 0]);
    assert_eq!(&bytes[4..8], &[1, 2, 3, 4]);
    assert_eq!(bytes[10], 128);
    assert_eq!(&bytes[12..16], &[192, 168, 1, 5]);
    assert_eq!(&bytes[28..34], &MAC);
    assert_eq!(&bytes[236..240], &[99, 130, 83, 99]);
    assert_eq!(&bytes[240..243], &[53, 1, 3]);
    assert_eq!(&bytes[243..250], &[55, 5, 1, 3, 6, 15, 51]);
    assert_eq!(bytes[250], 255);
    assert!(bytes[251..].iter().all(|b| *b == 0));
}

#[test]
fn encoded_wireless_request_and_release() {
    let (m, bytes) = wireless_request_packet(MAC, 1, 0x0A00_0002, Some(0x0A00_0001));
    assert_eq!(m.options.len(), 4);
    assert_eq!(&bytes[240..243], &[53, 1, 3]);
    assert_eq!(&bytes[243..249], &[50, 4, 10, 0, 0, 2]);
    assert_eq!(&bytes[249..255], &[54, 4, 10, 0, 0, 1]);
    let bytes = release_packet(MAC, 1, 0x0A00_0002);
    assert_eq!(bytes[10], 0);
    assert_eq!(&bytes[240..244], &[53, 1, 7, 255]);
}

#[test]
fn discovery_frame_wraps_the_discovery() {
    let (m, frame) = discovery_frame(MAC, 0x0102_0304);
    assert_eq!(m.xid, 0x0102_0304);
    let frame = frame.expect("frame");
    assert_eq!(frame.len(), 14 + 20 + 8 + 272);
    assert_eq!(&frame[0..6], &[255; 6]);
    assert_eq!(&frame[6..12], &MAC);
    assert_eq!(&frame[12..14], &[0x08, 0x00]);
    assert_eq!(frame[22], 64);
    assert_eq!(frame[23], 17);
    assert_eq!(&frame[26..30], &[0, 0, 0, 0]);
    assert_eq!(&frame[30..34], &[255; 4]);
    assert_eq!(&frame[34..38], &[0, 68, 0, 67]);
    assert_eq!(&frame[42..46], &[1, 1, 6, 0]);
    assert_eq!(&frame[46..50], &[1, 2, 3, 4]);
    assert_eq!(&frame[42 + 240..42 + 243], &[53, 1, 1]);
}

#[test]
fn discovery_gives_up_after_five() {
    assert_eq!(DISCOVER_ATTEMPTS, 5);
    assert_eq!(OFFER_WAIT_SECS, 3);
    for sent in 1..5 {
        assert!(matches!(after_discovery_wait(sent), DiscoverNext::Resend));
    }
    match after_discovery_wait(5) {
        DiscoverNext::GiveUp(e) => assert_eq!(e, "Failed after retry."),
        other => panic!("unexpected outcome {:?}", other),
    }
}

fn conn(ssid: &str, bssid: &str) -> Connection {
    Connection { ssid: ssid.to_string(), bssid: bssid.to_string(), password: "pw".to_string() }
}

#[test]
fn join_clears_rejection_and_saves() {
    let mut rejected = vec!["x".to_string(), "home".to_string(), "home".to_string()];
    let mut history = vec![conn("cafe", "B1")];
    assert!(after_join(true, conn("home", "B2"), &mut rejected, &mut history));
    assert_eq!(rejected, vec!["x".to_string(), "home".to_string()]);
    assert_eq!(history.len(), 2);
    assert_eq!(history[1].bssid, "B2");
    assert!(!after_join(true, conn("home", "B2"), &mut rejected, &mut history));
    assert_eq!(history.len(), 2);
    assert_eq!(rejected, vec!["x".to_string()]);
}

#[test]
fn failed_join_changes_nothing() {
    let mut rejected = vec!["home".to_string()];
    let mut history = vec![conn("cafe", "B1")];
    assert!(!after_join(false, conn("home", "B2"), &mut rejected, &mut history));
    assert_eq!(rejected, vec!["home".to_string()]);
    assert_eq!(history.len(), 1);
}

fn iface(name: &str, index: u32) -> Interface {
    Interface { ifindex: Some(index), ifname: Some(name.to_string()), mac: None, iftype: InterfaceType::Wireless }
}

fn host(ssid: &str) -> Host {
    Host { bssid: Some(ssid.to_string()), ssid: Some(ssid.to_string()), frequency: None, signal: None, is_connected: false }
}

#[test]
fn up_then_down_on_hosts_returns() {
    let mut app = App::new();
    app.set_interfaces(vec![iface("wlan0", 3)]);
    app.set_hosts(vec![host("a"), host("b"), host("c")], "wlan0");
    app.handle_keys(Key::Down);
    app.handle_keys(Key::Tab);
    assert_eq!(app.active_tab, Tab::Hosts);
    app.handle_keys(Key::Down);
    assert_eq!(app.host_index, Some(0));
    assert!(app.handle_keys(Key::Up).is_none());
    assert_eq!(app.host_index, Some(2));
    assert!(app.handle_keys(Key::Down).is_none());
    assert_eq!(app.host_index, Some(0));
    app.handle_keys(Key::Down);
    assert_eq!(app.host_index, Some(1));
    app.handle_keys(Key::Up);
    assert_eq!(app.host_index, Some(0));
}

#[test]
fn interface_fields_in_order() {
    use_fields();
}

fn use_fields() {
    let full = Interface { ifindex: Some(3), ifname: Some("eth0".to_string()), mac: Some("02:00:00:00:00:09".to_string()), iftype: InterfaceType::Wired };
    assert_eq!(discovery_fields(&full), Ok(("eth0".to_string(), 3, "02:00:00:00:00:09".to_string())));
    assert_eq!(request_fields(&full), Ok(("02:00:00:00:00:09".to_string(), 3, "eth0".to_string())));
    let bare = Interface { ifindex: None, ifname: None, mac: None, iftype: InterfaceType::Wired };
    assert_eq!(discovery_fields(&bare), Err("No ifname.".to_string()));
    assert_eq!(request_fields(&bare), Err("No MAC for interface.".to_string()));
    let no_index = Interface { ifindex: None, ..full.clone() };
    assert_eq!(discovery_fields(&no_index), Err("No ifindex.".to_string()));
    assert_eq!(request_fields(&no_index), Err("No ifindex.".to_string()));
    let no_mac = Interface { mac: None, ..full.clone() };
    assert_eq!(discovery_fields(&no_mac), Err("No MAC.".to_string()));
    let no_name = Interface { ifname: None, ..full };
    assert_eq!(request_fields(&no_name), Err("No ifname.".to_string()));
}
