use beacon::control::{init_command_transmitter, CommandTransmitter, ResponseTransmitter};
use beacon::daemon::{
    can_renew, residue_safe, ethernet_step, renew_connection, residue_action, EthernetAction, RenewError, RenewPlan,
    ResidueAction,
};
use beacon::dhcp_storage::DhcpFile;
use beacon::types::{CurrentConnection, Interface, InterfaceType};
use beacon::{Command, Response};

fn iface(name: &str, kind: InterfaceType) -> Interface {
    Interface {
        ifindex: Some(2),
        ifname: Some(name.to_string()),
        mac: Some("aa:bb:cc:dd:ee:ff".to_string()),
        iftype: kind,
    }
}

fn record(name: &str) -> CurrentConnection {
    let mut c = CurrentConnection::new();
    c.ifname = Some(name.to_string());
    c.ip_addr = Some(0xC0A8_0105);
    c.mac = Some("01:02:03:04:05:06".to_string());
    c.server_id = Some(0xC0A8_0101);
    c
}

fn lease(name: &str, start: i64) -> DhcpFile {
    DhcpFile {
        ifname: name.to_string(),
        ip_addr: Some(1),
        subnet_mask: None,
        gateway: None,
        dns_servers: vec![],
        server_id: None,
        lease_duration: 100,
        time_initiated: start,
    }
}

#[test]
fn renew_wired_asks_server_directly() {
    let r = renew_connection(&iface("eth0", InterfaceType::Wired), &vec![record("wlan0"), record("eth0")]);
    match r {
        Ok(RenewPlan::Wired { mac, current_ip, server_id }) => {
            assert_eq!(mac, [1, 2, 3, 4, 5, 6]);
            assert_eq!(current_ip, 0xC0A8_0105);
            assert_eq!(server_id, 0xC0A8_0101);
        }
        other => panic!("unexpected plan {:?}", other),
    }
}

#[test]
fn renew_wireless() {
    let r = renew_connection(&iface("wlan0", InterfaceType::Wireless), &vec![record("wlan0")]);
    assert!(matches!(r, Ok(RenewPlan::Wireless { current_ip: 0xC0A8_0105 })));
}

#[test]
fn renew_errors() {
    let w = iface("wlan0", InterfaceType::Wireless);
    let mut c = record("wlan0");
    c.server_id = None;
    let e = renew_connection(&w, &vec![c]).unwrap_err();
    assert_eq!(e, RenewError::NoServerId);
    assert_eq!(e.message(), "No Server ID found.");
    let mut c = record("wlan0");
    c.mac = None;
    let e = renew_connection(&w, &vec![c]).unwrap_err();
    assert_eq!(e, RenewError::NoMac);
    assert_eq!(e.message(), "No MAC Address found.");
    let mut c = record("wlan0");
    c.ip_addr = None;
    let e = renew_connection(&w, &vec![c]).unwrap_err();
    assert_eq!(e, RenewError::NoAddress);
    assert_eq!(e.message(), "No IP Address found.");
}

#[test]
fn ethernet_watcher_rounds() {
    let ifaces = vec![iface("wlan0", InterfaceType::Wireless), iface("eth0", InterfaceType::Wired)];
    match ethernet_step(false, &ifaces) {
        EthernetAction::Connect(i) => assert_eq!(i.ifname.as_deref(), Some("eth0")),
        other => panic!("unexpected action {:?}", other),
    }
    assert!(matches!(ethernet_step(true, &ifaces), EthernetAction::Nothing));
    let wireless_only = vec![iface("wlan0", InterfaceType::Wireless)];
    assert!(matches!(ethernet_step(true, &wireless_only), EthernetAction::MarkDisconnected));
    assert!(matches!(ethernet_step(false, &wireless_only), EthernetAction::Nothing));
}

#[test]
fn residue_decisions() {
    let ifaces = vec![iface("wlan0", InterfaceType::Wireless), iface("eth0", InterfaceType::Wired)];
    assert!(matches!(residue_action(&vec![], &ifaces, 1000), ResidueAction::Nothing));
    assert!(matches!(residue_action(&vec![lease("eth0", 0)], &ifaces, 100), ResidueAction::Clear));
    match residue_action(&vec![lease("eth0", 0)], &ifaces, 99) {
        ResidueAction::Manage(i) => assert_eq!(i.ifname.as_deref(), Some("eth0")),
        other => panic!("unexpected action {:?}", other),
    }
}

#[test]
fn channels_carry_messages() {
    let (sx, rx) = init_command_transmitter();
    assert!(rx.try_recv().is_err());
    sx.send(Command::Ping).unwrap();
    sx.send(Command::Tick).unwrap();
    assert!(matches!(rx.recv().unwrap(), Command::Ping));
    assert!(matches!(rx.recv().unwrap(), Command::Tick));
    assert!(rx.try_recv().is_err());
    let c = CommandTransmitter::default();
    c.sx.send(Command::Tick).unwrap();
    assert!(matches!(c.rx.recv().unwrap(), Command::Tick));
    let r = ResponseTransmitter::default();
    r.sx.send(Response::Pong).unwrap();
    assert!(matches!(r.rx.recv().unwrap(), Response::Pong));
}

#[test]
fn renewal_and_residue_preconditions() {
    let w = iface("wlan0", InterfaceType::Wireless);
    assert!(can_renew(&w, &vec![record("wlan0")]));
    assert!(!can_renew(&w, &vec![record("eth0")]));
    let mut bad = record("wlan0");
    bad.mac = Some("zz:zz".to_string());
    assert!(!can_renew(&w, &vec![bad]));
    let mut no_ip = record("wlan0");
    no_ip.ip_addr = None;
    no_ip.mac = Some("zz".to_string());
    assert!(can_renew(&w, &vec![no_ip]));

    let ifaces = vec![iface("wlan0", InterfaceType::Wireless), iface("eth0", InterfaceType::Wired)];
    assert!(residue_safe(&vec![], &ifaces, 0));
    assert!(residue_safe(&vec![lease("eth0", 0)], &ifaces, 50));
    assert!(!residue_safe(&vec![lease("usb0", 0)], &ifaces, 50));
    assert!(residue_safe(&vec![lease("usb0", 0)], &ifaces, 500));
    let mut unnamed = Interface::new();
    unnamed.iftype = InterfaceType::Unknown;
    assert!(!residue_safe(&vec![lease("eth0", 0)], &vec![unnamed], 50));
    assert!(!residue_safe(&vec![lease("eth0", i64::MAX)], &ifaces, 50));
}
