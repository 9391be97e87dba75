use beacon::daemon::wired_request;
use beacon::dhcp::{
    generate_client_id, lease_action, offer_step, request_step, validate_packet, DhcpValue,
    LeaseAction, PacketError, ReplyStep,
};
use beacon::dhcp_out::{discover_message, request_message, DhcpOut};
use beacon::types::DhcpLease;

const MAC: [u8; 6] = [2, 0, 0, 0, 0, 9];

fn req(xid: u32) -> DhcpOut {
    request_message(MAC, xid, 0xC0A8_0109, 0xC0A8_0101, true).0
}
use dhcp4r::options::{DhcpOption, MessageType};
use dhcp4r::packet::Packet;

fn packet(xid: u32, yiaddr: [u8; 4], options: Vec<DhcpOption>) -> Vec<u8> {
    let p = Packet {
        reply: true,
        hops: 0,
        xid,
        secs: 0,
        broadcast: false,
        ciaddr: [0, 0, 0, 0].into(),
        yiaddr: yiaddr.into(),
        siaddr: [0, 0, 0, 0].into(),
        giaddr: [0, 0, 0, 0].into(),
        chaddr: [1, 2, 3, 4, 5, 6],
        options,
    };
    let mut buf = [0u8; 1500];
    p.encode(&mut buf).to_vec()
}

fn frame(payload: &[u8], dest_port: u16) -> Vec<u8> {
    let mut f = vec![0u8; 42];
    f[14] = 0x45;
    f[23] = 17;
    f[34] = 0;
    f[35] = 67;
    f[36] = (dest_port >> 8) as u8;
    f[37] = (dest_port & 0xff) as u8;
    f.extend_from_slice(payload);
    f
}

fn ack_options() -> Vec<DhcpOption> {
    vec![
        DhcpOption::DhcpMessageType(MessageType::Ack),
        DhcpOption::ServerIdentifier([192, 168, 1, 1].into()),
        DhcpOption::IpAddressLeaseTime(86400),
        DhcpOption::Router(vec![[192, 168, 1, 254].into()]),
        DhcpOption::DomainNameServer(vec![[8, 8, 8, 8].into(), [1, 1, 1, 1].into()]),
    ]
}

#[test]
fn validate_packet_decodes_dhcp_reply() {
    let f = frame(&packet(0x1234, [192, 168, 1, 5], ack_options()), 68);
    let reply = validate_packet(&f, f.len()).unwrap().unwrap();
    assert_eq!(reply.xid, 0x1234);
    assert_eq!(reply.yiaddr, 0xC0A8_0105);
    assert!(matches!(reply.options[0], DhcpValue::MessageType(5)));
    assert!(matches!(reply.options[1], DhcpValue::ServerIdentifier(0xC0A8_0101)));
    assert!(matches!(reply.options[2], DhcpValue::LeaseTime(86400)));
}

#[test]
fn validate_packet_ignores_other_traffic() {
    let p = packet(1, [10, 0, 0, 2], ack_options());
    let f = frame(&p, 53);
    assert!(validate_packet(&f, f.len()).unwrap().is_none());
    let mut tcp = frame(&p, 68);
    tcp[23] = 6;
    assert!(validate_packet(&tcp, tcp.len()).unwrap().is_none());
    let short = vec![0u8; 30];
    assert!(validate_packet(&short, short.len()).unwrap().is_none());
}

#[test]
fn validate_packet_rejects_garbage_payload() {
    let f = frame(&[1, 2, 3], 68);
    let e = validate_packet(&f, f.len()).unwrap_err();
    assert_eq!(e, PacketError::Undecodable);
    assert_eq!(e.message(), "Failed to parse DHCP Packet.");
}

#[test]
fn request_step_acknowledged() {
    let f = frame(&packet(77, [192, 168, 1, 5], ack_options()), 68);
    let mut lease = DhcpLease::empty();
    let r = request_step(&mut lease, &f, f.len(), &req(77), 0xC0A8_0109).unwrap();
    assert_eq!(r, ReplyStep::Acknowledged);
    assert_eq!(lease.ip_addr, Some(0xC0A8_0105));
    assert_eq!(lease.server_id, Some(0xC0A8_0101));
    assert_eq!(lease.gateway, Some(0xC0A8_01FE));
    assert_eq!(lease.dns_servers, vec![0x0808_0808, 0x0101_0101]);
    assert_eq!(lease.lease_duration, 86400);
    let sent = lease.offer.as_ref().expect("request kept");
    assert_eq!(sent.xid, 77);
    assert_eq!(sent.chaddr, MAC);
}

#[test]
fn request_step_ack_without_yiaddr_keeps_requested_ip() {
    let f = frame(&packet(77, [0, 0, 0, 0], ack_options()), 68);
    let mut lease = DhcpLease::empty();
    let r = request_step(&mut lease, &f, f.len(), &req(77), 0xC0A8_0109).unwrap();
    assert_eq!(r, ReplyStep::Acknowledged);
    assert_eq!(lease.ip_addr, Some(0xC0A8_0109));
}

#[test]
fn request_step_nak_and_other_xid() {
    let nak = vec![
        DhcpOption::DhcpMessageType(MessageType::Nak),
        DhcpOption::IpAddressLeaseTime(10),
    ];
    let f = frame(&packet(77, [192, 168, 1, 5], nak), 68);
    let mut lease = DhcpLease::empty();
    assert_eq!(request_step(&mut lease, &f, f.len(), &req(77), 1).unwrap(), ReplyStep::Pending);
    assert_eq!(lease.lease_duration, 0);
    assert!(lease.offer.is_none());
    assert!(lease.ip_addr.is_none());
    let other = frame(&packet(78, [192, 168, 1, 5], ack_options()), 68);
    assert_eq!(request_step(&mut lease, &other, other.len(), &req(77), 1).unwrap(), ReplyStep::Ignored);
    assert!(lease.ip_addr.is_none());
}

#[test]
fn offer_step_takes_offer() {
    let opts = vec![
        DhcpOption::DhcpMessageType(MessageType::Offer),
        DhcpOption::ServerIdentifier([10, 0, 0, 1].into()),
        DhcpOption::Router(vec![[10, 0, 0, 1].into()]),
    ];
    let f = frame(&packet(9, [10, 0, 0, 7], opts), 68);
    let mut offer = DhcpLease::empty();
    let got = offer_step(&mut offer, &f, f.len(), &discover_message(MAC, 9)).unwrap().unwrap();
    assert_eq!(got.ip_addr, Some(0x0A00_0007));
    assert_eq!(got.server_id, Some(0x0A00_0001));
    assert_eq!(got.offer.as_ref().map(|m| m.xid), Some(9));
    assert_eq!(wired_request(&got), Some((MAC, 0x0A00_0001, 0x0A00_0007)));
}

#[test]
fn offer_step_waits_for_an_address() {
    let opts = vec![DhcpOption::Router(vec![[10, 0, 0, 1].into()])];
    let f = frame(&packet(9, [10, 0, 0, 7], opts), 68);
    let mut offer = DhcpLease::empty();
    assert!(offer_step(&mut offer, &f, f.len(), &discover_message(MAC, 9)).unwrap().is_none());
    assert_eq!(offer.gateway, Some(0x0A00_0001));
    assert_eq!(wired_request(&offer), None);
}

#[test]
fn lease_action_phases() {
    // lease of 1000 s granted at t = 0
    assert_eq!(lease_action(100, 0, 1000), LeaseAction::Wait(400));
    assert_eq!(lease_action(100, 0, 3600), LeaseAction::Wait(1700));
    assert_eq!(lease_action(600, 0, 1000), LeaseAction::Renew { broadcast: false });
    assert_eq!(lease_action(875, 0, 1000), LeaseAction::Renew { broadcast: false });
    assert_eq!(lease_action(876, 0, 1000), LeaseAction::Renew { broadcast: true });
}

#[test]
fn client_id_from_mac() {
    assert_eq!(
        generate_client_id([0xaa, 0xbb, 0xcc, 0xdd, 0xee, 0xff]),
        vec![0, 3, 0, 1, 0xaa, 0xbb, 0xcc, 0xdd, 0xee, 0xff]
    );
}
