use beacon::daemon::AckStep;
use beacon::family::FamilyRead;
use beacon::nlmsg::{
    frame_safe, read_ack, read_addr_dump, read_family_reply, read_genl_messages, read_link_dump,
    read_link_event, read_route_reply, read_scan_dump, read_trigger_reply, read_up_dump, AckReply,
    AddrFind, DumpRead, FamilyReply, GenlItem, GenlRead, LinkEvent, RouteReply, TriggerReply,
};
use beacon::requests::{
    add_address_request, address_query_request, be_bytes, default_route_request, family_request,
    interface_dump_request, link_down_request, link_dump_request, link_up_request, removal_requests,
    route_query_request, scan_dump_request, trigger_scan_request,
};
use beacon::scan::TriggerStep;
use beacon::types::InterfaceType;

fn nla(t: u16, payload: &[u8]) -> Vec<u8> {
    let len = (4 + payload.len()) as u16;
    let mut v = Vec::new();
    v.extend_from_slice(&len.to_ne_bytes());
    v.extend_from_slice(&t.to_ne_bytes());
    v.extend_from_slice(payload);
    while v.len() % 4 != 0 {
        v.push(0);
    }
    v
}

fn nlmsg(kind: u16, flags: u16, payload: &[u8]) -> Vec<u8> {
    let len = (16 + payload.len()) as u32;
    let mut v = Vec::new();
    v.extend_from_slice(&len.to_ne_bytes());
    v.extend_from_slice(&kind.to_ne_bytes());
    v.extend_from_slice(&flags.to_ne_bytes());
    v.extend_from_slice(&0u32.to_ne_bytes());
    v.extend_from_slice(&0u32.to_ne_bytes());
    v.extend_from_slice(payload);
    while v.len() % 4 != 0 {
        v.push(0);
    }
    v
}

fn genl(cmd: u8, attrs: &[u8]) -> Vec<u8> {
    let mut v = vec![cmd, 1, 0, 0];
    v.extend_from_slice(attrs);
    v
}

fn ifinfo(index: i32, flags: u32, attrs: &[u8]) -> Vec<u8> {
    let mut v = vec![0u8, 0];
    v.extend_from_slice(&1u16.to_ne_bytes());
    v.extend_from_slice(&index.to_ne_bytes());
    v.extend_from_slice(&flags.to_ne_bytes());
    v.extend_from_slice(&0u32.to_ne_bytes());
    v.extend_from_slice(attrs);
    v
}

fn error_msg(code: i32) -> Vec<u8> {
    let mut p = code.to_ne_bytes().to_vec();
    p.extend(nlmsg(20, 5, &[]));
    nlmsg(2, 0, &p)
}

fn done_msg() -> Vec<u8> {
    nlmsg(3, 2, &0i32.to_ne_bytes())
}

fn bss(ssid: &[u8], freq: u32) -> Vec<u8> {
    let mut ies = vec![0u8, ssid.len() as u8];
    ies.extend_from_slice(ssid);
    let mut b = nla(1, &[0xaa, 0xbb, 0xcc, 0xdd, 0xee, 0x01]);
    b.extend(nla(2, &freq.to_le_bytes()));
    b.extend(nla(6, &ies));
    b
}

#[test]
fn scan_dump_collects_hosts_until_done() {
    let mut buf = nlmsg(28, 2, &genl(34, &nla(47, &bss(b"home", 2412))));
    buf.extend(nlmsg(28, 2, &genl(34, &nla(47, &bss(b"cafe", 5180)))));
    buf.extend(done_msg());
    match read_scan_dump(&buf) {
        DumpRead::Done(hosts) => {
            assert_eq!(hosts.len(), 2);
            assert_eq!(hosts[0].ssid.as_deref(), Some("home"));
            assert_eq!(hosts[0].bssid.as_deref(), Some("AA:BB:CC:DD:EE:01"));
            assert_eq!(hosts[1].frequency, Some(5180));
        }
        other => panic!("unexpected outcome {:?}", other),
    }
}

#[test]
fn scan_dump_without_end_asks_for_more() {
    let buf = nlmsg(28, 2, &genl(34, &nla(47, &bss(b"home", 2412))));
    match read_scan_dump(&buf) {
        DumpRead::More(hosts) => assert_eq!(hosts.len(), 1),
        other => panic!("unexpected outcome {:?}", other),
    }
    assert!(matches!(read_scan_dump(&[]), DumpRead::More(h) if h.is_empty()));
}

#[test]
fn scan_dump_reports_kernel_error() {
    let mut buf = nlmsg(28, 2, &genl(34, &nla(47, &bss(b"home", 2412))));
    buf.extend(error_msg(-19));
    assert!(matches!(read_scan_dump(&buf), DumpRead::Failed(-19)));
}

#[test]
fn scan_dump_rejects_truncated_message() {
    let mut buf = nlmsg(28, 2, &genl(34, &[]));
    buf.truncate(18);
    buf[0] = 60;
    assert!(matches!(read_scan_dump(&buf), DumpRead::Unreadable));
}

#[test]
fn short_length_field_is_unsafe() {
    let mut buf = nlmsg(28, 2, &genl(34, &[]));
    buf[0] = 8;
    buf[1] = 0;
    buf[2] = 0;
    buf[3] = 0;
    assert!(!frame_safe(&buf, 0));
    assert!(matches!(read_scan_dump(&buf), DumpRead::Unsafe));
    assert!(frame_safe(&error_msg(-1), 0));
    assert!(frame_safe(&done_msg(), 0));
}

#[test]
fn family_reply_reads_family() {
    let mut group = nla(2, &7u32.to_le_bytes());
    group.extend(nla(1, b"scan\0"));
    let mut attrs = nla(2, b"nl80211\0");
    attrs.extend(nla(1, &28u16.to_ne_bytes()));
    attrs.extend(nla(7, &nla(1, &group)));
    let buf = nlmsg(16, 0, &genl(1, &attrs));
    match read_family_reply(&buf) {
        FamilyReply::Family(FamilyRead::Read(info)) => {
            assert_eq!(info.name, "nl80211");
            assert_eq!(info.id, 28);
            assert_eq!(info.scan_group_id, 7);
        }
        other => panic!("unexpected outcome {:?}", other),
    }
    assert!(matches!(read_family_reply(&error_msg(-2)), FamilyReply::Failed(-2)));
    assert!(matches!(read_family_reply(&[]), FamilyReply::Unreadable));
}

#[test]
fn trigger_reply_follows_scan_events() {
    let done = nlmsg(28, 0, &genl(34, &[]));
    assert!(matches!(read_trigger_reply(&done), TriggerReply::Step(TriggerStep::Done)));
    let aborted = nlmsg(28, 0, &genl(35, &[]));
    assert!(matches!(read_trigger_reply(&aborted), TriggerReply::Step(TriggerStep::Aborted)));
    assert!(matches!(read_trigger_reply(&error_msg(-16)), TriggerReply::Step(TriggerStep::Wait)));
    assert!(matches!(read_trigger_reply(&error_msg(-1)), TriggerReply::Step(TriggerStep::Failed(-1))));
}

#[test]
fn ack_reply_decisions() {
    let mut ack = 0i32.to_ne_bytes().to_vec();
    ack.extend(nlmsg(20, 5, &[]));
    assert!(matches!(read_ack(&nlmsg(2, 0, &ack)), AckReply::Step(AckStep::Done)));
    assert!(matches!(read_ack(&error_msg(-99)), AckReply::Step(AckStep::Failed(-99))));
    assert!(matches!(read_ack(&done_msg()), AckReply::Step(AckStep::Done)));
    assert!(matches!(read_ack(&nlmsg(20, 0, &[0u8; 8])), AckReply::Step(AckStep::Done)));
    let mut coded = (-17i32).to_ne_bytes().to_vec();
    coded.extend_from_slice(&[0, 0, 0, 0]);
    assert!(matches!(read_ack(&nlmsg(20, 0, &coded)), AckReply::Step(AckStep::Failed(-17))));
    assert!(matches!(read_ack(&nlmsg(20, 0, &[0, 0, 0, 0])), AckReply::Unsafe));
}

#[test]
fn link_dump_reads_interfaces() {
    let mut a = nla(3, b"wlp2s0\0");
    a.extend(nla(1, &[1, 2, 3, 4, 5, 6]));
    let mut b = nla(3, b"eth0\0");
    b.extend(nla(1, &[1, 2, 3]));
    let mut c = nla(3, b"mesh0\0");
    c.extend(nla(16, &[6]));
    let mut buf = nlmsg(16, 2, &ifinfo(3, 0x41, &a));
    buf.extend(nlmsg(16, 2, &ifinfo(2, 0, &b)));
    buf.extend(nlmsg(16, 2, &ifinfo(5, 0, &c)));
    buf.extend(done_msg());
    let wireless = vec!["mesh0".to_string()];
    match read_link_dump(&buf, &wireless) {
        DumpRead::Done(ifaces) => {
            assert_eq!(ifaces.len(), 3);
            assert_eq!(ifaces[0].ifindex, Some(3));
            assert_eq!(ifaces[0].ifname.as_deref(), Some("wlp2s0"));
            assert_eq!(ifaces[0].mac.as_deref(), Some("01:02:03:04:05:06"));
            assert_eq!(ifaces[0].iftype, InterfaceType::Wireless);
            assert_eq!(ifaces[1].iftype, InterfaceType::Wired);
            assert!(ifaces[1].mac.is_none());
            assert_eq!(ifaces[2].iftype, InterfaceType::Wireless);
        }
        other => panic!("unexpected outcome {:?}", other),
    }
    let bad = nlmsg(16, 2, &ifinfo(3, 0, &nla(3, &[0xff, 0xfe, 0])));
    assert!(matches!(read_link_dump(&bad, &vec![]), DumpRead::Unreadable));
}

#[test]
fn up_dump_keeps_links_that_are_up() {
    let mut up = nla(3, b"wlan0\0");
    up.extend(nla(16, &[6]));
    let mut down = nla(3, b"eth0\0");
    down.extend(nla(16, &[2]));
    let mut buf = nlmsg(16, 2, &ifinfo(4, 0x41, &up));
    buf.extend(nlmsg(16, 2, &ifinfo(2, 0, &down)));
    buf.extend(done_msg());
    match read_up_dump(&buf) {
        DumpRead::Done(conns) => {
            assert_eq!(conns.len(), 1);
            assert_eq!(conns[0].ifindex, Some(4));
            assert_eq!(conns[0].ifname.as_deref(), Some("wlan0"));
        }
        other => panic!("unexpected outcome {:?}", other),
    }
    let empty_state = nlmsg(16, 2, &ifinfo(4, 0, &nla(16, &[])));
    assert!(matches!(read_up_dump(&empty_state), DumpRead::Unsafe));
}

#[test]
fn route_reply_gives_output_interface() {
    let mut rt = vec![2u8, 32, 0, 0, 254, 0, 0, 1];
    rt.extend_from_slice(&0u32.to_ne_bytes());
    let mut with_oif = rt.clone();
    with_oif.extend(nla(4, &3u32.to_ne_bytes()));
    assert!(matches!(read_route_reply(&nlmsg(24, 0, &with_oif)), RouteReply::Index(Some(3))));
    assert!(matches!(read_route_reply(&nlmsg(24, 0, &rt)), RouteReply::Index(None)));
    let mut short = rt.clone();
    short.extend(nla(4, &[3, 0]));
    assert!(matches!(read_route_reply(&nlmsg(24, 0, &short)), RouteReply::ShortIndex));
    assert!(matches!(read_route_reply(&error_msg(-101)), RouteReply::Failed(-101)));
}

#[test]
fn link_event_tells_lost_link() {
    assert!(matches!(read_link_event(&nlmsg(16, 0, &ifinfo(3, 0, &[])), 3), LinkEvent::Lost));
    assert!(matches!(read_link_event(&nlmsg(16, 0, &ifinfo(3, 0x41, &[])), 3), LinkEvent::Stay));
    assert!(matches!(read_link_event(&nlmsg(16, 0, &ifinfo(4, 0, &[])), 3), LinkEvent::Stay));
    assert!(matches!(read_link_event(&error_msg(-5), 3), LinkEvent::Failed(-5)));
}

#[test]
fn removal_requests_are_laid_out() {
    let (addr, route) = removal_requests(3, 0xC0A8_0105, 24, 0xC0A8_0101);
    let mut expect_addr = vec![2u8, 24, 0, 0];
    expect_addr.extend_from_slice(&3u32.to_ne_bytes());
    expect_addr.extend(nla(2, &[192, 168, 1, 5]));
    assert_eq!(addr, nlmsg(21, 5, &expect_addr));
    let mut expect_route = vec![2u8, 0, 0, 0, 0, 0, 0, 1];
    expect_route.extend_from_slice(&0u32.to_ne_bytes());
    expect_route.extend(nla(5, &[192, 168, 1, 1]));
    assert_eq!(route, nlmsg(25, 5, &expect_route));
    assert_eq!(be_bytes(0x0102_0304), vec![1, 2, 3, 4]);
}

fn ifaddr(index: u32, attrs: &[u8]) -> Vec<u8> {
    let mut v = vec![2u8, 24, 0, 0];
    v.extend_from_slice(&index.to_ne_bytes());
    v.extend_from_slice(attrs);
    v
}

#[test]
fn address_dump_finds_interface_address() {
    let mut buf = nlmsg(20, 2, &ifaddr(2, &nla(2, &[10, 0, 0, 9])));
    buf.extend(nlmsg(20, 2, &ifaddr(3, &nla(2, &[192, 168, 1, 5]))));
    buf.extend(done_msg());
    assert!(matches!(read_addr_dump(&buf, 3), AddrFind::Found(0xC0A8_0105)));
    assert!(matches!(read_addr_dump(&buf, 7), AddrFind::NotFound));
    assert!(matches!(read_addr_dump(&error_msg(-22), 3), AddrFind::Failed(-22)));
    let mut short = nlmsg(20, 2, &ifaddr(3, &nla(2, &[192, 168])));
    short.extend(nlmsg(20, 2, &ifaddr(3, &nla(1, &[10, 1, 1, 1]))));
    assert!(matches!(read_addr_dump(&short, 3), AddrFind::Found(0x0A01_0101)));
}

#[test]
fn generic_messages_in_order() {
    let mut buf = nlmsg(28, 2, &genl(7, &nla(3, &4u32.to_ne_bytes())));
    buf.extend(error_msg(-95));
    buf.extend(done_msg());
    match read_genl_messages(&buf) {
        GenlRead::Items(items) => {
            assert_eq!(items.len(), 3);
            match &items[0] {
                GenlItem::Attrs(a) => {
                    assert_eq!(a.len(), 1);
                    assert_eq!(a[0].kind, 3);
                    assert_eq!(a[0].payload, 4u32.to_ne_bytes().to_vec());
                }
                other => panic!("unexpected item {:?}", other),
            }
            assert!(matches!(items[1], GenlItem::Error(-95)));
            assert!(matches!(items[2], GenlItem::Other));
        }
        other => panic!("unexpected outcome {:?}", other),
    }
    assert!(matches!(read_genl_messages(&[]), GenlRead::Items(v) if v.is_empty()));
}

#[test]
fn generic_requests_are_laid_out() {
    assert_eq!(family_request(), nlmsg(16, 5, &genl(3, &nla(2, b"nl80211\0"))));
    assert_eq!(trigger_scan_request(28, 4), nlmsg(28, 5, &genl(33, &nla(3, &4u32.to_ne_bytes()))));
    assert_eq!(scan_dump_request(28, 4), nlmsg(28, 0x301, &genl(32, &nla(3, &4u32.to_ne_bytes()))));
    assert_eq!(interface_dump_request(28), nlmsg(28, 0x301, &genl(5, &[])));
}

#[test]
fn route_netlink_requests_are_laid_out() {
    let mut link = vec![0u8, 0];
    link.extend_from_slice(&0xfffeu16.to_ne_bytes());
    link.extend_from_slice(&0i32.to_ne_bytes());
    link.extend_from_slice(&0u32.to_ne_bytes());
    link.extend_from_slice(&0u32.to_ne_bytes());
    assert_eq!(link_dump_request(), nlmsg(18, 0x301, &link));
    let mut down = vec![0u8, 0];
    down.extend_from_slice(&1u16.to_ne_bytes());
    down.extend_from_slice(&3i32.to_ne_bytes());
    down.extend_from_slice(&0u32.to_ne_bytes());
    down.extend_from_slice(&1u32.to_ne_bytes());
    assert_eq!(link_down_request(3), nlmsg(19, 5, &down));
    let mut up = vec![0u8, 0];
    up.extend_from_slice(&1u16.to_ne_bytes());
    up.extend_from_slice(&3i32.to_ne_bytes());
    up.extend_from_slice(&0x41u32.to_ne_bytes());
    up.extend_from_slice(&0x41u32.to_ne_bytes());
    assert_eq!(link_up_request(3), nlmsg(19, 5, &up));
    let mut query = vec![2u8, 32, 0, 0, 254, 0, 0, 1];
    query.extend_from_slice(&0u32.to_ne_bytes());
    query.extend(nla(1, &[8, 8, 8, 8]));
    assert_eq!(route_query_request(), nlmsg(26, 1, &query));
    let mut addr = vec![2u8, 0, 0, 0];
    addr.extend_from_slice(&3u32.to_ne_bytes());
    assert_eq!(address_query_request(3), nlmsg(22, 0x301, &addr));
    let mut add = vec![2u8, 24, 0, 0];
    add.extend_from_slice(&3u32.to_ne_bytes());
    add.extend(nla(2, &[192, 168, 1, 5]));
    assert_eq!(add_address_request(3, 0xC0A8_0105), nlmsg(20, 0x405, &add));
    let mut route = vec![2u8, 0, 0, 0, 254, 3, 0, 1];
    route.extend_from_slice(&0u32.to_ne_bytes());
    route.extend(nla(4, &3u32.to_ne_bytes()));
    route.extend(nla(5, &[192, 168, 1, 1]));
    assert_eq!(default_route_request(3, 0xC0A8_0101), nlmsg(24, 0x405, &route));
}

fn short_length(mut m: Vec<u8>) -> Vec<u8> {
    m[0] = 8;
    m[1] = 0;
    m[2] = 0;
    m[3] = 0;
    m
}

#[test]
fn replies_with_short_lengths_are_unsafe() {
    let m = short_length(nlmsg(16, 0, &genl(1, &[])));
    assert!(matches!(read_family_reply(&m), FamilyReply::Unsafe));
    assert!(matches!(read_trigger_reply(&m), TriggerReply::Unsafe));
    assert!(matches!(read_ack(&m), AckReply::Unsafe));
    assert!(matches!(read_route_reply(&m), RouteReply::Unsafe));
    assert!(matches!(read_link_event(&m, 3), LinkEvent::Unsafe));
    assert!(matches!(read_link_dump(&m, &vec![]), DumpRead::Unsafe));
    assert!(matches!(read_up_dump(&m), DumpRead::Unsafe));
    assert!(matches!(read_addr_dump(&m, 3), AddrFind::Unsafe));
    assert!(matches!(read_genl_messages(&m), GenlRead::Unsafe));
}

#[test]
fn replies_that_do_not_read() {
    let mut cut = nlmsg(16, 0, &genl(1, &[]));
    cut[0] = 200;
    assert!(matches!(read_family_reply(&cut), FamilyReply::Unreadable));
    assert!(matches!(read_route_reply(&cut), RouteReply::Unreadable));
    assert!(matches!(read_link_event(&cut, 3), LinkEvent::Unreadable));
    assert!(matches!(read_genl_messages(&cut), GenlRead::Unreadable));
    assert!(matches!(read_addr_dump(&cut, 3), AddrFind::NotFound));
    let short_route = nlmsg(24, 0, &[2, 32, 0, 0]);
    assert!(matches!(read_route_reply(&short_route), RouteReply::Unreadable));
}
