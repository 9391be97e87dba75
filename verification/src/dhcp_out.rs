//! The DHCP messages that this client sends: discoveries, requests and
//! releases, encoded with `dhcp4r`, and the Ethernet frame that carries a
//! discovery, built with `etherparse`.

use crate::requests::u32_bytes;
use crate::types::Interface;
use dhcp4r::options::DhcpOption::{
    DhcpMessageType, ParameterRequestList, RequestedIpAddress, ServerIdentifier,
};
use dhcp4r::options::MessageType::{
    Discover as DiscoverType, Release as ReleaseType, Request as RequestType,
};
use dhcp4r::packet::Packet;
use etherparse::PacketBuilder;
use self::DhcpKind::{Discover, Release, Request};
use self::OutOption::{Kind, Params, RequestedIp, ServerId};
use vstd::prelude::*;

verus! {

/// The type of a message sent (option 53).
#[derive(Debug, Clone, Copy, PartialEq, Eq, Structural)]
pub enum DhcpKind {
    Discover,
    Request,
    Release,
}

/// The code of a message type: 1, 3 and 7.
pub open spec fn kind_code(k: DhcpKind) -> u8 {
    match k {
        DhcpKind::Discover => 1,
        DhcpKind::Request => 3,
        DhcpKind::Release => 7,
    }
}

/// An option of a message sent.
#[derive(Debug)]
pub enum OutOption {
    /// The message type, option 53.
    Kind(DhcpKind),
    /// The address asked for, option 50.
    RequestedIp(u32),
    /// The server asked, option 54.
    ServerId(u32),
    /// The parameters asked for, option 55.
    Params(Vec<u8>),
}

pub enum OutOptionView {
    Kind(DhcpKind),
    RequestedIp(u32),
    ServerId(u32),
    Params(Seq<u8>),
}

impl View for OutOption {
    type V = OutOptionView;

    open spec fn view(&self) -> OutOptionView {
        match self {
            OutOption::Kind(k) => OutOptionView::Kind(*k),
            OutOption::RequestedIp(a) => OutOptionView::RequestedIp(*a),
            OutOption::ServerId(a) => OutOptionView::ServerId(*a),
            OutOption::Params(p) => OutOptionView::Params(p@),
        }
    }
}

/// A message sent by the client: the fields of a BOOTP message (addresses
/// as the `u32` whose big-endian bytes are the octets) and the options in
/// order.
#[derive(Debug)]
pub struct DhcpOut {
    pub reply: bool,
    pub hops: u8,
    pub xid: u32,
    pub secs: u16,
    pub broadcast: bool,
    pub ciaddr: u32,
    pub yiaddr: u32,
    pub siaddr: u32,
    pub giaddr: u32,
    pub chaddr: [u8; 6],
    pub options: Vec<OutOption>,
}

pub struct DhcpOutView {
    pub reply: bool,
    pub hops: u8,
    pub xid: u32,
    pub secs: u16,
    pub broadcast: bool,
    pub ciaddr: u32,
    pub yiaddr: u32,
    pub siaddr: u32,
    pub giaddr: u32,
    pub chaddr: Seq<u8>,
    pub options: Seq<OutOptionView>,
}

impl View for DhcpOut {
    type V = DhcpOutView;

    open spec fn view(&self) -> DhcpOutView {
        DhcpOutView {
            reply: self.reply,
            hops: self.hops,
            xid: self.xid,
            secs: self.secs,
            broadcast: self.broadcast,
            ciaddr: self.ciaddr,
            yiaddr: self.yiaddr,
            siaddr: self.siaddr,
            giaddr: self.giaddr,
            chaddr: self.chaddr@,
            options: self.options@.map_values(|o: OutOption| o@),
        }
    }
}

impl OutOption {
    /// A copy of the option.
    pub fn copy(&self) -> (r: OutOption)
        ensures
            r@ == self@,
    {
        match self {
            OutOption::Kind(k) => OutOption::Kind(*k),
            OutOption::RequestedIp(a) => OutOption::RequestedIp(*a),
            OutOption::ServerId(a) => OutOption::ServerId(*a),
            OutOption::Params(p) => OutOption::Params(p.clone()),
        }
    }
}

impl DhcpOut {
    /// A copy of the message.
    pub fn copy(&self) -> (r: DhcpOut)
        ensures
            r@ == self@,
    {
        let mut options: Vec<OutOption> = Vec::new();
        let mut i: usize = 0;
        while i < self.options.len()
            invariant
                0 <= i <= self.options@.len(),
                options@.len() == i,
                forall|j: int| 0 <= j < i ==> (#[trigger] options@[j])@ == self.options@[j]@,
            decreases self.options@.len() - i,
        {
            options.push(self.options[i].copy());
            i = i + 1;
        }
        let r = DhcpOut {
            reply: self.reply,
            hops: self.hops,
            xid: self.xid,
            secs: self.secs,
            broadcast: self.broadcast,
            ciaddr: self.ciaddr,
            yiaddr: self.yiaddr,
            siaddr: self.siaddr,
            giaddr: self.giaddr,
            chaddr: self.chaddr,
            options,
        };
        assert(r@.options =~= self@.options);
        r
    }
}

/// The octets of an address.
pub open spec fn octets(a: u32) -> Seq<u8> {
    u32_bytes(false, a)
}

/// `n` zero bytes.
pub open spec fn zeros(n: nat) -> Seq<u8> {
    Seq::new(n, |i: int| 0u8)
}

/// An option as written: its code, the length of its data, the data.
pub open spec fn option_bytes(o: OutOptionView) -> Seq<u8> {
    let (code, data) = match o {
        OutOptionView::Kind(k) => (53u8, seq![kind_code(k)]),
        OutOptionView::RequestedIp(a) => (50u8, octets(a)),
        OutOptionView::ServerId(a) => (54u8, octets(a)),
        OutOptionView::Params(p) => (55u8, p),
    };
    seq![code, data.len() as u8] + data
}

pub open spec fn options_bytes(opts: Seq<OutOptionView>) -> Seq<u8>
    decreases opts.len(),
{
    if opts.len() == 0 {
        Seq::empty()
    } else {
        option_bytes(opts[0]) + options_bytes(opts.drop_first())
    }
}

/// The options can be written: a length fits a byte, and the message fits
/// the 1500 bytes it is written into.
pub open spec fn encodable(m: DhcpOutView) -> bool {
    &&& forall|i: int| 0 <= i < m.options.len() ==> (#[trigger] m.options[i] matches OutOptionView::Params(p)
        ==> p.len() <= 255)
    &&& options_bytes(m.options).len() <= 1200
}

/// A message as `Packet::encode` of `dhcp4r` writes it: the op code (1 for a
/// request, 2 for a reply), hardware type 1 and length 6, the hops, the
/// transaction id and the seconds (big-endian), the broadcast flag (128),
/// the four addresses, the hardware address and 202 zero bytes, the magic
/// cookie, the options, the end option 255, and zero bytes up to 272 bytes.
pub open spec fn dhcp_bytes(m: DhcpOutView) -> Seq<u8> {
    let head = seq![if m.reply { 2u8 } else { 1u8 }, 1u8, 6u8, m.hops] + octets(m.xid) + seq![
        (m.secs / 0x100) as u8,
        (m.secs % 0x100) as u8,
        if m.broadcast { 128u8 } else { 0u8 },
        0u8,
    ] + octets(m.ciaddr) + octets(m.yiaddr) + octets(m.siaddr) + octets(m.giaddr) + m.chaddr
        + zeros(202) + seq![99u8, 130u8, 83u8, 99u8];
    let body = head + options_bytes(m.options) + seq![255u8];
    if body.len() < 272 {
        body + zeros((272 - body.len()) as nat)
    } else {
        body
    }
}

/// Encodes a message with `Packet::encode` of `dhcp4r` into a buffer of
/// 1500 bytes; the bytes are [`dhcp_bytes`], as its source writes them.
#[verifier::external_body]
fn encode_dhcp(m: &DhcpOut) -> (r: Vec<u8>)
    requires
        encodable(m@),
    ensures
        r@ == dhcp_bytes(m@),
{
    Packet { reply: m.reply, hops: m.hops, xid: m.xid, secs: m.secs, broadcast: m.broadcast,
        ciaddr: m.ciaddr.into(), yiaddr: m.yiaddr.into(), siaddr: m.siaddr.into(), giaddr: m.giaddr.into(),
        chaddr: m.chaddr, options: m.options.iter().map(|o| match o {
            Kind(Discover) => DhcpMessageType(DiscoverType),
            Kind(Request) => DhcpMessageType(RequestType),
            Kind(Release) => DhcpMessageType(ReleaseType),
            RequestedIp(a) => RequestedIpAddress((*a).into()),
            ServerId(a) => ServerIdentifier((*a).into()),
            Params(p) => ParameterRequestList(p.clone()),
        }).collect() }.encode(&mut [0u8; 1500]).to_vec()
}

/// What the packet builder of `etherparse` writes for an Ethernet II frame
/// from `src_mac` to `dst_mac` carrying an IPv4 packet from `src_ip` to
/// `dst_ip` with the time to live `ttl` and a UDP datagram from `src_port`
/// to `dst_port` with `payload`; `None` where it fails.
pub uninterp spec fn udp_frame_bytes(
    src_mac: Seq<u8>,
    dst_mac: Seq<u8>,
    src_ip: Seq<u8>,
    dst_ip: Seq<u8>,
    ttl: u8,
    src_port: u16,
    dst_port: u16,
    payload: Seq<u8>,
) -> Option<Seq<u8>>;

/// Builds the frame with `PacketBuilder` of `etherparse` and writes it into
/// a vector; the result is the named [`udp_frame_bytes`].
#[verifier::external_body]
fn udp_frame(
    src_mac: [u8; 6],
    dst_mac: [u8; 6],
    src_ip: [u8; 4],
    dst_ip: [u8; 4],
    ttl: u8,
    src_port: u16,
    dst_port: u16,
    payload: &[u8],
) -> (r: Option<Vec<u8>>)
    ensures
        match udp_frame_bytes(src_mac@, dst_mac@, src_ip@, dst_ip@, ttl, src_port, dst_port, payload@) {
            None => r is None,
            Some(f) => (r matches Some(v) && v@ == f),
        },
{
    let b = PacketBuilder::ethernet2(src_mac, dst_mac).ipv4(src_ip, dst_ip, ttl).udp(src_port, dst_port);
    let mut frame = Vec::with_capacity(b.size(payload.len()));
    b.write(&mut frame, payload).ok()?;
    Some(frame)
}

/// A message from this client: a request (not a reply), no hops, no
/// seconds, only the client's address among the four set, and the options.
pub open spec fn client_view(xid: u32, mac: Seq<u8>, ciaddr: u32, broadcast: bool, options: Seq<
    OutOptionView,
>) -> DhcpOutView {
    DhcpOutView {
        reply: false,
        hops: 0,
        xid,
        secs: 0,
        broadcast,
        ciaddr,
        yiaddr: 0,
        siaddr: 0,
        giaddr: 0,
        chaddr: mac,
        options,
    }
}

/// The parameters a discovery asks for: time offset, router, name server,
/// domain name and lease time.
pub open spec fn discover_params() -> Seq<u8> {
    seq![2u8, 3u8, 6u8, 15u8, 51u8]
}

/// The parameters a request asks for: subnet mask, router, name server,
/// domain name and lease time.
pub open spec fn request_params() -> Seq<u8> {
    seq![1u8, 3u8, 6u8, 15u8, 51u8]
}

/// A discovery, broadcast, with no client address.
pub open spec fn discover_view(mac: Seq<u8>, xid: u32) -> DhcpOutView {
    client_view(
        xid,
        mac,
        0,
        true,
        seq![OutOptionView::Kind(DhcpKind::Discover), OutOptionView::Params(discover_params())],
    )
}

/// A request over the wire for the address `current_ip`.
pub open spec fn wired_request_view(mac: Seq<u8>, xid: u32, current_ip: u32, broadcast: bool) -> DhcpOutView {
    client_view(
        xid,
        mac,
        current_ip,
        broadcast,
        seq![OutOptionView::Kind(DhcpKind::Request), OutOptionView::Params(request_params())],
    )
}

/// A request over the air for the address `current_ip`, naming the server
/// when one is known.
pub open spec fn wireless_request_view(mac: Seq<u8>, xid: u32, current_ip: u32, server_id: Option<u32>) -> DhcpOutView {
    client_view(
        xid,
        mac,
        current_ip,
        true,
        seq![OutOptionView::Kind(DhcpKind::Request), OutOptionView::RequestedIp(current_ip)] + match server_id {
            Some(s) => seq![OutOptionView::ServerId(s)],
            None => Seq::empty(),
        } + seq![OutOptionView::Params(request_params())],
    )
}

/// A release of the address `ip`, not broadcast.
pub open spec fn release_view(mac: Seq<u8>, xid: u32, ip: u32) -> DhcpOutView {
    client_view(xid, mac, ip, false, seq![OutOptionView::Kind(DhcpKind::Release)])
}

fn client_out(xid: u32, mac: [u8; 6], ciaddr: u32, broadcast: bool, options: Vec<OutOption>) -> (r: DhcpOut)
    ensures
        r@ == client_view(xid, mac@, ciaddr, broadcast, options@.map_values(|o: OutOption| o@)),
{
    DhcpOut {
        reply: false,
        hops: 0,
        xid,
        secs: 0,
        broadcast,
        ciaddr,
        yiaddr: 0,
        siaddr: 0,
        giaddr: 0,
        chaddr: mac,
        options,
    }
}

fn params(a: u8, b: u8, c: u8, d: u8, e: u8) -> (r: OutOption)
    ensures
        r@ == OutOptionView::Params(seq![a, b, c, d, e]),
{
    let mut p: Vec<u8> = Vec::new();
    p.push(a);
    p.push(b);
    p.push(c);
    p.push(d);
    p.push(e);
    assert(p@ =~= seq![a, b, c, d, e]);
    OutOption::Params(p)
}

/// The discovery of the client with hardware address `mac`.
pub fn discover_message(mac: [u8; 6], xid: u32) -> (r: DhcpOut)
    ensures
        r@ == discover_view(mac@, xid),
{
    let mut options: Vec<OutOption> = Vec::new();
    options.push(OutOption::Kind(DhcpKind::Discover));
    options.push(params(2, 3, 6, 15, 51));
    let r = client_out(xid, mac, 0, true, options);
    assert(r@.options =~= discover_view(mac@, xid).options);
    r
}

/// A request over the wire for `current_ip`, and where it goes: broadcast,
/// or to the server `server_id`.
pub fn request_message(mac: [u8; 6], xid: u32, current_ip: u32, server_id: u32, broadcast: bool) -> (r: (
    DhcpOut,
    u32,
))
    ensures
        r.0@ == wired_request_view(mac@, xid, current_ip, broadcast),
        r.1 == if broadcast {
            0xffff_ffffu32
        } else {
            server_id
        },
{
    let mut options: Vec<OutOption> = Vec::new();
    options.push(OutOption::Kind(DhcpKind::Request));
    options.push(params(1, 3, 6, 15, 51));
    let m = client_out(xid, mac, current_ip, broadcast, options);
    assert(m@.options =~= wired_request_view(mac@, xid, current_ip, broadcast).options);
    let dest = if broadcast {
        0xffff_ffffu32
    } else {
        server_id
    };
    (m, dest)
}

/// A request over the air for `current_ip`.
pub fn wireless_request_message(mac: [u8; 6], xid: u32, current_ip: u32, server_id: Option<u32>) -> (r: DhcpOut)
    ensures
        r@ == wireless_request_view(mac@, xid, current_ip, server_id),
{
    let mut options: Vec<OutOption> = Vec::new();
    options.push(OutOption::Kind(DhcpKind::Request));
    options.push(OutOption::RequestedIp(current_ip));
    if let Some(s) = server_id {
        options.push(OutOption::ServerId(s));
    }
    options.push(params(1, 3, 6, 15, 51));
    let r = client_out(xid, mac, current_ip, true, options);
    assert(r@.options =~= wireless_request_view(mac@, xid, current_ip, server_id).options);
    r
}

/// The release of the address `ip`.
pub fn release_message(mac: [u8; 6], xid: u32, ip: u32) -> (r: DhcpOut)
    ensures
        r@ == release_view(mac@, xid, ip),
{
    let mut options: Vec<OutOption> = Vec::new();
    options.push(OutOption::Kind(DhcpKind::Release));
    let r = client_out(xid, mac, ip, false, options);
    assert(r@.options =~= release_view(mac@, xid, ip).options);
    r
}

proof fn lemma_small_encodable(m: DhcpOutView)
    requires
        m.options.len() <= 4,
        forall|i: int| 0 <= i < m.options.len() ==> (#[trigger] m.options[i] matches OutOptionView::Params(p)
            ==> p.len() == 5),
    ensures
        encodable(m),
        options_bytes(m.options).len() <= 8 * m.options.len(),
    decreases m.options.len(),
{
    if m.options.len() > 0 {
        let rest = DhcpOutView { options: m.options.drop_first(), ..m };
        lemma_small_encodable(rest);
        assert(option_bytes(m.options[0]).len() <= 8);
    }
}

/// The discovery of the client `mac`, and the frame that broadcasts it:
/// from its hardware address to everyone, from 0.0.0.0 to 255.255.255.255
/// with a time to live of 64, from port 68 to port 67.
pub fn discovery_frame(mac: [u8; 6], xid: u32) -> (r: (DhcpOut, Option<Vec<u8>>))
    ensures
        r.0@ == discover_view(mac@, xid),
        match udp_frame_bytes(
            mac@,
            seq![255u8, 255u8, 255u8, 255u8, 255u8, 255u8],
            seq![0u8, 0u8, 0u8, 0u8],
            seq![255u8, 255u8, 255u8, 255u8],
            64,
            68,
            67,
            dhcp_bytes(r.0@),
        ) {
            None => r.1 is None,
            Some(f) => (r.1 matches Some(v) && v@ == f),
        },
{
    let m = discover_message(mac, xid);
    proof {
        lemma_small_encodable(m@);
    }
    let payload = encode_dhcp(&m);
    let everyone: [u8; 6] = [255, 255, 255, 255, 255, 255];
    let unset: [u8; 4] = [0, 0, 0, 0];
    let all: [u8; 4] = [255, 255, 255, 255];
    assert(everyone@ =~= seq![255u8, 255u8, 255u8, 255u8, 255u8, 255u8]);
    assert(unset@ =~= seq![0u8, 0u8, 0u8, 0u8]);
    assert(all@ =~= seq![255u8, 255u8, 255u8, 255u8]);
    let frame = udp_frame(mac, everyone, unset, all, 64, 68, 67, payload.as_slice());
    (m, frame)
}

/// A request over the wire for `current_ip`, its encoding, and the address
/// it goes to.
pub fn wired_request_packet(mac: [u8; 6], xid: u32, current_ip: u32, server_id: u32, broadcast: bool) -> (r: (
    DhcpOut,
    Vec<u8>,
    u32,
))
    ensures
        r.0@ == wired_request_view(mac@, xid, current_ip, broadcast),
        r.1@ == dhcp_bytes(r.0@),
        r.2 == if broadcast {
            0xffff_ffffu32
        } else {
            server_id
        },
{
    let (m, dest) = request_message(mac, xid, current_ip, server_id, broadcast);
    proof {
        lemma_small_encodable(m@);
    }
    let bytes = encode_dhcp(&m);
    (m, bytes, dest)
}

/// A request over the air for `current_ip`, and its encoding.
pub fn wireless_request_packet(mac: [u8; 6], xid: u32, current_ip: u32, server_id: Option<u32>) -> (r: (
    DhcpOut,
    Vec<u8>,
))
    ensures
        r.0@ == wireless_request_view(mac@, xid, current_ip, server_id),
        r.1@ == dhcp_bytes(r.0@),
{
    let m = wireless_request_message(mac, xid, current_ip, server_id);
    proof {
        lemma_small_encodable(m@);
    }
    let bytes = encode_dhcp(&m);
    (m, bytes)
}

/// The encoded release of the address `ip`.
pub fn release_packet(mac: [u8; 6], xid: u32, ip: u32) -> (r: Vec<u8>)
    ensures
        r@ == dhcp_bytes(release_view(mac@, xid, ip)),
{
    let m = release_message(mac, xid, ip);
    proof {
        lemma_small_encodable(m@);
    }
    encode_dhcp(&m)
}

/// The interface's name, index and MAC text, for a discovery: the first of
/// them missing, in that order, gives its error.
pub fn discovery_fields(iface: &Interface) -> (r: Result<(String, u32, String), String>)
    ensures
        iface.ifname is None ==> (r matches Err(e) && e@ == "No ifname."@),
        iface.ifname is Some && iface.ifindex is None ==> (r matches Err(e) && e@ == "No ifindex."@),
        iface.ifname is Some && iface.ifindex is Some && iface.mac is None ==> (r matches Err(e) && e@
            == "No MAC."@),
        r matches Ok((n, i, m)) ==> iface.ifname == Some(n) && iface.ifindex == Some(i) && iface.mac == Some(m),
        iface.ifname is Some && iface.ifindex is Some && iface.mac is Some ==> r is Ok,
{
    let name = match &iface.ifname {
        Some(n) => n.clone(),
        None => {
            return Err(String::from_str("No ifname."));
        },
    };
    let index = match iface.ifindex {
        Some(i) => i,
        None => {
            return Err(String::from_str("No ifindex."));
        },
    };
    let mac = match &iface.mac {
        Some(m) => m.clone(),
        None => {
            return Err(String::from_str("No MAC."));
        },
    };
    Ok((name, index, mac))
}

/// The interface's MAC text, index and name, for a request over the air:
/// the first of them missing, in that order, gives its error.
pub fn request_fields(iface: &Interface) -> (r: Result<(String, u32, String), String>)
    ensures
        iface.mac is None ==> (r matches Err(e) && e@ == "No MAC for interface."@),
        iface.mac is Some && iface.ifindex is None ==> (r matches Err(e) && e@ == "No ifindex."@),
        iface.mac is Some && iface.ifindex is Some && iface.ifname is None ==> (r matches Err(e) && e@
            == "No ifname."@),
        r matches Ok((m, i, n)) ==> iface.ifname == Some(n) && iface.ifindex == Some(i) && iface.mac == Some(m),
        iface.ifname is Some && iface.ifindex is Some && iface.mac is Some ==> r is Ok,
{
    let mac = match &iface.mac {
        Some(m) => m.clone(),
        None => {
            return Err(String::from_str("No MAC for interface."));
        },
    };
    let index = match iface.ifindex {
        Some(i) => i,
        None => {
            return Err(String::from_str("No ifindex."));
        },
    };
    let name = match &iface.ifname {
        Some(n) => n.clone(),
        None => {
            return Err(String::from_str("No ifname."));
        },
    };
    Ok((mac, index, name))
}

/// How many discoveries are sent before giving up.
pub const DISCOVER_ATTEMPTS: u32 = 5;

/// How long, in seconds, offers are awaited after each discovery.
pub const OFFER_WAIT_SECS: u64 = 3;

/// What follows a wait for offers that ended without one.
#[derive(Debug)]
pub enum DiscoverNext {
    /// Send another discovery and wait again.
    Resend,
    /// Stop, with this error.
    GiveUp(String),
}

/// Once the wait after the `sent`-th discovery ends without an offer: send
/// again while fewer than [`DISCOVER_ATTEMPTS`] were sent, else give up.
pub fn after_discovery_wait(sent: u32) -> (r: DiscoverNext)
    ensures
        sent < DISCOVER_ATTEMPTS ==> r is Resend,
        sent >= DISCOVER_ATTEMPTS ==> (r matches DiscoverNext::GiveUp(e) && e@ == "Failed after retry."@),
{
    if sent < DISCOVER_ATTEMPTS {
        DiscoverNext::Resend
    } else {
        let e = String::from_str("Failed after retry.");
        DiscoverNext::GiveUp(e)
    }
}

} // verus!
