//! DHCP: reading the server's replies, and the lease kept on disk.

use crate::dhcp_out::{DhcpOut, DhcpOutView};
use crate::types::DhcpLease;
use dhcp4r::options::DhcpOption as O;
use dhcp4r::options::DhcpOption::{DhcpMessageType, IpAddressLeaseTime};
use DhcpValue::{
    DomainNameServer, LeaseTime, MessageType, Other, Router, ServerIdentifier, SubnetMask,
};
use dhcp4r::packet::Packet;
use vstd::prelude::*;

verus! {

/// An option of a DHCP message, as this client reads it. Addresses are the
/// `u32` whose big-endian bytes are the octets.
#[derive(Debug)]
pub enum DhcpValue {
    /// The message type (option 53): 2 is an offer, 5 an acknowledgement,
    /// 6 a refusal.
    MessageType(u8),
    ServerIdentifier(u32),
    Router(Vec<u32>),
    DomainNameServer(Vec<u32>),
    LeaseTime(u32),
    SubnetMask(u32),
    /// Any other option.
    Other,
}

/// A decoded DHCP message: its transaction id, the address offered to the
/// client (`yiaddr`), and its options in order.
#[derive(Debug)]
pub struct DhcpReply {
    pub xid: u32,
    pub yiaddr: u32,
    pub options: Vec<DhcpValue>,
}

/// The mathematical form of a [`DhcpValue`].
pub enum DhcpValueView {
    MessageType(u8),
    ServerIdentifier(u32),
    Router(Seq<u32>),
    DomainNameServer(Seq<u32>),
    LeaseTime(u32),
    SubnetMask(u32),
    Other,
}

/// The mathematical form of a [`DhcpReply`].
pub struct DhcpReplyView {
    pub xid: u32,
    pub yiaddr: u32,
    pub options: Seq<DhcpValueView>,
}

impl View for DhcpValue {
    type V = DhcpValueView;

    open spec fn view(&self) -> DhcpValueView {
        match self {
            DhcpValue::MessageType(t) => DhcpValueView::MessageType(*t),
            DhcpValue::ServerIdentifier(a) => DhcpValueView::ServerIdentifier(*a),
            DhcpValue::Router(v) => DhcpValueView::Router(v@),
            DhcpValue::DomainNameServer(v) => DhcpValueView::DomainNameServer(v@),
            DhcpValue::LeaseTime(s) => DhcpValueView::LeaseTime(*s),
            DhcpValue::SubnetMask(a) => DhcpValueView::SubnetMask(*a),
            DhcpValue::Other => DhcpValueView::Other,
        }
    }
}

impl View for DhcpReply {
    type V = DhcpReplyView;

    open spec fn view(&self) -> DhcpReplyView {
        DhcpReplyView {
            xid: self.xid,
            yiaddr: self.yiaddr,
            options: self.options@.map_values(|o: DhcpValue| o@),
        }
    }
}

/// What `dhcp4r::packet::Packet::from` makes of a DHCP message, as a
/// [`DhcpReplyView`]; `None` where it fails.
pub uninterp spec fn dhcp_decode(data: Seq<u8>) -> Option<DhcpReplyView>;

/// Decodes a DHCP message with `dhcp4r::packet::Packet::from`, keeping the
/// transaction id, the offered address and the options that this client
/// reads. The result is the named [`dhcp_decode`] of the bytes.
#[verifier::external_body]
fn decode_dhcp(data: &[u8]) -> (r: Option<DhcpReply>)
    ensures
        r is Some <==> dhcp_decode(data@) is Some,
        r matches Some(p) ==> p@ == dhcp_decode(data@)->0,
{
    let p = Packet::from(data).ok()?;
    let options = p.options.iter().map(|o| match o {
        DhcpMessageType(t) => MessageType(*t as u8),
        O::ServerIdentifier(a) => ServerIdentifier(u32::from(*a)),
        O::Router(v) => Router(v.iter().map(|a| u32::from(*a)).collect()),
        O::DomainNameServer(v) => DomainNameServer(v.iter().map(|a| u32::from(*a)).collect()),
        IpAddressLeaseTime(s) => LeaseTime(*s),
        O::SubnetMask(a) => SubnetMask(u32::from(*a)),
        _ => Other,
    }).collect();
    Some(DhcpReply { xid: p.xid, yiaddr: u32::from(p.yiaddr), options })
}

/// Where a frame's DHCP payload starts: after the 14-byte Ethernet header,
/// the IP header (whose length in 32-bit words is the low nibble of byte 14)
/// and the 8-byte UDP header.
pub open spec fn dhcp_start(frame: Seq<u8>) -> int {
    14 + (frame[14] & 0x0f) * 4 + 8
}

/// The frame is a UDP datagram to port 68, the DHCP client port, long enough
/// to hold its headers.
pub open spec fn is_dhcp_frame(frame: Seq<u8>) -> bool {
    &&& frame.len() >= 42
    &&& frame[23] == 17
    &&& frame.len() >= dhcp_start(frame)
    &&& frame[dhcp_start(frame) - 6] as int * 256 + frame[dhcp_start(frame) - 5] as int == 68
}

/// Why a received frame could not be used.
#[derive(Debug, Clone, Copy, PartialEq, Eq, Structural)]
pub enum PacketError {
    /// The frame is addressed to the DHCP client, but its payload does not decode.
    Undecodable,
}

impl PacketError {
    /// The message shown for the error.
    pub fn message(&self) -> (r: String)
        ensures
            r@ == "Failed to parse DHCP Packet."@,
    {
        String::from_str("Failed to parse DHCP Packet.")
    }
}

/// Reads the DHCP message out of the first `size` bytes of a raw Ethernet
/// frame: `None` for a frame that is not for the DHCP client, an error when
/// its payload does not decode.
pub fn validate_packet(data: &[u8], size: usize) -> (r: Result<Option<DhcpReply>, PacketError>)
    requires
        size <= data@.len(),
    ensures
        ({
            let frame = data@.take(size as int);
            &&& !is_dhcp_frame(frame) ==> r == Ok::<Option<DhcpReply>, PacketError>(None)
            &&& is_dhcp_frame(frame) ==> {
                let payload = frame.skip(dhcp_start(frame));
                &&& dhcp_decode(payload) is None ==> r == Err::<Option<DhcpReply>, PacketError>(
                    PacketError::Undecodable,
                )
                &&& dhcp_decode(payload) matches Some(v) ==> (r matches Ok(Some(p)) && p@ == v)
            }
        }),
{
    let ghost frame = data@.take(size as int);
    if size < 42 {
        return Ok(None);
    }
    if data[23] != 17 {
        return Ok(None);
    }
    let b14 = data[14];
    let low = b14 & 0x0f;
    assert(low <= 15) by (bit_vector)
        requires
            low == b14 & 0x0f,
    ;
    let ihl = (low as usize) * 4;
    let udp_start = 14 + ihl;
    let dhcp_start = udp_start + 8;
    if size < dhcp_start {
        return Ok(None);
    }
    let dest_port = (data[udp_start + 2] as u16) * 256 + (data[udp_start + 3] as u16);
    if dest_port != 68 {
        return Ok(None);
    }
    let payload = vstd::slice::slice_subrange(data, dhcp_start, size);
    assert(payload@ =~= frame.skip(dhcp_start as int));
    match decode_dhcp(payload) {
        Some(p) => Ok(Some(p)),
        None => Err(PacketError::Undecodable),
    }
}

/// The mathematical form of a [`DhcpLease`].
pub struct LeaseView {
    pub ip_addr: Option<u32>,
    pub subnet_mask: Option<u32>,
    pub gateway: Option<u32>,
    pub dns_servers: Seq<u32>,
    pub server_id: Option<u32>,
    pub lease_duration: u32,
    pub renewal_time: u32,
    pub rebinding_time: u32,
    pub offer: Option<DhcpOutView>,
}

impl View for DhcpLease {
    type V = LeaseView;

    open spec fn view(&self) -> LeaseView {
        LeaseView {
            ip_addr: self.ip_addr,
            subnet_mask: self.subnet_mask,
            gateway: self.gateway,
            dns_servers: self.dns_servers@,
            server_id: self.server_id,
            lease_duration: self.lease_duration,
            renewal_time: self.renewal_time,
            rebinding_time: self.rebinding_time,
            offer: match self.offer {
                Some(m) => Some(m@),
                None => None,
            },
        }
    }
}

/// The message type that acknowledges a request.
pub open spec fn ACK() -> u8 {
    5
}

/// The message type that refuses a request.
pub open spec fn NAK() -> u8 {
    6
}

/// The message type that offers an address.
pub open spec fn OFFER() -> u8 {
    2
}

/// The lease after reading one option that is not a message type: the DNS
/// servers, the first router as gateway, the subnet mask, the server id and
/// the lease time are taken; an empty router list and other options change
/// nothing.
pub open spec fn take_option(l: LeaseView, o: DhcpValueView) -> LeaseView {
    match o {
        DhcpValueView::DomainNameServer(v) => LeaseView { dns_servers: v, ..l },
        DhcpValueView::Router(v) => if v.len() > 0 {
            LeaseView { gateway: Some(v[0]), ..l }
        } else {
            l
        },
        DhcpValueView::SubnetMask(m) => LeaseView { subnet_mask: Some(m), ..l },
        DhcpValueView::ServerIdentifier(id) => LeaseView { server_id: Some(id), ..l },
        DhcpValueView::LeaseTime(secs) => LeaseView { lease_duration: secs, ..l },
        _ => l,
    }
}

/// Reads the options of an answer to a request, in order, into the lease.
/// An acknowledgement grants `yiaddr`, or the requested address when
/// `yiaddr` is 0.0.0.0; a refusal stops the reading. The flag tells whether
/// an acknowledgement was read.
pub open spec fn ack_fold(
    l: LeaseView,
    acked: bool,
    opts: Seq<DhcpValueView>,
    yiaddr: u32,
    current_ip: u32,
) -> (LeaseView, bool)
    decreases opts.len(),
{
    if opts.len() == 0 {
        (l, acked)
    } else {
        let rest = opts.drop_first();
        match opts[0] {
            DhcpValueView::MessageType(t) => if t == ACK() {
                ack_fold(
                    LeaseView {
                        ip_addr: Some(
                            if yiaddr == 0 {
                                current_ip
                            } else {
                                yiaddr
                            },
                        ),
                        ..l
                    },
                    true,
                    rest,
                    yiaddr,
                    current_ip,
                )
            } else if t == NAK() {
                (l, acked)
            } else {
                ack_fold(l, acked, rest, yiaddr, current_ip)
            },
            o => ack_fold(take_option(l, o), acked, rest, yiaddr, current_ip),
        }
    }
}

/// The lease after reading one option of the reply.
fn take_option_exec(lease: &mut DhcpLease, o: &DhcpValue)
    ensures
        final(lease)@ == take_option(old(lease)@, o@),
{
    match o {
        DhcpValue::DomainNameServer(v) => {
            lease.dns_servers = crate::types::clone_addrs(v);
        },
        DhcpValue::Router(v) => {
            if v.len() > 0 {
                lease.gateway = Some(v[0]);
            }
        },
        DhcpValue::SubnetMask(m) => {
            lease.subnet_mask = Some(*m);
        },
        DhcpValue::ServerIdentifier(id) => {
            lease.server_id = Some(*id);
        },
        DhcpValue::LeaseTime(secs) => {
            lease.lease_duration = *secs;
        },
        _ => {},
    }
}

/// Reads the options of an answer to a request into the lease; tells
/// whether the answer acknowledged the request.
pub fn apply_ack(lease: &mut DhcpLease, reply: &DhcpReply, current_ip: u32) -> (acked: bool)
    ensures
        (final(lease)@, acked) == ack_fold(
            old(lease)@,
            false,
            reply@.options,
            reply.yiaddr,
            current_ip,
        ),
{
    let ghost opts = reply@.options;
    let ghost goal = ack_fold(old(lease)@, false, opts, reply.yiaddr, current_ip);
    let mut acked = false;
    let mut stop = false;
    let mut i: usize = 0;
    assert(opts.skip(0) =~= opts);
    while i < reply.options.len() && !stop
        invariant
            0 <= i <= reply.options@.len(),
            opts == reply@.options,
            !stop ==> ack_fold(lease@, acked, opts.skip(i as int), reply.yiaddr, current_ip) == goal,
            stop ==> (lease@, acked) == goal,
        decreases reply.options@.len() - i,
    {
        let o = &reply.options[i];
        assert(opts.skip(i as int)[0] == o@);
        assert(opts.skip(i as int).drop_first() =~= opts.skip(i + 1));
        match o {
            DhcpValue::MessageType(t) => {
                if *t == 5 {
                    acked = true;
                    lease.ip_addr = Some(
                        if reply.yiaddr == 0 {
                            current_ip
                        } else {
                            reply.yiaddr
                        },
                    );
                } else if *t == 6 {
                    stop = true;
                }
            },
            _ => {
                take_option_exec(lease, o);
            },
        }
        i = i + 1;
    }
    if !stop {
        assert(opts.skip(i as int).len() == 0);
    }
    acked
}

/// What a frame received while waiting for an acknowledgement was.
#[derive(Debug, Clone, Copy, PartialEq, Eq, Structural)]
pub enum ReplyStep {
    /// Not a DHCP message, or one of another transaction.
    Ignored,
    /// An answer to the request that did not acknowledge it.
    Pending,
    /// An acknowledgement: the lease is granted.
    Acknowledged,
}

/// Handles one frame received while waiting for the answer to the request
/// `sent` for the address `current_ip`: the answer's options are read into
/// `lease`, which carries what earlier answers gave; an acknowledged lease
/// carries the request.
pub fn request_step(
    lease: &mut DhcpLease,
    frame: &[u8],
    size: usize,
    sent: &DhcpOut,
    current_ip: u32,
) -> (r: Result<ReplyStep, PacketError>)
    requires
        size <= frame@.len(),
    ensures
        ({
            let f = frame@.take(size as int);
            let payload = f.skip(dhcp_start(f));
            &&& !is_dhcp_frame(f) ==> r == Ok::<ReplyStep, PacketError>(ReplyStep::Ignored)
                && final(lease)@ == old(lease)@
            &&& is_dhcp_frame(f) && dhcp_decode(payload) is None ==> r == Err::<
                ReplyStep,
                PacketError,
            >(PacketError::Undecodable) && final(lease)@ == old(lease)@
            &&& (is_dhcp_frame(f) && dhcp_decode(payload) is Some) ==> {
                let p = dhcp_decode(payload)->0;
                let (l, acked) = ack_fold(old(lease)@, false, p.options, p.yiaddr, current_ip);
                &&& p.xid != sent.xid ==> r == Ok::<ReplyStep, PacketError>(ReplyStep::Ignored)
                    && final(lease)@ == old(lease)@
                &&& p.xid == sent.xid && acked ==> final(lease)@ == (LeaseView { offer: Some(sent@), ..l })
                    && r == Ok::<ReplyStep, PacketError>(ReplyStep::Acknowledged)
                &&& p.xid == sent.xid && !acked ==> final(lease)@ == l && r == Ok::<ReplyStep, PacketError>(
                    ReplyStep::Pending,
                )
            }
        }),
{
    let packet = match validate_packet(frame, size) {
        Ok(Some(p)) => p,
        Ok(None) => {
            return Ok(ReplyStep::Ignored);
        },
        Err(e) => {
            return Err(e);
        },
    };
    if packet.xid != sent.xid {
        return Ok(ReplyStep::Ignored);
    }
    if apply_ack(lease, &packet, current_ip) {
        lease.offer = Some(sent.copy());
        Ok(ReplyStep::Acknowledged)
    } else {
        Ok(ReplyStep::Pending)
    }
}

impl DhcpLease {
    /// A copy of the lease.
    pub fn copy(&self) -> (r: DhcpLease)
        ensures
            r@ == self@,
    {
        DhcpLease {
            ip_addr: self.ip_addr,
            subnet_mask: self.subnet_mask,
            gateway: self.gateway,
            dns_servers: crate::types::clone_addrs(&self.dns_servers),
            server_id: self.server_id,
            lease_duration: self.lease_duration,
            renewal_time: self.renewal_time,
            rebinding_time: self.rebinding_time,
            offer: match &self.offer {
                Some(m) => Some(m.copy()),
                None => None,
            },
        }
    }
}

/// Reads the options of an answer to a discovery, in order: an offer
/// proposes `yiaddr`; the other options are taken as in [`take_option`].
pub open spec fn offer_fold(l: LeaseView, opts: Seq<DhcpValueView>, yiaddr: u32) -> LeaseView
    decreases opts.len(),
{
    if opts.len() == 0 {
        l
    } else {
        let rest = opts.drop_first();
        match opts[0] {
            DhcpValueView::MessageType(t) => if t == OFFER() {
                offer_fold(LeaseView { ip_addr: Some(yiaddr), ..l }, rest, yiaddr)
            } else {
                offer_fold(l, rest, yiaddr)
            },
            o => offer_fold(take_option(l, o), rest, yiaddr),
        }
    }
}

/// Reads the options of an answer to a discovery into the offer gathered so far.
pub fn apply_offer(offer: &mut DhcpLease, reply: &DhcpReply)
    ensures
        final(offer)@ == offer_fold(old(offer)@, reply@.options, reply.yiaddr),
{
    let ghost opts = reply@.options;
    let ghost goal = offer_fold(old(offer)@, opts, reply.yiaddr);
    let mut i: usize = 0;
    assert(opts.skip(0) =~= opts);
    while i < reply.options.len()
        invariant
            0 <= i <= reply.options@.len(),
            opts == reply@.options,
            offer_fold(offer@, opts.skip(i as int), reply.yiaddr) == goal,
        decreases reply.options@.len() - i,
    {
        let o = &reply.options[i];
        assert(opts.skip(i as int)[0] == o@);
        assert(opts.skip(i as int).drop_first() =~= opts.skip(i + 1));
        match o {
            DhcpValue::MessageType(t) => {
                if *t == 2 {
                    offer.ip_addr = Some(reply.yiaddr);
                }
            },
            _ => {
                take_option_exec(offer, o);
            },
        }
        i = i + 1;
    }
    assert(opts.skip(i as int).len() == 0);
}

/// Handles one frame received while waiting for offers to the discovery
/// `sent`: the answer's options are read into `offer`, which carries what
/// earlier answers to the same transaction gave; once an address is offered,
/// the lease offered is the result, and it carries the discovery.
pub fn offer_step(offer: &mut DhcpLease, frame: &[u8], size: usize, sent: &DhcpOut) -> (r: Result<
    Option<DhcpLease>,
    PacketError,
>)
    requires
        size <= frame@.len(),
    ensures
        ({
            let f = frame@.take(size as int);
            let payload = f.skip(dhcp_start(f));
            &&& !is_dhcp_frame(f) ==> (r matches Ok(None)) && final(offer)@ == old(offer)@
            &&& is_dhcp_frame(f) && dhcp_decode(payload) is None ==> r == Err::<
                Option<DhcpLease>,
                PacketError,
            >(PacketError::Undecodable) && final(offer)@ == old(offer)@
            &&& (is_dhcp_frame(f) && dhcp_decode(payload) is Some) ==> {
                let p = dhcp_decode(payload)->0;
                let l = offer_fold(old(offer)@, p.options, p.yiaddr);
                &&& p.xid != sent.xid ==> (r matches Ok(None)) && final(offer)@ == old(offer)@
                &&& p.xid == sent.xid ==> final(offer)@ == l && (l.ip_addr is Some ==> (r matches Ok(
                    Some(g),
                ) && g@ == (LeaseView { offer: Some(sent@), ..l }))) && (l.ip_addr is None ==> r matches Ok(None))
            }
        }),
{
    let packet = match validate_packet(frame, size) {
        Ok(Some(p)) => p,
        Ok(None) => {
            return Ok(None);
        },
        Err(e) => {
            return Err(e);
        },
    };
    if packet.xid != sent.xid {
        return Ok(None);
    }
    apply_offer(offer, &packet);
    if offer.ip_addr.is_some() {
        let mut g = offer.copy();
        g.offer = Some(sent.copy());
        Ok(Some(g))
    } else {
        Ok(None)
    }
}

/// The option at `k` is the last of `opts` that `p` holds of.
pub open spec fn last_at(opts: Seq<DhcpValueView>, k: int, p: spec_fn(DhcpValueView) -> bool) -> bool {
    &&& 0 <= k < opts.len()
    &&& p(opts[k])
    &&& forall|j: int| k < j < opts.len() ==> !p(#[trigger] opts[j])
}

/// `p` holds of no option of `opts`.
pub open spec fn absent(opts: Seq<DhcpValueView>, p: spec_fn(DhcpValueView) -> bool) -> bool {
    forall|j: int| 0 <= j < opts.len() ==> !p(#[trigger] opts[j])
}

/// The option is a message type `t`.
pub open spec fn is_type(t: u8) -> spec_fn(DhcpValueView) -> bool {
    |o: DhcpValueView| o == DhcpValueView::MessageType(t)
}

pub open spec fn is_mask() -> spec_fn(DhcpValueView) -> bool {
    |o: DhcpValueView| o is SubnetMask
}

pub open spec fn is_server() -> spec_fn(DhcpValueView) -> bool {
    |o: DhcpValueView| o is ServerIdentifier
}

pub open spec fn is_lease_time() -> spec_fn(DhcpValueView) -> bool {
    |o: DhcpValueView| o is LeaseTime
}

pub open spec fn is_dns() -> spec_fn(DhcpValueView) -> bool {
    |o: DhcpValueView| o is DomainNameServer
}

/// A router option that names at least one router.
pub open spec fn is_router() -> spec_fn(DhcpValueView) -> bool {
    |o: DhcpValueView| o is Router && o->Router_0.len() > 0
}

/// What reading the options `opts` leaves of the lease `l` in the fields
/// that options other than the message type fill: each of them holds the
/// value of the last option that gives it (the first router of the last
/// non-empty router list), and keeps its value when no option gives it;
/// the renewal and rebinding times and the message sent are kept.
pub open spec fn options_read(l: LeaseView, opts: Seq<DhcpValueView>, r: LeaseView) -> bool {
    &&& forall|k: int| last_at(opts, k, is_mask()) ==> r.subnet_mask == Some(opts[k]->SubnetMask_0)
    &&& absent(opts, is_mask()) ==> r.subnet_mask == l.subnet_mask
    &&& forall|k: int| last_at(opts, k, is_server()) ==> r.server_id == Some(opts[k]->ServerIdentifier_0)
    &&& absent(opts, is_server()) ==> r.server_id == l.server_id
    &&& forall|k: int| last_at(opts, k, is_lease_time()) ==> r.lease_duration == opts[k]->LeaseTime_0
    &&& absent(opts, is_lease_time()) ==> r.lease_duration == l.lease_duration
    &&& forall|k: int| last_at(opts, k, is_dns()) ==> r.dns_servers == opts[k]->DomainNameServer_0
    &&& absent(opts, is_dns()) ==> r.dns_servers == l.dns_servers
    &&& forall|k: int| last_at(opts, k, is_router()) ==> r.gateway == Some(opts[k]->Router_0[0])
    &&& absent(opts, is_router()) ==> r.gateway == l.gateway
    &&& r.renewal_time == l.renewal_time
    &&& r.rebinding_time == l.rebinding_time
    &&& r.offer == l.offer
}

proof fn lemma_options_step(l: LeaseView, l2: LeaseView, opts: Seq<DhcpValueView>, r: LeaseView)
    requires
        opts.len() > 0,
        options_read(l2, opts.drop_first(), r),
        opts[0] is MessageType ==> l2 == (LeaseView { ip_addr: l2.ip_addr, ..l }),
        !(opts[0] is MessageType) ==> l2 == take_option(l, opts[0]),
    ensures
        options_read(l, opts, r),
{
    let rest = opts.drop_first();
    assert forall|j: int| 0 <= j < rest.len() implies rest[j] == opts[j + 1] by {}
    assert forall|k: int| last_at(opts, k, is_mask()) implies r.subnet_mask == Some(opts[k]->SubnetMask_0) by {
        if k > 0 {
            assert(last_at(rest, k - 1, is_mask()));
        } else {
            assert(absent(rest, is_mask())) by {
                assert forall|j: int| 0 <= j < rest.len() implies !is_mask()(#[trigger] rest[j]) by {
                    assert(!is_mask()(opts[j + 1]));
                }
            }
        }
    }
    assert forall|k: int| last_at(opts, k, is_server()) implies r.server_id == Some(opts[k]->ServerIdentifier_0) by {
        if k > 0 {
            assert(last_at(rest, k - 1, is_server()));
        } else {
            assert(absent(rest, is_server())) by {
                assert forall|j: int| 0 <= j < rest.len() implies !is_server()(#[trigger] rest[j]) by {
                    assert(!is_server()(opts[j + 1]));
                }
            }
        }
    }
    assert forall|k: int| last_at(opts, k, is_lease_time()) implies r.lease_duration == opts[k]->LeaseTime_0 by {
        if k > 0 {
            assert(last_at(rest, k - 1, is_lease_time()));
        } else {
            assert(absent(rest, is_lease_time())) by {
                assert forall|j: int| 0 <= j < rest.len() implies !is_lease_time()(#[trigger] rest[j]) by {
                    assert(!is_lease_time()(opts[j + 1]));
                }
            }
        }
    }
    assert forall|k: int| last_at(opts, k, is_dns()) implies r.dns_servers == opts[k]->DomainNameServer_0 by {
        if k > 0 {
            assert(last_at(rest, k - 1, is_dns()));
        } else {
            assert(absent(rest, is_dns())) by {
                assert forall|j: int| 0 <= j < rest.len() implies !is_dns()(#[trigger] rest[j]) by {
                    assert(!is_dns()(opts[j + 1]));
                }
            }
        }
    }
    assert forall|k: int| last_at(opts, k, is_router()) implies r.gateway == Some(opts[k]->Router_0[0]) by {
        if k > 0 {
            assert(last_at(rest, k - 1, is_router()));
        } else {
            assert(absent(rest, is_router())) by {
                assert forall|j: int| 0 <= j < rest.len() implies !is_router()(#[trigger] rest[j]) by {
                    assert(!is_router()(opts[j + 1]));
                }
            }
        }
    }
    if absent(opts, is_mask()) {
        assert(!is_mask()(opts[0]));
        assert(absent(rest, is_mask())) by {
            assert forall|j: int| 0 <= j < rest.len() implies !is_mask()(#[trigger] rest[j]) by {
                assert(!is_mask()(opts[j + 1]));
            }
        }
    }
    if absent(opts, is_server()) {
        assert(!is_server()(opts[0]));
        assert(absent(rest, is_server())) by {
            assert forall|j: int| 0 <= j < rest.len() implies !is_server()(#[trigger] rest[j]) by {
                assert(!is_server()(opts[j + 1]));
            }
        }
    }
    if absent(opts, is_lease_time()) {
        assert(!is_lease_time()(opts[0]));
        assert(absent(rest, is_lease_time())) by {
            assert forall|j: int| 0 <= j < rest.len() implies !is_lease_time()(#[trigger] rest[j]) by {
                assert(!is_lease_time()(opts[j + 1]));
            }
        }
    }
    if absent(opts, is_dns()) {
        assert(!is_dns()(opts[0]));
        assert(absent(rest, is_dns())) by {
            assert forall|j: int| 0 <= j < rest.len() implies !is_dns()(#[trigger] rest[j]) by {
                assert(!is_dns()(opts[j + 1]));
            }
        }
    }
    if absent(opts, is_router()) {
        assert(!is_router()(opts[0]));
        assert(absent(rest, is_router())) by {
            assert forall|j: int| 0 <= j < rest.len() implies !is_router()(#[trigger] rest[j]) by {
                assert(!is_router()(opts[j + 1]));
            }
        }
    }
}

/// Reading a server's answer to a request that refuses nothing: every field
/// that an option gives holds the value of the last option that gives it
/// (as [`options_read`] says), the request is acknowledged exactly when
/// some option acknowledges it, and then the address is `yiaddr`, or the
/// requested `current_ip` when `yiaddr` is 0.0.0.0.
pub proof fn law_ack_reads_options(l: LeaseView, acked: bool, opts: Seq<DhcpValueView>, yiaddr: u32, current_ip: u32)
    requires
        absent(opts, is_type(NAK())),
    ensures
        options_read(l, opts, ack_fold(l, acked, opts, yiaddr, current_ip).0),
        ack_fold(l, acked, opts, yiaddr, current_ip).1 == (acked || !absent(opts, is_type(ACK()))),
        !absent(opts, is_type(ACK())) ==> ack_fold(l, acked, opts, yiaddr, current_ip).0.ip_addr == Some(
            if yiaddr == 0 {
                current_ip
            } else {
                yiaddr
            },
        ),
        absent(opts, is_type(ACK())) ==> ack_fold(l, acked, opts, yiaddr, current_ip).0.ip_addr == l.ip_addr,
    decreases opts.len(),
{
    if opts.len() > 0 {
        let rest = opts.drop_first();
        assert forall|j: int| 0 <= j < rest.len() implies !is_type(NAK())(#[trigger] rest[j]) by {
            assert(!is_type(NAK())(opts[j + 1]));
        }
        let ip = if yiaddr == 0 {
            current_ip
        } else {
            yiaddr
        };
        let (l2, a2) = if opts[0] == DhcpValueView::MessageType(ACK()) {
            (LeaseView { ip_addr: Some(ip), ..l }, true)
        } else if opts[0] is MessageType {
            (l, acked)
        } else {
            (take_option(l, opts[0]), acked)
        };
        assert(!is_type(NAK())(opts[0]));
        assert(ack_fold(l, acked, opts, yiaddr, current_ip) == ack_fold(l2, a2, rest, yiaddr, current_ip));
        law_ack_reads_options(l2, a2, rest, yiaddr, current_ip);
        lemma_options_step(l, l2, opts, ack_fold(l, acked, opts, yiaddr, current_ip).0);
        if absent(opts, is_type(ACK())) {
            assert(absent(rest, is_type(ACK()))) by {
                assert forall|j: int| 0 <= j < rest.len() implies !is_type(ACK())(#[trigger] rest[j]) by {
                    assert(!is_type(ACK())(opts[j + 1]));
                }
            }
            assert(!is_type(ACK())(opts[0]));
        } else {
            let k = choose|k: int| 0 <= k < opts.len() && is_type(ACK())(opts[k]);
            if k > 0 {
                assert(is_type(ACK())(rest[k - 1]));
            }
        }
        if !absent(rest, is_type(ACK())) {
            let k = choose|k: int| 0 <= k < rest.len() && is_type(ACK())(rest[k]);
            assert(is_type(ACK())(opts[k + 1]));
        }
    }
}

/// A refusal ends the reading of an answer to a request: the options after
/// the first refusal change nothing.
pub proof fn law_refusal_ends_reading(
    l: LeaseView,
    acked: bool,
    opts: Seq<DhcpValueView>,
    yiaddr: u32,
    current_ip: u32,
    k: int,
)
    requires
        0 <= k < opts.len(),
        opts[k] == DhcpValueView::MessageType(NAK()),
        absent(opts.take(k), is_type(NAK())),
    ensures
        ack_fold(l, acked, opts, yiaddr, current_ip) == ack_fold(l, acked, opts.take(k), yiaddr, current_ip),
    decreases k,
{
    let rest = opts.drop_first();
    if k == 0 {
        assert(opts.take(0) =~= Seq::<DhcpValueView>::empty());
    } else {
        assert(!is_type(NAK())(opts.take(k)[0]));
        assert(opts.take(k).drop_first() =~= rest.take(k - 1));
        assert(rest[k - 1] == opts[k]);
        assert forall|j: int| 0 <= j < rest.take(k - 1).len() implies !is_type(NAK())(
            #[trigger] rest.take(k - 1)[j],
        ) by {
            assert(rest.take(k - 1)[j] == opts.take(k)[j + 1]);
        }
        let ip = if yiaddr == 0 {
            current_ip
        } else {
            yiaddr
        };
        let (l2, a2) = if opts[0] == DhcpValueView::MessageType(ACK()) {
            (LeaseView { ip_addr: Some(ip), ..l }, true)
        } else if opts[0] is MessageType {
            (l, acked)
        } else {
            (take_option(l, opts[0]), acked)
        };
        assert(opts.take(k)[0] == opts[0]);
        law_refusal_ends_reading(l2, a2, rest, yiaddr, current_ip, k - 1);
    }
}

/// Reading a server's answer to a discovery: every field that an option
/// gives holds the value of the last option that gives it (as
/// [`options_read`] says), and the address is `yiaddr` exactly when some
/// option offers it.
pub proof fn law_offer_reads_options(l: LeaseView, opts: Seq<DhcpValueView>, yiaddr: u32)
    ensures
        options_read(l, opts, offer_fold(l, opts, yiaddr)),
        !absent(opts, is_type(OFFER())) ==> offer_fold(l, opts, yiaddr).ip_addr == Some(yiaddr),
        absent(opts, is_type(OFFER())) ==> offer_fold(l, opts, yiaddr).ip_addr == l.ip_addr,
    decreases opts.len(),
{
    if opts.len() > 0 {
        let rest = opts.drop_first();
        let l2 = if opts[0] == DhcpValueView::MessageType(OFFER()) {
            LeaseView { ip_addr: Some(yiaddr), ..l }
        } else if opts[0] is MessageType {
            l
        } else {
            take_option(l, opts[0])
        };
        assert(offer_fold(l, opts, yiaddr) == offer_fold(l2, rest, yiaddr));
        law_offer_reads_options(l2, rest, yiaddr);
        lemma_options_step(l, l2, opts, offer_fold(l, opts, yiaddr));
        if absent(opts, is_type(OFFER())) {
            assert(absent(rest, is_type(OFFER()))) by {
                assert forall|j: int| 0 <= j < rest.len() implies !is_type(OFFER())(#[trigger] rest[j]) by {
                    assert(!is_type(OFFER())(opts[j + 1]));
                }
            }
            assert(!is_type(OFFER())(opts[0]));
        } else {
            let k = choose|k: int| 0 <= k < opts.len() && is_type(OFFER())(opts[k]);
            if k > 0 {
                assert(is_type(OFFER())(rest[k - 1]));
            }
        }
        if !absent(rest, is_type(OFFER())) {
            let k = choose|k: int| 0 <= k < rest.len() && is_type(OFFER())(rest[k]);
            assert(is_type(OFFER())(opts[k + 1]));
        }
    }
}

/// `a / b` rounded toward zero, as Rust's integer division does.
pub open spec fn div_toward_zero(a: int, b: int) -> int {
    if a >= 0 {
        a / b
    } else {
        -((-a) / b)
    }
}

/// What to do about a lease that was granted at `time_init` for `ls_dur`
/// seconds, at the time `now`.
#[derive(Debug, Clone, Copy, PartialEq, Eq, Structural)]
pub enum LeaseAction {
    /// Sleep this many seconds before looking again.
    Wait(u64),
    /// Renew the lease now, by broadcast once past seven eighths of it.
    Renew { broadcast: bool },
}

/// Before half of the lease has passed, wait until it has: the wait is the
/// half lease minus the elapsed time. After that, renew, by broadcast once
/// seven eighths have passed.
pub fn lease_action(now: i64, time_init: i64, ls_dur: i64) -> (r: LeaseAction)
    requires
        i64::MIN <= now - time_init <= i64::MAX,
        i64::MIN <= ls_dur * 7 <= i64::MAX,
    ensures
        ({
            let t1 = div_toward_zero(ls_dur as int, 2);
            let t2 = div_toward_zero(ls_dur * 7, 8);
            let passed = now - time_init;
            &&& passed < t1 ==> r == LeaseAction::Wait((t1 - passed) as u64)
            &&& passed >= t1 ==> r == (LeaseAction::Renew { broadcast: passed > t2 })
        }),
{
    let t1 = ls_dur / 2;
    let t2 = ls_dur * 7 / 8;
    let time_passed = now - time_init;
    if time_passed < t1 {
        let wait_for_secs = (t1 as i128 - time_passed as i128) as u64;
        LeaseAction::Wait(wait_for_secs)
    } else {
        LeaseAction::Renew { broadcast: time_passed > t2 }
    }
}

/// The client identifier of a MAC address: a DUID of type 3 (link-layer
/// address, `00 03`), hardware type Ethernet (`00 01`), then the six bytes.
pub fn generate_client_id(mac: [u8; 6]) -> (r: Vec<u8>)
    ensures
        r@ == seq![0u8, 3u8, 0u8, 1u8] + mac@,
{
    let mut id: Vec<u8> = Vec::new();
    id.push(0);
    id.push(3);
    id.push(0);
    id.push(1);
    let mut i: usize = 0;
    while i < 6
        invariant
            0 <= i <= 6,
            id@ == seq![0u8, 3u8, 0u8, 1u8] + mac@.take(i as int),
        decreases 6 - i,
    {
        id.push(mac[i]);
        i = i + 1;
        assert(id@ =~= seq![0u8, 3u8, 0u8, 1u8] + mac@.take(i as int));
    }
    assert(mac@.take(6) =~= mac@);
    id
}

} // verus!
