//! The netlink requests that the manager sends: to the generic netlink
//! controller and nl80211, and to the kernel's routing tables. `neli`
//! builds and writes them; what they hold is stated byte by byte.

use crate::netlink::{attr_views, RawAttr};
use neli::genl::{AttrTypeBuilder, GenlmsghdrBuilder, NlattrBuilder};
use neli::nl::NlPayload::Payload;
use neli::nl::NlmsghdrBuilder;
use neli::rtnl::{IfaddrmsgBuilder, IfinfomsgBuilder, RtattrBuilder, RtmsgBuilder};
use neli::types::{GenlBuffer, RtBuffer};
use neli::ToBytes;
use std::io::Cursor;
use vstd::endian::{endianness, Endian};
use vstd::prelude::*;

verus! {

/// The two bytes of `v`, least significant first when `le`.
pub open spec fn u16_bytes(le: bool, v: u16) -> Seq<u8> {
    if le {
        seq![(v % 0x100) as u8, (v / 0x100) as u8]
    } else {
        seq![(v / 0x100) as u8, (v % 0x100) as u8]
    }
}

/// The four bytes of `v`, least significant first when `le`.
pub open spec fn u32_bytes(le: bool, v: u32) -> Seq<u8> {
    let b0 = (v % 0x100) as u8;
    let b1 = (v / 0x100 % 0x100) as u8;
    let b2 = (v / 0x10000 % 0x100) as u8;
    let b3 = (v / 0x1000000) as u8;
    if le {
        seq![b0, b1, b2, b3]
    } else {
        seq![b3, b2, b1, b0]
    }
}

/// Whether the executing machine is little-endian: `neli` writes every
/// integer in its byte order.
pub open spec fn machine_le() -> bool {
    endianness() == Endian::Little
}

/// A netlink header in the byte order `le` for a message of `len` bytes of
/// the type `kind` with the flags `flags`, sequence number and port 0.
pub open spec fn nl_header(le: bool, len: u32, kind: u16, flags: u16) -> Seq<u8> {
    u32_bytes(le, len) + u16_bytes(le, kind) + u16_bytes(le, flags) + u32_bytes(le, 0) + u32_bytes(le, 0)
}

/// An attribute as written: its length (header and payload), its type, its
/// payload.
pub open spec fn attr_layout(le: bool, a: (u16, Seq<u8>)) -> Seq<u8> {
    u16_bytes(le, (4 + a.1.len()) as u16) + u16_bytes(le, a.0) + a.1
}

pub open spec fn attrs_layout(le: bool, attrs: Seq<(u16, Seq<u8>)>) -> Seq<u8>
    decreases attrs.len(),
{
    if attrs.len() == 0 {
        Seq::empty()
    } else {
        attr_layout(le, attrs[0]) + attrs_layout(le, attrs.drop_first())
    }
}

/// At most four attributes, each payload a whole number of 32-bit words of
/// at most 64 bytes, so that nothing is padded.
pub open spec fn small_attrs(attrs: Seq<(u16, Seq<u8>)>) -> bool {
    &&& attrs.len() <= 4
    &&& forall|i: int| 0 <= i < attrs.len() ==> (#[trigger] attrs[i]).1.len() % 4 == 0 && attrs[i].1.len() <= 64
}

/// The netlink flags that these requests use: `NLM_F_REQUEST` (1), with
/// `NLM_F_ACK` (4), with `NLM_F_DUMP` (0x300), or with `NLM_F_CREATE` and
/// `NLM_F_ACK` (0x405).
pub open spec fn known_flags(flags: u16) -> bool {
    flags == 1 || flags == 5 || flags == 0x301 || flags == 0x405
}

/// The link flags that these requests set or change: none, `IFF_UP` (1),
/// or `IFF_UP` and `IFF_RUNNING` (0x41).
pub open spec fn known_link_flags(v: u32) -> bool {
    v == 0 || v == 1 || v == 0x41
}

/// A generic netlink request: the header, the command, the version, two
/// reserved bytes and the attributes.
pub open spec fn genl_layout(le: bool, kind: u16, flags: u16, cmd: u8, version: u8, attrs: Seq<(u16, Seq<u8>)>) -> Seq<
    u8,
> {
    let a = attrs_layout(le, attrs);
    nl_header(le, (20 + a.len()) as u32, kind, flags) + seq![cmd, version, 0u8, 0u8] + a
}

/// A link request: the header and an `ifinfomsg` (family, a padding byte,
/// the device type, the index, the flags and the change mask).
pub open spec fn link_layout(
    le: bool,
    kind: u16,
    flags: u16,
    family: u8,
    dev: u16,
    index: i32,
    ifflags: u32,
    change: u32,
) -> Seq<u8> {
    nl_header(le, 32, kind, flags) + seq![family, 0u8] + u16_bytes(le, dev) + u32_bytes(le, index as u32)
        + u32_bytes(le, ifflags) + u32_bytes(le, change)
}

/// A route request: the header, an `rtmsg` (its eight one-byte fields:
/// family, destination and source lengths, TOS, table, protocol, scope and
/// type, then no flags) and the attributes.
pub open spec fn route_layout(le: bool, kind: u16, flags: u16, fields: Seq<u8>, attrs: Seq<(u16, Seq<u8>)>) -> Seq<
    u8,
> {
    let a = attrs_layout(le, attrs);
    nl_header(le, (28 + a.len()) as u32, kind, flags) + fields + u32_bytes(le, 0) + a
}

/// An address request: the header, an `ifaddrmsg` (family, prefix length,
/// no flags, scope, index) and the attributes.
pub open spec fn addr_layout(
    le: bool,
    kind: u16,
    flags: u16,
    family: u8,
    prefix: u8,
    scope: u8,
    index: u32,
    attrs: Seq<(u16, Seq<u8>)>,
) -> Seq<u8> {
    let a = attrs_layout(le, attrs);
    nl_header(le, (24 + a.len()) as u32, kind, flags) + seq![family, prefix, 0u8, scope] + u32_bytes(le, index) + a
}

/// Builds a generic netlink request with `neli`'s builders and writes it
/// with `to_bytes`. `neli` writes every integer in the machine's byte order,
/// so the bytes are the layout in that order ([`machine_le`]); its builders fail
/// only on a field left unset, and writing into a vector does not fail.
#[verifier::external_body]
fn genl_request(kind: u16, flags: u16, cmd: u8, version: u8, attrs: Vec<RawAttr>) -> (r: Option<Vec<u8>>)
    requires
        known_flags(flags),
        small_attrs(attr_views(attrs@)),
    ensures
        r is Some,
        r matches Some(v) ==> v@ == genl_layout(true, kind, flags, cmd, version, attr_views(attrs@)) || v@
            == genl_layout(false, kind, flags, cmd, version, attr_views(attrs@)),
        r matches Some(v) ==> v@ == genl_layout(machine_le(), kind, flags, cmd, version, attr_views(attrs@)),
{
    let mut buf = GenlBuffer::new();
    for a in attrs {
        let t = AttrTypeBuilder::default().nla_type(a.kind).build().ok()?;
        buf.push(NlattrBuilder::default().nla_type(t).nla_payload(a.payload).build().ok()?);
    }
    let g = GenlmsghdrBuilder::<u8, u16>::default().cmd(cmd).version(version).attrs(buf).build().ok()?;
    let mut out = Cursor::default();
    NlmsghdrBuilder::default().nl_type(kind).nl_flags(flags.into()).nl_payload(Payload(g))
        .build().ok()?.to_bytes(&mut out).ok()?;
    Some(out.into_inner())
}

/// Builds a link request with `neli`'s builders and writes it with
/// `to_bytes`, in the machine's byte order as for [`genl_request`].
#[verifier::external_body]
fn link_request(kind: u16, flags: u16, family: u8, dev: u16, index: i32, ifflags: u32, change: u32) -> (r: Option<
    Vec<u8>,
>)
    requires
        known_flags(flags),
        known_link_flags(ifflags),
        known_link_flags(change),
    ensures
        r is Some,
        r matches Some(v) ==> v@ == link_layout(true, kind, flags, family, dev, index, ifflags, change) || v@
            == link_layout(false, kind, flags, family, dev, index, ifflags, change),
        r matches Some(v) ==> v@ == link_layout(machine_le(), kind, flags, family, dev, index, ifflags, change),
{
    let info = IfinfomsgBuilder::default().ifi_family(family.into()).ifi_type(dev.into()).ifi_index(index)
        .ifi_flags(ifflags.into()).ifi_change(change.into()).build().ok()?;
    let mut out = Cursor::default();
    NlmsghdrBuilder::default().nl_type(kind).nl_flags(flags.into()).nl_payload(Payload(info))
        .build().ok()?.to_bytes(&mut out).ok()?;
    Some(out.into_inner())
}

/// Builds a route request with `neli`'s builders and writes it with
/// `to_bytes`, in the machine's byte order as for [`genl_request`].
#[verifier::external_body]
fn route_request(
    kind: u16,
    flags: u16,
    fam: u8,
    dst: u8,
    src: u8,
    tos: u8,
    table: u8,
    proto: u8,
    scope: u8,
    ty: u8,
    attrs: Vec<RawAttr>,
) -> (r: Option<Vec<u8>>)
    requires
        known_flags(flags),
        small_attrs(attr_views(attrs@)),
    ensures
        r is Some,
        r matches Some(v) ==> v@ == route_layout(true, kind, flags, seq![fam, dst, src, tos, table, proto, scope, ty], attr_views(attrs@))
            || v@ == route_layout(false, kind, flags, seq![fam, dst, src, tos, table, proto, scope, ty], attr_views(attrs@)),
        r matches Some(v) ==> v@ == route_layout(machine_le(), kind, flags, seq![fam, dst, src, tos, table, proto, scope, ty], attr_views(attrs@)),
{
    let mut buf = RtBuffer::new();
    for a in attrs {
        buf.push(RtattrBuilder::default().rta_type(a.kind.into()).rta_payload(a.payload).build().ok()?);
    }
    let mut out = Cursor::default();
    NlmsghdrBuilder::default().nl_type(kind).nl_flags(flags.into()).nl_payload(Payload(RtmsgBuilder::default()
        .rtm_family(fam.into()).rtm_dst_len(dst).rtm_src_len(src).rtm_tos(tos).rtm_table(table.into())
        .rtm_protocol(proto.into()).rtm_scope(scope.into()).rtm_type(ty.into()).rtattrs(buf).build().ok()?))
        .build().ok()?.to_bytes(&mut out).ok()?;
    Some(out.into_inner())
}

/// Builds an address request with `neli`'s builders and writes it with
/// `to_bytes`, in the machine's byte order as for [`genl_request`].
#[verifier::external_body]
fn addr_request(kind: u16, flags: u16, family: u8, prefix: u8, scope: u8, index: u32, attrs: Vec<RawAttr>) -> (r:
    Option<Vec<u8>>)
    requires
        known_flags(flags),
        small_attrs(attr_views(attrs@)),
    ensures
        r is Some,
        r matches Some(v) ==> v@ == addr_layout(true, kind, flags, family, prefix, scope, index, attr_views(attrs@))
            || v@ == addr_layout(false, kind, flags, family, prefix, scope, index, attr_views(attrs@)),
        r matches Some(v) ==> v@ == addr_layout(machine_le(), kind, flags, family, prefix, scope, index, attr_views(attrs@)),
{
    let mut buf = RtBuffer::new();
    for a in attrs {
        buf.push(RtattrBuilder::default().rta_type(a.kind.into()).rta_payload(a.payload).build().ok()?);
    }
    let addr = IfaddrmsgBuilder::default().ifa_family(family.into()).ifa_prefixlen(prefix).ifa_scope(scope.into())
        .ifa_index(index).rtattrs(buf).build().ok()?;
    let mut out = Cursor::default();
    NlmsghdrBuilder::default().nl_type(kind).nl_flags(flags.into()).nl_payload(Payload(addr))
        .build().ok()?.to_bytes(&mut out).ok()?;
    Some(out.into_inner())
}

/// The four bytes of `n` in the machine's byte order, as `u32::to_ne_bytes`
/// gives them.
#[verifier::external_body]
fn native_bytes(n: u32) -> (r: Vec<u8>)
    ensures
        r@ == u32_bytes(true, n) || r@ == u32_bytes(false, n),
        r@ == u32_bytes(machine_le(), n),
{
    n.to_ne_bytes().to_vec()
}

/// The four bytes of `v`, most significant first.
pub fn be_bytes(v: u32) -> (r: Vec<u8>)
    ensures
        r@ == u32_bytes(false, v),
{
    let mut r: Vec<u8> = Vec::new();
    r.push((v / 0x1000000) as u8);
    r.push((v / 0x10000 % 0x100) as u8);
    r.push((v / 0x100 % 0x100) as u8);
    r.push((v % 0x100) as u8);
    assert(r@ =~= u32_bytes(false, v));
    r
}

/// The payload bytes are `n` in the machine's byte order (one of the two).
pub open spec fn native(p: Seq<u8>, n: u32) -> bool {
    &&& p == u32_bytes(true, n) || p == u32_bytes(false, n)
    &&& p == u32_bytes(machine_le(), n)
}

/// `r` is `f` in the machine's byte order (one of the two).
pub open spec fn either(r: Seq<u8>, f: spec_fn(bool) -> Seq<u8>) -> bool {
    &&& r == f(true) || r == f(false)
    &&& r == f(machine_le())
}

fn one_attr(kind: u16, payload: Vec<u8>) -> (r: Vec<RawAttr>)
    ensures
        attr_views(r@) == seq![(kind, payload@)],
{
    let mut r: Vec<RawAttr> = Vec::new();
    r.push(RawAttr { kind, payload });
    assert(attr_views(r@) =~= seq![(kind, payload@)]);
    r
}

fn two_attrs(k1: u16, p1: Vec<u8>, k2: u16, p2: Vec<u8>) -> (r: Vec<RawAttr>)
    ensures
        attr_views(r@) == seq![(k1, p1@), (k2, p2@)],
{
    let mut r: Vec<RawAttr> = Vec::new();
    r.push(RawAttr { kind: k1, payload: p1 });
    r.push(RawAttr { kind: k2, payload: p2 });
    assert(attr_views(r@) =~= seq![(k1, p1@), (k2, p2@)]);
    r
}

fn built(r: Option<Vec<u8>>) -> (v: Vec<u8>)
    requires
        r is Some,
    ensures
        r == Some(v),
{
    match r {
        Some(v) => v,
        None => Vec::new(),
    }
}

proof fn lemma_bytes_len(le: bool, a: u16, b: u32)
    ensures
        u16_bytes(le, a).len() == 2,
        u32_bytes(le, b).len() == 4,
        nl_header(le, b, a, a).len() == 16,
{
}

proof fn lemma_one_attr(le: bool, t: u16, p: Seq<u8>)
    ensures
        attrs_layout(le, seq![(t, p)]) == attr_layout(le, (t, p)),
        attr_layout(le, (t, p)).len() == 4 + p.len(),
        attr_layout(le, (t, p)).subrange(4, 4 + p.len() as int) == p,
{
    lemma_bytes_len(le, t, 0);
    lemma_bytes_len(le, (4 + p.len()) as u16, 0);
    assert(seq![(t, p)].drop_first() =~= Seq::<(u16, Seq<u8>)>::empty());
    assert(attrs_layout(le, Seq::<(u16, Seq<u8>)>::empty()) =~= Seq::<u8>::empty());
    assert(attrs_layout(le, seq![(t, p)]) =~= attr_layout(le, (t, p)));
    assert(attr_layout(le, (t, p)).subrange(4, 4 + p.len() as int) =~= p);
}

/// `"nl80211"` and its NUL.
pub open spec fn nl80211_name() -> Seq<u8> {
    seq![110u8, 108u8, 56u8, 48u8, 50u8, 49u8, 49u8, 0u8]
}

/// The request for the nl80211 family's description: `CTRL_CMD_GETFAMILY`
/// (3), version 1, to the controller (16), with an acknowledgement, naming
/// the family (`CTRL_ATTR_FAMILY_NAME`, 2).
pub open spec fn family_layout(le: bool) -> Seq<u8> {
    genl_layout(le, 16, 5, 3, 1, seq![(2u16, nl80211_name())])
}

/// The request for the nl80211 family's description.
pub fn family_request() -> (r: Vec<u8>)
    ensures
        either(r@, |le: bool| family_layout(le)),
{
    let name: Vec<u8> = vec![110u8, 108, 56, 48, 50, 49, 49, 0];
    assert(name@ =~= nl80211_name());
    let attrs = one_attr(2, name);
    built(genl_request(16, 5, 3, 1, attrs))
}

/// An nl80211 request of the family `family_id` with the command `cmd` and
/// the flags `flags`, naming the interface (`NL80211_ATTR_IFINDEX`, 3) by
/// the payload `p`.
pub open spec fn ifindex_layout(le: bool, family_id: u16, flags: u16, cmd: u8, p: Seq<u8>) -> Seq<u8> {
    genl_layout(le, family_id, flags, cmd, 1, seq![(3u16, p)])
}

fn ifindex_request(family_id: u16, flags: u16, cmd: u8, ifindex: u32) -> (r: Vec<u8>)
    requires
        known_flags(flags),
    ensures
        r@.len() == 28,
        native(r@.subrange(24, 28), ifindex),
        either(r@, |le: bool| ifindex_layout(le, family_id, flags, cmd, r@.subrange(24, 28))),
{
    let p = native_bytes(ifindex);
    let ghost pv = p@;
    let attrs = one_attr(3, p);
    let r = built(genl_request(family_id, flags, cmd, 1, attrs));
    proof {
        lemma_bytes_len(true, 0, 0);
        lemma_bytes_len(false, 0, 0);
        lemma_one_attr(true, 3, pv);
        lemma_one_attr(false, 3, pv);
        let le = r@ == ifindex_layout(true, family_id, flags, cmd, pv);
        let a = attrs_layout(le, seq![(3u16, pv)]);
        assert(r@ == nl_header(le, (20 + a.len()) as u32, family_id, flags) + seq![cmd, 1u8, 0u8, 0u8] + a);
        assert(r@.subrange(24, 28) =~= a.subrange(4, 8));
    }
    r
}

/// The request that starts a scan on the interface `ifindex`:
/// `NL80211_CMD_TRIGGER_SCAN` (33), with an acknowledgement.
pub fn trigger_scan_request(family_id: u16, ifindex: u32) -> (r: Vec<u8>)
    ensures
        r@.len() == 28,
        native(r@.subrange(24, 28), ifindex),
        either(r@, |le: bool| ifindex_layout(le, family_id, 5, 33, r@.subrange(24, 28))),
{
    ifindex_request(family_id, 5, 33, ifindex)
}

/// The request for the scan results of the interface `ifindex`:
/// `NL80211_CMD_GET_SCAN` (32), as a dump.
pub fn scan_dump_request(family_id: u16, ifindex: u32) -> (r: Vec<u8>)
    ensures
        r@.len() == 28,
        native(r@.subrange(24, 28), ifindex),
        either(r@, |le: bool| ifindex_layout(le, family_id, 0x301, 32, r@.subrange(24, 28))),
{
    ifindex_request(family_id, 0x301, 32, ifindex)
}

/// The request for the wireless interfaces' details:
/// `NL80211_CMD_GET_INTERFACE` (5), as a dump, with no attribute.
pub fn interface_dump_request(family_id: u16) -> (r: Vec<u8>)
    ensures
        either(r@, |le: bool| genl_layout(le, family_id, 0x301, 5, 1, Seq::empty())),
{
    let attrs: Vec<RawAttr> = Vec::new();
    assert(attr_views(attrs@) =~= Seq::<(u16, Seq<u8>)>::empty());
    built(genl_request(family_id, 0x301, 5, 1, attrs))
}

/// The request for every link: `RTM_GETLINK` (18), as a dump, with an
/// empty `ifinfomsg` of device type `ARPHRD_NONE` (0xfffe).
pub fn link_dump_request() -> (r: Vec<u8>)
    ensures
        either(r@, |le: bool| link_layout(le, 18, 0x301, 0, 0xfffe, 0, 0, 0)),
{
    built(link_request(18, 0x301, 0, 0xfffe, 0, 0, 0))
}

/// The request that clears the link `ifindex`'s `IFF_UP` flag:
/// `RTM_SETLINK` (19) with an acknowledgement, for an Ethernet device (1),
/// changing `IFF_UP` (1) to nothing.
pub fn link_down_request(ifindex: i32) -> (r: Vec<u8>)
    ensures
        either(r@, |le: bool| link_layout(le, 19, 5, 0, 1, ifindex, 0, 1)),
{
    built(link_request(19, 5, 0, 1, ifindex, 0, 1))
}

/// The request that sets the link `ifindex` up and running: `IFF_UP` (1)
/// and `IFF_RUNNING` (0x40) changed and set.
pub fn link_up_request(ifindex: i32) -> (r: Vec<u8>)
    ensures
        either(r@, |le: bool| link_layout(le, 19, 5, 0, 1, ifindex, 0x41, 0x41)),
{
    built(link_request(19, 5, 0, 1, ifindex, 0x41, 0x41))
}

/// The request for the route to 8.8.8.8: `RTM_GETROUTE` (26), an IPv4
/// (2) unicast (1) route of the main table (254) to a /32 destination
/// (`RTA_DST`, 1).
pub fn route_query_request() -> (r: Vec<u8>)
    ensures
        either(r@, |le: bool| route_layout(le, 26, 1, seq![2u8, 32u8, 0u8, 0u8, 254u8, 0u8, 0u8, 1u8], seq![(1u16, seq![8u8, 8u8, 8u8, 8u8])])),
{
    let dst: Vec<u8> = vec![8u8, 8, 8, 8];
    assert(dst@ =~= seq![8u8, 8u8, 8u8, 8u8]);
    let attrs = one_attr(1, dst);
    built(route_request(26, 1, 2, 32, 0, 0, 254, 0, 0, 1, attrs))
}

/// The request for the IPv4 addresses: `RTM_GETADDR` (22), as a dump, of
/// the interface `ifindex`.
pub fn address_query_request(ifindex: u32) -> (r: Vec<u8>)
    ensures
        either(r@, |le: bool| addr_layout(le, 22, 0x301, 2, 0, 0, ifindex, Seq::empty())),
{
    let attrs: Vec<RawAttr> = Vec::new();
    assert(attr_views(attrs@) =~= Seq::<(u16, Seq<u8>)>::empty());
    built(addr_request(22, 0x301, 2, 0, 0, ifindex, attrs))
}

/// The request that gives the interface `ifindex` the address `ip` as a
/// /24: `RTM_NEWADDR` (20), created with an acknowledgement, with
/// `IFA_LOCAL` (2).
pub fn add_address_request(ifindex: u32, ip: u32) -> (r: Vec<u8>)
    ensures
        either(r@, |le: bool| addr_layout(le, 20, 0x405, 2, 24, 0, ifindex, seq![(2u16, u32_bytes(false, ip))])),
{
    let attrs = one_attr(2, be_bytes(ip));
    built(addr_request(20, 0x405, 2, 24, 0, ifindex, attrs))
}

/// The request that routes everything through `gateway` on the interface
/// `ifindex`: `RTM_NEWROUTE` (24), created with an acknowledgement, an IPv4
/// unicast route of the main table set at boot (3), with `RTA_OIF` (4) and
/// `RTA_GATEWAY` (5).
pub open spec fn default_route_layout(le: bool, p: Seq<u8>, gateway: u32) -> Seq<u8> {
    route_layout(
        le,
        24,
        0x405,
        seq![2u8, 0u8, 0u8, 0u8, 254u8, 3u8, 0u8, 1u8],
        seq![(4u16, p), (5u16, u32_bytes(false, gateway))],
    )
}

pub fn default_route_request(ifindex: u32, gateway: u32) -> (r: Vec<u8>)
    ensures
        r@.len() == 44,
        native(r@.subrange(32, 36), ifindex),
        either(r@, |le: bool| default_route_layout(le, r@.subrange(32, 36), gateway)),
{
    let p = native_bytes(ifindex);
    let ghost pv = p@;
    let attrs = two_attrs(4, p, 5, be_bytes(gateway));
    let r = built(route_request(24, 0x405, 2, 0, 0, 0, 254, 3, 0, 1, attrs));
    proof {
        lemma_bytes_len(true, 0, 0);
        lemma_bytes_len(false, 0, 0);
        let le = r@ == default_route_layout(true, pv, gateway);
        let attrs2 = seq![(4u16, pv), (5u16, u32_bytes(false, gateway))];
        lemma_one_attr(le, 4, pv);
        lemma_one_attr(le, 5, u32_bytes(false, gateway));
        assert(attrs2.drop_first() =~= seq![(5u16, u32_bytes(false, gateway))]);
        let a = attrs_layout(le, attrs2);
        assert(a == attr_layout(le, (4u16, pv)) + attr_layout(le, (5u16, u32_bytes(false, gateway))));
        assert(r@ == nl_header(le, (28 + a.len()) as u32, 24, 0x405) + seq![2u8, 0u8, 0u8, 0u8, 254u8, 3u8, 0u8, 1u8]
            + u32_bytes(le, 0) + a);
        assert(r@.subrange(32, 36) =~= attr_layout(le, (4u16, pv)).subrange(4, 8));
    }
    r
}

/// The two requests that take a lease back: removing the address `ip` with
/// the prefix length `prefix` from the interface `ifindex` (`RTM_DELADDR`,
/// 21, with `IFA_LOCAL`), then the route through `gateway` (`RTM_DELROUTE`,
/// 25, an IPv4 unicast route with `RTA_GATEWAY`), both with an
/// acknowledgement.
pub fn removal_requests(ifindex: u32, ip: u32, prefix: u8, gateway: u32) -> (r: (Vec<u8>, Vec<u8>))
    ensures
        either(r.0@, |le: bool| addr_layout(le, 21, 5, 2, prefix, 0, ifindex, seq![(2u16, u32_bytes(false, ip))])),
        either(r.1@, |le: bool| route_layout(le, 25, 5, seq![2u8, 0u8, 0u8, 0u8, 0u8, 0u8, 0u8, 1u8], seq![(5u16, u32_bytes(false, gateway))])),
{
    let addr = built(addr_request(21, 5, 2, prefix, 0, ifindex, one_attr(2, be_bytes(ip))));
    let route = built(route_request(25, 5, 2, 0, 0, 0, 0, 0, 0, 1, one_attr(5, be_bytes(gateway))));
    (addr, route)
}

} // verus!
