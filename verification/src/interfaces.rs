//! What the kernel reports of the network interfaces: their kind, address,
//! state and the details of the wireless one in use.

use crate::backend::{is_listed, listed};
use crate::dhcp_storage::DhcpFile;
use crate::netlink::{attr_views, wifi_attr, wifi_attr_of, RawAttr, WifiAttr};
use crate::scan::{format_mac, le_u32, le_u32_of, lossy_text, mac_text, utf8_lossy};
use crate::family::trim_nuls_exec;
use crate::types::{clone_addrs, clone_text, text_view, CurrentConnection, Host, Interface, InterfaceType};
use neli::consts::rtnl::{Ifa, Ifla, Rta};
use neli::{FromBytes, FromBytesWithInput};
use std::io::Cursor;
use vstd::endian::{endianness, Endian};
use vstd::prelude::*;
use vstd::string::*;

verus! {

/// `s` starts with `p`.
pub open spec fn starts_with(s: Seq<char>, p: Seq<char>) -> bool {
    p.len() <= s.len() && s.take(p.len() as int) == p
}

/// `p` occurs in `s`.
pub open spec fn contains(s: Seq<char>, p: Seq<char>) -> bool {
    exists|i: int| 0 <= i && i + p.len() <= s.len() && #[trigger] s.subrange(i, i + p.len()) == p
}

fn starts_with_exec(s: &str, p: &str) -> (r: bool)
    ensures
        r == starts_with(s@, p@),
{
    let n = s.unicode_len();
    let m = p.unicode_len();
    if m > n {
        return false;
    }
    let mut i: usize = 0;
    while i < m
        invariant
            m <= n,
            n == s@.len(),
            m == p@.len(),
            i <= m,
            forall|j: int| 0 <= j < i ==> s@[j] == p@[j],
        decreases m - i,
    {
        if s.get_char(i) != p.get_char(i) {
            assert(s@.take(m as int)[i as int] != p@[i as int]);
            return false;
        }
        i = i + 1;
    }
    assert(s@.take(m as int) =~= p@);
    true
}

pub(crate) fn contains_text(s: &str, p: &str) -> (r: bool)
    ensures
        r == contains(s@, p@),
{
    let n = s.unicode_len();
    let m = p.unicode_len();
    if m > n {
        return false;
    }
    let mut i: usize = 0;
    while i <= n - m
        invariant
            m <= n,
            n == s@.len(),
            m == p@.len(),
            i <= n - m + 1,
            forall|k: int| 0 <= k < i ==> #[trigger] s@.subrange(k, k + p@.len()) != p@,
        decreases n - m + 1 - i,
    {
        let mut j: usize = 0;
        let mut same = true;
        while j < m && same
            invariant
                m <= n,
                n == s@.len(),
                m == p@.len(),
                i + m <= n,
                j <= m,
                same == (forall|t: int| 0 <= t < j ==> s@[i + t] == p@[t]),
            decreases m - j,
        {
            if s.get_char(i + j) != p.get_char(j) {
                same = false;
            }
            j = j + 1;
        }
        if same {
            assert(s@.subrange(i as int, i + m) =~= p@);
            return true;
        } else {
            let ghost t = choose|t: int| 0 <= t < j && s@[i + t] != p@[t];
            assert(s@.subrange(i as int, i + m)[t] != p@[t]);
        }
        i = i + 1;
    }
    proof {
        assert forall|k: int| 0 <= k && k + p@.len() <= s@.len() implies #[trigger] s@.subrange(
            k,
            k + p@.len(),
        ) != p@ by {}
    }
    false
}

/// The kind of an interface as its name tells: wireless for names starting
/// with `wl` or with a `wireless` entry in sysfs, wired for `eth` and `en`,
/// loopback for names containing `lo`; `None` when the name tells nothing.
pub open spec fn kind_of_name(name: Seq<char>, sysfs_wireless: bool) -> Option<InterfaceType> {
    if starts_with(name, "wl"@) || sysfs_wireless {
        Some(InterfaceType::Wireless)
    } else if starts_with(name, "eth"@) || starts_with(name, "en"@) {
        Some(InterfaceType::Wired)
    } else if contains(name, "lo"@) {
        Some(InterfaceType::Loopback)
    } else {
        None
    }
}

/// The kind of an interface, from its name and whether sysfs lists it as
/// wireless.
pub fn classify_interface(name: &str, sysfs_wireless: bool) -> (r: Option<InterfaceType>)
    ensures
        r == kind_of_name(name@, sysfs_wireless),
{
    if starts_with_exec(name, "wl") || sysfs_wireless {
        Some(InterfaceType::Wireless)
    } else if starts_with_exec(name, "eth") || starts_with_exec(name, "en") {
        Some(InterfaceType::Wired)
    } else if contains_text(name, "lo") {
        Some(InterfaceType::Loopback)
    } else {
        None
    }
}

/// Reads a link's name into the interface: the name is kept, and the kind
/// it tells, if any.
pub fn apply_link_name(iface: &mut Interface, name: String, sysfs_wireless: bool)
    ensures
        final(iface).ifindex == old(iface).ifindex,
        final(iface).mac == old(iface).mac,
        text_view(final(iface).ifname) == Some(name@),
        final(iface).iftype == match kind_of_name(name@, sysfs_wireless) {
            Some(k) => k,
            None => old(iface).iftype,
        },
{
    let kind = classify_interface(name.as_str(), sysfs_wireless);
    iface.set_ifname(name);
    if let Some(k) = kind {
        iface.set_iftype(k);
    }
}

/// Reads a link's hardware address into the interface: a six-byte address
/// is kept as MAC text; another length changes nothing.
pub fn apply_link_address(iface: &mut Interface, payload: &[u8])
    ensures
        payload@.len() == 6 ==> final(iface).ifindex == old(iface).ifindex && final(iface).ifname
            == old(iface).ifname && final(iface).iftype == old(iface).iftype && text_view(
            final(iface).mac,
        ) == Some(mac_text(payload@)),
        payload@.len() != 6 ==> *final(iface) == *old(iface),
{
    if payload.len() == 6 {
        iface.set_mac(format_mac(payload, 6));
        assert(payload@.take(6) =~= payload@);
    }
}

/// A link whose operational state (its first byte) is 6, `IF_OPER_UP`, is up.
pub fn link_is_up(operstate: &[u8]) -> (r: bool)
    requires
        operstate@.len() > 0,
    ensures
        r == (operstate@[0] == 6),
{
    operstate[0] == 6
}

/// `Ifa::from(t)` of `neli` is `Ifa::Address` (libc's `IFA_ADDRESS`, 1) or
/// `Ifa::Local` (`IFA_LOCAL`, 2).
#[verifier::external_body]
fn is_address_attr(t: u16) -> (r: bool)
    ensures
        r == (t == 1 || t == 2),
{
    matches!(Ifa::from(t), Ifa::Address | Ifa::Local)
}

/// The first IPv4 address among an address message's attributes: an
/// address or local attribute of four bytes, read in network order.
pub open spec fn first_ipv4(attrs: Seq<(u16, Seq<u8>)>) -> Option<u32>
    decreases attrs.len(),
{
    if attrs.len() == 0 {
        None
    } else if (attrs[0].0 == 1 || attrs[0].0 == 2) && attrs[0].1.len() == 4 {
        let b = attrs[0].1;
        Some((b[0] as int * 0x1000000 + b[1] as int * 0x10000 + b[2] as int * 0x100 + b[3] as int) as u32)
    } else {
        first_ipv4(attrs.drop_first())
    }
}

/// The IPv4 address that an address message gives its interface.
pub fn message_ipv4(attrs: &Vec<RawAttr>) -> (r: Option<u32>)
    ensures
        r == first_ipv4(attr_views(attrs@)),
{
    let ghost all = attr_views(attrs@);
    let mut i: usize = 0;
    assert(all.skip(0) =~= all);
    while i < attrs.len()
        invariant
            0 <= i <= attrs@.len(),
            all == attr_views(attrs@),
            first_ipv4(all.skip(i as int)) == first_ipv4(all),
        decreases attrs@.len() - i,
    {
        assert(all.skip(i as int)[0] == attrs@[i as int]@);
        assert(all.skip(i as int).drop_first() =~= all.skip(i + 1));
        let a = &attrs[i];
        if is_address_attr(a.kind) && a.payload.len() == 4 {
            let b = &a.payload;
            return Some(
                (b[0] as u32) * 0x1000000 + (b[1] as u32) * 0x10000 + (b[2] as u32) * 0x100 + (
                b[3] as u32),
            );
        }
        i = i + 1;
    }
    assert(all.skip(i as int).len() == 0);
    None
}

/// `Rta::from(t)` of `neli` is `Rta::Oif` (libc's `RTA_OIF`, 4).
#[verifier::external_body]
fn is_oif_attr(t: u16) -> (r: bool)
    ensures
        r == (t == 4),
{
    matches!(Rta::from(t), Rta::Oif)
}

/// The unsigned number whose big-endian bytes start `p`.
pub open spec fn be_u32_of(p: Seq<u8>) -> u32 {
    (p[0] as int * 0x1000000 + p[1] as int * 0x10000 + p[2] as int * 0x100 + p[3] as int) as u32
}

/// The first four bytes of `p` read in the machine's byte order.
pub open spec fn native_u32_of(p: Seq<u8>) -> u32 {
    match endianness() {
        Endian::Little => le_u32_of(p),
        Endian::Big => be_u32_of(p),
    }
}

/// `u32::from_bytes` of `neli` on an attribute payload, as `get_payload_as`
/// calls it: it reads the first four bytes, and fails on fewer. It reads
/// them in the machine's byte order.
#[verifier::external_body]
fn payload_u32(p: &[u8]) -> (r: Option<u32>)
    ensures
        r is Some <==> p@.len() >= 4,
        r matches Some(v) ==> v == le_u32_of(p@) || v == be_u32_of(p@),
        r matches Some(v) ==> v == native_u32_of(p@),
{
    <u32 as FromBytes>::from_bytes(&mut Cursor::new(p)).ok()
}

/// The payload of the first output-interface attribute of a route.
pub open spec fn first_oif(attrs: Seq<(u16, Seq<u8>)>) -> Option<Seq<u8>>
    decreases attrs.len(),
{
    if attrs.len() == 0 {
        None
    } else if attrs[0].0 == 4 {
        Some(attrs[0].1)
    } else {
        first_oif(attrs.drop_first())
    }
}

/// The output interface of a route, from its attributes: the index in the
/// first output-interface attribute, none when there is no such attribute,
/// and an error when its payload is shorter than an index.
pub fn route_oif(attrs: &Vec<RawAttr>) -> (r: Result<Option<u32>, ()>)
    ensures
        first_oif(attr_views(attrs@)) is None ==> r == Ok::<Option<u32>, ()>(None),
        first_oif(attr_views(attrs@)) matches Some(p) ==> if p.len() >= 4 {
            r matches Ok(Some(v)) && (v == le_u32_of(p) || v == be_u32_of(p)) && v == native_u32_of(p)
        } else {
            r is Err
        },
{
    let ghost all = attr_views(attrs@);
    let mut i: usize = 0;
    assert(all.skip(0) =~= all);
    while i < attrs.len()
        invariant
            0 <= i <= attrs@.len(),
            all == attr_views(attrs@),
            first_oif(all.skip(i as int)) == first_oif(all),
        decreases attrs@.len() - i,
    {
        assert(all.skip(i as int)[0] == attrs@[i as int]@);
        assert(all.skip(i as int).drop_first() =~= all.skip(i + 1));
        if is_oif_attr(attrs[i].kind) {
            return match payload_u32(attrs[i].payload.as_slice()) {
                Some(v) => Ok(Some(v)),
                None => Err(()),
            };
        }
        i = i + 1;
    }
    assert(all.skip(i as int).len() == 0);
    Ok(None)
}

/// The first interface whose index is `ifindex` (both absent counts).
pub fn interface_with_index(ifaces: &Vec<Interface>, ifindex: Option<u32>) -> (r: Option<Interface>)
    ensures
        r matches Some(i) ==> exists|k: int|
            0 <= k < ifaces@.len() && ifaces@[k] == i && i.ifindex == ifindex && forall|j: int|
                0 <= j < k ==> (#[trigger] ifaces@[j]).ifindex != ifindex,
        r is None ==> forall|k: int| 0 <= k < ifaces@.len() ==> (#[trigger] ifaces@[k]).ifindex != ifindex,
{
    let mut k: usize = 0;
    while k < ifaces.len()
        invariant
            0 <= k <= ifaces@.len(),
            forall|j: int| 0 <= j < k ==> (#[trigger] ifaces@[j]).ifindex != ifindex,
        decreases ifaces@.len() - k,
    {
        if ifaces[k].ifindex == ifindex {
            return Some(ifaces[k].clone());
        }
        k = k + 1;
    }
    None
}

/// The parts of a connection record that nl80211's interface dump fills.
pub struct WirelessView {
    pub ifname: Option<Seq<char>>,
    pub mac: Option<Seq<char>>,
    pub ifindex: Option<u32>,
    pub ssid: Option<Seq<char>>,
}

pub open spec fn wireless_view(c: CurrentConnection) -> WirelessView {
    WirelessView {
        ifname: text_view(c.ifname),
        mac: text_view(c.mac),
        ifindex: c.ifindex,
        ssid: text_view(c.ssid),
    }
}

/// What one attribute of an interface dump tells about the connection: its
/// name is checked against the record's (another name is passed over), a
/// MAC of six bytes or more, an index of four bytes or more, and the SSID.
pub open spec fn wireless_step(v: WirelessView, t: u16, p: Seq<u8>) -> WirelessView {
    match wifi_attr_of(t) {
        WifiAttr::Ifname => v,
        WifiAttr::Mac => if p.len() >= 6 {
            WirelessView { mac: Some(mac_text(p.take(6))), ..v }
        } else {
            v
        },
        WifiAttr::Ifindex => if p.len() >= 4 {
            WirelessView { ifindex: Some(le_u32_of(p)), ..v }
        } else {
            v
        },
        WifiAttr::Ssid => WirelessView { ssid: Some(utf8_lossy(p)), ..v },
        _ => v,
    }
}

pub open spec fn wireless_fold(v: WirelessView, attrs: Seq<(u16, Seq<u8>)>) -> WirelessView
    decreases attrs.len(),
{
    if attrs.len() == 0 {
        v
    } else {
        wireless_fold(wireless_step(v, attrs[0].0, attrs[0].1), attrs.drop_first())
    }
}

/// The record is the same outside the fields of an interface dump.
pub open spec fn same_but_wireless(a: CurrentConnection, b: CurrentConnection) -> bool {
    &&& a.bssid == b.bssid
    &&& a.frequency == b.frequency
    &&& a.ip_addr == b.ip_addr
    &&& a.subnet_mask == b.subnet_mask
    &&& a.gateway == b.gateway
    &&& a.dns_servers == b.dns_servers
    &&& a.server_id == b.server_id
    &&& a.lease_duration == b.lease_duration
    &&& a.renewal_time == b.renewal_time
    &&& a.rebinding_time == b.rebinding_time
    &&& a.time_initiated == b.time_initiated
}

/// Reads the attributes of one message of nl80211's interface dump into the
/// record of a connected interface.
pub fn apply_wireless_attrs(conn: &mut CurrentConnection, attrs: &Vec<RawAttr>)
    requires
        old(conn).ifname is Some,
    ensures
        wireless_view(*final(conn)) == wireless_fold(wireless_view(*old(conn)), attr_views(attrs@)),
        same_but_wireless(*final(conn), *old(conn)),
{
    let ghost all = attr_views(attrs@);
    let mut i: usize = 0;
    assert(all.skip(0) =~= all);
    while i < attrs.len()
        invariant
            0 <= i <= attrs@.len(),
            all == attr_views(attrs@),
            conn.ifname is Some,
            wireless_fold(wireless_view(*conn), all.skip(i as int)) == wireless_fold(
                wireless_view(*old(conn)),
                all,
            ),
            same_but_wireless(*conn, *old(conn)),
        decreases attrs@.len() - i,
    {
        assert(all.skip(i as int)[0] == attrs@[i as int]@);
        assert(all.skip(i as int).drop_first() =~= all.skip(i + 1));
        let a = &attrs[i];
        let payload = a.payload.as_slice();
        match wifi_attr(a.kind) {
            WifiAttr::Ifname => {
                let raw = lossy_text(payload);
                let name = trim_nuls_exec(raw.as_str());
                let same = match &conn.ifname {
                    Some(cur) => *cur == name,
                    None => false,
                };
                if same {
                    conn.ifname = Some(name);
                }
            },
            WifiAttr::Mac => {
                if payload.len() >= 6 {
                    conn.mac = Some(format_mac(payload, 6));
                }
            },
            WifiAttr::Ifindex => {
                if payload.len() >= 4 {
                    conn.ifindex = Some(le_u32(payload));
                }
            },
            WifiAttr::Ssid => {
                conn.ssid = Some(lossy_text(payload));
            },
            _ => {},
        }
        i = i + 1;
    }
    assert(all.skip(i as int).len() == 0);
}

/// The first scanned host that this machine is connected to.
pub open spec fn first_connected(hosts: Seq<Host>, k: int) -> bool {
    &&& 0 <= k < hosts.len()
    &&& hosts[k].is_connected
    &&& forall|j: int| 0 <= j < k ==> !(#[trigger] hosts[j]).is_connected
}

/// Takes the network name, access point and frequency of the first
/// connected host of a scan into the record; `false` when no host is
/// connected, and the record is then unchanged.
pub fn apply_connected_host(conn: &mut CurrentConnection, hosts: &Vec<Host>) -> (r: bool)
    ensures
        r == (exists|k: int| first_connected(hosts@, k)),
        r ==> exists|k: int|
            first_connected(hosts@, k) && *final(conn) == (CurrentConnection {
                ssid: hosts@[k].ssid,
                bssid: hosts@[k].bssid,
                frequency: hosts@[k].frequency,
                ..*old(conn)
            }),
        !r ==> *final(conn) == *old(conn),
{
    let mut k: usize = 0;
    while k < hosts.len()
        invariant
            0 <= k <= hosts@.len(),
            *conn == *old(conn),
            forall|j: int| 0 <= j < k ==> !(#[trigger] hosts@[j]).is_connected,
        decreases hosts@.len() - k,
    {
        if hosts[k].is_connected {
            conn.ssid = clone_text(&hosts[k].ssid);
            conn.bssid = clone_text(&hosts[k].bssid);
            conn.frequency = hosts[k].frequency;
            assert(first_connected(hosts@, k as int));
            return true;
        }
        k = k + 1;
    }
    false
}

/// Takes the lease details of the first stored lease record into the
/// connection record; with no record it is unchanged.
pub fn apply_lease_record(conn: &mut CurrentConnection, files: &Vec<DhcpFile>)
    ensures
        files@.len() == 0 ==> *final(conn) == *old(conn),
        files@.len() > 0 ==> {
            let f = files@[0];
            &&& final(conn).subnet_mask == f.subnet_mask
            &&& final(conn).dns_servers@ == f.dns_servers@
            &&& final(conn).server_id == f.server_id
            &&& final(conn).lease_duration == f.lease_duration
            &&& final(conn).time_initiated == f.time_initiated
            &&& final(conn).ifname == old(conn).ifname
            &&& final(conn).ifindex == old(conn).ifindex
            &&& final(conn).ssid == old(conn).ssid
            &&& final(conn).mac == old(conn).mac
            &&& final(conn).bssid == old(conn).bssid
            &&& final(conn).frequency == old(conn).frequency
            &&& final(conn).ip_addr == old(conn).ip_addr
            &&& final(conn).gateway == old(conn).gateway
        },
{
    if files.len() > 0 {
        let f = &files[0];
        conn.subnet_mask = f.subnet_mask;
        conn.dns_servers = clone_addrs(&f.dns_servers);
        conn.server_id = f.server_id;
        conn.lease_duration = f.lease_duration;
        conn.time_initiated = f.time_initiated;
    }
}

/// An interface that is up is described by nl80211 when its name starts
/// with `wl`.
pub fn needs_wireless_details(conn: &CurrentConnection) -> (r: bool)
    ensures
        r == (conn.ifname matches Some(n) && starts_with(n@, "wl"@)),
{
    match &conn.ifname {
        Some(n) => starts_with_exec(n.as_str(), "wl"),
        None => false,
    }
}

/// The link attributes that a description of the links that are up reads.
#[derive(Debug, Clone, Copy, PartialEq, Eq, Structural)]
pub enum LinkAttr {
    /// `Ifla::Address`, 1.
    Address,
    /// `Ifla::Ifname`, 3.
    Ifname,
    /// `Ifla::Operstate`, 16.
    Operstate,
    Other,
}

pub open spec fn link_attr_of(t: u16) -> LinkAttr {
    if t == 1 {
        LinkAttr::Address
    } else if t == 3 {
        LinkAttr::Ifname
    } else if t == 16 {
        LinkAttr::Operstate
    } else {
        LinkAttr::Other
    }
}

/// `Ifla::from(t)` of `neli`, whose variants carry libc's `IFLA_ADDRESS`
/// (1), `IFLA_IFNAME` (3) and `IFLA_OPERSTATE` (16).
#[verifier::external_body]
fn link_attr(t: u16) -> (r: LinkAttr)
    ensures
        r == link_attr_of(t),
{
    match Ifla::from(t) {
        Ifla::Address => LinkAttr::Address,
        Ifla::Ifname => LinkAttr::Ifname,
        Ifla::Operstate => LinkAttr::Operstate,
        _ => LinkAttr::Other,
    }
}

/// What `String::from_bytes_with_input` of `neli` reads from an attribute
/// payload: all its bytes but the last, decoded as UTF-8; `None` where they
/// are not UTF-8.
pub uninterp spec fn nl_string(payload: Seq<u8>) -> Option<Seq<char>>;

/// Reads a text attribute as `get_payload_as_with_len::<String>` does. The
/// result is the named [`nl_string`] of the payload; an empty payload, whose
/// length minus one underflows there, is left out.
#[verifier::external_body]
pub(crate) fn read_nl_string(payload: &[u8]) -> (r: Option<String>)
    requires
        payload@.len() >= 1,
    ensures
        r is Some <==> nl_string(payload@) is Some,
        r matches Some(s) ==> s@ == nl_string(payload@)->0,
{
    <String as FromBytesWithInput>::from_bytes_with_input(&mut Cursor::new(payload), payload.len()).ok()
}

/// What has been read of a link: its name, its MAC text and whether it is up.
pub struct LinkState {
    pub ifname: Option<Seq<char>>,
    pub mac: Option<Seq<char>>,
    pub up: bool,
}

/// The outcome of reading a link's attributes.
pub enum LinkFold {
    Read(LinkState),
    /// A name attribute is not UTF-8.
    BadName,
    /// A name or state attribute has no byte, which cannot be read.
    EmptyAttr,
}

/// Reads the attributes in order: a name attribute gives the name, a
/// six-byte address the MAC text, and the state attribute's first byte
/// whether the link is up (6, `IF_OPER_UP`).
pub open spec fn link_fold(st: LinkState, attrs: Seq<(u16, Seq<u8>)>) -> LinkFold
    decreases attrs.len(),
{
    if attrs.len() == 0 {
        LinkFold::Read(st)
    } else {
        let rest = attrs.drop_first();
        let p = attrs[0].1;
        match link_attr_of(attrs[0].0) {
            LinkAttr::Ifname => if p.len() == 0 {
                LinkFold::EmptyAttr
            } else {
                match nl_string(p) {
                    None => LinkFold::BadName,
                    Some(n) => link_fold(LinkState { ifname: Some(n), ..st }, rest),
                }
            },
            LinkAttr::Address => if p.len() == 6 {
                link_fold(LinkState { mac: Some(mac_text(p)), ..st }, rest)
            } else {
                link_fold(st, rest)
            },
            LinkAttr::Operstate => if p.len() == 0 {
                LinkFold::EmptyAttr
            } else {
                link_fold(LinkState { up: p[0] == 6, ..st }, rest)
            },
            LinkAttr::Other => link_fold(st, rest),
        }
    }
}

/// A record of which only the index, name and MAC are known.
pub open spec fn link_record(c: CurrentConnection, ifindex: u32, st: LinkState) -> bool {
    &&& c.ifindex == Some(ifindex)
    &&& text_view(c.ifname) == st.ifname
    &&& text_view(c.mac) == st.mac
    &&& c.ssid is None
    &&& c.bssid is None
    &&& c.frequency is None
    &&& c.ip_addr is None
    &&& c.subnet_mask is None
    &&& c.gateway is None
    &&& c.dns_servers@.len() == 0
    &&& c.server_id is None
    &&& c.lease_duration == 0
    &&& c.renewal_time == 0
    &&& c.rebinding_time == 0
    &&& c.time_initiated == 0
}

/// What a link message tells of the links that are up.
#[derive(Debug)]
pub enum LinkRead {
    /// The link is up: its record, to be completed.
    Up(CurrentConnection),
    /// The link is not up.
    Down,
    /// A name attribute is not UTF-8.
    BadName,
    /// A name or state attribute has no byte.
    EmptyAttr,
}

/// Reads a link message of the interface `ifindex` into a connection record
/// when the link is up.
pub fn connection_from_link(ifindex: i32, attrs: &Vec<RawAttr>) -> (r: LinkRead)
    ensures
        match link_fold(LinkState { ifname: None, mac: None, up: false }, attr_views(attrs@)) {
            LinkFold::EmptyAttr => r is EmptyAttr,
            LinkFold::BadName => r is BadName,
            LinkFold::Read(st) => if st.up {
                r matches LinkRead::Up(c) && link_record(c, ifindex as u32, st)
            } else {
                r is Down
            },
        },
{
    let ghost all = attr_views(attrs@);
    let mut conn = CurrentConnection::new();
    conn.ifindex = Some(ifindex as u32);
    let mut up = false;
    let mut i: usize = 0;
    assert(all.skip(0) =~= all);
    while i < attrs.len()
        invariant
            0 <= i <= attrs@.len(),
            all == attr_views(attrs@),
            link_fold(
                LinkState { ifname: text_view(conn.ifname), mac: text_view(conn.mac), up },
                all.skip(i as int),
            ) == link_fold(LinkState { ifname: None, mac: None, up: false }, all),
            link_record(
                conn,
                ifindex as u32,
                LinkState { ifname: text_view(conn.ifname), mac: text_view(conn.mac), up },
            ),
        decreases attrs@.len() - i,
    {
        assert(all.skip(i as int)[0] == attrs@[i as int]@);
        assert(all.skip(i as int).drop_first() =~= all.skip(i + 1));
        let a = &attrs[i];
        let p = a.payload.as_slice();
        match link_attr(a.kind) {
            LinkAttr::Ifname => {
                if p.len() == 0 {
                    return LinkRead::EmptyAttr;
                }
                match read_nl_string(p) {
                    Some(n) => {
                        conn.ifname = Some(n);
                    },
                    None => {
                        return LinkRead::BadName;
                    },
                }
            },
            LinkAttr::Address => {
                if p.len() == 6 {
                    conn.mac = Some(format_mac(p, 6));
                    assert(p@.take(6) =~= p@);
                }
            },
            LinkAttr::Operstate => {
                if p.len() == 0 {
                    return LinkRead::EmptyAttr;
                }
                up = link_is_up(p);
            },
            LinkAttr::Other => {},
        }
        i = i + 1;
    }
    assert(all.skip(i as int).len() == 0);
    if up {
        LinkRead::Up(conn)
    } else {
        LinkRead::Down
    }
}

/// An interface as its fields read, the texts by their characters.
pub struct IfaceView {
    pub ifindex: Option<u32>,
    pub ifname: Option<Seq<char>>,
    pub mac: Option<Seq<char>>,
    pub iftype: InterfaceType,
}

pub open spec fn iface_view(i: Interface) -> IfaceView {
    IfaceView { ifindex: i.ifindex, ifname: text_view(i.ifname), mac: text_view(i.mac), iftype: i.iftype }
}

/// The interface of index `ifindex` before its attributes are read.
pub open spec fn iface_start(ifindex: u32) -> IfaceView {
    IfaceView { ifindex: Some(ifindex), ifname: None, mac: None, iftype: InterfaceType::Unknown }
}

/// The outcome of reading a link's attributes into an interface.
pub enum IfaceFold {
    Read(IfaceView),
    /// A name attribute is not UTF-8.
    BadName,
    /// A name attribute has no byte, which cannot be read.
    EmptyName,
}

/// Reads the attributes in order: a name attribute gives the name and the
/// kind it tells (`wireless` lists the names that sysfs marks wireless), a
/// six-byte address the MAC text; the others change nothing.
pub open spec fn iface_fold(v: IfaceView, attrs: Seq<(u16, Seq<u8>)>, wireless: Seq<String>) -> IfaceFold
    decreases attrs.len(),
{
    if attrs.len() == 0 {
        IfaceFold::Read(v)
    } else {
        let rest = attrs.drop_first();
        let p = attrs[0].1;
        match link_attr_of(attrs[0].0) {
            LinkAttr::Ifname => if p.len() == 0 {
                IfaceFold::EmptyName
            } else {
                match nl_string(p) {
                    None => IfaceFold::BadName,
                    Some(n) => iface_fold(
                        IfaceView {
                            ifname: Some(n),
                            iftype: match kind_of_name(n, listed(wireless, n)) {
                                Some(k) => k,
                                None => v.iftype,
                            },
                            ..v
                        },
                        rest,
                        wireless,
                    ),
                }
            },
            LinkAttr::Address => if p.len() == 6 {
                iface_fold(IfaceView { mac: Some(mac_text(p)), ..v }, rest, wireless)
            } else {
                iface_fold(v, rest, wireless)
            },
            _ => iface_fold(v, rest, wireless),
        }
    }
}

/// What a link message gives as an interface.
#[derive(Debug)]
pub enum IfaceRead {
    Read(Interface),
    /// A name attribute is not UTF-8.
    BadName,
    /// A name attribute has no byte.
    EmptyName,
}

/// Reads a link message of the interface `ifindex` into an interface record;
/// `wireless` lists the names that sysfs marks wireless.
pub fn interface_from_link(ifindex: i32, attrs: &Vec<RawAttr>, wireless: &Vec<String>) -> (r: IfaceRead)
    ensures
        match iface_fold(iface_start(ifindex as u32), attr_views(attrs@), wireless@) {
            IfaceFold::Read(v) => (r matches IfaceRead::Read(i) && iface_view(i) == v),
            IfaceFold::BadName => r is BadName,
            IfaceFold::EmptyName => r is EmptyName,
        },
{
    let ghost all = attr_views(attrs@);
    let mut iface = Interface::new();
    iface.set_ifindex(ifindex as u32);
    let mut i: usize = 0;
    assert(all.skip(0) =~= all);
    while i < attrs.len()
        invariant
            0 <= i <= attrs@.len(),
            all == attr_views(attrs@),
            iface_fold(iface_view(iface), all.skip(i as int), wireless@) == iface_fold(
                iface_start(ifindex as u32),
                all,
                wireless@,
            ),
        decreases attrs@.len() - i,
    {
        assert(all.skip(i as int)[0] == attrs@[i as int]@);
        assert(all.skip(i as int).drop_first() =~= all.skip(i + 1));
        let a = &attrs[i];
        let p = a.payload.as_slice();
        match link_attr(a.kind) {
            LinkAttr::Ifname => {
                if p.len() == 0 {
                    return IfaceRead::EmptyName;
                }
                match read_nl_string(p) {
                    Some(n) => {
                        let w = is_listed(wireless, &n);
                        apply_link_name(&mut iface, n, w);
                    },
                    None => {
                        return IfaceRead::BadName;
                    },
                }
            },
            LinkAttr::Address => {
                apply_link_address(&mut iface, p);
            },
            _ => {},
        }
        i = i + 1;
    }
    assert(all.skip(i as int).len() == 0);
    IfaceRead::Read(iface)
}

} // verus!
