//! The data model shared by the daemon and the client.

use crate::dhcp_out::DhcpOut;
use vstd::prelude::*;
use vstd::string::*;

verus! {

/// A copy of an optional text, equal to it.
pub fn clone_text(s: &Option<String>) -> (r: Option<String>)
    ensures
        r == *s,
{
    match s {
        Some(x) => Some(x.clone()),
        None => None,
    }
}

/// A copy of a list of texts, equal to it.
pub fn clone_texts(v: &Vec<String>) -> (r: Vec<String>)
    ensures
        r@ == v@,
{
    let mut r: Vec<String> = Vec::new();
    let mut i: usize = 0;
    while i < v.len()
        invariant
            0 <= i <= v.len(),
            r@ == v@.take(i as int),
        decreases v.len() - i,
    {
        r.push(v[i].clone());
        i = i + 1;
        assert(r@ =~= v@.take(i as int));
    }
    assert(v@.take(v.len() as int) =~= v@);
    r
}

/// A wireless access point seen in a scan.
#[derive(Debug)]
pub struct Host {
    pub bssid: Option<String>,
    pub ssid: Option<String>,
    pub frequency: Option<u32>,
    pub signal: Option<u32>,
    pub is_connected: bool,
}

impl Clone for Host {
    fn clone(&self) -> (r: Self)
        ensures
            r == *self,
    {
        Host {
            bssid: clone_text(&self.bssid),
            ssid: clone_text(&self.ssid),
            frequency: self.frequency,
            signal: self.signal,
            is_connected: self.is_connected,
        }
    }
}

impl Host {
    /// A host of which nothing is known yet.
    pub fn new() -> (r: Self)
        ensures
            r.bssid is None,
            r.ssid is None,
            r.frequency is None,
            r.signal is None,
            !r.is_connected,
    {
        Host { bssid: None, ssid: None, frequency: None, signal: None, is_connected: false }
    }

    pub fn set_bssid(&mut self, bssid: String)
        ensures
            *final(self) == (Host { bssid: Some(bssid), ..*old(self) }),
    {
        self.bssid = Some(bssid);
    }

    pub fn set_ssid(&mut self, ssid: String)
        ensures
            *final(self) == (Host { ssid: Some(ssid), ..*old(self) }),
    {
        self.ssid = Some(ssid);
    }

    pub fn set_frequency(&mut self, frequency: u32)
        ensures
            *final(self) == (Host { frequency: Some(frequency), ..*old(self) }),
    {
        self.frequency = Some(frequency);
    }

    pub fn set_signal(&mut self, signal: u32)
        ensures
            *final(self) == (Host { signal: Some(signal), ..*old(self) }),
    {
        self.signal = Some(signal);
    }
}

/// A network saved after a successful connection.
#[derive(Debug)]
pub struct Connection {
    pub ssid: String,
    pub bssid: String,
    pub password: String,
}

impl Clone for Connection {
    fn clone(&self) -> (r: Self)
        ensures
            r == *self,
    {
        Connection {
            ssid: self.ssid.clone(),
            bssid: self.bssid.clone(),
            password: self.password.clone(),
        }
    }
}

/// What the kernel reports of the nl80211 generic netlink family.
#[derive(Debug)]
pub struct FamilyInfo {
    pub name: String,
    pub id: u16,
    pub scan_group_id: u32,
}

/// The kind of a network interface, as told by its name.
#[derive(Debug, Clone, Copy, PartialEq, Eq, Structural)]
pub enum InterfaceType {
    Wireless,
    Wired,
    Loopback,
    Unknown,
}

/// A network interface of this machine.
#[derive(Debug)]
pub struct Interface {
    pub ifindex: Option<u32>,
    pub ifname: Option<String>,
    pub mac: Option<String>,
    pub iftype: InterfaceType,
}

impl Clone for Interface {
    fn clone(&self) -> (r: Self)
        ensures
            r == *self,
    {
        Interface {
            ifindex: self.ifindex,
            ifname: clone_text(&self.ifname),
            mac: clone_text(&self.mac),
            iftype: self.iftype,
        }
    }
}

impl Interface {
    /// An interface of which nothing is known yet.
    pub fn new() -> (r: Self)
        ensures
            r.ifindex is None,
            r.ifname is None,
            r.mac is None,
            r.iftype == InterfaceType::Unknown,
    {
        Interface { ifindex: None, ifname: None, mac: None, iftype: InterfaceType::Unknown }
    }

    pub fn set_ifindex(&mut self, ifindex: u32)
        ensures
            *final(self) == (Interface { ifindex: Some(ifindex), ..*old(self) }),
    {
        self.ifindex = Some(ifindex);
    }

    pub fn set_ifname(&mut self, ifname: String)
        ensures
            *final(self) == (Interface { ifname: Some(ifname), ..*old(self) }),
    {
        self.ifname = Some(ifname);
    }

    pub fn set_mac(&mut self, mac: String)
        ensures
            *final(self) == (Interface { mac: Some(mac), ..*old(self) }),
    {
        self.mac = Some(mac);
    }

    pub fn set_iftype(&mut self, iftype: InterfaceType)
        ensures
            *final(self) == (Interface { iftype, ..*old(self) }),
    {
        self.iftype = iftype;
    }
}

/// The link and lease details of an interface that is up.
///
/// IPv4 addresses are held as the `u32` whose big-endian bytes are the
/// address's octets, as `u32::from(Ipv4Addr)` gives them.
#[derive(Debug)]
pub struct CurrentConnection {
    pub ifname: Option<String>,
    pub ifindex: Option<u32>,
    pub ssid: Option<String>,
    pub mac: Option<String>,
    pub bssid: Option<String>,
    pub frequency: Option<u32>,
    pub ip_addr: Option<u32>,
    pub subnet_mask: Option<u32>,
    pub gateway: Option<u32>,
    pub dns_servers: Vec<u32>,
    pub server_id: Option<u32>,
    pub lease_duration: u32,
    pub renewal_time: u32,
    pub rebinding_time: u32,
    pub time_initiated: i64,
}

impl Clone for CurrentConnection {
    fn clone(&self) -> (r: Self)
        ensures
            r.ifname == self.ifname,
            r.ifindex == self.ifindex,
            r.ssid == self.ssid,
            r.mac == self.mac,
            r.bssid == self.bssid,
            r.frequency == self.frequency,
            r.ip_addr == self.ip_addr,
            r.subnet_mask == self.subnet_mask,
            r.gateway == self.gateway,
            r.dns_servers@ == self.dns_servers@,
            r.server_id == self.server_id,
            r.lease_duration == self.lease_duration,
            r.renewal_time == self.renewal_time,
            r.rebinding_time == self.rebinding_time,
            r.time_initiated == self.time_initiated,
    {
        CurrentConnection {
            ifname: clone_text(&self.ifname),
            ifindex: self.ifindex,
            ssid: clone_text(&self.ssid),
            mac: clone_text(&self.mac),
            bssid: clone_text(&self.bssid),
            frequency: self.frequency,
            ip_addr: self.ip_addr,
            subnet_mask: self.subnet_mask,
            gateway: self.gateway,
            dns_servers: clone_addrs(&self.dns_servers),
            server_id: self.server_id,
            lease_duration: self.lease_duration,
            renewal_time: self.renewal_time,
            rebinding_time: self.rebinding_time,
            time_initiated: self.time_initiated,
        }
    }
}

impl CurrentConnection {
    /// A connection record of which nothing is known yet.
    pub fn new() -> (r: Self)
        ensures
            r.ifname is None,
            r.ifindex is None,
            r.ssid is None,
            r.mac is None,
            r.bssid is None,
            r.frequency is None,
            r.ip_addr is None,
            r.subnet_mask is None,
            r.gateway is None,
            r.dns_servers@.len() == 0,
            r.server_id is None,
            r.lease_duration == 0,
            r.renewal_time == 0,
            r.rebinding_time == 0,
            r.time_initiated == 0,
    {
        CurrentConnection {
            ifname: None,
            ifindex: None,
            ssid: None,
            mac: None,
            bssid: None,
            frequency: None,
            ip_addr: None,
            subnet_mask: None,
            gateway: None,
            dns_servers: Vec::new(),
            server_id: None,
            lease_duration: 0,
            renewal_time: 0,
            rebinding_time: 0,
            time_initiated: 0,
        }
    }
}

/// A copy of a list of addresses.
pub fn clone_addrs(v: &Vec<u32>) -> (r: Vec<u32>)
    ensures
        r@ == v@,
{
    let mut r: Vec<u32> = Vec::new();
    let mut i: usize = 0;
    while i < v.len()
        invariant
            0 <= i <= v.len(),
            r@ == v@.take(i as int),
        decreases v.len() - i,
    {
        r.push(v[i]);
        i = i + 1;
        assert(r@ =~= v@.take(i as int));
    }
    assert(v@.take(v.len() as int) =~= v@);
    r
}

/// What a DHCP server granted: addresses (as `u32`, see [`CurrentConnection`])
/// and lease times in seconds.
#[derive(Debug)]
pub struct DhcpLease {
    pub ip_addr: Option<u32>,
    pub subnet_mask: Option<u32>,
    pub gateway: Option<u32>,
    pub dns_servers: Vec<u32>,
    pub server_id: Option<u32>,
    pub lease_duration: u32,
    pub renewal_time: u32,
    pub rebinding_time: u32,
    /// The message that this client sent and that the lease answers.
    pub offer: Option<DhcpOut>,
}

impl DhcpLease {
    /// A lease of which nothing is known yet.
    pub fn empty() -> (r: Self)
        ensures
            r.ip_addr is None,
            r.subnet_mask is None,
            r.gateway is None,
            r.dns_servers@.len() == 0,
            r.server_id is None,
            r.lease_duration == 0,
            r.renewal_time == 0,
            r.rebinding_time == 0,
            r.offer is None,
    {
        DhcpLease {
            ip_addr: None,
            subnet_mask: None,
            gateway: None,
            dns_servers: Vec::new(),
            server_id: None,
            lease_duration: 0,
            renewal_time: 0,
            rebinding_time: 0,
            offer: None,
        }
    }
}

/// The view of an optional text: its characters, if any.
pub open spec fn text_view(t: Option<String>) -> Option<Seq<char>> {
    match t {
        Some(s) => Some(s@),
        None => None,
    }
}

/// Two optional texts hold the same characters, or are both absent.
pub fn same_text(a: &Option<String>, b: &Option<String>) -> (r: bool)
    ensures
        r == (text_view(*a) == text_view(*b)),
{
    match (a, b) {
        (Some(x), Some(y)) => *x == *y,
        (None, None) => true,
        _ => false,
    }
}

/// An optional text holds exactly the characters of `s`.
pub fn text_is(a: &Option<String>, s: &str) -> (r: bool)
    ensures
        r == (text_view(*a) == Some(s@)),
{
    match a {
        Some(x) => *x == String::from_str(s),
        None => false,
    }
}

/// Two interfaces are equal field by field, texts compared by their characters.
pub open spec fn same_interface(a: Interface, b: Interface) -> bool {
    &&& a.ifindex == b.ifindex
    &&& text_view(a.ifname) == text_view(b.ifname)
    &&& text_view(a.mac) == text_view(b.mac)
    &&& a.iftype == b.iftype
}

impl Interface {
    /// Field-by-field equality, as the derived `==` of the interface record.
    pub fn equals(&self, other: &Interface) -> (r: bool)
        ensures
            r == same_interface(*self, *other),
    {
        self.ifindex == other.ifindex && same_text(&self.ifname, &other.ifname) && same_text(
            &self.mac,
            &other.mac,
        ) && self.iftype == other.iftype
    }
}

} // verus!
