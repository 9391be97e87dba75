//! The daemon's background decisions: renewing a lease, following the wired
//! link, taking over a lease left from an earlier run, and confirming the
//! removal of an address.

use crate::dhcp_storage::{lease_expired, DhcpFile};
use crate::mac::{mac_bytes_of, mac_text_valid, parse_mac};
use crate::types::{text_view, CurrentConnection, DhcpLease, Interface, InterfaceType};
use vstd::prelude::*;
use vstd::string::*;

verus! {

/// How to renew the lease of an interface.
#[derive(Debug, Clone, Copy)]
pub enum RenewPlan {
    /// Ask the server again over the wire, from this MAC and address.
    Wired { mac: [u8; 6], current_ip: u32, server_id: u32 },
    /// Ask again over the air for this address.
    Wireless { current_ip: u32 },
}

/// Why a lease cannot be renewed.
#[derive(Debug, Clone, Copy, PartialEq, Eq, Structural)]
pub enum RenewError {
    NoAddress,
    NoMac,
    NoServerId,
}

impl RenewError {
    /// The message shown for the error.
    pub fn message(&self) -> (r: String)
        ensures
            *self == RenewError::NoAddress ==> r@ == "No IP Address found."@,
            *self == RenewError::NoMac ==> r@ == "No MAC Address found."@,
            *self == RenewError::NoServerId ==> r@ == "No Server ID found."@,
    {
        match self {
            RenewError::NoAddress => String::from_str("No IP Address found."),
            RenewError::NoMac => String::from_str("No MAC Address found."),
            RenewError::NoServerId => String::from_str("No Server ID found."),
        }
    }
}

/// `k` is the first connection record with the name `name` (both absent counts).
pub open spec fn first_named_record(current: Seq<CurrentConnection>, name: Option<Seq<char>>, k: int) -> bool {
    &&& 0 <= k < current.len()
    &&& text_view(current[k].ifname) == name
    &&& forall|j: int| 0 <= j < k ==> text_view((#[trigger] current[j]).ifname) != name
}

/// The record can be renewed from without a panic: it exists, and when it
/// has an address and a MAC, the MAC is a MAC text.
pub open spec fn renewable(current: Seq<CurrentConnection>, name: Option<Seq<char>>) -> bool {
    exists|k: int|
        first_named_record(current, name, k) && (current[k].ip_addr is Some ==> (
        current[k].mac matches Some(m) ==> mac_text_valid(m@)))
}

/// Whether `renew_connection` can work from `current` for `iface` without a
/// panic: a record of its name exists, and the MAC of the first one, when it
/// is needed, reads.
pub fn can_renew(iface: &Interface, current: &Vec<CurrentConnection>) -> (r: bool)
    ensures
        r == renewable(current@, text_view(iface.ifname)),
{
    let mut k: usize = 0;
    while k < current.len()
        invariant
            0 <= k <= current@.len(),
            forall|j: int|
                0 <= j < k ==> text_view((#[trigger] current@[j]).ifname) != text_view(iface.ifname),
        decreases current@.len() - k,
    {
        if crate::types::same_text(&current[k].ifname, &iface.ifname) {
            assert(first_named_record(current@, text_view(iface.ifname), k as int));
            assert forall|m: int| first_named_record(current@, text_view(iface.ifname), m) implies m
                == k by {
                if m > k {
                    assert(text_view(current@[k as int].ifname) != text_view(iface.ifname));
                }
            }
            let c = &current[k];
            if c.ip_addr.is_none() {
                return true;
            }
            return match &c.mac {
                Some(m) => parse_mac(m.as_str()).is_some(),
                None => true,
            };
        }
        k = k + 1;
    }
    false
}

/// How to renew the lease of `iface`, from the first record of the
/// connections that are up with its name: the record needs an address, a
/// MAC and a server id; a wired interface asks the server directly.
pub fn renew_connection(iface: &Interface, current: &Vec<CurrentConnection>) -> (r: Result<RenewPlan, RenewError>)
    requires
        renewable(current@, text_view(iface.ifname)),
    ensures
        exists|k: int| #![auto]
            first_named_record(current@, text_view(iface.ifname), k) && {
                let c = current@[k];
                &&& c.ip_addr is None ==> r == Err::<RenewPlan, RenewError>(RenewError::NoAddress)
                &&& c.ip_addr is Some && c.mac is None ==> r == Err::<RenewPlan, RenewError>(
                    RenewError::NoMac,
                )
                &&& c.ip_addr is Some && c.mac is Some && c.server_id is None ==> r == Err::<
                    RenewPlan,
                    RenewError,
                >(RenewError::NoServerId)
                &&& c.ip_addr is Some && c.mac is Some && c.server_id is Some ==> if iface.iftype
                    == InterfaceType::Wired {
                    r matches Ok(RenewPlan::Wired { mac, current_ip, server_id }) && mac@
                        == mac_bytes_of(c.mac->0@) && current_ip == c.ip_addr->0 && server_id
                        == c.server_id->0
                } else {
                    r == Ok::<RenewPlan, RenewError>(
                        RenewPlan::Wireless { current_ip: c.ip_addr->0 },
                    )
                }
            },
{
    let wired = iface.iftype == InterfaceType::Wired;
    let n: usize = current.len();
    let mut k: usize = 0;
    let mut found = false;
    while !found
        invariant
            n == current@.len(),
            0 <= k < current@.len(),
            renewable(current@, text_view(iface.ifname)),
            forall|j: int|
                0 <= j < k ==> text_view((#[trigger] current@[j]).ifname) != text_view(iface.ifname),
            found ==> text_view(current@[k as int].ifname) == text_view(iface.ifname),
            !found ==> exists|m: int|
                k <= m < current@.len() && text_view((#[trigger] current@[m]).ifname) == text_view(
                    iface.ifname,
                ),
        decreases current@.len() - k, if found { 0int } else { 1int },
    {
        if crate::types::same_text(&current[k].ifname, &iface.ifname) {
            found = true;
        } else {
            k = k + 1;
        }
    }
    assert(first_named_record(current@, text_view(iface.ifname), k as int));
    proof {
        let w = choose|w: int|
            first_named_record(current@, text_view(iface.ifname), w) && (current@[w].ip_addr is Some
                ==> (current@[w].mac matches Some(m) ==> mac_text_valid(m@)));
        assert(w == k);
    }
    let c = &current[k];
    let current_ip = match c.ip_addr {
        Some(ip) => ip,
        None => {
            return Err(RenewError::NoAddress);
        },
    };
    let mac = match &c.mac {
        Some(m) => m,
        None => {
            return Err(RenewError::NoMac);
        },
    };
    let mac_address = crate::mac::mac_to_bytes(mac.as_str());
    let server_id = match c.server_id {
        Some(s) => s,
        None => {
            return Err(RenewError::NoServerId);
        },
    };
    if wired {
        Ok(RenewPlan::Wired { mac: mac_address, current_ip, server_id })
    } else {
        Ok(RenewPlan::Wireless { current_ip })
    }
}

/// What the wired-link watcher does on one round.
#[derive(Debug)]
pub enum EthernetAction {
    /// Try to connect through this wired interface.
    Connect(Interface),
    /// The wired interface went away.
    MarkDisconnected,
    /// Nothing changed.
    Nothing,
}

/// The first wired interface of the list.
pub open spec fn first_wired(ifaces: Seq<Interface>, k: int) -> bool {
    &&& 0 <= k < ifaces.len()
    &&& ifaces[k].iftype == InterfaceType::Wired
    &&& forall|j: int| 0 <= j < k ==> (#[trigger] ifaces[j]).iftype != InterfaceType::Wired
}

/// One round of the wired-link watcher: when not connected and a wired
/// interface is listed, try the first one; when connected and none is
/// listed, the link is gone.
pub fn ethernet_step(connected: bool, ifaces: &Vec<Interface>) -> (r: EthernetAction)
    ensures
        !connected && (exists|k: int| first_wired(ifaces@, k)) ==> exists|k: int|
            first_wired(ifaces@, k) && r == EthernetAction::Connect(ifaces@[k]),
        connected && !(exists|k: int| first_wired(ifaces@, k)) ==> r == EthernetAction::MarkDisconnected,
        (connected == (exists|k: int| first_wired(ifaces@, k))) ==> r == EthernetAction::Nothing,
{
    let mut k: usize = 0;
    while k < ifaces.len()
        invariant
            0 <= k <= ifaces@.len(),
            forall|j: int| 0 <= j < k ==> (#[trigger] ifaces@[j]).iftype != InterfaceType::Wired,
        decreases ifaces@.len() - k,
    {
        if ifaces[k].iftype == InterfaceType::Wired {
            assert(first_wired(ifaces@, k as int));
            if connected {
                return EthernetAction::Nothing;
            }
            return EthernetAction::Connect(ifaces[k].clone());
        }
        k = k + 1;
    }
    proof {
        assert forall|m: int| !first_wired(ifaces@, m) by {}
    }
    if connected {
        EthernetAction::MarkDisconnected
    } else {
        EthernetAction::Nothing
    }
}

/// What to do, at start, with the lease records of an earlier run.
#[derive(Debug)]
pub enum ResidueAction {
    /// No lease was recorded.
    Nothing,
    /// The first recorded lease is over: forget the records.
    Clear,
    /// Keep renewing the lease of this interface.
    Manage(Interface),
}

/// The interfaces before `k` all have names other than `name`, and the
/// interface `k` has it.
pub open spec fn named_at(ifaces: Seq<Interface>, name: Seq<char>, k: int) -> bool {
    &&& 0 <= k < ifaces.len()
    &&& text_view(ifaces[k].ifname) == Some(name)
    &&& forall|j: int|
        0 <= j < k ==> (#[trigger] ifaces[j]).ifname is Some && text_view(ifaces[j].ifname) != Some(
            name,
        )
}

/// The first recorded lease can be taken over without a panic: when it is
/// still running, its interface is listed, and every interface listed
/// before it has a name.
pub open spec fn residue_ok(files: Seq<DhcpFile>, ifaces: Seq<Interface>, now: i64) -> bool {
    files.len() > 0 ==> {
        &&& files[0].time_initiated + files[0].lease_duration <= i64::MAX
        &&& files[0].time_initiated + files[0].lease_duration > now ==> exists|k: int|
            named_at(ifaces, files[0].ifname@, k)
    }
}

/// Whether `residue_action` can decide on these records without a panic.
pub fn residue_safe(files: &Vec<DhcpFile>, ifaces: &Vec<Interface>, now: i64) -> (r: bool)
    ensures
        r == residue_ok(files@, ifaces@, now),
{
    if files.len() == 0 {
        return true;
    }
    let f = &files[0];
    if f.time_initiated > i64::MAX - f.lease_duration as i64 {
        return false;
    }
    if f.time_initiated + f.lease_duration as i64 <= now {
        return true;
    }
    let target = Some(f.ifname.clone());
    let mut k: usize = 0;
    while k < ifaces.len()
        invariant
            0 <= k <= ifaces@.len(),
            files@.len() > 0,
            files@[0].time_initiated + files@[0].lease_duration <= i64::MAX,
            files@[0].time_initiated + files@[0].lease_duration > now,
            text_view(target) == Some(files@[0].ifname@),
            forall|j: int|
                0 <= j < k ==> (#[trigger] ifaces@[j]).ifname is Some && text_view(ifaces@[j].ifname)
                    != Some(files@[0].ifname@),
        decreases ifaces@.len() - k,
    {
        if ifaces[k].ifname.is_none() {
            proof {
                assert forall|m: int| !named_at(ifaces@, files@[0].ifname@, m) by {
                    if m > k {
                        assert(ifaces@[k as int].ifname is None);
                    }
                }
            }
            return false;
        }
        if crate::types::same_text(&ifaces[k].ifname, &target) {
            assert(named_at(ifaces@, files@[0].ifname@, k as int));
            return true;
        }
        k = k + 1;
    }
    proof {
        assert forall|m: int| !named_at(ifaces@, files@[0].ifname@, m) by {}
    }
    false
}

/// Decides what to do with the lease records found at start: nothing when
/// there are none, forget them when the first lease is over, and otherwise
/// keep renewing the first lease on its interface.
pub fn residue_action(files: &Vec<DhcpFile>, ifaces: &Vec<Interface>, now: i64) -> (r: ResidueAction)
    requires
        residue_ok(files@, ifaces@, now),
    ensures
        files@.len() == 0 ==> r == ResidueAction::Nothing,
        files@.len() > 0 && files@[0].time_initiated + files@[0].lease_duration <= now ==> r
            == ResidueAction::Clear,
        files@.len() > 0 && files@[0].time_initiated + files@[0].lease_duration > now ==> exists|
            k: int,
        | named_at(ifaces@, files@[0].ifname@, k) && r == ResidueAction::Manage(ifaces@[k]),
{
    if files.len() == 0 {
        return ResidueAction::Nothing;
    }
    let file = &files[0];
    if lease_expired(file, now) {
        return ResidueAction::Clear;
    }
    let target = Some(file.ifname.clone());
    let n: usize = ifaces.len();
    let mut k: usize = 0;
    let mut found = false;
    while !found
        invariant
            n == ifaces@.len(),
            files@.len() > 0,
            0 <= k < ifaces@.len(),
            text_view(target) == Some(files@[0].ifname@),
            forall|j: int|
                0 <= j < k ==> (#[trigger] ifaces@[j]).ifname is Some && text_view(ifaces@[j].ifname)
                    != Some(files@[0].ifname@),
            found ==> text_view(ifaces@[k as int].ifname) == Some(files@[0].ifname@),
            !found ==> exists|m: int| k <= m && named_at(ifaces@, files@[0].ifname@, m),
        decreases ifaces@.len() - k, if found { 0int } else { 1int },
    {
        if crate::types::same_text(&ifaces[k].ifname, &target) {
            found = true;
        } else {
            proof {
                let m = choose|m: int| k <= m && named_at(ifaces@, files@[0].ifname@, m);
                if m == k {
                    assert(false);
                }
            }
            k = k + 1;
        }
    }
    assert(named_at(ifaces@, files@[0].ifname@, k as int));
    ResidueAction::Manage(ifaces[k].clone())
}

/// The answer of the kernel to a removal, read so far.
#[derive(Debug, Clone, Copy, PartialEq, Eq, Structural)]
pub enum AckStep {
    /// The removal is confirmed.
    Done,
    /// The kernel refused it with this error code.
    Failed(i32),
    /// Keep reading.
    Wait,
}

/// Reads one answer to a removal: an error message with code 0 confirms it
/// and another code refuses it; a message of type `NLMSG_DONE` (3) ends it.
pub fn removal_ack(error: Option<i32>, msg_type: u16) -> (r: AckStep)
    ensures
        error matches Some(e) ==> r == if e == 0 {
            AckStep::Done
        } else {
            AckStep::Failed(e)
        },
        error is None ==> r == if msg_type == 3 {
            AckStep::Done
        } else {
            AckStep::Wait
        },
{
    match error {
        Some(e) => if e == 0 {
            AckStep::Done
        } else {
            AckStep::Failed(e)
        },
        None => if msg_type == 3 {
            AckStep::Done
        } else {
            AckStep::Wait
        },
    }
}

/// What to request over the wire after a discovery: the hardware address of
/// the discovery that the offer answers, the server (taken from the offer's
/// gateway) and the offered address; `None` when the offer lacks any.
pub fn wired_request(offer: &DhcpLease) -> (r: Option<([u8; 6], u32, u32)>)
    ensures
        r == match (offer.offer, offer.gateway, offer.ip_addr) {
            (Some(m), Some(g), Some(ip)) => Some((m.chaddr, g, ip)),
            _ => None,
        },
{
    match (&offer.offer, offer.gateway, offer.ip_addr) {
        (Some(m), Some(g), Some(ip)) => Some((m.chaddr, g, ip)),
        _ => None,
    }
}

/// Whether a link message tells that the watched interface went down: a
/// new-link message (`RTM_NEWLINK`, 16) for the interface `ifindex` whose
/// flags lack `IFF_UP` (1) or `IFF_RUNNING` (0x40).
pub fn link_lost(msg_type: u16, msg_index: i32, flags: u32, ifindex: i32) -> (r: bool)
    ensures
        r == (msg_type == 16 && msg_index == ifindex && ((flags & 1) != 1 || (flags & 0x40) != 0x40)),
{
    msg_type == 16 && msg_index == ifindex && ((flags & 1) != 1 || (flags & 0x40) != 0x40)
}

} // verus!
