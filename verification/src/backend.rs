//! The daemon's decisions: which network to join on its own, what a
//! connection request needs, and how each command of the client is served.

use crate::history::{add_connection_to_history, added, has_bssid};
use crate::protocol::{Command, Response};
use crate::types::{
    clone_text, text_view, Connection, CurrentConnection, Host, Interface, InterfaceType,
};
use vstd::prelude::*;
use vstd::string::*;

verus! {

/// Some text of the list holds the characters `s`.
pub open spec fn listed(list: Seq<String>, s: Seq<char>) -> bool {
    exists|i: int| 0 <= i < list.len() && (#[trigger] list[i])@ == s
}

/// `k` is the first saved network with the access point `bssid`.
pub open spec fn first_saved(saved: Seq<Connection>, bssid: Seq<char>, k: int) -> bool {
    &&& 0 <= k < saved.len()
    &&& saved[k].bssid@ == bssid
    &&& forall|j: int| 0 <= j < k ==> (#[trigger] saved[j]).bssid@ != bssid
}

/// A scanned host that autoconnection may join: it has a name that is not
/// rejected and an access point that is saved.
pub open spec fn joinable(h: Host, reject: Seq<String>, saved: Seq<Connection>) -> bool {
    &&& h.ssid is Some
    &&& !listed(reject, h.ssid->0@)
    &&& h.bssid is Some
    &&& exists|k: int| 0 <= k < saved.len() && (#[trigger] saved[k]).bssid@ == h.bssid->0@
}

/// The index of the first saved network with the access point `bssid`.
fn find_saved(saved: &Vec<Connection>, bssid: &String) -> (r: Option<usize>)
    ensures
        r matches Some(k) ==> first_saved(saved@, bssid@, k as int),
        r is None ==> forall|k: int| 0 <= k < saved@.len() ==> (#[trigger] saved@[k]).bssid@ != bssid@,
{
    let mut k: usize = 0;
    while k < saved.len()
        invariant
            0 <= k <= saved.len(),
            forall|j: int| 0 <= j < k ==> (#[trigger] saved@[j]).bssid@ != bssid@,
        decreases saved.len() - k,
    {
        if saved[k].bssid == *bssid {
            return Some(k);
        }
        k = k + 1;
    }
    None
}

/// Whether the list holds the text `s`.
pub(crate) fn is_listed(list: &Vec<String>, s: &String) -> (r: bool)
    ensures
        r == listed(list@, s@),
{
    let mut i: usize = 0;
    while i < list.len()
        invariant
            0 <= i <= list.len(),
            forall|j: int| 0 <= j < i ==> (#[trigger] list@[j])@ != s@,
        decreases list.len() - i,
    {
        if list[i] == *s {
            return true;
        }
        i = i + 1;
    }
    false
}

/// Decides whether to join a saved network on its own.
///
/// When a scanned host is connected, `connected` becomes true and nothing is
/// joined; while `connected` is true nothing is joined either. Otherwise the
/// last joinable host of the scan is chosen, with the password of the first
/// saved network that has its access point.
pub fn autoconnect(
    hosts: &Vec<Host>,
    reject_list: &Vec<String>,
    saved: &Vec<Connection>,
    connected: &mut bool,
) -> (r: Option<(Host, String)>)
    ensures
        (exists|i: int| 0 <= i < hosts@.len() && (#[trigger] hosts@[i]).is_connected)
            ==> *final(connected) && r is None,
        !(exists|i: int| 0 <= i < hosts@.len() && (#[trigger] hosts@[i]).is_connected) ==> {
            &&& *final(connected) == *old(connected)
            &&& *old(connected) ==> r is None
            &&& !*old(connected) ==> match r {
                Some((h, p)) => exists|i: int, k: int|
                    0 <= i < hosts@.len() && hosts@[i] == h && joinable(h, reject_list@, saved@)
                        && (forall|j: int|
                        i < j < hosts@.len() ==> !joinable(#[trigger] hosts@[j], reject_list@, saved@))
                        && first_saved(saved@, h.bssid->0@, k) && p == saved@[k].password,
                None => forall|i: int|
                    0 <= i < hosts@.len() ==> !joinable(#[trigger] hosts@[i], reject_list@, saved@),
            }
        },
{
    let mut i: usize = 0;
    while i < hosts.len()
        invariant
            0 <= i <= hosts.len(),
            *connected == *old(connected),
            forall|j: int| 0 <= j < i ==> !(#[trigger] hosts@[j]).is_connected,
        decreases hosts.len() - i,
    {
        if hosts[i].is_connected {
            *connected = true;
            return None;
        }
        i = i + 1;
    }
    if *connected {
        return None;
    }
    let mut chosen: Option<(Host, String)> = None;
    let ghost mut chosen_at: int = -1;
    let ghost mut chosen_k: int = -1;
    let mut i: usize = 0;
    while i < hosts.len()
        invariant
            0 <= i <= hosts.len(),
            *connected == *old(connected),
            -1 <= chosen_at < i,
            chosen is None <==> chosen_at == -1,
            chosen is None ==> forall|j: int|
                0 <= j < i ==> !joinable(#[trigger] hosts@[j], reject_list@, saved@),
            chosen matches Some((h, p)) ==> {
                &&& hosts@[chosen_at] == h
                &&& joinable(h, reject_list@, saved@)
                &&& forall|j: int|
                    chosen_at < j < i ==> !joinable(#[trigger] hosts@[j], reject_list@, saved@)
                &&& first_saved(saved@, h.bssid->0@, chosen_k)
                &&& p == saved@[chosen_k].password
            },
        decreases hosts.len() - i,
    {
        let host = &hosts[i];
        if let Some(ssid) = &host.ssid {
            if !is_listed(reject_list, ssid) {
                if let Some(bssid) = &host.bssid {
                    match find_saved(saved, bssid) {
                        Some(k) => {
                            chosen = Some((host.clone(), saved[k].password.clone()));
                            proof {
                                chosen_at = i as int;
                                chosen_k = k as int;
                            }
                        },
                        None => {},
                    }
                }
            }
        }
        i = i + 1;
    }
    chosen
}

/// `after` is `before` without its first text `s`, or `before` itself when
/// no text of it is `s`.
pub open spec fn removed_first(before: Seq<String>, after: Seq<String>, s: Seq<char>) -> bool {
    if listed(before, s) {
        exists|k: int|
            0 <= k < before.len() && before[k]@ == s && (forall|j: int|
                0 <= j < k ==> (#[trigger] before[j])@ != s) && after == before.remove(k)
    } else {
        after == before
    }
}

/// Removes the first occurrence of `ssid` from the rejected names.
pub fn reject_list_remove(reject_list: &mut Vec<String>, ssid: &String)
    ensures
        removed_first(old(reject_list)@, final(reject_list)@, ssid@),
{
    let mut i: usize = 0;
    while i < reject_list.len()
        invariant
            0 <= i <= reject_list.len(),
            reject_list@ == old(reject_list)@,
            forall|j: int| 0 <= j < i ==> (#[trigger] reject_list@[j])@ != ssid@,
        decreases reject_list.len() - i,
    {
        if reject_list[i] == *ssid {
            reject_list.remove(i);
            return ;
        }
        i = i + 1;
    }
}

/// What a join leaves behind. Once the network `connection` is joined, the
/// first occurrence of its name leaves the rejected names and the network
/// is saved, unless its access point is saved already; a failed join
/// changes neither. The result tells whether the saved list changed and
/// must be written.
pub fn after_join(
    joined: bool,
    connection: Connection,
    reject_list: &mut Vec<String>,
    history: &mut Vec<Connection>,
) -> (save: bool)
    ensures
        joined ==> removed_first(old(reject_list)@, final(reject_list)@, connection.ssid@),
        joined ==> final(history)@ == added(old(history)@, connection),
        joined ==> save == !has_bssid(old(history)@, connection.bssid@),
        !joined ==> final(reject_list)@ == old(reject_list)@ && final(history)@ == old(history)@ && !save,
{
    if !joined {
        return false;
    }
    reject_list_remove(reject_list, &connection.ssid);
    add_connection_to_history(history, connection)
}

/// Why a connection request cannot be made.
#[derive(Debug, Clone, Copy, PartialEq, Eq, Structural)]
pub enum ConnectError {
    /// No password was given and the access point is not saved.
    PasswordMissing,
    /// The host has no access point address.
    BssidMissing,
    /// The host has no network name.
    SsidMissing,
}

impl ConnectError {
    /// The message shown for the error.
    pub fn message(&self) -> (r: String)
        ensures
            *self == ConnectError::PasswordMissing ==> r@
                == "Password not provided. Please provide a password."@,
            *self == ConnectError::BssidMissing ==> r@ == "No BSSID found."@,
            *self == ConnectError::SsidMissing ==> r@ == "Target SSID missing."@,
    {
        match self {
            ConnectError::PasswordMissing => String::from_str(
                "Password not provided. Please provide a password.",
            ),
            ConnectError::BssidMissing => String::from_str("No BSSID found."),
            ConnectError::SsidMissing => String::from_str("Target SSID missing."),
        }
    }
}

/// The network to join for a connection request: the host's name and access
/// point, with the password given, or else the one saved for the access point.
pub fn connect_to(host: Host, password: &Option<String>, saved: &Vec<Connection>) -> (r: Result<
    Connection,
    ConnectError,
>)
    ensures
        ({
            let found = host.bssid matches Some(b) && exists|k: int|
                0 <= k < saved@.len() && (#[trigger] saved@[k]).bssid@ == b@;
            &&& (password is None && !found) ==> r == Err::<Connection, ConnectError>(
                ConnectError::PasswordMissing,
            )
            &&& (password is Some || found) && host.bssid is None ==> r == Err::<
                Connection,
                ConnectError,
            >(ConnectError::BssidMissing)
            &&& (password is Some || found) && host.bssid is Some && host.ssid is None ==> r
                == Err::<Connection, ConnectError>(ConnectError::SsidMissing)
            &&& (password is Some || found) && host.bssid is Some && host.ssid is Some ==> {
                &&& r is Ok
                &&& r->Ok_0.ssid == host.ssid->0
                &&& r->Ok_0.bssid == host.bssid->0
                &&& password matches Some(p) ==> r->Ok_0.password == p
                &&& password is None ==> exists|k: int|
                    first_saved(saved@, host.bssid->0@, k) && r->Ok_0.password
                        == saved@[k].password
            }
        }),
{
    let found = match &host.bssid {
        Some(b) => find_saved(saved, b),
        None => None,
    };
    let final_password = match password {
        Some(val) => val.clone(),
        None => match found {
            Some(k) => saved[k].password.clone(),
            None => {
                return Err(ConnectError::PasswordMissing);
            },
        },
    };
    let bssid = match host.bssid {
        Some(b) => b,
        None => {
            return Err(ConnectError::BssidMissing);
        },
    };
    let ssid = match host.ssid {
        Some(s) => s,
        None => {
            return Err(ConnectError::SsidMissing);
        },
    };
    Ok(Connection { ssid, bssid, password: final_password })
}

/// The first connection record of the interface named `ifname`.
pub open spec fn first_on(current: Seq<CurrentConnection>, ifname: Seq<char>, k: int) -> bool {
    &&& 0 <= k < current.len()
    &&& text_view(current[k].ifname) == Some(ifname)
    &&& forall|j: int| 0 <= j < k ==> text_view((#[trigger] current[j]).ifname) != Some(ifname)
}

/// After a disconnection: the network that the interface `ifname` was on is
/// no longer rejected, so that autoconnection may join it again.
pub fn disconnect_connection(
    ifname: &str,
    current: &Vec<CurrentConnection>,
    reject_list: &mut Vec<String>,
)
    requires
        exists|k: int| 0 <= k < current@.len() && text_view((#[trigger] current@[k]).ifname) == Some(
            ifname@,
        ),
    ensures
        exists|k: int|
            first_on(current@, ifname@, k) && match current@[k].ssid {
                Some(ssid) => removed_first(old(reject_list)@, final(reject_list)@, ssid@),
                None => final(reject_list)@ == old(reject_list)@,
            },
{
    let name = Some(String::from_str(ifname));
    let mut k: usize = 0;
    let mut found = false;
    while !found
        invariant
            0 <= k < current.len(),
            text_view(name) == Some(ifname@),
            forall|j: int| 0 <= j < k ==> text_view((#[trigger] current@[j]).ifname) != Some(ifname@),
            found ==> text_view(current@[k as int].ifname) == Some(ifname@),
            !found ==> exists|m: int|
                k <= m < current@.len() && text_view((#[trigger] current@[m]).ifname) == Some(ifname@),
        decreases current.len() - k, if found { 0int } else { 1int },
    {
        if crate::types::same_text(&current[k].ifname, &name) {
            found = true;
        } else {
            k = k + 1;
        }
    }
    assert(first_on(current@, ifname@, k as int));
    if let Some(ssid) = &current[k].ssid {
        reject_list_remove(reject_list, ssid);
    }
}

/// What a scan of an interface needs.
#[derive(Debug, Clone, Copy, PartialEq, Eq, Structural)]
pub enum ScanDecision {
    /// The interface is not wireless: its host list is empty.
    NotWireless,
    /// The interface has no index to scan with.
    NoIndex,
    /// Scan the interface with this index.
    Scan(u32),
}

/// Decides how to list the hosts around an interface: only a wireless
/// interface with a known index is scanned.
pub fn list_active_signals(interface: &Interface) -> (r: ScanDecision)
    ensures
        interface.iftype != InterfaceType::Wireless ==> r == ScanDecision::NotWireless,
        interface.iftype == InterfaceType::Wireless ==> match interface.ifindex {
            Some(i) => r == ScanDecision::Scan(i),
            None => r == ScanDecision::NoIndex,
        },
{
    if interface.iftype != InterfaceType::Wireless {
        return ScanDecision::NotWireless;
    }
    match interface.ifindex {
        Some(i) => ScanDecision::Scan(i),
        None => ScanDecision::NoIndex,
    }
}

/// What serving a command of the client takes.
#[derive(Debug)]
pub enum Plan {
    /// Answer at once with this response.
    Respond(Response),
    /// Read the saved networks.
    ListSaved,
    /// Scan the interface for hosts.
    ScanActive(Interface),
    /// List the network interfaces.
    ListInterfaces,
    /// Join a network on an interface.
    Connect { iface: Interface, host: Host, password: Option<String> },
    /// Describe the interfaces that are up.
    CurrentConnection,
    /// Leave the network of the interface with this name.
    Disconnect(String),
}

/// How the daemon serves a command: a ping, a notice, its clearing and the
/// tick are answered at once, an unknown command with an error; every other
/// command needs the work that the plan names.
pub fn execute(cmd: Command) -> (r: Plan)
    ensures
        match cmd {
            Command::Ping => r == Plan::Respond(Response::Pong),
            Command::ListConnections => r == Plan::ListSaved,
            Command::ListActiveConnections(iface) => r == Plan::ScanActive(iface),
            Command::ListInterfaces => r == Plan::ListInterfaces,
            Command::Notification(m) => r == Plan::Respond(Response::Notification(m)),
            Command::ClearNotification => r == Plan::Respond(Response::ClearNotification),
            Command::Connect { host, iface, password } => r == (Plan::Connect {
                iface,
                host,
                password,
            }),
            Command::CurrentConnection => r == Plan::CurrentConnection,
            Command::Disconnect(ifname) => r == Plan::Disconnect(ifname),
            Command::Tick => r == Plan::Respond(Response::Tick),
            Command::Info(_) => (r matches Plan::Respond(Response::Error(m)) && m@
                == "Unknown Command."@),
        },
{
    match cmd {
        Command::Ping => Plan::Respond(Response::Pong),
        Command::ListConnections => Plan::ListSaved,
        Command::ListActiveConnections(iface) => Plan::ScanActive(iface),
        Command::ListInterfaces => Plan::ListInterfaces,
        Command::Notification(msg) => Plan::Respond(Response::Notification(msg)),
        Command::ClearNotification => Plan::Respond(Response::ClearNotification),
        Command::Connect { host, iface, password } => Plan::Connect { iface, host, password },
        Command::CurrentConnection => Plan::CurrentConnection,
        Command::Disconnect(ifname) => Plan::Disconnect(ifname),
        Command::Tick => Plan::Respond(Response::Tick),
        _ => Plan::Respond(Response::Error(String::from_str("Unknown Command."))),
    }
}

/// The response to a scan: the hosts found, named by the interface, or an
/// error when the interface has no name.
pub fn scan_response(iface: &Interface, hosts: Vec<Host>) -> (r: Response)
    ensures
        iface.ifname matches Some(n) ==> r == Response::ActiveHosts(n, hosts),
        iface.ifname is None ==> (r matches Response::Error(m) && m@ == "Unknown Interface."@),
{
    match clone_text(&iface.ifname) {
        Some(ifname) => Response::ActiveHosts(ifname, hosts),
        None => Response::Error(String::from_str("Unknown Interface.")),
    }
}

/// The response to a connection request, given how joining went.
pub fn connect_response(result: Result<(), String>) -> (r: Response)
    ensures
        result is Ok ==> r == Response::Connected,
        result matches Err(e) ==> (r matches Response::Error(m) && m@ == "Could'nt Connect: "@
            + e@),
{
    match result {
        Ok(_) => Response::Connected,
        Err(e) => Response::Error(String::from_str("Could'nt Connect: ").concat(e.as_str())),
    }
}

/// The response to a disconnection request, given how leaving went.
pub fn disconnect_response(result: Result<(), String>) -> (r: Response)
    ensures
        result is Ok ==> r == Response::Disconnected,
        result matches Err(e) ==> (r matches Response::Error(m) && m@ == "Couldn't Disconnect. "@
            + e@),
{
    match result {
        Ok(_) => Response::Disconnected,
        Err(e) => Response::Error(String::from_str("Couldn't Disconnect. ").concat(e.as_str())),
    }
}

/// The response to a request for the current connections.
pub fn current_response(result: Result<Option<Vec<CurrentConnection>>, String>) -> (r: Response)
    ensures
        result matches Ok(c) ==> r == Response::CurrentConnection(c),
        result matches Err(e) ==> r == Response::Error(e),
{
    match result {
        Ok(c) => Response::CurrentConnection(c),
        Err(e) => Response::Error(e),
    }
}

} // verus!
