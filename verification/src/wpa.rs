//! The dialogues with wpa_supplicant's control socket that join and leave a
//! network.

use crate::interfaces::contains;
use crate::route::{is_ws, is_ws_exec};
use crate::text::push_char;
use crate::types::{text_view, Interface};
use vstd::prelude::*;
use vstd::string::*;

verus! {

/// `s` with the whitespace at both ends removed, as `str::trim` gives it.
pub open spec fn trim(s: Seq<char>) -> Seq<char>
    decreases s.len(),
{
    if s.len() > 0 && is_ws(s[0]) {
        trim(s.drop_first())
    } else if s.len() > 0 && is_ws(s.last()) {
        trim(s.drop_last())
    } else {
        s
    }
}

proof fn lemma_trim_inner(s: Seq<char>, a: int, b: int)
    requires
        0 <= a <= b <= s.len(),
        forall|i: int| 0 <= i < a ==> is_ws(#[trigger] s[i]),
        a < b ==> !is_ws(s[a]) && !is_ws(s[b - 1]),
        a == b ==> forall|i: int| 0 <= i < s.len() ==> is_ws(#[trigger] s[i]),
        forall|i: int| b <= i < s.len() ==> is_ws(#[trigger] s[i]),
    ensures
        trim(s) == s.subrange(a, b),
    decreases s.len(),
{
    if s.len() > 0 && is_ws(s[0]) {
        let t = s.drop_first();
        if a == b {
            assert forall|i: int| 0 <= i < t.len() implies is_ws(#[trigger] t[i]) by {
                assert(t[i] == s[i + 1]);
            }
            lemma_trim_inner(t, 0, 0);
            assert(t.subrange(0, 0) =~= s.subrange(a, b));
        } else {
            assert forall|i: int| 0 <= i < a - 1 implies is_ws(#[trigger] t[i]) by {
                assert(t[i] == s[i + 1]);
            }
            assert forall|i: int| b - 1 <= i < t.len() implies is_ws(#[trigger] t[i]) by {
                assert(t[i] == s[i + 1]);
            }
            lemma_trim_inner(t, a - 1, b - 1);
            assert(t.subrange(a - 1, b - 1) =~= s.subrange(a, b));
        }
    } else if s.len() > 0 && is_ws(s.last()) {
        let t = s.drop_last();
        if a == b {
            assert(s.len() == 0 || is_ws(s[0]));
        } else {
            assert forall|i: int| 0 <= i < a implies is_ws(#[trigger] t[i]) by {
                assert(t[i] == s[i]);
            }
            assert forall|i: int| b <= i < t.len() implies is_ws(#[trigger] t[i]) by {
                assert(t[i] == s[i]);
            }
            lemma_trim_inner(t, a, b);
            assert(t.subrange(a, b) =~= s.subrange(a, b));
        }
    } else {
        if a == b {
            assert(s.len() == 0);
        }
        assert(s.subrange(a, b) =~= s);
    }
}

/// The text of a reply without surrounding whitespace.
pub fn trim_text(s: &str) -> (r: String)
    ensures
        r@ == trim(s@),
{
    let n = s.unicode_len();
    let mut a: usize = 0;
    while a < n && is_ws_exec(s.get_char(a))
        invariant
            a <= n == s@.len(),
            forall|i: int| 0 <= i < a ==> is_ws(#[trigger] s@[i]),
        decreases n - a,
    {
        a = a + 1;
    }
    let mut b: usize = n;
    while b > a && is_ws_exec(s.get_char(b - 1))
        invariant
            a <= b <= n == s@.len(),
            forall|i: int| b <= i < n ==> is_ws(#[trigger] s@[i]),
        decreases b,
    {
        b = b - 1;
    }
    proof {
        if a == b {
            assert forall|i: int| 0 <= i < s@.len() implies is_ws(#[trigger] s@[i]) by {
                if i >= a && i < b {
                } 
            }
        }
        lemma_trim_inner(s@, a as int, b as int);
    }
    let mut r = String::new();
    let mut i = a;
    while i < b
        invariant
            a <= i <= b <= n == s@.len(),
            r@ == s@.subrange(a as int, i as int),
        decreases b - i,
    {
        push_char(&mut r, s.get_char(i));
        i = i + 1;
        assert(r@ =~= s@.subrange(a as int, i as int));
    }
    r
}

/// A reply of the control socket, trimmed; `None` for an unsolicited
/// event message, which starts with `<` and is passed over.
pub fn wpa_reply(raw: &str) -> (r: Option<String>)
    ensures
        trim(raw@).len() > 0 && trim(raw@)[0] == '<' ==> r is None,
        !(trim(raw@).len() > 0 && trim(raw@)[0] == '<') ==> (r matches Some(t) && t@ == trim(
            raw@,
        )),
{
    let t = trim_text(raw);
    if t.as_str().unicode_len() > 0 && t.as_str().get_char(0) == '<' {
        None
    } else {
        Some(t)
    }
}

/// What wpa_supplicant reports while a network is being joined.
#[derive(Debug, Clone, Copy, PartialEq, Eq, Structural)]
pub enum WpaEvent {
    Connected,
    AuthRejected,
    NotFound,
    WrongKey,
    Other,
}

/// The kind of an event text, by the first of these markers that it contains.
pub open spec fn event_kind(e: Seq<char>) -> WpaEvent {
    if contains(e, "CTRL-EVENT-CONNECTED"@) {
        WpaEvent::Connected
    } else if contains(e, "CTRL-EVENT-AUTH-REJECT"@) {
        WpaEvent::AuthRejected
    } else if contains(e, "CTRL-EVENT-NETWORK-NOT-FOUND"@) {
        WpaEvent::NotFound
    } else if contains(e, "WRONG_KEY"@) {
        WpaEvent::WrongKey
    } else {
        WpaEvent::Other
    }
}

/// The kind of an event text.
pub fn classify_event(e: &str) -> (r: WpaEvent)
    ensures
        r == event_kind(e@),
{
    if crate::interfaces::contains_text(e, "CTRL-EVENT-CONNECTED") {
        WpaEvent::Connected
    } else if crate::interfaces::contains_text(e, "CTRL-EVENT-AUTH-REJECT") {
        WpaEvent::AuthRejected
    } else if crate::interfaces::contains_text(e, "CTRL-EVENT-NETWORK-NOT-FOUND") {
        WpaEvent::NotFound
    } else if crate::interfaces::contains_text(e, "WRONG_KEY") {
        WpaEvent::WrongKey
    } else {
        WpaEvent::Other
    }
}

/// Where the dialogue that joins a network stands: each state but
/// `Waiting`, `Connected` and `Failed` sends one command and reads its reply.
#[derive(Debug, Clone, Copy, PartialEq, Eq, Structural)]
pub enum WpaState {
    Ping,
    RemoveAll,
    Attach,
    AddNetwork,
    SetSsid,
    SetPsk,
    SaveConfig,
    DisableAll,
    Select,
    Waiting,
    ForgetNetwork,
    ForgetSave,
    Connected,
    Failed,
}

/// The dialogue that joins the network `ssid` with `password`.
#[derive(Debug)]
pub struct WpaDialog {
    pub state: WpaState,
    pub network_id: String,
    pub ssid: String,
    pub password: String,
    pub error: String,
}

/// The command sent in each state.
pub open spec fn command_text(d: WpaDialog) -> Option<Seq<char>> {
    match d.state {
        WpaState::Ping => Some("PING"@),
        WpaState::RemoveAll => Some("REMOVE_NETWORK all"@),
        WpaState::Attach => Some("ATTACH"@),
        WpaState::AddNetwork => Some("ADD_NETWORK"@),
        WpaState::SetSsid => Some("SET_NETWORK "@ + d.network_id@ + " ssid \""@ + d.ssid@ + "\""@),
        WpaState::SetPsk => Some("SET_NETWORK "@ + d.network_id@ + " psk \""@ + d.password@ + "\""@),
        WpaState::SaveConfig => Some("SAVE_CONFIG"@),
        WpaState::DisableAll => Some("DISABLE_NETWORK all"@),
        WpaState::Select => Some("SELECT_NETWORK "@ + d.network_id@),
        WpaState::ForgetNetwork => Some("REMOVE_NETWORK "@ + d.network_id@),
        WpaState::ForgetSave => Some("SAVE_CONFIG"@),
        _ => None,
    }
}

/// The dialogue `b` is `a` failed with the message `msg`.
pub open spec fn failed_with(a: WpaDialog, b: WpaDialog, msg: Seq<char>) -> bool {
    b == (WpaDialog { state: WpaState::Failed, error: b.error, ..a }) && b.error@ == msg
}

/// The dialogue `b` is `a` moved on to state `s`.
pub open spec fn moved_to(a: WpaDialog, b: WpaDialog, s: WpaState) -> bool {
    b == (WpaDialog { state: s, ..a })
}

/// The dialogue `b` after the reply `r` in the dialogue `a`: a `PONG` to the
/// ping, and an `OK` to the attach, to setting the name and the password, to
/// disabling the cached networks and to selecting the new one, move on;
/// anything else fails with the message of the state. The reply to adding a
/// network is its id. The replies to removing all networks and to saving are
/// not read. After an authentication rejection, the new network is removed
/// and the configuration saved before the dialogue fails.
pub open spec fn after_reply(a: WpaDialog, r: Seq<char>, b: WpaDialog) -> bool {
    match a.state {
        WpaState::Ping => if r == "PONG"@ {
            moved_to(a, b, WpaState::RemoveAll)
        } else {
            failed_with(a, b, "wpa_supplicant did not respond."@)
        },
        WpaState::RemoveAll => moved_to(a, b, WpaState::Attach),
        WpaState::Attach => if r == "OK"@ {
            moved_to(a, b, WpaState::AddNetwork)
        } else {
            failed_with(a, b, "Couldn't connect to wpa_supplicant."@)
        },
        WpaState::AddNetwork => b == (WpaDialog {
            state: WpaState::SetSsid,
            network_id: b.network_id,
            ..a
        }) && b.network_id@ == r,
        WpaState::SetSsid => if r == "OK"@ {
            moved_to(a, b, WpaState::SetPsk)
        } else {
            failed_with(a, b, "failed to set SSID. "@ + r)
        },
        WpaState::SetPsk => if r == "OK"@ {
            moved_to(a, b, WpaState::SaveConfig)
        } else {
            failed_with(a, b, "failed to set password. "@ + r)
        },
        WpaState::SaveConfig => moved_to(a, b, WpaState::DisableAll),
        WpaState::DisableAll => if r == "OK"@ {
            moved_to(a, b, WpaState::Select)
        } else {
            failed_with(a, b, "Couldn't disable cached networks. "@ + r)
        },
        WpaState::Select => if r == "OK"@ {
            moved_to(a, b, WpaState::Waiting)
        } else {
            failed_with(a, b, "Couldn't connect to "@ + a.ssid@ + ". "@ + r)
        },
        WpaState::ForgetNetwork => moved_to(a, b, WpaState::ForgetSave),
        WpaState::ForgetSave => failed_with(a, b, "Authentication failed. Try Again."@),
        _ => b == a,
    }
}

/// The dialogue `b` after the event `e` in the dialogue `a`: while waiting,
/// a connection ends it, a rejected authentication starts the removal of
/// the network, and a network not found or a wrong key fails it.
pub open spec fn after_event(a: WpaDialog, e: Seq<char>, b: WpaDialog) -> bool {
    if a.state == WpaState::Waiting {
        match event_kind(e) {
            WpaEvent::Connected => moved_to(a, b, WpaState::Connected),
            WpaEvent::AuthRejected => moved_to(a, b, WpaState::ForgetNetwork),
            WpaEvent::NotFound => failed_with(
                a,
                b,
                "Network not found, Make sure host is in range."@,
            ),
            WpaEvent::WrongKey => failed_with(a, b, "Incorrect Password. Please try again."@),
            WpaEvent::Other => b == a,
        }
    } else {
        b == a
    }
}

fn is_text(s: &String, t: &str) -> (r: bool)
    ensures
        r == (s@ == t@),
{
    *s == String::from_str(t)
}

impl WpaDialog {
    /// The dialogue that joins `ssid` with `password`, from its first ping.
    pub fn new(ssid: String, password: String) -> (r: WpaDialog)
        ensures
            r.state == WpaState::Ping,
            r.ssid == ssid,
            r.password == password,
            r.network_id@.len() == 0,
            r.error@.len() == 0,
    {
        WpaDialog { state: WpaState::Ping, network_id: String::new(), ssid, password, error: String::new() }
    }

    /// The command to send now; none while waiting for events and at the end.
    pub fn command(&self) -> (r: Option<String>)
        ensures
            match command_text(*self) {
                Some(t) => (r matches Some(c) && c@ == t),
                None => r is None,
            },
    {
        match self.state {
            WpaState::Ping => Some(String::from_str("PING")),
            WpaState::RemoveAll => Some(String::from_str("REMOVE_NETWORK all")),
            WpaState::Attach => Some(String::from_str("ATTACH")),
            WpaState::AddNetwork => Some(String::from_str("ADD_NETWORK")),
            WpaState::SetSsid => Some(
                String::from_str("SET_NETWORK ").concat(self.network_id.as_str()).concat(
                    " ssid \"",
                ).concat(self.ssid.as_str()).concat("\""),
            ),
            WpaState::SetPsk => Some(
                String::from_str("SET_NETWORK ").concat(self.network_id.as_str()).concat(
                    " psk \"",
                ).concat(self.password.as_str()).concat("\""),
            ),
            WpaState::SaveConfig => Some(String::from_str("SAVE_CONFIG")),
            WpaState::DisableAll => Some(String::from_str("DISABLE_NETWORK all")),
            WpaState::Select => Some(
                String::from_str("SELECT_NETWORK ").concat(self.network_id.as_str()),
            ),
            WpaState::ForgetNetwork => Some(
                String::from_str("REMOVE_NETWORK ").concat(self.network_id.as_str()),
            ),
            WpaState::ForgetSave => Some(String::from_str("SAVE_CONFIG")),
            _ => None,
        }
    }

    fn fail(&mut self, msg: String)
        ensures
            failed_with(*old(self), *final(self), msg@),
    {
        self.state = WpaState::Failed;
        self.error = msg;
    }

    /// Reads the reply to the command of the current state.
    pub fn on_reply(&mut self, reply: String)
        ensures
            after_reply(*old(self), reply@, *final(self)),
    {
        match self.state {
            WpaState::Ping => {
                if is_text(&reply, "PONG") {
                    self.state = WpaState::RemoveAll;
                } else {
                    self.fail(String::from_str("wpa_supplicant did not respond."));
                }
            },
            WpaState::RemoveAll => {
                self.state = WpaState::Attach;
            },
            WpaState::Attach => {
                if is_text(&reply, "OK") {
                    self.state = WpaState::AddNetwork;
                } else {
                    self.fail(String::from_str("Couldn't connect to wpa_supplicant."));
                }
            },
            WpaState::AddNetwork => {
                self.network_id = reply;
                self.state = WpaState::SetSsid;
            },
            WpaState::SetSsid => {
                if is_text(&reply, "OK") {
                    self.state = WpaState::SetPsk;
                } else {
                    self.fail(String::from_str("failed to set SSID. ").concat(reply.as_str()));
                }
            },
            WpaState::SetPsk => {
                if is_text(&reply, "OK") {
                    self.state = WpaState::SaveConfig;
                } else {
                    self.fail(String::from_str("failed to set password. ").concat(reply.as_str()));
                }
            },
            WpaState::SaveConfig => {
                self.state = WpaState::DisableAll;
            },
            WpaState::DisableAll => {
                if is_text(&reply, "OK") {
                    self.state = WpaState::Select;
                } else {
                    self.fail(
                        String::from_str("Couldn't disable cached networks. ").concat(reply.as_str()),
                    );
                }
            },
            WpaState::Select => {
                if is_text(&reply, "OK") {
                    self.state = WpaState::Waiting;
                } else {
                    let msg = String::from_str("Couldn't connect to ").concat(
                        self.ssid.as_str(),
                    ).concat(". ").concat(reply.as_str());
                    self.fail(msg);
                }
            },
            WpaState::ForgetNetwork => {
                self.state = WpaState::ForgetSave;
            },
            WpaState::ForgetSave => {
                self.fail(String::from_str("Authentication failed. Try Again."));
            },
            _ => {},
        }
    }

    /// Reads an event received while waiting for the connection.
    pub fn on_event(&mut self, event: &str)
        ensures
            after_event(*old(self), event@, *final(self)),
    {
        if self.state == WpaState::Waiting {
            match classify_event(event) {
                WpaEvent::Connected => {
                    self.state = WpaState::Connected;
                },
                WpaEvent::AuthRejected => {
                    self.state = WpaState::ForgetNetwork;
                },
                WpaEvent::NotFound => {
                    self.fail(String::from_str("Network not found, Make sure host is in range."));
                },
                WpaEvent::WrongKey => {
                    self.fail(String::from_str("Incorrect Password. Please try again."));
                },
                WpaEvent::Other => {},
            }
        }
    }

    /// No event came within the ten seconds waited for each.
    pub fn on_timeout(&mut self)
        ensures
            old(self).state == WpaState::Waiting ==> failed_with(
                *old(self),
                *final(self),
                "connection timed out after 10 secs."@,
            ),
            old(self).state != WpaState::Waiting ==> *final(self) == *old(self),
    {
        if self.state == WpaState::Waiting {
            self.fail(String::from_str("connection timed out after 10 secs."));
        }
    }
}

/// Once the joining dialogue has connected or failed, neither a reply, nor
/// an event, nor a timeout changes it any more.
pub proof fn law_dialogue_end_is_final(a: WpaDialog, reply: Seq<char>, event: Seq<char>, b: WpaDialog, c: WpaDialog)
    requires
        a.state == WpaState::Connected || a.state == WpaState::Failed,
        after_reply(a, reply, b),
        after_event(a, event, c),
    ensures
        b == a,
        c == a,
        command_text(a) is None,
{
}

/// The joining dialogue that gets the expected replies, `PONG` to the ping,
/// `OK` to the attach, a network id to the addition and `OK` to setting the
/// name and the password, to disabling the cached networks and to the
/// selection, sends in order `PING`, `REMOVE_NETWORK all`, `ATTACH`,
/// `ADD_NETWORK`, the name, the password, `SAVE_CONFIG`,
/// `DISABLE_NETWORK all` and `SELECT_NETWORK` for the new id, and then waits
/// for the connection.
pub proof fn law_join_happy_path(d: Seq<WpaDialog>, replies: Seq<Seq<char>>)
    requires
        d.len() == 10,
        replies.len() == 9,
        d[0].state == WpaState::Ping,
        forall|i: int| 0 <= i < 9 ==> after_reply(#[trigger] d[i], replies[i], d[i + 1]),
        replies[0] == "PONG"@,
        replies[2] == "OK"@,
        replies[4] == "OK"@,
        replies[5] == "OK"@,
        replies[7] == "OK"@,
        replies[8] == "OK"@,
    ensures
        d[9].state == WpaState::Waiting,
        d[9].network_id@ == replies[3],
        d[9].ssid == d[0].ssid,
        d[9].password == d[0].password,
        command_text(d[0]) == Some("PING"@),
        command_text(d[1]) == Some("REMOVE_NETWORK all"@),
        command_text(d[2]) == Some("ATTACH"@),
        command_text(d[3]) == Some("ADD_NETWORK"@),
        command_text(d[4]) == Some("SET_NETWORK "@ + replies[3] + " ssid \""@ + d[0].ssid@ + "\""@),
        command_text(d[5]) == Some("SET_NETWORK "@ + replies[3] + " psk \""@ + d[0].password@ + "\""@),
        command_text(d[6]) == Some("SAVE_CONFIG"@),
        command_text(d[7]) == Some("DISABLE_NETWORK all"@),
        command_text(d[8]) == Some("SELECT_NETWORK "@ + replies[3]),
{
    assert(after_reply(d[0], replies[0], d[1]));
    assert(after_reply(d[1], replies[1], d[2]));
    assert(after_reply(d[2], replies[2], d[3]));
    assert(after_reply(d[3], replies[3], d[4]));
    assert(after_reply(d[4], replies[4], d[5]));
    assert(after_reply(d[5], replies[5], d[6]));
    assert(after_reply(d[6], replies[6], d[7]));
    assert(after_reply(d[7], replies[7], d[8]));
    assert(after_reply(d[8], replies[8], d[9]));
}

/// Why the interface cannot be left.
#[derive(Debug, Clone, Copy, PartialEq, Eq, Structural)]
pub enum LeaveError {
    InterfaceNotFound,
    NoIndex,
    NoMac,
    NoAddress,
    NoGateway,
}

impl LeaveError {
    /// The message shown for the error.
    pub fn message(&self) -> (r: String)
        ensures
            *self == LeaveError::InterfaceNotFound ==> r@ == "Interface not found."@,
            *self == LeaveError::NoIndex ==> r@ == "Couldn't parse Ifindex."@,
            *self == LeaveError::NoMac ==> r@ == "Couldn't parse mac."@,
            *self == LeaveError::NoAddress ==> r@ == "No Current IP found."@,
            *self == LeaveError::NoGateway ==> r@ == "Gateway IP not found."@,
    {
        match self {
            LeaveError::InterfaceNotFound => String::from_str("Interface not found."),
            LeaveError::NoIndex => String::from_str("Couldn't parse Ifindex."),
            LeaveError::NoMac => String::from_str("Couldn't parse mac."),
            LeaveError::NoAddress => String::from_str("No Current IP found."),
            LeaveError::NoGateway => String::from_str("Gateway IP not found."),
        }
    }
}

/// `k` is the first interface named `name`.
pub open spec fn first_with_name(ifaces: Seq<Interface>, name: Seq<char>, k: int) -> bool {
    &&& 0 <= k < ifaces.len()
    &&& text_view(ifaces[k].ifname) == Some(name)
    &&& forall|j: int| 0 <= j < k ==> text_view((#[trigger] ifaces[j]).ifname) != Some(name)
}

/// The interface named `ifname` that is to be left: the first of that name,
/// which must have an index and a MAC.
pub fn leave_target(ifname: &str, ifaces: &Vec<Interface>) -> (r: Result<Interface, LeaveError>)
    ensures
        (forall|k: int| 0 <= k < ifaces@.len() ==> text_view((#[trigger] ifaces@[k]).ifname) != Some(
            ifname@,
        )) ==> r == Err::<Interface, LeaveError>(LeaveError::InterfaceNotFound),
        forall|k: int|
            #![trigger first_with_name(ifaces@, ifname@, k)]
            first_with_name(ifaces@, ifname@, k) ==> {
                let i = ifaces@[k];
                &&& i.ifindex is None ==> r == Err::<Interface, LeaveError>(LeaveError::NoIndex)
                &&& i.ifindex is Some && i.mac is None ==> r == Err::<Interface, LeaveError>(
                    LeaveError::NoMac,
                )
                &&& i.ifindex is Some && i.mac is Some ==> r == Ok::<Interface, LeaveError>(i)
            },
{
    let mut k: usize = 0;
    while k < ifaces.len()
        invariant
            0 <= k <= ifaces@.len(),
            forall|j: int| 0 <= j < k ==> text_view((#[trigger] ifaces@[j]).ifname) != Some(ifname@),
        decreases ifaces@.len() - k,
    {
        if crate::types::text_is(&ifaces[k].ifname, ifname) {
            assert(first_with_name(ifaces@, ifname@, k as int));
            assert forall|m: int| first_with_name(ifaces@, ifname@, m) implies m == k by {
                if m < k {
                } else if m > k {
                    assert(text_view(ifaces@[k as int].ifname) != Some(ifname@));
                }
            }
            let i = &ifaces[k];
            if i.ifindex.is_none() {
                return Err(LeaveError::NoIndex);
            }
            if i.mac.is_none() {
                return Err(LeaveError::NoMac);
            }
            return Ok(i.clone());
        }
        k = k + 1;
    }
    Err(LeaveError::InterfaceNotFound)
}

/// The address to release and the gateway to remove: both must be known.
pub fn leave_addresses(ip: Option<u32>, gateway: Option<u32>) -> (r: Result<(u32, u32), LeaveError>)
    ensures
        r == match (ip, gateway) {
            (None, _) => Err(LeaveError::NoAddress),
            (Some(_), None) => Err(LeaveError::NoGateway),
            (Some(a), Some(g)) => Ok((a, g)),
        },
{
    match (ip, gateway) {
        (None, _) => Err(LeaveError::NoAddress),
        (Some(_), None) => Err(LeaveError::NoGateway),
        (Some(a), Some(g)) => Ok((a, g)),
    }
}

/// Where the dialogue that leaves a network stands.
#[derive(Debug, Clone, Copy, PartialEq, Eq, Structural)]
pub enum LeaveState {
    Ping,
    Attach,
    Disconnect,
    Done,
}

/// The command sent in each state of the leaving dialogue.
pub open spec fn leave_command_text(s: LeaveState) -> Option<Seq<char>> {
    match s {
        LeaveState::Ping => Some("PING"@),
        LeaveState::Attach => Some("ATTACH"@),
        LeaveState::Disconnect => Some("DISCONNECT"@),
        LeaveState::Done => None,
    }
}

/// The state after the reply `reply` in state `s`; `None` where the
/// dialogue fails.
pub open spec fn leave_after(s: LeaveState, reply: Seq<char>) -> Option<LeaveState> {
    match s {
        LeaveState::Ping => if reply == "PONG"@ {
            Some(LeaveState::Attach)
        } else {
            None
        },
        LeaveState::Attach => if reply == "OK"@ {
            Some(LeaveState::Disconnect)
        } else {
            None
        },
        _ => Some(LeaveState::Done),
    }
}

/// The leaving dialogue that gets `PONG` to its ping and `OK` to its attach
/// sends `PING`, `ATTACH` and `DISCONNECT`, and ends after the reply to the
/// last, whatever it is.
pub proof fn law_leave_sequence(reply: Seq<char>)
    ensures
        leave_command_text(LeaveState::Ping) == Some("PING"@),
        leave_after(LeaveState::Ping, "PONG"@) == Some(LeaveState::Attach),
        leave_command_text(LeaveState::Attach) == Some("ATTACH"@),
        leave_after(LeaveState::Attach, "OK"@) == Some(LeaveState::Disconnect),
        leave_command_text(LeaveState::Disconnect) == Some("DISCONNECT"@),
        leave_after(LeaveState::Disconnect, reply) == Some(LeaveState::Done),
        leave_command_text(LeaveState::Done) is None,
{
}

/// The command to send in state `s`; none at the end.
pub fn leave_command(s: LeaveState) -> (r: Option<String>)
    ensures
        match leave_command_text(s) {
            Some(t) => (r matches Some(c) && c@ == t),
            None => r is None,
        },
{
    match s {
        LeaveState::Ping => Some(String::from_str("PING")),
        LeaveState::Attach => Some(String::from_str("ATTACH")),
        LeaveState::Disconnect => Some(String::from_str("DISCONNECT")),
        LeaveState::Done => None,
    }
}

/// The state after the reply `reply` in state `s`: a `PONG` to the ping and
/// an `OK` to the attach move on, anything else fails with the message of
/// the state; the reply to the disconnection is not read.
pub fn leave_reply(s: LeaveState, reply: &String) -> (r: Result<LeaveState, String>)
    ensures
        s == LeaveState::Ping && reply@ == "PONG"@ ==> r == Ok::<LeaveState, String>(LeaveState::Attach),
        s == LeaveState::Ping && reply@ != "PONG"@ ==> (r matches Err(m) && m@
            == "wpa_supplicant did not respond."@),
        s == LeaveState::Attach && reply@ == "OK"@ ==> r == Ok::<LeaveState, String>(
            LeaveState::Disconnect,
        ),
        s == LeaveState::Attach && reply@ != "OK"@ ==> (r matches Err(m) && m@
            == "Couldn't connect to wpa_supplicant."@),
        s == LeaveState::Disconnect || s == LeaveState::Done ==> r == Ok::<LeaveState, String>(
            LeaveState::Done,
        ),
        r is Ok <==> leave_after(s, reply@) is Some,
        r matches Ok(t) ==> leave_after(s, reply@) == Some(t),
{
    match s {
        LeaveState::Ping => if is_text(reply, "PONG") {
            Ok(LeaveState::Attach)
        } else {
            Err(String::from_str("wpa_supplicant did not respond."))
        },
        LeaveState::Attach => if is_text(reply, "OK") {
            Ok(LeaveState::Disconnect)
        } else {
            Err(String::from_str("Couldn't connect to wpa_supplicant."))
        },
        _ => Ok(LeaveState::Done),
    }
}

} // verus!
