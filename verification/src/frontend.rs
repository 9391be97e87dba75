//! The state of the terminal client: the interface and host lists, which
//! entries are selected, and what each key press and each daemon response
//! does to them.

use crate::protocol::{Command, Response};
use crate::text::{pop_char, push_char};
use crate::types::{clone_text, text_view, CurrentConnection, Host, Interface, InterfaceType};
use vstd::prelude::*;
use vstd::string::*;

verus! {

/// The pane that has the focus.
#[derive(Debug, Clone, Copy, PartialEq, Eq, Structural)]
pub enum Tab {
    Interface,
    Hosts,
    Input,
}

/// An interface and the hosts last scanned on it.
#[derive(Debug)]
pub struct InterfaceList {
    pub iface: Interface,
    pub hosts: Vec<Host>,
}

/// A key press, as the terminal reports it.
#[derive(Debug, Clone, Copy, PartialEq, Eq, Structural)]
pub enum Key {
    Char(char),
    Backspace,
    Esc,
    Enter,
    Up,
    Down,
    Left,
    Right,
    Tab,
    Other,
}

/// The client's state. `iface_index` and `host_index` are the rows selected
/// in the interface list and in the host table.
#[derive(Debug)]
pub struct App {
    pub group: Vec<InterfaceList>,
    pub active_tab: Tab,
    pub iface_index: Option<usize>,
    pub host_index: Option<usize>,
    pub notification: Option<String>,
    pub current_connection: Option<Vec<CurrentConnection>>,
    pub input_text: String,
}

/// The hosts of the selected interface; none when no interface is selected.
pub open spec fn selected_hosts(a: App) -> Seq<Host> {
    match a.iface_index {
        Some(i) => if i < a.group@.len() {
            a.group@[i as int].hosts@
        } else {
            Seq::<Host>::empty()
        },
        None => Seq::<Host>::empty(),
    }
}

/// The selected interface, if the selection points into the list.
pub open spec fn selected_interface(a: App) -> Option<Interface> {
    match a.iface_index {
        Some(i) => if i < a.group@.len() {
            Some(a.group@[i as int].iface)
        } else {
            None
        },
        None => None,
    }
}

/// Moving a selection down a list of `len` rows: from the last row back to
/// the first, from nothing to the first row, and to nothing when that row
/// does not exist.
pub open spec fn step_forward(sel: Option<usize>, len: nat) -> Option<usize> {
    let n: int = match sel {
        Some(s) => if s == len - 1 {
            0
        } else {
            s + 1
        },
        None => 0,
    };
    if n >= len {
        None
    } else {
        Some(n as usize)
    }
}

/// Moving down is defined: a selection in an empty list, or at the largest
/// index, would overflow.
pub open spec fn can_step_forward(sel: Option<usize>, len: nat) -> bool {
    sel matches Some(s) ==> len > 0 && s < usize::MAX
}

/// Moving a selection up a list of `len` rows: from the first row to the
/// last, from nothing to the first row.
pub open spec fn step_back(sel: Option<usize>, len: nat) -> Option<usize> {
    match sel {
        Some(s) => {
            let n: int = if s == 0 {
                len - 1
            } else {
                s - 1
            };
            if n > len {
                None
            } else {
                Some(n as usize)
            }
        },
        None => Some(0),
    }
}

/// Moving up is defined: the first row of an empty list has no predecessor.
pub open spec fn can_step_back(sel: Option<usize>, len: nat) -> bool {
    sel matches Some(s) ==> (s == 0 ==> len > 0)
}

pub open spec fn next_ok(a: App) -> bool {
    &&& a.active_tab == Tab::Interface ==> can_step_forward(a.iface_index, a.group@.len())
    &&& a.active_tab == Tab::Hosts ==> can_step_forward(a.host_index, selected_hosts(a).len())
}

pub open spec fn previous_ok(a: App) -> bool {
    &&& a.active_tab == Tab::Interface ==> can_step_back(a.iface_index, a.group@.len())
    &&& a.active_tab == Tab::Hosts ==> can_step_back(a.host_index, selected_hosts(a).len())
}

/// The state after moving the selection of the focused list down.
pub open spec fn app_next(a: App) -> App {
    if a.active_tab == Tab::Interface {
        App { iface_index: step_forward(a.iface_index, a.group@.len()), ..a }
    } else if a.active_tab == Tab::Hosts {
        App { host_index: step_forward(a.host_index, selected_hosts(a).len()), ..a }
    } else {
        a
    }
}

/// The state after moving the selection of the focused list up.
pub open spec fn app_previous(a: App) -> App {
    if a.active_tab == Tab::Interface {
        App { iface_index: step_back(a.iface_index, a.group@.len()), ..a }
    } else if a.active_tab == Tab::Hosts {
        App { host_index: step_back(a.host_index, selected_hosts(a).len()), ..a }
    } else {
        a
    }
}

/// The state after switching the focus between the two lists: never away
/// from the input box, never when there is no interface, and to the host
/// table only when it has rows.
pub open spec fn app_toggle(a: App) -> App {
    if a.active_tab == Tab::Input || a.group@.len() == 0 {
        a
    } else if a.active_tab == Tab::Interface {
        if selected_hosts(a).len() > 0 {
            App { active_tab: Tab::Hosts, ..a }
        } else {
            a
        }
    } else {
        App { active_tab: Tab::Interface, ..a }
    }
}

/// The selected host; with `respect_tab`, only while the host table has the focus.
pub open spec fn current_host(a: App, respect_tab: bool) -> Option<Host> {
    match a.host_index {
        Some(i) => if respect_tab && a.active_tab != Tab::Hosts {
            None
        } else if i < selected_hosts(a).len() {
            Some(selected_hosts(a)[i as int])
        } else {
            None
        },
        None => None,
    }
}

/// Some host of the list is the one this machine is connected to.
pub open spec fn any_connected(hosts: Seq<Host>) -> bool {
    exists|i: int| 0 <= i < hosts.len() && (#[trigger] hosts[i]).is_connected
}

/// A copy of a list of hosts.
pub fn clone_hosts(v: &Vec<Host>) -> (r: Vec<Host>)
    ensures
        r@ == v@,
{
    let mut r: Vec<Host> = Vec::new();
    let mut i: usize = 0;
    while i < v.len()
        invariant
            0 <= i <= v.len(),
            r@ == v@.take(i as int),
        decreases v.len() - i,
    {
        r.push(v[i].clone());
        i = i + 1;
        assert(r@ =~= v@.take(i as int));
    }
    assert(v@.take(v.len() as int) =~= v@);
    r
}

/// `k` is the first interface in `g` whose name is `name`.
pub open spec fn first_named(g: Seq<InterfaceList>, name: Option<Seq<char>>, k: int) -> bool {
    &&& 0 <= k < g.len()
    &&& text_view(g[k].iface.ifname) == name
    &&& forall|j: int| 0 <= j < k ==> text_view((#[trigger] g[j]).iface.ifname) != name
}

pub open spec fn same_interface_spec(a: Interface, b: Interface) -> bool {
    crate::types::same_interface(a, b)
}

/// The hosts that a listed interface keeps when the list is replaced: those
/// of the first old entry with its name, if some old entry equals it.
pub open spec fn kept_hosts(g: Seq<InterfaceList>, iface: Interface) -> Seq<Host> {
    if exists|m: int| 0 <= m < g.len() && same_interface_spec(#[trigger] g[m].iface, iface) {
        let k = choose|k: int| first_named(g, text_view(iface.ifname), k);
        g[k].hosts@
    } else {
        Seq::<Host>::empty()
    }
}

/// The key can be handled without a panic: moving within an empty list, or
/// disconnecting an interface with no name, would panic.
pub open spec fn keys_ok(a: App, key: Key) -> bool {
    a.active_tab != Tab::Input ==> {
        &&& (a.active_tab == Tab::Hosts && key == Key::Enter && any_connected(selected_hosts(a)))
            ==> (selected_interface(a) matches Some(i) ==> i.ifname is Some)
        &&& (key == Key::Char('j') || key == Key::Down) ==> next_ok(a)
        &&& (key == Key::Char('k') || key == Key::Up) ==> previous_ok(a)
    }
}

/// The state after the list movement that a key asks for outside the input box.
pub open spec fn moved(a: App, key: Key) -> App {
    if key == Key::Char('j') || key == Key::Down {
        app_next(a)
    } else if key == Key::Char('k') || key == Key::Up {
        app_previous(a)
    } else if key == Key::Tab || key == Key::Right || key == Key::Left || key == Key::Char('h')
        || key == Key::Char('l') {
        app_toggle(a)
    } else {
        a
    }
}

/// What `handle_keys` does to the state `a` and what it sends.
///
/// In the input box a character is typed, Backspace removes one, Esc leaves,
/// and Enter asks to connect to the selected host with the typed password.
/// Elsewhere, Enter on the host table disconnects the selected interface when
/// a listed host is connected and opens the input box otherwise; `j`/Down,
/// `k`/Up move the selection and Tab, Left, Right, `h`, `l` switch lists.
pub open spec fn key_effect(a: App, key: Key, b: App, r: Option<Command>) -> bool {
    if a.active_tab == Tab::Input {
        match key {
            Key::Char(c) => b == (App { input_text: b.input_text, ..a }) && b.input_text@
                == a.input_text@.push(c) && r is None,
            Key::Backspace => b == (App { input_text: b.input_text, ..a }) && b.input_text@ == (
            if a.input_text@.len() == 0 {
                a.input_text@
            } else {
                a.input_text@.drop_last()
            }) && r is None,
            Key::Esc => b == (App { active_tab: Tab::Interface, ..a }) && r is None,
            Key::Enter => match current_host(a, false) {
                Some(h) => {
                    &&& b == (App { active_tab: Tab::Interface, input_text: b.input_text, ..a })
                    &&& b.input_text@.len() == 0
                    &&& selected_interface(a) matches Some(i) ==> r == Some(
                        Command::Connect { host: h, password: Some(a.input_text), iface: i },
                    )
                    &&& selected_interface(a) is None ==> (r matches Some(
                        Command::Notification(m),
                    ) && m@ == "Cannot Connect, Interface not set."@)
                },
                None => b == a && (r matches Some(Command::Notification(m)) && m@
                    == "Error in app"@),
            },
            _ => b == a && r is None,
        }
    } else if a.active_tab == Tab::Hosts && key == Key::Enter {
        if any_connected(selected_hosts(a)) {
            b == a && r == match selected_interface(a) {
                Some(i) => Some(Command::Disconnect(i.ifname->0)),
                None => None,
            }
        } else {
            b == (App { active_tab: Tab::Input, ..a }) && r is None
        }
    } else {
        b == moved(a, key) && r is None
    }
}

impl App {
    /// A client with no interface, focused on the interface list.
    pub fn new() -> (r: App)
        ensures
            r.group@.len() == 0,
            r.active_tab == Tab::Interface,
            r.iface_index is None,
            r.host_index is None,
            r.notification is None,
            r.current_connection is None,
            r.input_text@.len() == 0,
    {
        App {
            group: Vec::new(),
            active_tab: Tab::Interface,
            iface_index: None,
            host_index: None,
            notification: None,
            current_connection: None,
            input_text: String::new(),
        }
    }

    /// The interfaces, in list order.
    pub fn get_ifaces(&mut self) -> (r: Vec<Interface>)
        ensures
            *final(self) == *old(self),
            r@.len() == old(self).group@.len(),
            forall|i: int| 0 <= i < r@.len() ==> r@[i] == (#[trigger] old(self).group@[i]).iface,
    {
        let mut r: Vec<Interface> = Vec::new();
        let mut i: usize = 0;
        while i < self.group.len()
            invariant
                0 <= i <= self.group.len(),
                r@.len() == i,
                forall|j: int| 0 <= j < i ==> r@[j] == (#[trigger] self.group@[j]).iface,
            decreases self.group.len() - i,
        {
            r.push(self.group[i].iface.clone());
            i = i + 1;
        }
        r
    }

    /// The selected interface.
    pub fn get_current_interface(&mut self) -> (r: Option<Interface>)
        ensures
            *final(self) == *old(self),
            r == selected_interface(*old(self)),
    {
        match self.iface_index {
            Some(idx) => if idx < self.group.len() {
                Some(self.group[idx].iface.clone())
            } else {
                None
            },
            None => None,
        }
    }

    /// The hosts of the selected interface.
    pub fn get_hosts(&mut self) -> (r: Vec<Host>)
        ensures
            *final(self) == *old(self),
            r@ == selected_hosts(*old(self)),
    {
        match self.iface_index {
            Some(idx) => if idx < self.group.len() {
                clone_hosts(&self.group[idx].hosts)
            } else {
                Vec::new()
            },
            None => Vec::new(),
        }
    }

    /// Moves the selection of the focused list down.
    fn next(&mut self)
        requires
            next_ok(*old(self)),
        ensures
            *final(self) == app_next(*old(self)),
    {
        let ifaces_len = self.group.len();
        let hosts = self.get_hosts();
        if self.active_tab == Tab::Interface {
            let mut i = match self.iface_index {
                Some(s) => if s == ifaces_len - 1 {
                    Some(0)
                } else {
                    Some(s + 1)
                },
                None => Some(0),
            };
            if let Some(n) = i {
                if n >= ifaces_len {
                    i = None;
                }
            }
            self.iface_index = i;
        } else if self.active_tab == Tab::Hosts {
            let mut i = match self.host_index {
                Some(s) => if s == hosts.len() - 1 {
                    Some(0)
                } else {
                    Some(s + 1)
                },
                None => Some(0),
            };
            if let Some(n) = i {
                if n >= hosts.len() {
                    i = None;
                }
            }
            self.host_index = i;
        }
    }

    /// Moves the selection of the focused list up.
    fn previous(&mut self)
        requires
            previous_ok(*old(self)),
        ensures
            *final(self) == app_previous(*old(self)),
    {
        let ifaces_len = self.group.len();
        let hosts = self.get_hosts();
        if self.active_tab == Tab::Interface {
            let mut i = match self.iface_index {
                Some(s) => if s == 0 {
                    Some(ifaces_len - 1)
                } else {
                    Some(s - 1)
                },
                None => Some(0),
            };
            if let Some(n) = i {
                if n > ifaces_len {
                    i = None;
                }
            }
            self.iface_index = i;
        } else if self.active_tab == Tab::Hosts {
            let mut i = match self.host_index {
                Some(s) => if s == 0 {
                    Some(hosts.len() - 1)
                } else {
                    Some(s - 1)
                },
                None => Some(0),
            };
            if let Some(n) = i {
                if n > hosts.len() {
                    i = None;
                }
            }
            self.host_index = i;
        }
    }

    /// Switches the focus between the interface list and the host table.
    fn toggle_tab(&mut self)
        ensures
            *final(self) == app_toggle(*old(self)),
    {
        if self.active_tab == Tab::Input {
            return ;
        }
        if self.group.len() == 0 {
            return ;
        }
        let hosts = self.get_hosts();
        if self.active_tab == Tab::Interface {
            if hosts.len() != 0 {
                self.active_tab = Tab::Hosts;
            }
        } else {
            if self.group.len() != 0 {
                self.active_tab = Tab::Interface;
            }
        }
    }

    /// The selected host; with `respect_tab`, only while the host table has the focus.
    fn get_current_host(&mut self, respect_tab: bool) -> (r: Option<Host>)
        ensures
            *final(self) == *old(self),
            r == current_host(*old(self), respect_tab),
    {
        let hosts = self.get_hosts();
        if let Some(idx) = self.host_index {
            if respect_tab {
                if self.active_tab == Tab::Hosts && idx < hosts.len() {
                    return Some(hosts[idx].clone());
                } else {
                    return None;
                }
            }
            if idx < hosts.len() {
                return Some(hosts[idx].clone());
            } else {
                return None;
            }
        }
        None
    }

    /// The command that asks the daemon to connect the selected interface to
    /// `host`, or a notice that no interface is selected.
    pub fn connect(&mut self, host: Host, password: Option<String>) -> (r: Command)
        ensures
            *final(self) == *old(self),
            selected_interface(*old(self)) matches Some(i) ==> r == (Command::Connect {
                host,
                password,
                iface: i,
            }),
            selected_interface(*old(self)) is None ==> (r matches Command::Notification(m)
                && m@ == "Cannot Connect, Interface not set."@),
    {
        if let Some(iface) = self.get_current_interface() {
            Command::Connect { host, password, iface }
        } else {
            Command::Notification(String::from_str("Cannot Connect, Interface not set."))
        }
    }

    /// Removes the last character typed in the input box.
    fn delete_char(&mut self)
        ensures
            *final(self) == (App { input_text: final(self).input_text, ..*old(self) }),
            old(self).input_text@.len() == 0 ==> final(self).input_text@ == old(
                self,
            ).input_text@,
            old(self).input_text@.len() > 0 ==> final(self).input_text@ == old(
                self,
            ).input_text@.drop_last(),
    {
        pop_char(&mut self.input_text);
    }

    /// Whether `handle_keys` can take `key` in this state without a panic.
    pub fn keys_safe(&mut self, key: Key) -> (r: bool)
        ensures
            *final(self) == *old(self),
            r == keys_ok(*old(self), key),
    {
        if self.active_tab == Tab::Input {
            return true;
        }
        let hosts = self.get_hosts();
        let mut connected = false;
        let mut i: usize = 0;
        while i < hosts.len()
            invariant
                0 <= i <= hosts.len(),
                connected == (exists|j: int| 0 <= j < i && (#[trigger] hosts@[j]).is_connected),
            decreases hosts.len() - i,
        {
            if hosts[i].is_connected {
                connected = true;
            }
            i = i + 1;
        }
        let named = match self.get_current_interface() {
            Some(iface) => iface.ifname.is_some(),
            None => true,
        };
        let enter_ok = !(self.active_tab == Tab::Hosts && key == Key::Enter && connected) || named;
        let n = self.group.len();
        let forward_ok = if self.active_tab == Tab::Interface {
            match self.iface_index {
                Some(s) => n > 0 && s < usize::MAX,
                None => true,
            }
        } else {
            match self.host_index {
                Some(s) => hosts.len() > 0 && s < usize::MAX,
                None => true,
            }
        };
        let back_ok = if self.active_tab == Tab::Interface {
            match self.iface_index {
                Some(s) => s != 0 || n > 0,
                None => true,
            }
        } else {
            match self.host_index {
                Some(s) => s != 0 || hosts.len() > 0,
                None => true,
            }
        };
        let down = key == Key::Char('j') || key == Key::Down;
        let up = key == Key::Char('k') || key == Key::Up;
        enter_ok && (!down || forward_ok) && (!up || back_ok)
    }

    /// What a key press does: the new state, and the command to send to the
    /// daemon, if any.
    pub fn handle_keys(&mut self, key: Key) -> (r: Option<Command>)
        requires
            keys_ok(*old(self), key),
        ensures
            key_effect(*old(self), key, *final(self), r),
    {
        match self.active_tab {
            Tab::Input => match key {
                Key::Char(ch) => {
                    push_char(&mut self.input_text, ch);
                    None
                },
                Key::Backspace => {
                    self.delete_char();
                    None
                },
                Key::Esc => {
                    self.active_tab = Tab::Interface;
                    None
                },
                Key::Enter => {
                    if let Some(cur_host) = self.get_current_host(false) {
                        let text = self.input_text.clone();
                        let cmd = self.connect(cur_host, Some(text));
                        self.active_tab = Tab::Interface;
                        self.input_text = String::new();
                        Some(cmd)
                    } else {
                        Some(Command::Notification(String::from_str("Error in app")))
                    }
                },
                _ => None,
            },
            s => {
                let mut out: Option<Command> = None;
                if s == Tab::Hosts && key == Key::Enter {
                    let hosts = self.get_hosts();
                    let mut connected = false;
                    let mut i: usize = 0;
                    while i < hosts.len()
                        invariant
                            0 <= i <= hosts.len(),
                            connected == (exists|j: int| 0 <= j < i && (#[trigger] hosts@[j]).is_connected),
                        decreases hosts.len() - i,
                    {
                        if hosts[i].is_connected {
                            connected = true;
                        }
                        i = i + 1;
                    }
                    if connected {
                        if let Some(iface) = self.get_current_interface() {
                            match iface.ifname {
                                Some(name) => {
                                    out = Some(Command::Disconnect(name));
                                },
                                None => {},
                            }
                        }
                    } else {
                        self.active_tab = Tab::Input;
                    }
                }
                match key {
                    Key::Char('j') | Key::Down => {
                        self.next();
                    },
                    Key::Char('k') | Key::Up => {
                        self.previous();
                    },
                    Key::Tab | Key::Right | Key::Left | Key::Char('h') | Key::Char('l') => {
                        self.toggle_tab();
                    },
                    _ => {},
                }
                out
            },
        }
    }

    /// Replaces the interface list. An interface that was listed before,
    /// equal in every field, keeps the hosts of the first listed interface
    /// with its name; a new one starts with no hosts.
    pub fn set_interfaces(&mut self, ifaces: Vec<Interface>)
        ensures
            *final(self) == (App { group: final(self).group, ..*old(self) }),
            final(self).group@.len() == ifaces@.len(),
            forall|j: int|
                0 <= j < ifaces@.len() ==> (#[trigger] final(self).group@[j]).iface == ifaces@[j]
                    && final(self).group@[j].hosts@ == kept_hosts(old(self).group@, ifaces@[j]),
    {
        let mut result: Vec<InterfaceList> = Vec::new();
        let n = ifaces.len();
        let mut rest = ifaces;
        let ghost all = rest@;
        let mut i: usize = 0;
        /* The list is consumed from the front, keeping its order. */
        let mut reversed: Vec<Interface> = Vec::new();
        while rest.len() > 0
            invariant
                rest@.len() + reversed@.len() == all.len(),
                forall|j: int| 0 <= j < reversed@.len() ==> reversed@[j] == all[all.len() - 1 - j],
                forall|j: int| 0 <= j < rest@.len() ==> rest@[j] == all[j],
            decreases rest@.len(),
        {
            let x = rest.pop().unwrap();
            reversed.push(x);
        }
        while i < n
            invariant
                n == all.len(),
                reversed@.len() + i == n,
                forall|j: int| 0 <= j < reversed@.len() ==> reversed@[j] == all[n - 1 - j],
                *self == *old(self),
                result@.len() == i,
                forall|j: int|
                    0 <= j < i ==> (#[trigger] result@[j]).iface == all[j] && result@[j].hosts@
                        == kept_hosts(old(self).group@, all[j]),
            decreases n - i,
        {
            let iface = reversed.pop().unwrap();
            let mut known = false;
            let mut k: usize = 0;
            while k < self.group.len()
                invariant
                    *self == *old(self),
                    0 <= k <= self.group.len(),
                    known == (exists|m: int|
                        0 <= m < k && same_interface_spec(#[trigger] self.group@[m].iface, iface)),
                decreases self.group.len() - k,
            {
                if self.group[k].iface.equals(&iface) {
                    known = true;
                }
                k = k + 1;
            }
            let hosts = if known {
                match self.find_named(&iface.ifname) {
                    Some(m) => clone_hosts(&self.group[m].hosts),
                    None => Vec::new(),
                }
            } else {
                Vec::new()
            };
            proof {
                if known {
                    let m = choose|m: int|
                        0 <= m < self.group@.len() && same_interface_spec(self.group@[m].iface, iface);
                    assert(text_view(self.group@[m].iface.ifname) == text_view(iface.ifname));
                }
            }
            result.push(InterfaceList { iface, hosts });
            i = i + 1;
        }
        self.group = result;
    }

    /// The index of the first interface whose name is `name`.
    fn find_named(&self, name: &Option<String>) -> (r: Option<usize>)
        ensures
            r matches Some(k) ==> first_named(self.group@, text_view(*name), k as int),
            r is None ==> forall|k: int|
                0 <= k < self.group@.len() ==> text_view((#[trigger] self.group@[k]).iface.ifname)
                    != text_view(*name),
    {
        let mut k: usize = 0;
        while k < self.group.len()
            invariant
                0 <= k <= self.group.len(),
                forall|j: int|
                    0 <= j < k ==> text_view((#[trigger] self.group@[j]).iface.ifname) != text_view(
                        *name,
                    ),
            decreases self.group.len() - k,
        {
            if crate::types::same_text(&self.group[k].iface.ifname, name) {
                return Some(k);
            }
            k = k + 1;
        }
        None
    }

    /// Stores the hosts scanned on the first interface named `ifname`; hosts
    /// for an interface that is not listed are dropped.
    pub fn set_hosts(&mut self, hosts: Vec<Host>, ifname: &str)
        ensures
            *final(self) == (App { group: final(self).group, ..*old(self) }),
            (exists|k: int| first_named(old(self).group@, Some(ifname@), k)) ==> exists|k: int|
                first_named(old(self).group@, Some(ifname@), k) && final(self).group@ == old(
                    self,
                ).group@.update(k, InterfaceList { iface: old(self).group@[k].iface, hosts }),
            !(exists|k: int| first_named(old(self).group@, Some(ifname@), k)) ==> final(self).group@
                == old(self).group@,
    {
        let name = Some(String::from_str(ifname));
        match self.find_named(&name) {
            Some(k) => {
                let iface = self.group[k].iface.clone();
                self.group.set(k, InterfaceList { iface, hosts });
            },
            None => {
                proof {
                    assert forall|k: int| !first_named(old(self).group@, Some(ifname@), k) by {
                        if 0 <= k < self.group@.len() {
                            assert(text_view(self.group@[k].iface.ifname) != text_view(name));
                        }
                    }
                }
            },
        }
    }

    /// What a response of the daemon does to the client's state, and the
    /// commands that the client sends in turn.
    pub fn apply_response(&mut self, response: Response) -> (r: Vec<Command>)
        ensures
            match response {
                Response::AllInterfaces(ifaces) => {
                    &&& *final(self) == (App { group: final(self).group, ..*old(self) })
                    &&& final(self).group@.len() == ifaces@.len()
                    &&& forall|j: int|
                        0 <= j < ifaces@.len() ==> (#[trigger] final(self).group@[j]).iface
                            == ifaces@[j] && final(self).group@[j].hosts@ == kept_hosts(
                            old(self).group@,
                            ifaces@[j],
                        )
                    &&& r@.len() == 0
                },
                Response::ActiveHosts(ifname, hosts) => {
                    &&& *final(self) == (App { group: final(self).group, ..*old(self) })
                    &&& (exists|k: int| first_named(old(self).group@, Some(ifname@), k))
                        ==> exists|k: int|
                        first_named(old(self).group@, Some(ifname@), k) && final(self).group@
                            == old(self).group@.update(
                            k,
                            InterfaceList { iface: old(self).group@[k].iface, hosts },
                        )
                    &&& !(exists|k: int| first_named(old(self).group@, Some(ifname@), k))
                        ==> final(self).group@ == old(self).group@
                    &&& r@.len() == 0
                },
                Response::Notification(msg) => *final(self) == (App {
                    notification: Some(msg),
                    ..*old(self)
                }) && r@.len() == 0,
                Response::ClearNotification => *final(self) == (App {
                    notification: None,
                    ..*old(self)
                }) && r@.len() == 0,
                Response::Error(err) => *final(self) == *old(self) && r@ == seq![
                    Command::Notification(err),
                ],
                Response::CurrentConnection(c) => *final(self) == (App {
                    current_connection: c,
                    ..*old(self)
                }) && r@.len() == 0,
                Response::Tick => *final(self) == *old(self) && r@ == match selected_interface(
                    *old(self),
                ) {
                    Some(i) => seq![
                        Command::ListInterfaces,
                        Command::ListActiveConnections(i),
                        Command::CurrentConnection,
                    ],
                    None => seq![Command::ListInterfaces],
                },
                Response::Connected => *final(self) == *old(self) && r@.len() == 1 && (
                r@[0] matches Command::Notification(m) && m@ == "Connected."@),
                _ => *final(self) == *old(self) && r@.len() == 0,
            },
    {
        let mut out: Vec<Command> = Vec::new();
        match response {
            Response::AllInterfaces(ifaces) => {
                self.set_interfaces(ifaces);
            },
            Response::ActiveHosts(ifname, hosts) => {
                self.set_hosts(hosts, ifname.as_str());
            },
            Response::Notification(msg) => {
                self.notification = Some(msg);
            },
            Response::ClearNotification => {
                self.notification = None;
            },
            Response::Error(err) => {
                out.push(Command::Notification(err));
            },
            Response::CurrentConnection(connection) => {
                self.current_connection = connection;
            },
            Response::Tick => {
                let active_iface = self.get_current_interface();
                out.push(Command::ListInterfaces);
                if let Some(iface) = active_iface {
                    out.push(Command::ListActiveConnections(iface));
                    out.push(Command::CurrentConnection);
                }
            },
            Response::Connected => {
                out.push(Command::Notification(String::from_str("Connected.")));
            },
            _ => {},
        }
        out
    }

    /// Asks for the hosts of a wireless interface as soon as it is selected
    /// in the focused interface list; `last` remembers the name asked for.
    pub fn follow_selection(&mut self, last: &mut Option<String>) -> (r: Option<Command>)
        ensures
            *final(self) == *old(self),
            ({
                let a = *old(self);
                let fires = a.active_tab == Tab::Interface && selected_interface(a) is Some
                    && text_view(*old(last)) != text_view(selected_interface(a)->0.ifname)
                    && selected_interface(a)->0.iftype == InterfaceType::Wireless;
                &&& fires ==> r == Some(Command::ListActiveConnections(selected_interface(a)->0))
                    && *final(last) == selected_interface(a)->0.ifname
                &&& !fires ==> r is None && *final(last) == *old(last)
            }),
    {
        if self.active_tab == Tab::Interface {
            if let Some(iface) = self.get_current_interface() {
                if !crate::types::same_text(last, &iface.ifname) && iface.iftype
                    == InterfaceType::Wireless {
                    *last = clone_text(&iface.ifname);
                    return Some(Command::ListActiveConnections(iface));
                }
            }
        }
        None
    }
}

/// The row selected in the focused list of `a`, and that list's length.
pub open spec fn focused_selection(a: App) -> (Option<usize>, nat) {
    if a.active_tab == Tab::Interface {
        (a.iface_index, a.group@.len())
    } else {
        (a.host_index, selected_hosts(a).len())
    }
}

proof fn lemma_step_round_trip(s: usize, len: nat)
    requires
        s < len <= usize::MAX,
    ensures
        step_back(step_forward(Some(s), len), len) == Some(s),
        step_forward(step_back(Some(s), len), len) == Some(s),
{
    if s == len - 1 {
        assert(step_forward(Some(s), len) == Some(0usize));
    } else {
        assert(step_forward(Some(s), len) == Some((s + 1) as usize));
    }
    if s == 0 {
        assert(step_back(Some(s), len) == Some((len - 1) as usize));
    } else {
        assert(step_back(Some(s), len) == Some((s - 1) as usize));
    }
}

proof fn lemma_lists_fit(a: App)
    ensures
        focused_selection(a).1 <= usize::MAX,
{
    assert(a.group@.len() == a.group.len());
    if let Some(i) = a.iface_index {
        if i < a.group@.len() {
            let h = a.group@[i as int].hosts;
            assert(h@.len() == h.len());
        }
    }
}

/// Moving down and then up, or up and then down, comes back to the row one
/// started from, in either list.
pub proof fn law_navigation_round_trip(a: App)
    requires
        a.active_tab != Tab::Input,
        focused_selection(a).0 matches Some(s) && s < focused_selection(a).1,
    ensures
        app_previous(app_next(a)) == a,
        app_next(app_previous(a)) == a,
{
    lemma_lists_fit(a);
    let (sel, len) = focused_selection(a);
    lemma_step_round_trip(sel->0, len);
    if a.active_tab == Tab::Hosts {
        assert(selected_hosts(app_next(a)) == selected_hosts(a));
        assert(selected_hosts(app_previous(a)) == selected_hosts(a));
    }
}

/// Moving down never selects a row past the end of the focused list.
pub proof fn law_navigation_in_bounds(a: App)
    requires
        a.active_tab != Tab::Input,
        next_ok(a),
    ensures
        focused_selection(app_next(a)).0 matches Some(s) ==> s < focused_selection(app_next(a)).1,
{
}

/// Pressing Down and then Up, or Up and then Down, on either list comes
/// back to the state one started from, and sends nothing.
pub proof fn law_keys_round_trip(
    a: App,
    up_first: bool,
    b: App,
    r1: Option<Command>,
    c: App,
    r2: Option<Command>,
)
    requires
        a.active_tab == Tab::Interface || a.active_tab == Tab::Hosts,
        focused_selection(a).0 matches Some(s) && s < focused_selection(a).1,
        key_effect(a, if up_first { Key::Up } else { Key::Down }, b, r1),
        key_effect(b, if up_first { Key::Down } else { Key::Up }, c, r2),
    ensures
        c == a,
        r1 is None,
        r2 is None,
{
    lemma_lists_fit(a);
    law_navigation_round_trip(a);
}

/// Pressing Up on a list whose row `s` is selected selects the row above,
/// or the last row from the first: the selection stays within the list.
pub proof fn law_up_in_bounds(a: App, b: App, r: Option<Command>)
    requires
        a.active_tab == Tab::Interface || a.active_tab == Tab::Hosts,
        focused_selection(a).0 matches Some(s) && s < focused_selection(a).1,
        key_effect(a, Key::Up, b, r),
    ensures
        r is None,
        b.active_tab == a.active_tab,
        focused_selection(b).1 == focused_selection(a).1,
        focused_selection(a).0 == Some(0usize) ==> focused_selection(b).0 == Some(
            (focused_selection(a).1 - 1) as usize,
        ),
        focused_selection(a).0 matches Some(s) ==> (s > 0 ==> focused_selection(b).0 == Some((s - 1) as usize)),
        focused_selection(b).0 matches Some(t) && t < focused_selection(b).1,
{
    lemma_lists_fit(a);
    if a.active_tab == Tab::Hosts {
        assert(selected_hosts(b) == selected_hosts(a));
    }
}

/// The signal bar drawn for a signal of `-strength` dBm: the weaker the
/// signal, the fewer the bars.
pub open spec fn bars_for(strength: int) -> Seq<char> {
    if strength < 30 {
        "BEST"@
    } else if 30 <= strength <= 50 {
        "||||||||"@
    } else if 50 <= strength <= 60 {
        "||||||"@
    } else if 60 <= strength <= 67 {
        "||||"@
    } else if 67 <= strength <= 80 {
        "|||"@
    } else if 80 <= strength <= 90 {
        "||"@
    } else {
        "---"@
    }
}

/// The signal bar of a signal rate in dBm.
pub fn sigrate_to_bars(sigrate: i32) -> (r: String)
    requires
        sigrate != i32::MIN,
    ensures
        r@ == bars_for(-sigrate),
{
    let sigrate = -sigrate;
    let bar = if sigrate < 30 {
        "BEST"
    } else if 30 <= sigrate && sigrate <= 50 {
        "||||||||"
    } else if 50 <= sigrate && sigrate <= 60 {
        "||||||"
    } else if 60 <= sigrate && sigrate <= 67 {
        "||||"
    } else if 67 <= sigrate && sigrate <= 80 {
        "|||"
    } else if 80 <= sigrate && sigrate <= 90 {
        "||"
    } else {
        "---"
    };
    String::from_str(bar)
}

/// The answer that the client gives itself, without asking the daemon:
/// notices, their clearing and the clock tick. Every other command goes to
/// the daemon.
pub fn client_local_response(cmd: Command) -> (r: Result<Response, Command>)
    ensures
        match cmd {
            Command::Notification(m) => r == Ok::<Response, Command>(Response::Notification(m)),
            Command::ClearNotification => r == Ok::<Response, Command>(Response::ClearNotification),
            Command::Tick => r == Ok::<Response, Command>(Response::Tick),
            _ => r == Err::<Response, Command>(cmd),
        },
{
    match cmd {
        Command::Notification(m) => Ok(Response::Notification(m)),
        Command::ClearNotification => Ok(Response::ClearNotification),
        Command::Tick => Ok(Response::Tick),
        other => Err(other),
    }
}

} // verus!
