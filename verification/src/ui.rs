//! What the client's screen shows: the texts of the interface list, of the
//! host table and of the current-connection panel, and where the
//! notification box stands.

use crate::route::{decimal, ipv4_text};
use crate::text::push_char;
use crate::types::{text_view, CurrentConnection, Host, Interface};
use ratatui::layout::{Constraint, Direction, Layout, Rect};
use vstd::prelude::*;
use vstd::string::*;

verus! {

/// `n` written in decimal, appended to `s`.
fn push_decimal(s: &mut String, n: u64)
    ensures
        final(s)@ == old(s)@ + decimal(n as nat),
    decreases n,
{
    if n >= 10 {
        push_decimal(s, n / 10);
    }
    let d = n % 10;
    push_char(s, ((d + 48) as u8) as char);
    proof {
        if n >= 10 {
            assert(decimal(n as nat) == decimal(n as nat / 10).push(
                (((n as nat % 10) + 48) as u8) as char,
            ));
        } else {
            assert(n as nat % 10 == n as nat);
        }
    }
}

/// `n` written in decimal.
fn decimal_text(n: u64) -> (r: String)
    ensures
        r@ == decimal(n as nat),
{
    let mut s = String::new();
    push_decimal(&mut s, n);
    proof {
        assert(s@ =~= Seq::<char>::empty() + decimal(n as nat));
    }
    s
}

/// An address in dotted decimal.
fn ipv4_string(a: u32) -> (r: String)
    ensures
        r@ == ipv4_text(a),
{
    let mut s = String::new();
    push_decimal(&mut s, (a / 0x1000000) as u64);
    push_char(&mut s, '.');
    push_decimal(&mut s, ((a / 0x10000) % 0x100) as u64);
    push_char(&mut s, '.');
    push_decimal(&mut s, ((a / 0x100) % 0x100) as u64);
    push_char(&mut s, '.');
    push_decimal(&mut s, (a % 0x100) as u64);
    s
}

/// The label of an interface in the list: its name, or `---`.
pub open spec fn interface_label(i: Interface) -> Seq<char> {
    match text_view(i.ifname) {
        Some(n) => n,
        None => "---"@,
    }
}

/// The labels of the interface list, one per interface, in order.
pub fn interface_labels(ifaces: &Vec<Interface>) -> (r: Vec<String>)
    ensures
        r@.len() == ifaces@.len(),
        forall|k: int| 0 <= k < r@.len() ==> (#[trigger] r@[k])@ == interface_label(ifaces@[k]),
{
    let mut r: Vec<String> = Vec::new();
    let mut k: usize = 0;
    while k < ifaces.len()
        invariant
            0 <= k <= ifaces@.len(),
            r@.len() == k,
            forall|j: int| 0 <= j < k ==> (#[trigger] r@[j])@ == interface_label(ifaces@[j]),
        decreases ifaces@.len() - k,
    {
        let label = match &ifaces[k].ifname {
            Some(n) => n.clone(),
            None => String::from_str("---"),
        };
        r.push(label);
        k = k + 1;
    }
    r
}

/// A count in a pane's title: the number, or `none` when it is zero.
pub open spec fn count_text(n: nat, none: Seq<char>) -> Seq<char> {
    if n == 0 {
        none
    } else {
        decimal(n)
    }
}

/// The title of the interface list for `n` interfaces.
pub fn interface_title(n: usize) -> (r: String)
    ensures
        r@ == " Interface ("@ + count_text(n as nat, "No Interface"@) + ") "@,
{
    let count = if n == 0 {
        String::from_str("No Interface")
    } else {
        decimal_text(n as u64)
    };
    String::from_str(" Interface (").concat(count.as_str()).concat(") ")
}

/// The title of the host table for `n` hosts.
pub fn hosts_title(n: usize) -> (r: String)
    ensures
        r@ == " Hosts ("@ + count_text(n as nat, "No Hosts"@) + ") "@,
{
    let count = if n == 0 {
        String::from_str("No Hosts")
    } else {
        decimal_text(n as u64)
    };
    String::from_str(" Hosts (").concat(count.as_str()).concat(") ")
}

/// A text, or `--` when it is absent.
pub open spec fn or_dashes(t: Option<String>) -> Seq<char> {
    match text_view(t) {
        Some(s) => s,
        None => "--"@,
    }
}

/// The cells of a host's row: SSID, BSSID, frequency, signal (absent
/// numbers count as 0) and whether it is connected.
pub open spec fn host_cells(h: Host) -> Seq<Seq<char>> {
    seq![
        or_dashes(h.ssid),
        or_dashes(h.bssid),
        decimal(h.frequency.unwrap_or(0) as nat),
        decimal(h.signal.unwrap_or(0) as nat),
        if h.is_connected {
            "YES"@
        } else {
            "NO"@
        },
    ]
}

fn text_or_dashes(t: &Option<String>) -> (r: String)
    ensures
        r@ == or_dashes(*t),
{
    match t {
        Some(s) => s.clone(),
        None => String::from_str("--"),
    }
}

/// The row of the host table for `h`.
pub fn host_row(h: &Host) -> (r: Vec<String>)
    ensures
        r@.len() == 5,
        forall|k: int| 0 <= k < 5 ==> (#[trigger] r@[k])@ == host_cells(*h)[k],
{
    let freq = match h.frequency {
        Some(f) => f,
        None => 0,
    };
    let signal = match h.signal {
        Some(s) => s,
        None => 0,
    };
    let connected = if h.is_connected {
        String::from_str("YES")
    } else {
        String::from_str("NO")
    };
    let mut r: Vec<String> = Vec::new();
    r.push(text_or_dashes(&h.ssid));
    r.push(text_or_dashes(&h.bssid));
    r.push(decimal_text(freq as u64));
    r.push(decimal_text(signal as u64));
    r.push(connected);
    r
}

/// `n` spaces.
pub open spec fn spaces(n: int) -> Seq<char> {
    Seq::new(if n > 0 { n as nat } else { 0 }, |i: int| ' ')
}

/// A panel line, as `format!("{:<20}: {:>15}", label, value)` writes it:
/// the label padded with spaces to 20 characters, then `: `, then the
/// value padded on the left to 15.
pub open spec fn attr_line(label: Seq<char>, value: Seq<char>) -> Seq<char> {
    label + spaces(20 - label.len()) + ": "@ + spaces(15 - value.len()) + value
}

/// The label and value of an address field, if it is present.
pub open spec fn addr_attr(label: Seq<char>, a: Option<u32>) -> Seq<(Seq<char>, Seq<char>)> {
    match a {
        Some(v) => seq![(label, ipv4_text(v))],
        None => Seq::empty(),
    }
}

/// The lines of the current-connection panel, as label and value: the
/// address, the first DNS server, the server id, the subnet mask, the
/// gateway and the frequency where known, then the three lease times.
pub open spec fn connection_attrs(c: CurrentConnection) -> Seq<(Seq<char>, Seq<char>)> {
    addr_attr("IP"@, c.ip_addr) + dns_attr(c.dns_servers@) + addr_attr("Server ID"@, c.server_id)
        + addr_attr("Subnet"@, c.subnet_mask) + addr_attr("Gateway"@, c.gateway) + frequency_attr(
        c.frequency,
    ) + lease_attrs(c)
}

fn push_spaces(s: &mut String, n: usize)
    ensures
        final(s)@ == old(s)@ + spaces(n as int),
{
    let mut i: usize = 0;
    while i < n
        invariant
            0 <= i <= n,
            s@ == old(s)@ + spaces(i as int),
        decreases n - i,
    {
        push_char(s, ' ');
        i = i + 1;
        assert(spaces(i as int) =~= spaces(i - 1).push(' '));
    }
}

/// One panel line.
fn panel_line(label: &str, value: &String) -> (r: String)
    ensures
        r@ == attr_line(label@, value@),
{
    let mut s = String::from_str(label);
    let ll = label.unicode_len();
    if ll < 20 {
        push_spaces(&mut s, 20 - ll);
    } else {
        assert(spaces(20 - label@.len()) =~= Seq::<char>::empty());
    }
    s.append(": ");
    let vl = value.as_str().unicode_len();
    if vl < 15 {
        push_spaces(&mut s, 15 - vl);
    } else {
        assert(spaces(15 - value@.len()) =~= Seq::<char>::empty());
    }
    s.append(value.as_str());
    proof {
        assert(s@ =~= attr_line(label@, value@));
    }
    s
}

/// The lines `lines` write the label-value pairs `attrs`, in order.
pub open spec fn lines_match(lines: Seq<String>, attrs: Seq<(Seq<char>, Seq<char>)>) -> bool {
    &&& lines.len() == attrs.len()
    &&& forall|k: int| 0 <= k < lines.len() ==> (#[trigger] lines[k])@ == attr_line(attrs[k].0, attrs[k].1)
}

fn push_line(
    lines: &mut Vec<String>,
    Ghost(done): Ghost<Seq<(Seq<char>, Seq<char>)>>,
    label: &str,
    value: String,
)
    requires
        lines_match(old(lines)@, done),
    ensures
        lines_match(final(lines)@, done.push((label@, value@))),
{
    let line = panel_line(label, &value);
    lines.push(line);
    proof {
        let d = done.push((label@, value@));
        assert forall|k: int| 0 <= k < lines@.len() implies (#[trigger] lines@[k])@ == attr_line(d[k].0, d[k].1) by {
            if k < done.len() {
                assert(lines@[k] == old(lines)@[k]);
            }
        }
    }
}

fn push_addr(
    lines: &mut Vec<String>,
    Ghost(done): Ghost<Seq<(Seq<char>, Seq<char>)>>,
    label: &str,
    a: Option<u32>,
)
    requires
        lines_match(old(lines)@, done),
    ensures
        lines_match(final(lines)@, done + addr_attr(label@, a)),
{
    match a {
        Some(v) => {
            push_line(lines, Ghost(done), label, ipv4_string(v));
            assert(done.push((label@, ipv4_text(v))) =~= done + addr_attr(label@, a));
        },
        None => {
            assert(done =~= done + addr_attr(label@, a));
        },
    }
}

/// The first DNS server's line, if there is one.
pub open spec fn dns_attr(dns: Seq<u32>) -> Seq<(Seq<char>, Seq<char>)> {
    if dns.len() > 0 {
        seq![("DNS"@, ipv4_text(dns[0]))]
    } else {
        Seq::empty()
    }
}

/// The frequency's line, if it is known.
pub open spec fn frequency_attr(f: Option<u32>) -> Seq<(Seq<char>, Seq<char>)> {
    match f {
        Some(v) => seq![("Frequency"@, decimal(v as nat))],
        None => Seq::empty(),
    }
}

/// The lines of the lease times.
pub open spec fn lease_attrs(c: CurrentConnection) -> Seq<(Seq<char>, Seq<char>)> {
    seq![
        ("Lease Duration"@, decimal(c.lease_duration as nat)),
        ("Renewal Time"@, decimal(c.renewal_time as nat)),
        ("Rebinding Time"@, decimal(c.rebinding_time as nat)),
    ]
}

fn push_dns(lines: &mut Vec<String>, Ghost(done): Ghost<Seq<(Seq<char>, Seq<char>)>>, dns: &Vec<u32>)
    requires
        lines_match(old(lines)@, done),
    ensures
        lines_match(final(lines)@, done + dns_attr(dns@)),
{
    if dns.len() > 0 {
        push_line(lines, Ghost(done), "DNS", ipv4_string(dns[0]));
        assert(done.push(("DNS"@, ipv4_text(dns@[0]))) =~= done + dns_attr(dns@));
    } else {
        assert(done =~= done + dns_attr(dns@));
    }
}

fn push_frequency(lines: &mut Vec<String>, Ghost(done): Ghost<Seq<(Seq<char>, Seq<char>)>>, f: Option<u32>)
    requires
        lines_match(old(lines)@, done),
    ensures
        lines_match(final(lines)@, done + frequency_attr(f)),
{
    match f {
        Some(v) => {
            push_line(lines, Ghost(done), "Frequency", decimal_text(v as u64));
            assert(done.push(("Frequency"@, decimal(v as nat))) =~= done + frequency_attr(f));
        },
        None => {
            assert(done =~= done + frequency_attr(f));
        },
    }
}

fn push_lease(lines: &mut Vec<String>, Ghost(done): Ghost<Seq<(Seq<char>, Seq<char>)>>, c: &CurrentConnection)
    requires
        lines_match(old(lines)@, done),
    ensures
        lines_match(final(lines)@, done + lease_attrs(*c)),
{
    let ghost d1 = done.push(("Lease Duration"@, decimal(c.lease_duration as nat)));
    push_line(lines, Ghost(done), "Lease Duration", decimal_text(c.lease_duration as u64));
    let ghost d2 = d1.push(("Renewal Time"@, decimal(c.renewal_time as nat)));
    push_line(lines, Ghost(d1), "Renewal Time", decimal_text(c.renewal_time as u64));
    push_line(lines, Ghost(d2), "Rebinding Time", decimal_text(c.rebinding_time as u64));
    assert(d2.push(("Rebinding Time"@, decimal(c.rebinding_time as nat))) =~= done + lease_attrs(*c));
}

/// The label-value pairs `a` show `v` under `label`: every pair with that
/// label has the value `v`, and there is one when `v` is known; none when
/// it is not.
pub open spec fn shows(a: Seq<(Seq<char>, Seq<char>)>, label: Seq<char>, v: Option<Seq<char>>) -> bool {
    &&& forall|k: int| 0 <= k < a.len() && (#[trigger] a[k]).0 == label ==> (v matches Some(t) && a[k].1 == t)
    &&& v matches Some(t) ==> exists|k: int| 0 <= k < a.len() && #[trigger] a[k] == (label, t)
}

/// No pair of `a` has the label `label`.
pub open spec fn lacks(a: Seq<(Seq<char>, Seq<char>)>, label: Seq<char>) -> bool {
    forall|k: int| 0 <= k < a.len() ==> (#[trigger] a[k]).0 != label
}

pub open spec fn addr_text(a: Option<u32>) -> Option<Seq<char>> {
    match a {
        Some(v) => Some(ipv4_text(v)),
        None => None,
    }
}

proof fn lemma_shows_left(a: Seq<(Seq<char>, Seq<char>)>, b: Seq<(Seq<char>, Seq<char>)>, label: Seq<char>, v: Option<Seq<char>>)
    requires
        shows(a, label, v),
        lacks(b, label),
    ensures
        shows(a + b, label, v),
{
    let ab = a + b;
    assert forall|k: int| 0 <= k < ab.len() && (#[trigger] ab[k]).0 == label implies (v matches Some(t) && ab[k].1 == t) by {
        if k >= a.len() {
            assert(ab[k] == b[k - a.len()]);
        } else {
            assert(ab[k] == a[k]);
        }
    }
    if v is Some {
        let t = v->0;
        let k = choose|k: int| 0 <= k < a.len() && #[trigger] a[k] == (label, t);
        assert(ab[k] == a[k]);
    }
}

proof fn lemma_shows_right(a: Seq<(Seq<char>, Seq<char>)>, b: Seq<(Seq<char>, Seq<char>)>, label: Seq<char>, v: Option<Seq<char>>)
    requires
        lacks(a, label),
        shows(b, label, v),
    ensures
        shows(a + b, label, v),
{
    let ab = a + b;
    assert forall|k: int| 0 <= k < ab.len() && (#[trigger] ab[k]).0 == label implies (v matches Some(t) && ab[k].1 == t) by {
        if k >= a.len() {
            assert(ab[k] == b[k - a.len()]);
        } else {
            assert(ab[k] == a[k]);
        }
    }
    if v is Some {
        let t = v->0;
        let k = choose|k: int| 0 <= k < b.len() && #[trigger] b[k] == (label, t);
        assert(ab[k + a.len()] == b[k]);
    }
}

proof fn lemma_lacks_concat(a: Seq<(Seq<char>, Seq<char>)>, b: Seq<(Seq<char>, Seq<char>)>, label: Seq<char>)
    requires
        lacks(a, label),
        lacks(b, label),
    ensures
        lacks(a + b, label),
{
    let ab = a + b;
    assert forall|k: int| 0 <= k < ab.len() implies (#[trigger] ab[k]).0 != label by {
        if k >= a.len() {
            assert(ab[k] == b[k - a.len()]);
        } else {
            assert(ab[k] == a[k]);
        }
    }
}

pub open spec fn dns_text(dns: Seq<u32>) -> Option<Seq<char>> {
    if dns.len() > 0 {
        Some(ipv4_text(dns[0]))
    } else {
        None
    }
}

pub open spec fn freq_text(f: Option<u32>) -> Option<Seq<char>> {
    match f {
        Some(v) => Some(decimal(v as nat)),
        None => None,
    }
}

proof fn lemma_labels_differ()
    ensures
        "IP"@ != "DNS"@,
        "IP"@ != "Server ID"@,
        "IP"@ != "Subnet"@,
        "IP"@ != "Gateway"@,
        "IP"@ != "Frequency"@,
        "IP"@ != "Lease Duration"@,
        "IP"@ != "Renewal Time"@,
        "IP"@ != "Rebinding Time"@,
        "DNS"@ != "Server ID"@,
        "DNS"@ != "Subnet"@,
        "DNS"@ != "Gateway"@,
        "DNS"@ != "Frequency"@,
        "DNS"@ != "Lease Duration"@,
        "DNS"@ != "Renewal Time"@,
        "DNS"@ != "Rebinding Time"@,
        "Server ID"@ != "Subnet"@,
        "Server ID"@ != "Gateway"@,
        "Server ID"@ != "Frequency"@,
        "Server ID"@ != "Lease Duration"@,
        "Server ID"@ != "Renewal Time"@,
        "Server ID"@ != "Rebinding Time"@,
        "Subnet"@ != "Gateway"@,
        "Subnet"@ != "Frequency"@,
        "Subnet"@ != "Lease Duration"@,
        "Subnet"@ != "Renewal Time"@,
        "Subnet"@ != "Rebinding Time"@,
        "Gateway"@ != "Frequency"@,
        "Gateway"@ != "Lease Duration"@,
        "Gateway"@ != "Renewal Time"@,
        "Gateway"@ != "Rebinding Time"@,
        "Frequency"@ != "Lease Duration"@,
        "Frequency"@ != "Renewal Time"@,
        "Frequency"@ != "Rebinding Time"@,
        "Lease Duration"@ != "Renewal Time"@,
        "Lease Duration"@ != "Rebinding Time"@,
        "Renewal Time"@ != "Rebinding Time"@,
{
    reveal_strlit("IP");
    reveal_strlit("DNS");
    reveal_strlit("Server ID");
    reveal_strlit("Subnet");
    reveal_strlit("Gateway");
    reveal_strlit("Frequency");
    reveal_strlit("Lease Duration");
    reveal_strlit("Renewal Time");
    reveal_strlit("Rebinding Time");
    assert("IP"@.len() != "DNS"@.len());
    assert("IP"@.len() != "Server ID"@.len());
    assert("IP"@.len() != "Subnet"@.len());
    assert("IP"@.len() != "Gateway"@.len());
    assert("IP"@.len() != "Frequency"@.len());
    assert("IP"@.len() != "Lease Duration"@.len());
    assert("IP"@.len() != "Renewal Time"@.len());
    assert("IP"@.len() != "Rebinding Time"@.len());
    assert("DNS"@.len() != "Server ID"@.len());
    assert("DNS"@.len() != "Subnet"@.len());
    assert("DNS"@.len() != "Gateway"@.len());
    assert("DNS"@.len() != "Frequency"@.len());
    assert("DNS"@.len() != "Lease Duration"@.len());
    assert("DNS"@.len() != "Renewal Time"@.len());
    assert("DNS"@.len() != "Rebinding Time"@.len());
    assert("Server ID"@.len() != "Subnet"@.len());
    assert("Server ID"@.len() != "Gateway"@.len());
    assert("Server ID"@[0] != "Frequency"@[0]);
    assert("Server ID"@.len() != "Lease Duration"@.len());
    assert("Server ID"@.len() != "Renewal Time"@.len());
    assert("Server ID"@.len() != "Rebinding Time"@.len());
    assert("Subnet"@.len() != "Gateway"@.len());
    assert("Subnet"@.len() != "Frequency"@.len());
    assert("Subnet"@.len() != "Lease Duration"@.len());
    assert("Subnet"@.len() != "Renewal Time"@.len());
    assert("Subnet"@.len() != "Rebinding Time"@.len());
    assert("Gateway"@.len() != "Frequency"@.len());
    assert("Gateway"@.len() != "Lease Duration"@.len());
    assert("Gateway"@.len() != "Renewal Time"@.len());
    assert("Gateway"@.len() != "Rebinding Time"@.len());
    assert("Frequency"@.len() != "Lease Duration"@.len());
    assert("Frequency"@.len() != "Renewal Time"@.len());
    assert("Frequency"@.len() != "Rebinding Time"@.len());
    assert("Lease Duration"@.len() != "Renewal Time"@.len());
    assert("Lease Duration"@[0] != "Rebinding Time"@[0]);
    assert("Renewal Time"@.len() != "Rebinding Time"@.len());
}

proof fn lemma_piece_facts(c: CurrentConnection, label: Seq<char>)
    ensures
        label != "IP"@ ==> lacks(addr_attr("IP"@, c.ip_addr), label),
        label != "Server ID"@ ==> lacks(addr_attr("Server ID"@, c.server_id), label),
        label != "Subnet"@ ==> lacks(addr_attr("Subnet"@, c.subnet_mask), label),
        label != "Gateway"@ ==> lacks(addr_attr("Gateway"@, c.gateway), label),
        label != "DNS"@ ==> lacks(dns_attr(c.dns_servers@), label),
        label != "Frequency"@ ==> lacks(frequency_attr(c.frequency), label),
        label != "Lease Duration"@ && label != "Renewal Time"@ && label != "Rebinding Time"@ ==> lacks(
            lease_attrs(c),
            label,
        ),
        shows(addr_attr("IP"@, c.ip_addr), "IP"@, addr_text(c.ip_addr)),
        shows(addr_attr("Server ID"@, c.server_id), "Server ID"@, addr_text(c.server_id)),
        shows(addr_attr("Subnet"@, c.subnet_mask), "Subnet"@, addr_text(c.subnet_mask)),
        shows(addr_attr("Gateway"@, c.gateway), "Gateway"@, addr_text(c.gateway)),
        shows(dns_attr(c.dns_servers@), "DNS"@, dns_text(c.dns_servers@)),
        shows(frequency_attr(c.frequency), "Frequency"@, freq_text(c.frequency)),
{
    lemma_labels_differ();
    if c.ip_addr is Some {
        assert(addr_attr("IP"@, c.ip_addr)[0] == ("IP"@, ipv4_text(c.ip_addr->0)));
    }
    if c.server_id is Some {
        assert(addr_attr("Server ID"@, c.server_id)[0] == ("Server ID"@, ipv4_text(c.server_id->0)));
    }
    if c.subnet_mask is Some {
        assert(addr_attr("Subnet"@, c.subnet_mask)[0] == ("Subnet"@, ipv4_text(c.subnet_mask->0)));
    }
    if c.gateway is Some {
        assert(addr_attr("Gateway"@, c.gateway)[0] == ("Gateway"@, ipv4_text(c.gateway->0)));
    }
    if c.dns_servers@.len() > 0 {
        assert(dns_attr(c.dns_servers@)[0] == ("DNS"@, ipv4_text(c.dns_servers@[0])));
    }
    if c.frequency is Some {
        assert(frequency_attr(c.frequency)[0] == ("Frequency"@, decimal(c.frequency->0 as nat)));
    }
}

proof fn lemma_lease_shows(c: CurrentConnection)
    ensures
        shows(lease_attrs(c), "Lease Duration"@, Some(decimal(c.lease_duration as nat))),
        shows(lease_attrs(c), "Renewal Time"@, Some(decimal(c.renewal_time as nat))),
        shows(lease_attrs(c), "Rebinding Time"@, Some(decimal(c.rebinding_time as nat))),
{
    lemma_labels_differ();
    let a = lease_attrs(c);
    assert(a[0] == ("Lease Duration"@, decimal(c.lease_duration as nat)));
    assert(a[1] == ("Renewal Time"@, decimal(c.renewal_time as nat)));
    assert(a[2] == ("Rebinding Time"@, decimal(c.rebinding_time as nat)));
}

/// Each line of the current-connection panel shows its own field: the
/// address under "IP", the first DNS server under "DNS", the server id
/// under "Server ID", the subnet mask under "Subnet", the gateway under
/// "Gateway", the frequency under "Frequency" and the three lease times
/// under theirs; a line is there exactly when its field is known.
pub proof fn law_panel_shows_fields(c: CurrentConnection)
    ensures
        shows(connection_attrs(c), "IP"@, addr_text(c.ip_addr)),
        shows(connection_attrs(c), "DNS"@, dns_text(c.dns_servers@)),
        shows(connection_attrs(c), "Server ID"@, addr_text(c.server_id)),
        shows(connection_attrs(c), "Subnet"@, addr_text(c.subnet_mask)),
        shows(connection_attrs(c), "Gateway"@, addr_text(c.gateway)),
        shows(connection_attrs(c), "Frequency"@, freq_text(c.frequency)),
        shows(connection_attrs(c), "Lease Duration"@, Some(decimal(c.lease_duration as nat))),
        shows(connection_attrs(c), "Renewal Time"@, Some(decimal(c.renewal_time as nat))),
        shows(connection_attrs(c), "Rebinding Time"@, Some(decimal(c.rebinding_time as nat))),
{
    lemma_labels_differ();
    lemma_lease_shows(c);
    lemma_piece_facts(c, "IP"@);
    lemma_piece_facts(c, "DNS"@);
    lemma_piece_facts(c, "Server ID"@);
    lemma_piece_facts(c, "Subnet"@);
    lemma_piece_facts(c, "Gateway"@);
    lemma_piece_facts(c, "Frequency"@);
    lemma_piece_facts(c, "Lease Duration"@);
    lemma_piece_facts(c, "Renewal Time"@);
    lemma_piece_facts(c, "Rebinding Time"@);
    {
        let label = "IP"@;
        let v = addr_text(c.ip_addr);
        lemma_shows_left(addr_attr("IP"@, c.ip_addr), dns_attr(c.dns_servers@), label, v);
        lemma_shows_left(addr_attr("IP"@, c.ip_addr) + dns_attr(c.dns_servers@), addr_attr("Server ID"@, c.server_id), label, v);
        lemma_shows_left(addr_attr("IP"@, c.ip_addr) + dns_attr(c.dns_servers@) + addr_attr("Server ID"@, c.server_id), addr_attr("Subnet"@, c.subnet_mask), label, v);
        lemma_shows_left(addr_attr("IP"@, c.ip_addr) + dns_attr(c.dns_servers@) + addr_attr("Server ID"@, c.server_id) + addr_attr("Subnet"@, c.subnet_mask), addr_attr("Gateway"@, c.gateway), label, v);
        lemma_shows_left(addr_attr("IP"@, c.ip_addr) + dns_attr(c.dns_servers@) + addr_attr("Server ID"@, c.server_id) + addr_attr("Subnet"@, c.subnet_mask) + addr_attr("Gateway"@, c.gateway), frequency_attr(c.frequency), label, v);
        lemma_shows_left(addr_attr("IP"@, c.ip_addr) + dns_attr(c.dns_servers@) + addr_attr("Server ID"@, c.server_id) + addr_attr("Subnet"@, c.subnet_mask) + addr_attr("Gateway"@, c.gateway) + frequency_attr(c.frequency), lease_attrs(c), label, v);
    }
    {
        let label = "DNS"@;
        let v = dns_text(c.dns_servers@);
        lemma_shows_right(addr_attr("IP"@, c.ip_addr), dns_attr(c.dns_servers@), label, v);
        lemma_shows_left(addr_attr("IP"@, c.ip_addr) + dns_attr(c.dns_servers@), addr_attr("Server ID"@, c.server_id), label, v);
        lemma_shows_left(addr_attr("IP"@, c.ip_addr) + dns_attr(c.dns_servers@) + addr_attr("Server ID"@, c.server_id), addr_attr("Subnet"@, c.subnet_mask), label, v);
        lemma_shows_left(addr_attr("IP"@, c.ip_addr) + dns_attr(c.dns_servers@) + addr_attr("Server ID"@, c.server_id) + addr_attr("Subnet"@, c.subnet_mask), addr_attr("Gateway"@, c.gateway), label, v);
        lemma_shows_left(addr_attr("IP"@, c.ip_addr) + dns_attr(c.dns_servers@) + addr_attr("Server ID"@, c.server_id) + addr_attr("Subnet"@, c.subnet_mask) + addr_attr("Gateway"@, c.gateway), frequency_attr(c.frequency), label, v);
        lemma_shows_left(addr_attr("IP"@, c.ip_addr) + dns_attr(c.dns_servers@) + addr_attr("Server ID"@, c.server_id) + addr_attr("Subnet"@, c.subnet_mask) + addr_attr("Gateway"@, c.gateway) + frequency_attr(c.frequency), lease_attrs(c), label, v);
    }
    {
        let label = "Server ID"@;
        let v = addr_text(c.server_id);
        lemma_lacks_concat(addr_attr("IP"@, c.ip_addr), dns_attr(c.dns_servers@), label);
        lemma_shows_right(addr_attr("IP"@, c.ip_addr) + dns_attr(c.dns_servers@), addr_attr("Server ID"@, c.server_id), label, v);
        lemma_shows_left(addr_attr("IP"@, c.ip_addr) + dns_attr(c.dns_servers@) + addr_attr("Server ID"@, c.server_id), addr_attr("Subnet"@, c.subnet_mask), label, v);
        lemma_shows_left(addr_attr("IP"@, c.ip_addr) + dns_attr(c.dns_servers@) + addr_attr("Server ID"@, c.server_id) + addr_attr("Subnet"@, c.subnet_mask), addr_attr("Gateway"@, c.gateway), label, v);
        lemma_shows_left(addr_attr("IP"@, c.ip_addr) + dns_attr(c.dns_servers@) + addr_attr("Server ID"@, c.server_id) + addr_attr("Subnet"@, c.subnet_mask) + addr_attr("Gateway"@, c.gateway), frequency_attr(c.frequency), label, v);
        lemma_shows_left(addr_attr("IP"@, c.ip_addr) + dns_attr(c.dns_servers@) + addr_attr("Server ID"@, c.server_id) + addr_attr("Subnet"@, c.subnet_mask) + addr_attr("Gateway"@, c.gateway) + frequency_attr(c.frequency), lease_attrs(c), label, v);
    }
    {
        let label = "Subnet"@;
        let v = addr_text(c.subnet_mask);
        lemma_lacks_concat(addr_attr("IP"@, c.ip_addr), dns_attr(c.dns_servers@), label);
        lemma_lacks_concat(addr_attr("IP"@, c.ip_addr) + dns_attr(c.dns_servers@), addr_attr("Server ID"@, c.server_id), label);
        lemma_shows_right(addr_attr("IP"@, c.ip_addr) + dns_attr(c.dns_servers@) + addr_attr("Server ID"@, c.server_id), addr_attr("Subnet"@, c.subnet_mask), label, v);
        lemma_shows_left(addr_attr("IP"@, c.ip_addr) + dns_attr(c.dns_servers@) + addr_attr("Server ID"@, c.server_id) + addr_attr("Subnet"@, c.subnet_mask), addr_attr("Gateway"@, c.gateway), label, v);
        lemma_shows_left(addr_attr("IP"@, c.ip_addr) + dns_attr(c.dns_servers@) + addr_attr("Server ID"@, c.server_id) + addr_attr("Subnet"@, c.subnet_mask) + addr_attr("Gateway"@, c.gateway), frequency_attr(c.frequency), label, v);
        lemma_shows_left(addr_attr("IP"@, c.ip_addr) + dns_attr(c.dns_servers@) + addr_attr("Server ID"@, c.server_id) + addr_attr("Subnet"@, c.subnet_mask) + addr_attr("Gateway"@, c.gateway) + frequency_attr(c.frequency), lease_attrs(c), label, v);
    }
    {
        let label = "Gateway"@;
        let v = addr_text(c.gateway);
        lemma_lacks_concat(addr_attr("IP"@, c.ip_addr), dns_attr(c.dns_servers@), label);
        lemma_lacks_concat(addr_attr("IP"@, c.ip_addr) + dns_attr(c.dns_servers@), addr_attr("Server ID"@, c.server_id), label);
        lemma_lacks_concat(addr_attr("IP"@, c.ip_addr) + dns_attr(c.dns_servers@) + addr_attr("Server ID"@, c.server_id), addr_attr("Subnet"@, c.subnet_mask), label);
        lemma_shows_right(addr_attr("IP"@, c.ip_addr) + dns_attr(c.dns_servers@) + addr_attr("Server ID"@, c.server_id) + addr_attr("Subnet"@, c.subnet_mask), addr_attr("Gateway"@, c.gateway), label, v);
        lemma_shows_left(addr_attr("IP"@, c.ip_addr) + dns_attr(c.dns_servers@) + addr_attr("Server ID"@, c.server_id) + addr_attr("Subnet"@, c.subnet_mask) + addr_attr("Gateway"@, c.gateway), frequency_attr(c.frequency), label, v);
        lemma_shows_left(addr_attr("IP"@, c.ip_addr) + dns_attr(c.dns_servers@) + addr_attr("Server ID"@, c.server_id) + addr_attr("Subnet"@, c.subnet_mask) + addr_attr("Gateway"@, c.gateway) + frequency_attr(c.frequency), lease_attrs(c), label, v);
    }
    {
        let label = "Frequency"@;
        let v = freq_text(c.frequency);
        lemma_lacks_concat(addr_attr("IP"@, c.ip_addr), dns_attr(c.dns_servers@), label);
        lemma_lacks_concat(addr_attr("IP"@, c.ip_addr) + dns_attr(c.dns_servers@), addr_attr("Server ID"@, c.server_id), label);
        lemma_lacks_concat(addr_attr("IP"@, c.ip_addr) + dns_attr(c.dns_servers@) + addr_attr("Server ID"@, c.server_id), addr_attr("Subnet"@, c.subnet_mask), label);
        lemma_lacks_concat(addr_attr("IP"@, c.ip_addr) + dns_attr(c.dns_servers@) + addr_attr("Server ID"@, c.server_id) + addr_attr("Subnet"@, c.subnet_mask), addr_attr("Gateway"@, c.gateway), label);
        lemma_shows_right(addr_attr("IP"@, c.ip_addr) + dns_attr(c.dns_servers@) + addr_attr("Server ID"@, c.server_id) + addr_attr("Subnet"@, c.subnet_mask) + addr_attr("Gateway"@, c.gateway), frequency_attr(c.frequency), label, v);
        lemma_shows_left(addr_attr("IP"@, c.ip_addr) + dns_attr(c.dns_servers@) + addr_attr("Server ID"@, c.server_id) + addr_attr("Subnet"@, c.subnet_mask) + addr_attr("Gateway"@, c.gateway) + frequency_attr(c.frequency), lease_attrs(c), label, v);
    }
    {
        let label = "Lease Duration"@;
        let v = Some(decimal(c.lease_duration as nat));
        lemma_lacks_concat(addr_attr("IP"@, c.ip_addr), dns_attr(c.dns_servers@), label);
        lemma_lacks_concat(addr_attr("IP"@, c.ip_addr) + dns_attr(c.dns_servers@), addr_attr("Server ID"@, c.server_id), label);
        lemma_lacks_concat(addr_attr("IP"@, c.ip_addr) + dns_attr(c.dns_servers@) + addr_attr("Server ID"@, c.server_id), addr_attr("Subnet"@, c.subnet_mask), label);
        lemma_lacks_concat(addr_attr("IP"@, c.ip_addr) + dns_attr(c.dns_servers@) + addr_attr("Server ID"@, c.server_id) + addr_attr("Subnet"@, c.subnet_mask), addr_attr("Gateway"@, c.gateway), label);
        lemma_lacks_concat(addr_attr("IP"@, c.ip_addr) + dns_attr(c.dns_servers@) + addr_attr("Server ID"@, c.server_id) + addr_attr("Subnet"@, c.subnet_mask) + addr_attr("Gateway"@, c.gateway), frequency_attr(c.frequency), label);
        lemma_shows_right(addr_attr("IP"@, c.ip_addr) + dns_attr(c.dns_servers@) + addr_attr("Server ID"@, c.server_id) + addr_attr("Subnet"@, c.subnet_mask) + addr_attr("Gateway"@, c.gateway) + frequency_attr(c.frequency), lease_attrs(c), label, v);
    }
    {
        let label = "Renewal Time"@;
        let v = Some(decimal(c.renewal_time as nat));
        lemma_lacks_concat(addr_attr("IP"@, c.ip_addr), dns_attr(c.dns_servers@), label);
        lemma_lacks_concat(addr_attr("IP"@, c.ip_addr) + dns_attr(c.dns_servers@), addr_attr("Server ID"@, c.server_id), label);
        lemma_lacks_concat(addr_attr("IP"@, c.ip_addr) + dns_attr(c.dns_servers@) + addr_attr("Server ID"@, c.server_id), addr_attr("Subnet"@, c.subnet_mask), label);
        lemma_lacks_concat(addr_attr("IP"@, c.ip_addr) + dns_attr(c.dns_servers@) + addr_attr("Server ID"@, c.server_id) + addr_attr("Subnet"@, c.subnet_mask), addr_attr("Gateway"@, c.gateway), label);
        lemma_lacks_concat(addr_attr("IP"@, c.ip_addr) + dns_attr(c.dns_servers@) + addr_attr("Server ID"@, c.server_id) + addr_attr("Subnet"@, c.subnet_mask) + addr_attr("Gateway"@, c.gateway), frequency_attr(c.frequency), label);
        lemma_shows_right(addr_attr("IP"@, c.ip_addr) + dns_attr(c.dns_servers@) + addr_attr("Server ID"@, c.server_id) + addr_attr("Subnet"@, c.subnet_mask) + addr_attr("Gateway"@, c.gateway) + frequency_attr(c.frequency), lease_attrs(c), label, v);
    }
    {
        let label = "Rebinding Time"@;
        let v = Some(decimal(c.rebinding_time as nat));
        lemma_lacks_concat(addr_attr("IP"@, c.ip_addr), dns_attr(c.dns_servers@), label);
        lemma_lacks_concat(addr_attr("IP"@, c.ip_addr) + dns_attr(c.dns_servers@), addr_attr("Server ID"@, c.server_id), label);
        lemma_lacks_concat(addr_attr("IP"@, c.ip_addr) + dns_attr(c.dns_servers@) + addr_attr("Server ID"@, c.server_id), addr_attr("Subnet"@, c.subnet_mask), label);
        lemma_lacks_concat(addr_attr("IP"@, c.ip_addr) + dns_attr(c.dns_servers@) + addr_attr("Server ID"@, c.server_id) + addr_attr("Subnet"@, c.subnet_mask), addr_attr("Gateway"@, c.gateway), label);
        lemma_lacks_concat(addr_attr("IP"@, c.ip_addr) + dns_attr(c.dns_servers@) + addr_attr("Server ID"@, c.server_id) + addr_attr("Subnet"@, c.subnet_mask) + addr_attr("Gateway"@, c.gateway), frequency_attr(c.frequency), label);
        lemma_shows_right(addr_attr("IP"@, c.ip_addr) + dns_attr(c.dns_servers@) + addr_attr("Server ID"@, c.server_id) + addr_attr("Subnet"@, c.subnet_mask) + addr_attr("Gateway"@, c.gateway) + frequency_attr(c.frequency), lease_attrs(c), label, v);
    }
}

/// The lines of the current-connection panel for `c`.
pub fn connection_lines(c: &CurrentConnection) -> (r: Vec<String>)
    ensures
        lines_match(r@, connection_attrs(*c)),
{
    let mut lines: Vec<String> = Vec::new();
    let ghost d0: Seq<(Seq<char>, Seq<char>)> = Seq::empty();
    push_addr(&mut lines, Ghost(d0), "IP", c.ip_addr);
    let ghost d1 = d0 + addr_attr("IP"@, c.ip_addr);
    push_dns(&mut lines, Ghost(d1), &c.dns_servers);
    let ghost d2 = d1 + dns_attr(c.dns_servers@);
    push_addr(&mut lines, Ghost(d2), "Server ID", c.server_id);
    let ghost d3 = d2 + addr_attr("Server ID"@, c.server_id);
    push_addr(&mut lines, Ghost(d3), "Subnet", c.subnet_mask);
    let ghost d4 = d3 + addr_attr("Subnet"@, c.subnet_mask);
    push_addr(&mut lines, Ghost(d4), "Gateway", c.gateway);
    let ghost d5 = d4 + addr_attr("Gateway"@, c.gateway);
    push_frequency(&mut lines, Ghost(d5), c.frequency);
    let ghost d6 = d5 + frequency_attr(c.frequency);
    push_lease(&mut lines, Ghost(d6), c);
    assert(d6 + lease_attrs(*c) =~= connection_attrs(*c));
    lines
}

/// The lines of the current-connection panel: those of the first
/// connection record, when there is one.
pub fn connection_panel(current: &Option<Vec<CurrentConnection>>) -> (r: Option<Vec<String>>)
    ensures
        match current {
            Some(v) => if v@.len() > 0 {
                r matches Some(l) && lines_match(l@, connection_attrs(v@[0]))
            } else {
                r is None
            },
            None => r is None,
        },
{
    match current {
        Some(v) => if v.len() > 0 {
            Some(connection_lines(&v[0]))
        } else {
            None
        },
        None => None,
    }
}

/// A rectangle of the terminal: its column, row, width and height.
#[derive(Debug, Clone, Copy, PartialEq, Eq, Structural)]
pub struct Area {
    pub x: u16,
    pub y: u16,
    pub width: u16,
    pub height: u16,
}

/// The middle part that `ratatui`'s `Layout::split` gives when it cuts the
/// area `(x, y, width, height)` along one direction (rows when `vertical`)
/// into three parts of `side`, `middle` and `side` percent.
pub uninterp spec fn layout_middle(vertical: bool, side: u16, middle: u16, area: (u16, u16, u16, u16)) -> (u16, u16, u16, u16);

/// `Layout::split` of `ratatui`, with the constraints `Percentage(side)`,
/// `Percentage(middle)` and `Percentage(side)`, on `area`: the middle part.
/// What the solver makes of the percentages is left to `layout_middle`.
#[verifier::external_body]
fn split_middle(vertical: bool, side: u16, middle: u16, area: Area) -> (r: Area)
    ensures
        (r.x, r.y, r.width, r.height) == layout_middle(
            vertical,
            side,
            middle,
            (area.x, area.y, area.width, area.height),
        ),
{
    let direction = if vertical { Direction::Vertical } else { Direction::Horizontal };
    let parts = Layout::default().direction(direction).constraints(
        [Constraint::Percentage(side), Constraint::Percentage(middle), Constraint::Percentage(side)],
    ).split(Rect::new(area.x, area.y, area.width, area.height));
    Area { x: parts[1].x, y: parts[1].y, width: parts[1].width, height: parts[1].height }
}

/// The area of the notification box: `percent_y` percent of the rows of
/// `rect`, centred, then `percent_x` percent of their columns, centred.
pub fn centered_rect(percent_x: u16, percent_y: u16, rect: Area) -> (r: Area)
    requires
        percent_x <= 100,
        percent_y <= 100,
    ensures
        (r.x, r.y, r.width, r.height) == layout_middle(
            false,
            ((100 - percent_x) / 2) as u16,
            percent_x,
            layout_middle(
                true,
                ((100 - percent_y) / 2) as u16,
                percent_y,
                (rect.x, rect.y, rect.width, rect.height),
            ),
        ),
{
    let rows = split_middle(true, (100 - percent_y) / 2, percent_y, rect);
    split_middle(false, (100 - percent_x) / 2, percent_x, rows)
}

} // verus!
