//! Reading the access points that a wireless scan reports.

use crate::netlink::{
    attr_views, attrs_from, bss_attr, bss_attr_of, nested_attrs, scan_event, scan_event_of, wifi_attr,
    wifi_attr_of, BssAttr, RawAttr, ScanEvent, WifiAttr,
};
use crate::mac::{
    colon_fields, hex_digit, hex_value, mac_bytes_of, mac_text_valid, parse_hex_byte,
    unsigned_digits,
};
use crate::text::push_char;
use crate::types::{text_view, Host};
use vstd::prelude::*;

verus! {

/// The unsigned number whose little-endian bytes start `p`.
pub open spec fn le_u32_of(p: Seq<u8>) -> u32 {
    (p[0] as int + p[1] as int * 0x100 + p[2] as int * 0x10000 + p[3] as int * 0x1000000) as u32
}

/// The little-endian `u32` in the first four bytes of `p`.
pub fn le_u32(p: &[u8]) -> (r: u32)
    requires
        p@.len() >= 4,
    ensures
        r == le_u32_of(p@),
{
    (p[0] as u32) + (p[1] as u32) * 0x100 + (p[2] as u32) * 0x10000 + (p[3] as u32) * 0x1000000
}

/// The upper-case hexadecimal digit of a value below 16.
pub open spec fn hex_upper(v: u8) -> char {
    if v < 10 {
        (v + 48) as char
    } else {
        (v + 55) as char
    }
}

/// A byte as two upper-case hexadecimal digits.
pub open spec fn byte_hex(b: u8) -> Seq<char> {
    seq![hex_upper(b / 16), hex_upper(b % 16)]
}

/// Bytes written as upper-case hex pairs joined by `:`, as
/// `format!("{b:02X}")` and `join(":")` write them.
pub open spec fn mac_text(bytes: Seq<u8>) -> Seq<char>
    decreases bytes.len(),
{
    if bytes.len() == 0 {
        Seq::empty()
    } else if bytes.len() == 1 {
        byte_hex(bytes[0])
    } else {
        mac_text(bytes.drop_last()) + seq![':'] + byte_hex(bytes.last())
    }
}

fn hex_digit_char(v: u8) -> (c: char)
    requires
        v < 16,
    ensures
        c == hex_upper(v),
{
    if v < 10 {
        (v + 48) as char
    } else {
        (v + 55) as char
    }
}

/// The first `n` bytes of `bytes` written as a MAC address text.
pub fn format_mac(bytes: &[u8], n: usize) -> (r: String)
    requires
        n <= bytes@.len(),
    ensures
        r@ == mac_text(bytes@.take(n as int)),
{
    let mut s = String::new();
    let mut i: usize = 0;
    assert(bytes@.take(0) =~= Seq::<u8>::empty());
    while i < n
        invariant
            i <= n <= bytes@.len(),
            s@ == mac_text(bytes@.take(i as int)),
        decreases n - i,
    {
        let b = bytes[i];
        if i > 0 {
            push_char(&mut s, ':');
        }
        push_char(&mut s, hex_digit_char(b / 16));
        push_char(&mut s, hex_digit_char(b % 16));
        proof {
            let t = bytes@.take(i + 1);
            assert(t.drop_last() =~= bytes@.take(i as int));
            assert(t.last() == b);
            if i == 0 {
                assert(s@ =~= byte_hex(b));
            } else {
                assert(s@ =~= mac_text(bytes@.take(i as int)) + seq![':'] + byte_hex(b));
            }
        }
        i = i + 1;
    }
    s
}

/// What `String::from_utf8_lossy` makes of the bytes: valid UTF-8 decoded,
/// each invalid sequence replaced by U+FFFD.
pub uninterp spec fn utf8_lossy(bytes: Seq<u8>) -> Seq<char>;

/// Bytes below 128 stand for the characters with their codes.
pub open spec fn ascii_chars(bytes: Seq<u8>) -> Seq<char> {
    bytes.map_values(|b: u8| b as char)
}

/// `String::from_utf8_lossy(bytes).to_string()`. Its text is the named
/// [`utf8_lossy`]; for bytes that are all ASCII it is these characters, as
/// ASCII is valid UTF-8 and decodes to itself.
#[verifier::external_body]
pub(crate) fn lossy_text(bytes: &[u8]) -> (r: String)
    ensures
        r@ == utf8_lossy(bytes@),
        (forall|i: int| 0 <= i < bytes@.len() ==> bytes@[i] < 128) ==> r@ == ascii_chars(bytes@),
{
    String::from_utf8_lossy(bytes).to_string()
}

/// The payload of the last SSID element (tag 0) among the information
/// elements from offset `i`, or `cur` if there is none. Elements are a tag
/// byte, a length byte and that many bytes; an element that overruns the
/// buffer ends the reading.
pub open spec fn last_ssid(ies: Seq<u8>, i: int, cur: Option<Seq<u8>>) -> Option<Seq<u8>>
    decreases ies.len() - i,
{
    if 0 <= i && i + 1 < ies.len() {
        let len = ies[i + 1] as int;
        if i + 2 + len > ies.len() {
            cur
        } else {
            let next = if ies[i] == 0 {
                Some(ies.subrange(i + 2, i + 2 + len))
            } else {
                cur
            };
            last_ssid(ies, i + 2 + len, next)
        }
    } else {
        cur
    }
}

/// The payload of the last SSID element of a list of information elements.
pub fn find_ssid(ies: &[u8]) -> (r: Option<(usize, usize)>)
    ensures
        match last_ssid(ies@, 0, None) {
            Some(p) => (r matches Some((a, b)) && a <= b <= ies@.len() && ies@.subrange(
                a as int,
                b as int,
            ) == p),
            None => r is None,
        },
{
    let mut i: usize = 0;
    let mut found: Option<(usize, usize)> = None;
    let ghost goal = last_ssid(ies@, 0, None);
    let mut done = false;
    while !done && ies.len() > 0 && i < ies.len() - 1
        invariant
            found matches Some((a, b)) ==> a <= b <= ies@.len(),
            !done ==> last_ssid(
                ies@,
                i as int,
                match found {
                    Some((a, b)) => Some(ies@.subrange(a as int, b as int)),
                    None => None,
                },
            ) == goal,
            done ==> match found {
                Some((a, b)) => Some(ies@.subrange(a as int, b as int)),
                None => None,
            } == goal,
            i <= ies@.len(),
        decreases ies@.len() - i, if done { 0int } else { 1int },
    {
        let tag = ies[i];
        let len = ies[i + 1] as usize;
        if len > ies.len() - (i + 2) {
            done = true;
        } else {
            if tag == 0 {
                found = Some((i + 2, i + 2 + len));
            }
            i = i + 2 + len;
        }
    }
    found
}

/// The mathematical form of a [`Host`]: texts by their characters.
pub struct HostView {
    pub bssid: Option<Seq<char>>,
    pub ssid: Option<Seq<char>>,
    pub frequency: Option<u32>,
    pub signal: Option<u32>,
    pub is_connected: bool,
}

pub open spec fn host_view(h: Host) -> HostView {
    HostView {
        bssid: text_view(h.bssid),
        ssid: text_view(h.ssid),
        frequency: h.frequency,
        signal: h.signal,
        is_connected: h.is_connected,
    }
}

/// What one attribute of an access point tells: its address (at least six
/// bytes), frequency (at least four), signal strength in hundredths of dBm
/// (at least four), network name (the last SSID of the information
/// elements) and whether it is the one this machine is connected to
/// (status 1). A shorter payload, or another attribute, tells nothing.
pub open spec fn bss_step(v: HostView, kind: BssAttr, p: Seq<u8>) -> HostView {
    match kind {
        BssAttr::Bssid => if p.len() >= 6 {
            HostView { bssid: Some(mac_text(p.take(6))), ..v }
        } else {
            v
        },
        BssAttr::Frequency => if p.len() >= 4 {
            HostView { frequency: Some(le_u32_of(p)), ..v }
        } else {
            v
        },
        BssAttr::SignalMbm => if p.len() >= 4 {
            HostView { signal: Some(signal_dbm(p)), ..v }
        } else {
            v
        },
        BssAttr::InformationElements => match last_ssid(p, 0, None) {
            Some(s) => HostView { ssid: Some(utf8_lossy(s)), ..v },
            None => v,
        },
        BssAttr::Status => if p.len() >= 4 {
            HostView { is_connected: le_u32_of(p) == 1, ..v }
        } else {
            v
        },
        BssAttr::Other => v,
    }
}

/// The host after reading the attributes `attrs` in order.
pub open spec fn bss_fold(v: HostView, attrs: Seq<(u16, Seq<u8>)>) -> HostView
    decreases attrs.len(),
{
    if attrs.len() == 0 {
        v
    } else {
        bss_fold(bss_step(v, bss_attr_of(attrs[0].0), attrs[0].1), attrs.drop_first())
    }
}

/// A host of which nothing is known.
pub open spec fn blank_host() -> HostView {
    HostView { bssid: None, ssid: None, frequency: None, signal: None, is_connected: false }
}

/// Signal strength in dBm from the attribute's hundredths of dBm, rounded
/// toward zero, as a `u32` holds it.
pub open spec fn signal_dbm(p: Seq<u8>) -> u32 {
    let mbm = le_u32_of(p) as i32;
    crate::dhcp::div_toward_zero(mbm as int, 100) as u32
}

/// Reads one attribute of an access point into the host.
pub fn apply_bss_attribute(host: &mut Host, kind: BssAttr, payload: &[u8])
    ensures
        host_view(*final(host)) == bss_step(host_view(*old(host)), kind, payload@),
{
    match kind {
        BssAttr::Bssid => {
            if payload.len() >= 6 {
                host.set_bssid(format_mac(payload, 6));
            }
        },
        BssAttr::Frequency => {
            if payload.len() >= 4 {
                host.set_frequency(le_u32(payload));
            }
        },
        BssAttr::SignalMbm => {
            if payload.len() >= 4 {
                let mbm = le_u32(payload) as i32;
                let wide = mbm as i64;
                let dbm = if wide >= 0 {
                    wide / 100
                } else {
                    -((-wide) / 100)
                };
                host.set_signal(dbm as i32 as u32);
                assert(dbm as i32 as u32 == signal_dbm(payload@));
            }
        },
        BssAttr::InformationElements => {
            match find_ssid(payload) {
                Some((a, b)) => {
                    let ssid = lossy_text(vstd::slice::slice_subrange(payload, a, b));
                    host.set_ssid(ssid);
                },
                None => {},
            }
        },
        BssAttr::Status => {
            if payload.len() >= 4 {
                host.is_connected = le_u32(payload) == 1;
            }
        },
        BssAttr::Other => {},
    }
}

/// Reads the nested attributes of an access point into a host.
pub fn parse_bss(bss: &[u8]) -> (r: Host)
    ensures
        host_view(r) == bss_fold(blank_host(), attrs_from(bss@, 0)),
{
    let attrs = nested_attrs(bss);
    let ghost all = attr_views(attrs@);
    let mut host = Host::new();
    let mut i: usize = 0;
    assert(all.skip(0) =~= all);
    while i < attrs.len()
        invariant
            0 <= i <= attrs@.len(),
            all == attr_views(attrs@),
            all == attrs_from(bss@, 0),
            bss_fold(host_view(host), all.skip(i as int)) == bss_fold(blank_host(), all),
        decreases attrs@.len() - i,
    {
        let a = &attrs[i];
        assert(all.skip(i as int)[0] == a@);
        assert(all.skip(i as int).drop_first() =~= all.skip(i + 1));
        apply_bss_attribute(&mut host, bss_attr(a.kind), &a.payload);
        i = i + 1;
    }
    assert(all.skip(i as int).len() == 0);
    host
}

/// The access points described in the attributes of one scan message: one
/// host per `AttrBss` attribute, in order.
pub open spec fn bss_hosts(attrs: Seq<(u16, Seq<u8>)>) -> Seq<HostView>
    decreases attrs.len(),
{
    if attrs.len() == 0 {
        Seq::empty()
    } else {
        let before = bss_hosts(attrs.drop_last());
        if wifi_attr_of(attrs.last().0) == WifiAttr::Bss {
            before.push(bss_fold(blank_host(), attrs_from(attrs.last().1, 0)))
        } else {
            before
        }
    }
}

/// The hosts that one message of a scan dump describes.
pub fn scan_hosts(attrs: &Vec<RawAttr>) -> (r: Vec<Host>)
    ensures
        r@.map_values(|h: Host| host_view(h)) == bss_hosts(attr_views(attrs@)),
{
    let ghost all = attr_views(attrs@);
    let mut result: Vec<Host> = Vec::new();
    let mut i: usize = 0;
    while i < attrs.len()
        invariant
            0 <= i <= attrs@.len(),
            all == attr_views(attrs@),
            result@.map_values(|h: Host| host_view(h)) == bss_hosts(all.take(i as int)),
        decreases attrs@.len() - i,
    {
        assert(all.take(i + 1).drop_last() =~= all.take(i as int));
        assert(all.take(i + 1).last() == attrs@[i as int]@);
        if wifi_attr(attrs[i].kind) == WifiAttr::Bss {
            let ghost before = result@.map_values(|h: Host| host_view(h));
            let h = parse_bss(&attrs[i].payload);
            result.push(h);
            assert(result@.map_values(|h: Host| host_view(h)) =~= before.push(host_view(h)));
        }
        i = i + 1;
    }
    assert(all.take(attrs@.len() as int) =~= all);
    result
}

/// What a message received while waiting for a scan to finish decides.
#[derive(Debug, Clone, Copy, PartialEq, Eq, Structural)]
pub enum TriggerStep {
    /// Keep waiting.
    Wait,
    /// The scan finished; its results are cached.
    Done,
    /// Another process interrupted the scan.
    Aborted,
    /// The kernel refused the scan with this error code.
    Failed(i32),
}

/// How a scan request goes on after a message: a kernel error other than
/// "busy" (-16) fails it, the new-results command ends it, the aborted
/// command aborts it, and anything else is waited past.
pub fn trigger_scan_step(error: Option<i32>, cmd: Option<u8>) -> (r: TriggerStep)
    ensures
        error matches Some(e) ==> r == if e == -16 {
            TriggerStep::Wait
        } else {
            TriggerStep::Failed(e)
        },
        error is None ==> r == match cmd {
            Some(c) => match scan_event_of(c) {
                ScanEvent::NewResults => TriggerStep::Done,
                ScanEvent::Aborted => TriggerStep::Aborted,
                ScanEvent::Other => TriggerStep::Wait,
            },
            None => TriggerStep::Wait,
        },
{
    if let Some(e) = error {
        if e == -16 {
            return TriggerStep::Wait;
        }
        return TriggerStep::Failed(e);
    }
    match cmd {
        Some(c) => match scan_event(c) {
            ScanEvent::NewResults => TriggerStep::Done,
            ScanEvent::Aborted => TriggerStep::Aborted,
            ScanEvent::Other => TriggerStep::Wait,
        },
        None => TriggerStep::Wait,
    }
}

proof fn lemma_hex_upper_digit(v: u8)
    requires
        v < 16,
    ensures
        hex_digit(hex_upper(v)) == Some(v as nat),
        hex_upper(v) != ':',
        hex_upper(v) != '+',
{
    if v < 10 {
        assert((v + 48) as char as nat == v + 48);
    } else {
        assert((v + 55) as char as nat == v + 55);
    }
}

proof fn lemma_byte_hex_parses(b: u8)
    ensures
        parse_hex_byte(byte_hex(b)) == Some(b),
        !byte_hex(b).contains(':'),
{
    let h = byte_hex(b);
    lemma_hex_upper_digit(b / 16);
    lemma_hex_upper_digit(b % 16);
    assert(unsigned_digits(h) == h);
    assert(h.drop_last() =~= seq![hex_upper(b / 16)]);
    assert(seq![hex_upper(b / 16)].drop_last() =~= Seq::<char>::empty());
    assert(hex_value(Seq::<char>::empty()) == 0);
    assert(hex_value(seq![hex_upper(b / 16)]) == (b / 16) as nat);
    assert(hex_value(h) == (b / 16) as nat * 16 + (b % 16) as nat);
    assert forall|i: int| 0 <= i < h.len() implies (#[trigger] hex_digit(h[i])) is Some by {}
    assert(!h.contains(':'));
}

proof fn lemma_fields_without_colon(h: Seq<char>)
    requires
        !h.contains(':'),
    ensures
        colon_fields(h) == seq![h],
    decreases h.len(),
{
    if h.len() > 0 {
        let d = h.drop_last();
        assert(!d.contains(':')) by {
            if d.contains(':') {
                let i = choose|i: int| 0 <= i < d.len() && d[i] == ':';
                assert(h[i] == ':');
            }
        }
        lemma_fields_without_colon(d);
        assert(h.last() != ':') by {
            assert(h[h.len() - 1] == h.last());
        }
        assert(d.push(h.last()) =~= h);
        assert(seq![d].update(0, d.push(h.last())) =~= seq![h]);
    } else {
        assert(h =~= Seq::<char>::empty());
    }
}

proof fn lemma_fields_after_colon(s: Seq<char>, h: Seq<char>)
    requires
        !h.contains(':'),
    ensures
        colon_fields(s + seq![':'] + h) == colon_fields(s).push(h),
    decreases h.len(),
{
    if h.len() == 0 {
        assert(s + seq![':'] + h =~= s.push(':'));
        assert(s.push(':').drop_last() =~= s);
        assert(h =~= Seq::<char>::empty());
    } else {
        let d = h.drop_last();
        assert(!d.contains(':')) by {
            if d.contains(':') {
                let i = choose|i: int| 0 <= i < d.len() && d[i] == ':';
                assert(h[i] == ':');
            }
        }
        lemma_fields_after_colon(s, d);
        let t = s + seq![':'] + h;
        assert(t.drop_last() =~= s + seq![':'] + d);
        assert(t.last() == h.last());
        assert(h.last() != ':') by {
            assert(h[h.len() - 1] == h.last());
        }
        assert(d.push(h.last()) =~= h);
        let f = colon_fields(s);
        let big = colon_fields(t.drop_last());
        assert(big == f.push(d));
        assert(big.last() == d);
        assert(colon_fields(t) == big.update(big.len() - 1, big.last().push(t.last())));
        assert(f.push(d).update(f.len() as int, d.push(h.last())) =~= f.push(h));
    }
}

proof fn lemma_mac_text_fields(bytes: Seq<u8>)
    requires
        bytes.len() >= 1,
    ensures
        colon_fields(mac_text(bytes)) == bytes.map_values(|b: u8| byte_hex(b)),
    decreases bytes.len(),
{
    lemma_byte_hex_parses(bytes.last());
    if bytes.len() == 1 {
        lemma_fields_without_colon(byte_hex(bytes[0]));
        assert(bytes.map_values(|b: u8| byte_hex(b)) =~= seq![byte_hex(bytes[0])]);
    } else {
        let d = bytes.drop_last();
        lemma_mac_text_fields(d);
        lemma_fields_after_colon(mac_text(d), byte_hex(bytes.last()));
        assert(bytes.map_values(|b: u8| byte_hex(b)) =~= d.map_values(|b: u8| byte_hex(b)).push(
            byte_hex(bytes.last()),
        ));
    }
}

/// A MAC address that this library writes reads back as the same six bytes
/// (so `mac_to_bytes` accepts every MAC text that the scans and link dumps
/// produce).
pub proof fn law_mac_text_round_trip(bytes: Seq<u8>)
    requires
        bytes.len() == 6,
    ensures
        mac_text_valid(mac_text(bytes)),
        mac_bytes_of(mac_text(bytes)) == bytes,
{
    lemma_mac_text_fields(bytes);
    let f = colon_fields(mac_text(bytes));
    assert forall|i: int| 0 <= i < f.len() implies (#[trigger] parse_hex_byte(f[i])) is Some
        && parse_hex_byte(f[i])->0 == bytes[i] by {
        lemma_byte_hex_parses(bytes[i]);
    }
    assert(mac_bytes_of(mac_text(bytes)) =~= bytes);
}

} // verus!
