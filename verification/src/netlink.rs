//! Netlink attributes, as `neli` reads them, and the nl80211 numbering
//! that `nl80211` gives them.

use neli::genl::Nlattr;
use neli::types::Buffer;
use neli::FromBytes;
use nl80211::{Nl80211Attr, Nl80211Bss, Nl80211Cmd};
use std::io::Cursor;
use vstd::prelude::*;

verus! {

/// A netlink attribute: its type, without the nesting and byte-order
/// flags, and its payload.
#[derive(Debug)]
pub struct RawAttr {
    pub kind: u16,
    pub payload: Vec<u8>,
}

impl View for RawAttr {
    type V = (u16, Seq<u8>);

    open spec fn view(&self) -> (u16, Seq<u8>) {
        (self.kind, self.payload@)
    }
}

/// What `Nlattr::<u16, Buffer>::from_bytes` of `neli` reads at offset `pos`
/// of `buf`: the attribute's type, its payload and the offset after it and
/// its padding; `None` where it fails.
pub uninterp spec fn netlink_attr_at(buf: Seq<u8>, pos: int) -> Option<(u16, Seq<u8>, int)>;

/// Reads the netlink attribute at offset `pos` of `buf` with `neli`. The
/// result is the named [`netlink_attr_at`]; an attribute read takes at
/// least its four header bytes and ends within the buffer, as `neli` reads
/// the header's two `u16` fields and fails on a short buffer.
#[verifier::external_body]
fn read_attr(buf: &[u8], pos: usize) -> (r: Option<(u16, Vec<u8>, usize)>)
    ensures
        r is Some <==> netlink_attr_at(buf@, pos as int) is Some,
        r matches Some((t, p, next)) ==> netlink_attr_at(buf@, pos as int) == Some(
            (t, p@, next as int),
        ) && pos + 4 <= next <= buf@.len(),
{
    let mut c = Cursor::new(buf);
    c.set_position(pos as u64);
    let a = Nlattr::<u16, Buffer>::from_bytes(&mut c).ok()?;
    Some((*a.nla_type().nla_type(), a.nla_payload().as_ref().to_vec(), c.position() as usize))
}

/// The attributes that follow each other from offset `pos` of `buf`, up to
/// the first that does not read.
pub open spec fn attrs_from(buf: Seq<u8>, pos: int) -> Seq<(u16, Seq<u8>)>
    decreases buf.len() - pos,
{
    match netlink_attr_at(buf, pos) {
        Some((t, p, next)) => if pos < next <= buf.len() {
            seq![(t, p)] + attrs_from(buf, next)
        } else {
            Seq::empty()
        },
        None => Seq::empty(),
    }
}

/// The views of a list of attributes.
pub open spec fn attr_views(attrs: Seq<RawAttr>) -> Seq<(u16, Seq<u8>)> {
    attrs.map_values(|a: RawAttr| a@)
}

/// The attributes nested in a payload, in order, up to the first that does
/// not read.
pub fn nested_attrs(buf: &[u8]) -> (r: Vec<RawAttr>)
    ensures
        attr_views(r@) == attrs_from(buf@, 0),
{
    let mut result: Vec<RawAttr> = Vec::new();
    let mut pos: usize = 0;
    let mut done = false;
    while !done
        invariant
            pos <= buf@.len(),
            !done ==> attr_views(result@) + attrs_from(buf@, pos as int) == attrs_from(buf@, 0),
            done ==> attr_views(result@) == attrs_from(buf@, 0),
        decreases buf@.len() - pos, if done { 0int } else { 1int },
    {
        match read_attr(buf, pos) {
            Some((kind, payload, next)) => {
                let ghost before = attr_views(result@);
                result.push(RawAttr { kind, payload });
                assert(attr_views(result@) =~= before.push((kind, payload@)));
                assert(attrs_from(buf@, pos as int) =~= seq![(kind, payload@)] + attrs_from(
                    buf@,
                    next as int,
                ));
                assert(before + attrs_from(buf@, pos as int) =~= attr_views(result@) + attrs_from(
                    buf@,
                    next as int,
                ));
                pos = next;
            },
            None => {
                assert(attr_views(result@) + attrs_from(buf@, pos as int) =~= attr_views(result@));
                done = true;
            },
        }
    }
    result
}

/// The nl80211 attributes that this manager reads, by `Nl80211Attr` number.
#[derive(Debug, Clone, Copy, PartialEq, Eq, Structural)]
pub enum WifiAttr {
    /// `AttrIfindex`, 3.
    Ifindex,
    /// `AttrIfname`, 4.
    Ifname,
    /// `AttrMac`, 6.
    Mac,
    /// `AttrBss`, 47.
    Bss,
    /// `AttrSsid`, 52.
    Ssid,
    Other,
}

pub open spec fn wifi_attr_of(t: u16) -> WifiAttr {
    if t == 3 {
        WifiAttr::Ifindex
    } else if t == 4 {
        WifiAttr::Ifname
    } else if t == 6 {
        WifiAttr::Mac
    } else if t == 47 {
        WifiAttr::Bss
    } else if t == 52 {
        WifiAttr::Ssid
    } else {
        WifiAttr::Other
    }
}

/// `Nl80211Attr::from(t)`, for the variants read here; the numbers are those
/// of the crate's table.
#[verifier::external_body]
pub(crate) fn wifi_attr(t: u16) -> (r: WifiAttr)
    ensures
        r == wifi_attr_of(t),
{
    match Nl80211Attr::from(t) {
        Nl80211Attr::AttrIfindex => WifiAttr::Ifindex,
        Nl80211Attr::AttrIfname => WifiAttr::Ifname,
        Nl80211Attr::AttrMac => WifiAttr::Mac,
        Nl80211Attr::AttrBss => WifiAttr::Bss,
        Nl80211Attr::AttrSsid => WifiAttr::Ssid,
        _ => WifiAttr::Other,
    }
}

/// The attributes of an access point (`Nl80211Bss`) that this manager reads.
#[derive(Debug, Clone, Copy, PartialEq, Eq, Structural)]
pub enum BssAttr {
    /// `BssBssid`, 1.
    Bssid,
    /// `BssFrequency`, 2.
    Frequency,
    /// `BssInformationElements`, 6.
    InformationElements,
    /// `BssSignalMbm`, 7.
    SignalMbm,
    /// `BssStatus`, 9.
    Status,
    Other,
}

pub open spec fn bss_attr_of(t: u16) -> BssAttr {
    if t == 1 {
        BssAttr::Bssid
    } else if t == 2 {
        BssAttr::Frequency
    } else if t == 6 {
        BssAttr::InformationElements
    } else if t == 7 {
        BssAttr::SignalMbm
    } else if t == 9 {
        BssAttr::Status
    } else {
        BssAttr::Other
    }
}

/// `Nl80211Bss::from(t)`, for the variants read here; the numbers are those
/// of the crate's table.
#[verifier::external_body]
pub(crate) fn bss_attr(t: u16) -> (r: BssAttr)
    ensures
        r == bss_attr_of(t),
{
    match Nl80211Bss::from(t) {
        Nl80211Bss::BssBssid => BssAttr::Bssid,
        Nl80211Bss::BssFrequency => BssAttr::Frequency,
        Nl80211Bss::BssInformationElements => BssAttr::InformationElements,
        Nl80211Bss::BssSignalMbm => BssAttr::SignalMbm,
        Nl80211Bss::BssStatus => BssAttr::Status,
        _ => BssAttr::Other,
    }
}

/// The nl80211 commands that a scan waits for.
#[derive(Debug, Clone, Copy, PartialEq, Eq, Structural)]
pub enum ScanEvent {
    /// `CmdNewScanResults`, 34: the scan is over and its results are cached.
    NewResults,
    /// `CmdScanAborted`, 35: another process interrupted the scan.
    Aborted,
    Other,
}

pub open spec fn scan_event_of(cmd: u8) -> ScanEvent {
    if cmd == 34 {
        ScanEvent::NewResults
    } else if cmd == 35 {
        ScanEvent::Aborted
    } else {
        ScanEvent::Other
    }
}

/// `Nl80211Cmd::from(cmd)`, for the variants a scan waits for; the numbers
/// are those of the crate's table.
#[verifier::external_body]
pub(crate) fn scan_event(cmd: u8) -> (r: ScanEvent)
    ensures
        r == scan_event_of(cmd),
{
    match Nl80211Cmd::from(cmd) {
        Nl80211Cmd::CmdNewScanResults => ScanEvent::NewResults,
        Nl80211Cmd::CmdScanAborted => ScanEvent::Aborted,
        _ => ScanEvent::Other,
    }
}

} // verus!
