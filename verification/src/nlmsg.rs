//! Netlink messages as `neli` reads them out of a received buffer, and the
//! replies of the kernel that the manager reads: scan, link and address
//! dumps, family descriptions, acknowledgements, route answers, link events
//! and the wireless interfaces' details.

use crate::daemon::{link_lost, removal_ack, AckStep};
use crate::family::{family_fold, family_start, id_read, read_family, FamilyFold, FamilyRead};
use crate::interfaces::{
    be_u32_of, native_u32_of, connection_from_link, first_ipv4, first_oif, message_ipv4, iface_fold, iface_start, iface_view, interface_from_link,
    link_fold, link_record, route_oif, IfaceFold, IfaceRead, IfaceView, LinkFold, LinkRead, LinkState,
};
use crate::netlink::{attr_views, scan_event_of, RawAttr, ScanEvent};
use crate::scan::{bss_hosts, host_view, le_u32_of, scan_hosts, trigger_scan_step, HostView, TriggerStep};
use crate::types::{CurrentConnection, FamilyInfo, Host, Interface};
use neli::err::Nlmsgerr;
use neli::genl::Genlmsghdr;
use neli::nl::{NlPayload, Nlmsghdr};
use neli::rtnl::{Ifaddrmsg, Ifinfomsg, Rtmsg};
use neli::types::Buffer;
use neli::{FromBytes, FromBytesWithInput};
use std::io::Cursor;
use vstd::prelude::*;

verus! {

/// A netlink message: its type, its flags, the code of an error message (0
/// for an acknowledgement), and its payload when it carries one.
#[derive(Debug)]
pub struct NlFrame {
    pub kind: u16,
    pub flags: u16,
    pub error: Option<i32>,
    pub body: Option<Vec<u8>>,
}

pub struct NlFrameView {
    pub kind: u16,
    pub flags: u16,
    pub error: Option<i32>,
    pub body: Option<Seq<u8>>,
}

impl View for NlFrame {
    type V = NlFrameView;

    open spec fn view(&self) -> NlFrameView {
        NlFrameView {
            kind: self.kind,
            flags: self.flags,
            error: self.error,
            body: match self.body {
                Some(b) => Some(b@),
                None => None,
            },
        }
    }
}

/// What `Nlmsghdr::<u16, Buffer>::from_bytes` of `neli` reads at offset
/// `pos` of `buf`: the message, and the offset after it and its padding;
/// `None` where it fails.
pub uninterp spec fn nl_frame_at(buf: Seq<u8>, pos: int) -> Option<(NlFrameView, int)>;

/// The number whose little-endian bytes start at `i`.
pub open spec fn le32(b: Seq<u8>, i: int) -> int {
    b[i] as int + b[i + 1] as int * 0x100 + b[i + 2] as int * 0x10000 + b[i + 3] as int * 0x1000000
}

/// The number whose big-endian bytes start at `i`.
pub open spec fn be32(b: Seq<u8>, i: int) -> int {
    b[i] as int * 0x1000000 + b[i + 1] as int * 0x10000 + b[i + 2] as int * 0x100 + b[i + 3] as int
}

/// The 32-bit number at `i` in one byte order: little-endian when `le`.
pub open spec fn word(b: Seq<u8>, i: int, le: bool) -> int {
    if le {
        le32(b, i)
    } else {
        be32(b, i)
    }
}

/// `n` rounded up to a multiple of four.
pub open spec fn align4(n: int) -> int {
    if n % 4 == 0 {
        n
    } else {
        n + 4 - n % 4
    }
}

/// The 16-bit number at `i` is `v` in one byte order.
pub open spec fn half_is(b: Seq<u8>, i: int, le: bool, v: u8) -> bool {
    if le {
        b[i] == v && b[i + 1] == 0
    } else {
        b[i] == 0 && b[i + 1] == v
    }
}

/// The flags of the message at `pos` hold `NLM_F_MULTI` (2) in one byte order.
pub open spec fn multi_in(b: Seq<u8>, pos: int, le: bool) -> bool {
    if le {
        b[pos + 6] & 2 == 2
    } else {
        b[pos + 7] & 2 == 2
    }
}

/// Reading the message at `pos` in the byte order `le` underflows no length:
/// the message is at least its header long; an error message (type 2) with
/// a nonzero code echoes a header at least its own length long and, where
/// the echoed message fits in the buffer, no longer than the room left after
/// the code; a multi-part end of dump (type 3) that does not end the buffer
/// has room for its code.
pub open spec fn frame_safe_in(b: Seq<u8>, pos: int, le: bool) -> bool {
    let n = b.len();
    let outer = word(b, pos, le);
    let inner = word(b, pos + 20, le);
    &&& outer >= 16
    &&& (half_is(b, pos + 4, le, 2) && pos + 36 <= n && (b[pos + 16] != 0 || b[pos + 17] != 0
        || b[pos + 18] != 0 || b[pos + 19] != 0)) ==> inner >= 16 && (pos + 20 + inner <= n ==> outer
        >= 20 + align4(inner))
    &&& (half_is(b, pos + 4, le, 3) && multi_in(b, pos, le) && pos + 16 < n) ==> outer >= 20
}

/// `neli` reads the message at `pos` without a panic, whatever the
/// machine's byte order. Where fewer bytes are left than a header, the read
/// fails instead.
pub open spec fn nl_frame_safe(b: Seq<u8>, pos: int) -> bool {
    pos + 16 > b.len() || (frame_safe_in(b, pos, true) && frame_safe_in(b, pos, false))
}

fn le32_exec(b: &[u8], i: usize) -> (r: u64)
    requires
        i + 4 <= b@.len(),
    ensures
        r == le32(b@, i as int),
{
    b[i] as u64 + b[i + 1] as u64 * 0x100 + b[i + 2] as u64 * 0x10000 + b[i + 3] as u64 * 0x1000000
}

fn be32_exec(b: &[u8], i: usize) -> (r: u64)
    requires
        i + 4 <= b@.len(),
    ensures
        r == be32(b@, i as int),
{
    b[i] as u64 * 0x1000000 + b[i + 1] as u64 * 0x10000 + b[i + 2] as u64 * 0x100 + b[i + 3] as u64
}

fn word_exec(b: &[u8], i: usize, le: bool) -> (r: u64)
    requires
        i + 4 <= b@.len(),
    ensures
        r == word(b@, i as int, le),
        r < 0x1_0000_0000,
{
    if le {
        le32_exec(b, i)
    } else {
        be32_exec(b, i)
    }
}

fn half_is_exec(b: &[u8], i: usize, le: bool, v: u8) -> (r: bool)
    requires
        i + 2 <= b@.len(),
    ensures
        r == half_is(b@, i as int, le, v),
{
    if le {
        b[i] == v && b[i + 1] == 0
    } else {
        b[i] == 0 && b[i + 1] == v
    }
}

fn frame_safe_in_exec(b: &[u8], pos: usize, le: bool) -> (r: bool)
    requires
        pos + 16 <= b@.len(),
    ensures
        r == frame_safe_in(b@, pos as int, le),
{
    let n = b.len();
    let outer = word_exec(b, pos, le);
    if outer < 16 {
        return false;
    }
    if half_is_exec(b, pos + 4, le, 2) && n - pos >= 36 && (b[pos + 16] != 0 || b[pos + 17] != 0
        || b[pos + 18] != 0 || b[pos + 19] != 0) {
        let inner = word_exec(b, pos + 20, le);
        if inner < 16 {
            return false;
        }
        let pad = if inner % 4 == 0 {
            0
        } else {
            4 - inner % 4
        };
        assert(align4(inner as int) == inner + pad);
        if (inner as u128) <= ((n - pos - 20) as u128) && outer < 20 + inner + pad {
            return false;
        }
    }
    let multi = if le {
        b[pos + 6] & 2 == 2
    } else {
        b[pos + 7] & 2 == 2
    };
    if half_is_exec(b, pos + 4, le, 3) && multi && n - pos > 16 {
        if outer < 20 {
            return false;
        }
    }
    true
}

/// Whether `neli` reads the message at `pos` without a panic.
pub fn frame_safe(b: &[u8], pos: usize) -> (r: bool)
    ensures
        r == nl_frame_safe(b@, pos as int),
{
    let n = b.len();
    if pos > n || n - pos < 16 {
        return true;
    }
    frame_safe_in_exec(b, pos, true) && frame_safe_in_exec(b, pos, false)
}

/// Reads the message at `pos` with `neli`. The result is the named
/// [`nl_frame_at`]; a message read takes at least its sixteen header bytes
/// and ends within the buffer, as `neli` reads the header's fields and
/// fails on a short buffer.
#[verifier::external_body]
fn read_frame(buf: &[u8], pos: usize) -> (r: Option<(NlFrame, usize)>)
    requires
        nl_frame_safe(buf@, pos as int),
    ensures
        r is Some <==> nl_frame_at(buf@, pos as int) is Some,
        r matches Some((f, next)) ==> nl_frame_at(buf@, pos as int) == Some((f@, next as int))
            && pos + 16 <= next <= buf@.len(),
{
    let mut c = Cursor::new(buf);
    c.set_position(pos as u64);
    let m = Nlmsghdr::<u16, Buffer>::from_bytes(&mut c).ok()?;
    let (error, body) = match m.nl_payload() {
        NlPayload::Ack(_) => (Some(0), None),
        NlPayload::Err(e) => (Some(*e.error()), None),
        NlPayload::Payload(b) => (None, Some(b.as_ref().to_vec())),
        _ => (None, None),
    };
    Some((NlFrame { kind: *m.nl_type(), flags: m.nl_flags().bits(), error, body }, c.position() as usize))
}

/// What the message at `pos` is: nothing more to read, a message that
/// `neli` would panic on, one that it fails to read, or the message and the
/// offset after it.
pub enum FrameStep {
    End,
    Unsafe,
    Unreadable,
    Frame(NlFrameView, int),
}

pub open spec fn frame_step(b: Seq<u8>, pos: int) -> FrameStep {
    if pos >= b.len() {
        FrameStep::End
    } else if !nl_frame_safe(b, pos) {
        FrameStep::Unsafe
    } else {
        match nl_frame_at(b, pos) {
            None => FrameStep::Unreadable,
            Some((f, next)) => FrameStep::Frame(f, next),
        }
    }
}

/// The message at `pos`, as [`frame_step`] tells it.
pub enum FrameAt {
    End,
    Unsafe,
    Unreadable,
    Frame(NlFrame, usize),
}

pub fn frame_at(b: &[u8], pos: usize) -> (r: FrameAt)
    ensures
        match frame_step(b@, pos as int) {
            FrameStep::End => r is End,
            FrameStep::Unsafe => r is Unsafe,
            FrameStep::Unreadable => r is Unreadable,
            FrameStep::Frame(f, next) => (r matches FrameAt::Frame(g, n) && g@ == f && n == next
                && pos + 16 <= next <= b@.len()),
        },
{
    if pos >= b.len() {
        return FrameAt::End;
    }
    if !frame_safe(b, pos) {
        return FrameAt::Unsafe;
    }
    match read_frame(b, pos) {
        None => FrameAt::Unreadable,
        Some((f, n)) => FrameAt::Frame(f, n),
    }
}

/// What `Genlmsghdr::<u8, u16>::from_bytes_with_input` of `neli` reads from
/// a whole message payload: the command and the attributes; `None` where it
/// fails.
pub uninterp spec fn genl_message(payload: Seq<u8>) -> Option<(u8, Seq<(u16, Seq<u8>)>)>;

/// Reads a generic netlink payload with `neli`; the result is the named
/// [`genl_message`].
#[verifier::external_body]
fn read_genl(payload: &[u8]) -> (r: Option<(u8, Vec<RawAttr>)>)
    ensures
        match genl_message(payload@) {
            None => r is None,
            Some((cmd, attrs)) => (r matches Some((c, a)) && c == cmd && attr_views(a@) == attrs),
        },
{
    let mut c = Cursor::new(payload);
    let g = Genlmsghdr::<u8, u16>::from_bytes_with_input(&mut c, payload.len()).ok()?;
    let attrs = g.attrs().iter().map(|a| RawAttr {
        kind: *a.nla_type().nla_type(),
        payload: a.nla_payload().as_ref().to_vec(),
    }).collect();
    Some((*g.cmd(), attrs))
}

/// What `Ifinfomsg::from_bytes_with_input` of `neli` reads from a whole
/// message payload: the link's index, its flags and its attributes (by their
/// full type); `None` where it fails.
pub uninterp spec fn link_message(payload: Seq<u8>) -> Option<(i32, u32, Seq<(u16, Seq<u8>)>)>;

/// Reads a link message payload with `neli`; the result is the named
/// [`link_message`].
#[verifier::external_body]
fn read_link(payload: &[u8]) -> (r: Option<(i32, u32, Vec<RawAttr>)>)
    ensures
        match link_message(payload@) {
            None => r is None,
            Some((i, f, attrs)) => (r matches Some((ri, rf, a)) && ri == i && rf == f && attr_views(
                a@,
            ) == attrs),
        },
{
    let m = Ifinfomsg::from_bytes_with_input(&mut Cursor::new(payload), payload.len()).ok()?;
    let attrs = m.rtattrs().iter().map(|a| RawAttr {
        kind: u16::from(*a.rta_type()),
        payload: a.rta_payload().as_ref().to_vec(),
    }).collect();
    Some((*m.ifi_index(), m.ifi_flags().bits(), attrs))
}

/// What `Rtmsg::from_bytes_with_input` of `neli` reads from a whole message
/// payload: the route's attributes (by their full type); `None` where it
/// fails.
pub uninterp spec fn route_message(payload: Seq<u8>) -> Option<Seq<(u16, Seq<u8>)>>;

/// Reads a route message payload with `neli`; the result is the named
/// [`route_message`].
#[verifier::external_body]
fn read_route(payload: &[u8]) -> (r: Option<Vec<RawAttr>>)
    ensures
        match route_message(payload@) {
            None => r is None,
            Some(attrs) => (r matches Some(a) && attr_views(a@) == attrs),
        },
{
    let m = Rtmsg::from_bytes_with_input(&mut Cursor::new(payload), payload.len()).ok()?;
    Some(m.rtattrs().iter().map(|a| RawAttr {
        kind: u16::from(*a.rta_type()),
        payload: a.rta_payload().as_ref().to_vec(),
    }).collect())
}

/// What `Ifaddrmsg::from_bytes_with_input` of `neli` reads from a whole
/// message payload: the interface's index and the attributes (by their full
/// type); `None` where it fails.
pub uninterp spec fn addr_message(payload: Seq<u8>) -> Option<(u32, Seq<(u16, Seq<u8>)>)>;

/// Reads an address message payload with `neli`; the result is the named
/// [`addr_message`].
#[verifier::external_body]
fn read_addr(payload: &[u8]) -> (r: Option<(u32, Vec<RawAttr>)>)
    ensures
        match addr_message(payload@) {
            None => r is None,
            Some((i, attrs)) => (r matches Some((ri, a)) && ri == i && attr_views(a@) == attrs),
        },
{
    let m = Ifaddrmsg::from_bytes_with_input(&mut Cursor::new(payload), payload.len()).ok()?;
    let attrs = m.rtattrs().iter().map(|a| RawAttr {
        kind: u16::from(*a.rta_type()),
        payload: a.rta_payload().as_ref().to_vec(),
    }).collect();
    Some((*m.ifa_index(), attrs))
}

/// What `Nlmsgerr::<u16>::from_bytes_with_input` of `neli` reads from a
/// whole message payload: its error code; `None` where it fails.
pub uninterp spec fn nlmsgerr_code(payload: Seq<u8>) -> Option<i32>;

/// Reads a message payload as an error message with `neli`; the result is
/// the named [`nlmsgerr_code`]. A payload shorter than its code and echoed
/// type, padded (eight bytes), is left out: the length of what follows them
/// underflows there.
#[verifier::external_body]
fn read_nlmsgerr(payload: &[u8]) -> (r: Option<i32>)
    requires
        payload@.len() >= 8,
    ensures
        r == nlmsgerr_code(payload@),
{
    Nlmsgerr::<u16>::from_bytes_with_input(&mut Cursor::new(payload), payload.len()).ok().map(|e| *e.error())
}

/// `NLMSG_DONE`, the end of a dump.
pub open spec fn DONE() -> u16 {
    3
}

/// What a buffer of a dump gives: the items of every message up to the end
/// of the dump, the items so far when the buffer ends first, the kernel's
/// error, a message that does not read, or one that `neli` would panic on.
#[derive(Debug)]
pub enum DumpRead<T> {
    Done(T),
    More(T),
    Failed(i32),
    Unreadable,
    Unsafe,
}

pub enum DumpView<T> {
    Done(T),
    More(T),
    Failed(i32),
    Unreadable,
    Unsafe,
}

/// The hosts of a scan dump from offset `pos` on, after `acc`: each message
/// adds the hosts of its access-point attributes; an error message (other
/// than an acknowledgement) ends with its code, the end of the dump with the
/// hosts. A payload is read as a generic netlink message.
pub open spec fn scan_dump(b: Seq<u8>, pos: int, acc: Seq<HostView>) -> DumpView<Seq<HostView>>
    decreases b.len() - pos,
{
    match frame_step(b, pos) {
        FrameStep::End => DumpView::More(acc),
        FrameStep::Unsafe => DumpView::Unsafe,
        FrameStep::Unreadable => DumpView::Unreadable,
        FrameStep::Frame(f, next) => if next <= pos || next > b.len() {
            DumpView::Unreadable
        } else {
            match f.error {
                Some(c) => if c != 0 {
                    DumpView::Failed(c)
                } else if f.kind == DONE() {
                    DumpView::Done(acc)
                } else {
                    scan_dump(b, next, acc)
                },
                None => match f.body {
                    None => if f.kind == DONE() {
                        DumpView::Done(acc)
                    } else {
                        scan_dump(b, next, acc)
                    },
                    Some(p) => match genl_message(p) {
                        None => DumpView::Unreadable,
                        Some((_, attrs)) => if f.kind == DONE() {
                            DumpView::Done(acc)
                        } else {
                            scan_dump(b, next, acc + bss_hosts(attrs))
                        },
                    },
                },
            }
        },
    }
}

pub open spec fn host_views(h: Seq<Host>) -> Seq<HostView> {
    h.map_values(|x: Host| host_view(x))
}

/// Reads a buffer of a scan dump.
pub fn read_scan_dump(buf: &[u8]) -> (r: DumpRead<Vec<Host>>)
    ensures
        match scan_dump(buf@, 0, Seq::empty()) {
            DumpView::Done(h) => (r matches DumpRead::Done(v) && host_views(v@) == h),
            DumpView::More(h) => (r matches DumpRead::More(v) && host_views(v@) == h),
            DumpView::Failed(c) => (r matches DumpRead::Failed(e) && e == c),
            DumpView::Unreadable => r is Unreadable,
            DumpView::Unsafe => r is Unsafe,
        },
{
    let mut hosts: Vec<Host> = Vec::new();
    let mut pos: usize = 0;
    assert(host_views(hosts@) =~= Seq::<HostView>::empty());
    loop
        invariant
            pos <= buf@.len(),
            scan_dump(buf@, pos as int, host_views(hosts@)) == scan_dump(buf@, 0, Seq::empty()),
        decreases buf@.len() - pos,
    {
        let ghost acc = host_views(hosts@);
        match frame_at(buf, pos) {
            FrameAt::End => {
                return DumpRead::More(hosts);
            },
            FrameAt::Unsafe => {
                return DumpRead::Unsafe;
            },
            FrameAt::Unreadable => {
                return DumpRead::Unreadable;
            },
            FrameAt::Frame(f, next) => {
                match f.error {
                    Some(c) => {
                        if c != 0 {
                            return DumpRead::Failed(c);
                        }
                        if f.kind == 3 {
                            return DumpRead::Done(hosts);
                        }
                    },
                    None => match f.body {
                        None => {
                            if f.kind == 3 {
                                return DumpRead::Done(hosts);
                            }
                        },
                        Some(p) => match read_genl(p.as_slice()) {
                            None => {
                                return DumpRead::Unreadable;
                            },
                            Some((_, attrs)) => {
                                if f.kind == 3 {
                                    return DumpRead::Done(hosts);
                                }
                                let mut found = scan_hosts(&attrs);
                                let ghost before = host_views(hosts@);
                                let ghost fv = found@;
                                assert(host_views(fv) =~= bss_hosts(attr_views(attrs@)));
                                hosts.append(&mut found);
                                assert(host_views(hosts@) =~= before + host_views(fv));
                            },
                        },
                    },
                }
                pos = next;
            },
        }
    }
}

/// The interfaces of a link dump from offset `pos` on, after `acc`: each link
/// message adds its interface; an error message (other than an
/// acknowledgement) ends with its code, the end of the dump with the
/// interfaces. A payload is read as a link message; `wireless` lists the names
/// that sysfs marks wireless.
pub open spec fn link_dump(b: Seq<u8>, pos: int, wireless: Seq<String>, acc: Seq<IfaceView>) -> DumpView<
    Seq<IfaceView>,
>
    decreases b.len() - pos,
{
    match frame_step(b, pos) {
        FrameStep::End => DumpView::More(acc),
        FrameStep::Unsafe => DumpView::Unsafe,
        FrameStep::Unreadable => DumpView::Unreadable,
        FrameStep::Frame(f, next) => if next <= pos || next > b.len() {
            DumpView::Unreadable
        } else {
            match f.error {
                Some(c) => if c != 0 {
                    DumpView::Failed(c)
                } else if f.kind == DONE() {
                    DumpView::Done(acc)
                } else {
                    link_dump(b, next, wireless, acc)
                },
                None => match f.body {
                    None => if f.kind == DONE() {
                        DumpView::Done(acc)
                    } else {
                        link_dump(b, next, wireless, acc)
                    },
                    Some(p) => match link_message(p) {
                        None => DumpView::Unreadable,
                        Some((index, _, attrs)) => if f.kind == DONE() {
                            DumpView::Done(acc)
                        } else {
                            match iface_fold(iface_start(index as u32), attrs, wireless) {
                                IfaceFold::Read(v) => link_dump(b, next, wireless, acc.push(v)),
                                IfaceFold::BadName => DumpView::Unreadable,
                                IfaceFold::EmptyName => DumpView::Unsafe,
                            }
                        },
                    },
                },
            }
        },
    }
}

pub open spec fn iface_views(v: Seq<Interface>) -> Seq<IfaceView> {
    v.map_values(|i: Interface| iface_view(i))
}

/// Reads a buffer of a link dump into interfaces; `wireless` lists the names
/// that sysfs marks wireless.
pub fn read_link_dump(buf: &[u8], wireless: &Vec<String>) -> (r: DumpRead<Vec<Interface>>)
    ensures
        match link_dump(buf@, 0, wireless@, Seq::empty()) {
            DumpView::Done(v) => (r matches DumpRead::Done(w) && iface_views(w@) == v),
            DumpView::More(v) => (r matches DumpRead::More(w) && iface_views(w@) == v),
            DumpView::Failed(c) => (r matches DumpRead::Failed(e) && e == c),
            DumpView::Unreadable => r is Unreadable,
            DumpView::Unsafe => r is Unsafe,
        },
{
    let mut ifaces: Vec<Interface> = Vec::new();
    let mut pos: usize = 0;
    assert(iface_views(ifaces@) =~= Seq::<IfaceView>::empty());
    loop
        invariant
            pos <= buf@.len(),
            link_dump(buf@, pos as int, wireless@, iface_views(ifaces@)) == link_dump(
                buf@,
                0,
                wireless@,
                Seq::empty(),
            ),
        decreases buf@.len() - pos,
    {
        match frame_at(buf, pos) {
            FrameAt::End => {
                return DumpRead::More(ifaces);
            },
            FrameAt::Unsafe => {
                return DumpRead::Unsafe;
            },
            FrameAt::Unreadable => {
                return DumpRead::Unreadable;
            },
            FrameAt::Frame(f, next) => {
                match f.error {
                    Some(c) => {
                        if c != 0 {
                            return DumpRead::Failed(c);
                        }
                        if f.kind == 3 {
                            return DumpRead::Done(ifaces);
                        }
                    },
                    None => match f.body {
                        None => {
                            if f.kind == 3 {
                                return DumpRead::Done(ifaces);
                            }
                        },
                        Some(p) => match read_link(p.as_slice()) {
                            None => {
                                return DumpRead::Unreadable;
                            },
                            Some((index, _, attrs)) => {
                                if f.kind == 3 {
                                    return DumpRead::Done(ifaces);
                                }
                                match interface_from_link(index, &attrs, wireless) {
                                    IfaceRead::Read(i) => {
                                        let ghost before = iface_views(ifaces@);
                                        ifaces.push(i);
                                        assert(iface_views(ifaces@) =~= before.push(iface_view(i)));
                                    },
                                    IfaceRead::BadName => {
                                        return DumpRead::Unreadable;
                                    },
                                    IfaceRead::EmptyName => {
                                        return DumpRead::Unsafe;
                                    },
                                }
                            },
                        },
                    },
                }
                pos = next;
            },
        }
    }
}

/// The links that are up in a link dump from offset `pos` on, after `acc`,
/// each as its index and what its attributes tell; as [`link_dump`] walks
/// the messages.
pub open spec fn up_dump(b: Seq<u8>, pos: int, acc: Seq<(u32, LinkState)>) -> DumpView<
    Seq<(u32, LinkState)>,
>
    decreases b.len() - pos,
{
    match frame_step(b, pos) {
        FrameStep::End => DumpView::More(acc),
        FrameStep::Unsafe => DumpView::Unsafe,
        FrameStep::Unreadable => DumpView::Unreadable,
        FrameStep::Frame(f, next) => if next <= pos || next > b.len() {
            DumpView::Unreadable
        } else {
            match f.error {
                Some(c) => if c != 0 {
                    DumpView::Failed(c)
                } else if f.kind == DONE() {
                    DumpView::Done(acc)
                } else {
                    up_dump(b, next, acc)
                },
                None => match f.body {
                    None => if f.kind == DONE() {
                        DumpView::Done(acc)
                    } else {
                        up_dump(b, next, acc)
                    },
                    Some(p) => match link_message(p) {
                        None => DumpView::Unreadable,
                        Some((index, _, attrs)) => if f.kind == DONE() {
                            DumpView::Done(acc)
                        } else {
                            match link_fold(LinkState { ifname: None, mac: None, up: false }, attrs) {
                                LinkFold::Read(st) => if st.up {
                                    up_dump(b, next, acc.push((index as u32, st)))
                                } else {
                                    up_dump(b, next, acc)
                                },
                                LinkFold::BadName => DumpView::Unreadable,
                                LinkFold::EmptyAttr => DumpView::Unsafe,
                            }
                        },
                    },
                },
            }
        },
    }
}

/// Each record is that of the link that is up at the same place.
pub open spec fn up_records(v: Seq<CurrentConnection>, ups: Seq<(u32, LinkState)>) -> bool {
    &&& v.len() == ups.len()
    &&& forall|k: int| 0 <= k < v.len() ==> link_record(#[trigger] v[k], ups[k].0, ups[k].1)
}

/// Reads a buffer of a link dump into the records of the links that are up.
pub fn read_up_dump(buf: &[u8]) -> (r: DumpRead<Vec<CurrentConnection>>)
    ensures
        match up_dump(buf@, 0, Seq::empty()) {
            DumpView::Done(u) => (r matches DumpRead::Done(v) && up_records(v@, u)),
            DumpView::More(u) => (r matches DumpRead::More(v) && up_records(v@, u)),
            DumpView::Failed(c) => (r matches DumpRead::Failed(e) && e == c),
            DumpView::Unreadable => r is Unreadable,
            DumpView::Unsafe => r is Unsafe,
        },
{
    let mut conns: Vec<CurrentConnection> = Vec::new();
    let ghost mut ups: Seq<(u32, LinkState)> = Seq::empty();
    let mut pos: usize = 0;
    loop
        invariant
            pos <= buf@.len(),
            up_records(conns@, ups),
            up_dump(buf@, pos as int, ups) == up_dump(buf@, 0, Seq::empty()),
        decreases buf@.len() - pos,
    {
        match frame_at(buf, pos) {
            FrameAt::End => {
                return DumpRead::More(conns);
            },
            FrameAt::Unsafe => {
                return DumpRead::Unsafe;
            },
            FrameAt::Unreadable => {
                return DumpRead::Unreadable;
            },
            FrameAt::Frame(f, next) => {
                match f.error {
                    Some(c) => {
                        if c != 0 {
                            return DumpRead::Failed(c);
                        }
                        if f.kind == 3 {
                            return DumpRead::Done(conns);
                        }
                    },
                    None => match f.body {
                        None => {
                            if f.kind == 3 {
                                return DumpRead::Done(conns);
                            }
                        },
                        Some(p) => match read_link(p.as_slice()) {
                            None => {
                                return DumpRead::Unreadable;
                            },
                            Some((index, _, attrs)) => {
                                if f.kind == 3 {
                                    return DumpRead::Done(conns);
                                }
                                let ghost st = link_fold(
                                    LinkState { ifname: None, mac: None, up: false },
                                    attr_views(attrs@),
                                );
                                match connection_from_link(index, &attrs) {
                                    LinkRead::Up(c) => {
                                        proof {
                                            ups = ups.push((index as u32, st->Read_0));
                                        }
                                        conns.push(c);
                                    },
                                    LinkRead::Down => {},
                                    LinkRead::BadName => {
                                        return DumpRead::Unreadable;
                                    },
                                    LinkRead::EmptyAttr => {
                                        return DumpRead::Unsafe;
                                    },
                                }
                            },
                        },
                    },
                }
                pos = next;
            },
        }
    }
}

/// What a family description says: the family as [`read_family`] reads its
/// attributes, the kernel's error, or a reply that does not read or that
/// `neli` would panic on.
#[derive(Debug)]
pub enum FamilyReply {
    Family(FamilyRead),
    Failed(i32),
    Unreadable,
    Unsafe,
}

/// `r` is what [`read_family`] gives for the attributes `attrs`.
pub open spec fn family_outcome(r: FamilyRead, attrs: Seq<(u16, Seq<u8>)>) -> bool {
    match family_fold(family_start(), attrs) {
        FamilyFold::ShortId => r is ShortId,
        FamilyFold::Malformed => r is MalformedGroup,
        FamilyFold::Read(st) => (r matches FamilyRead::Read(info) && info.name@ == st.name
            && info.scan_group_id == st.group && id_read(st.id, info.id)),
    }
}

/// Reads the first message of the answer to a family request: an error
/// message (other than an acknowledgement) gives its code; a payload is read
/// as a generic netlink message whose attributes describe the family; a
/// message without a payload describes nothing (name empty, ids 0).
pub fn read_family_reply(buf: &[u8]) -> (r: FamilyReply)
    ensures
        match frame_step(buf@, 0) {
            FrameStep::End => r is Unreadable,
            FrameStep::Unsafe => r is Unsafe,
            FrameStep::Unreadable => r is Unreadable,
            FrameStep::Frame(f, _) => match (f.error, f.body) {
                (Some(c), _) if c != 0 => (r matches FamilyReply::Failed(e) && e == c),
                (_, Some(p)) => match genl_message(p) {
                    None => r is Unreadable,
                    Some((_, attrs)) => (r matches FamilyReply::Family(fr) && family_outcome(fr, attrs)),
                },
                (_, None) => (r matches FamilyReply::Family(FamilyRead::Read(info)) && info.name@.len()
                    == 0 && info.id == 0 && info.scan_group_id == 0),
            },
        },
{
    match frame_at(buf, 0) {
        FrameAt::End => FamilyReply::Unreadable,
        FrameAt::Unsafe => FamilyReply::Unsafe,
        FrameAt::Unreadable => FamilyReply::Unreadable,
        FrameAt::Frame(f, _) => {
            if let Some(c) = f.error {
                if c != 0 {
                    return FamilyReply::Failed(c);
                }
            }
            match f.body {
                Some(p) => match read_genl(p.as_slice()) {
                    None => FamilyReply::Unreadable,
                    Some((_, attrs)) => FamilyReply::Family(read_family(&attrs)),
                },
                None => FamilyReply::Family(
                    FamilyRead::Read(FamilyInfo { name: String::new(), id: 0, scan_group_id: 0 }),
                ),
            }
        },
    }
}

/// How a scan request goes on, as [`trigger_scan_step`] decides from an
/// error code and a command.
pub open spec fn trigger_of(error: Option<i32>, cmd: Option<u8>) -> TriggerStep {
    match error {
        Some(e) => if e == -16 {
            TriggerStep::Wait
        } else {
            TriggerStep::Failed(e)
        },
        None => match cmd {
            Some(c) => match scan_event_of(c) {
                ScanEvent::NewResults => TriggerStep::Done,
                ScanEvent::Aborted => TriggerStep::Aborted,
                ScanEvent::Other => TriggerStep::Wait,
            },
            None => TriggerStep::Wait,
        },
    }
}

/// What a message received while a scan runs decides.
#[derive(Debug)]
pub enum TriggerReply {
    Step(TriggerStep),
    Unreadable,
    Unsafe,
}

/// Reads the first message received while a scan runs: an error message
/// (other than an acknowledgement) gives its code, a payload its command.
pub fn read_trigger_reply(buf: &[u8]) -> (r: TriggerReply)
    ensures
        match frame_step(buf@, 0) {
            FrameStep::End => r is Unreadable,
            FrameStep::Unsafe => r is Unsafe,
            FrameStep::Unreadable => r is Unreadable,
            FrameStep::Frame(f, _) => match (f.error, f.body) {
                (Some(c), _) if c != 0 => r == TriggerReply::Step(trigger_of(Some(c), None)),
                (_, Some(p)) => match genl_message(p) {
                    None => r is Unreadable,
                    Some((cmd, _)) => r == TriggerReply::Step(trigger_of(None, Some(cmd))),
                },
                (_, None) => r == TriggerReply::Step(trigger_of(None, None)),
            },
        },
{
    match frame_at(buf, 0) {
        FrameAt::End => TriggerReply::Unreadable,
        FrameAt::Unsafe => TriggerReply::Unsafe,
        FrameAt::Unreadable => TriggerReply::Unreadable,
        FrameAt::Frame(f, _) => {
            if let Some(c) = f.error {
                if c != 0 {
                    return TriggerReply::Step(trigger_scan_step(Some(c), None));
                }
            }
            match f.body {
                Some(p) => match read_genl(p.as_slice()) {
                    None => TriggerReply::Unreadable,
                    Some((cmd, _)) => TriggerReply::Step(trigger_scan_step(None, Some(cmd))),
                },
                None => TriggerReply::Step(trigger_scan_step(None, None)),
            }
        },
    }
}

/// What an acknowledgement reads as, as [`removal_ack`] decides.
pub open spec fn ack_of(error: Option<i32>, kind: u16) -> AckStep {
    match error {
        Some(e) => if e == 0 {
            AckStep::Done
        } else {
            AckStep::Failed(e)
        },
        None => if kind == DONE() {
            AckStep::Done
        } else {
            AckStep::Wait
        },
    }
}

/// The answer to a removal, from the first message received.
#[derive(Debug)]
pub enum AckReply {
    Step(AckStep),
    Unreadable,
    Unsafe,
}

/// Reads the first message of the answer to a removal: an error message or
/// an acknowledgement gives its code; a payload is read as an error message
/// too, whose code counts the same way; a message without either reads as
/// [`ack_of`] its type.
pub fn read_ack(buf: &[u8]) -> (r: AckReply)
    ensures
        match frame_step(buf@, 0) {
            FrameStep::End => r is Unreadable,
            FrameStep::Unsafe => r is Unsafe,
            FrameStep::Unreadable => r is Unreadable,
            FrameStep::Frame(f, _) => match (f.error, f.body) {
                (Some(c), _) => r == AckReply::Step(ack_of(Some(c), f.kind)),
                (None, Some(p)) => if p.len() < 8 {
                    r is Unsafe
                } else {
                    match nlmsgerr_code(p) {
                        None => r is Unreadable,
                        Some(c) => r == AckReply::Step(ack_of(Some(c), f.kind)),
                    }
                },
                (None, None) => r == AckReply::Step(ack_of(None, f.kind)),
            },
        },
{
    match frame_at(buf, 0) {
        FrameAt::End => AckReply::Unreadable,
        FrameAt::Unsafe => AckReply::Unsafe,
        FrameAt::Unreadable => AckReply::Unreadable,
        FrameAt::Frame(f, _) => match (f.error, f.body) {
            (Some(c), _) => AckReply::Step(removal_ack(Some(c), f.kind)),
            (None, Some(p)) => {
                if p.len() < 8 {
                    return AckReply::Unsafe;
                }
                match read_nlmsgerr(p.as_slice()) {
                    None => AckReply::Unreadable,
                    Some(c) => AckReply::Step(removal_ack(Some(c), f.kind)),
                }
            },
            (None, None) => AckReply::Step(removal_ack(None, f.kind)),
        },
    }
}

/// The answer to a route request: the output interface's index, if the
/// route names one.
#[derive(Debug)]
pub enum RouteReply {
    Index(Option<u32>),
    Failed(i32),
    /// The output interface attribute is shorter than an index.
    ShortIndex,
    Unreadable,
    Unsafe,
}

/// Reads the first message of the answer to a route request: an error
/// message (other than an acknowledgement) gives its code; a payload is read
/// as a route whose first output-interface attribute gives the index.
pub fn read_route_reply(buf: &[u8]) -> (r: RouteReply)
    ensures
        match frame_step(buf@, 0) {
            FrameStep::End => r is Unreadable,
            FrameStep::Unsafe => r is Unsafe,
            FrameStep::Unreadable => r is Unreadable,
            FrameStep::Frame(f, _) => match (f.error, f.body) {
                (Some(c), _) if c != 0 => (r matches RouteReply::Failed(e) && e == c),
                (_, Some(p)) => match route_message(p) {
                    None => r is Unreadable,
                    Some(attrs) => match first_oif(attrs) {
                        None => r == RouteReply::Index(None),
                        Some(q) => if q.len() >= 4 {
                            r matches RouteReply::Index(Some(v)) && (v == le_u32_of(q) || v
                                == be_u32_of(q)) && v == native_u32_of(q)
                        } else {
                            r is ShortIndex
                        },
                    },
                },
                (_, None) => r == RouteReply::Index(None),
            },
        },
{
    match frame_at(buf, 0) {
        FrameAt::End => RouteReply::Unreadable,
        FrameAt::Unsafe => RouteReply::Unsafe,
        FrameAt::Unreadable => RouteReply::Unreadable,
        FrameAt::Frame(f, _) => {
            if let Some(c) = f.error {
                if c != 0 {
                    return RouteReply::Failed(c);
                }
            }
            match f.body {
                Some(p) => match read_route(p.as_slice()) {
                    None => RouteReply::Unreadable,
                    Some(attrs) => match route_oif(&attrs) {
                        Ok(i) => RouteReply::Index(i),
                        Err(_) => RouteReply::ShortIndex,
                    },
                },
                None => RouteReply::Index(None),
            }
        },
    }
}

/// Whether a link message of type `kind` for the link `index` with the flags
/// `flags` tells that the link `ifindex` went down, as [`link_lost`] decides.
pub open spec fn lost_of(kind: u16, index: i32, flags: u32, ifindex: i32) -> bool {
    kind == 16 && index == ifindex && ((flags & 1) != 1 || (flags & 0x40) != 0x40)
}

/// What a link event says of the watched link.
#[derive(Debug)]
pub enum LinkEvent {
    Lost,
    Stay,
    Failed(i32),
    Unreadable,
    Unsafe,
}

/// Reads the first message of a link event for the watched link `ifindex`.
pub fn read_link_event(buf: &[u8], ifindex: i32) -> (r: LinkEvent)
    ensures
        match frame_step(buf@, 0) {
            FrameStep::End => r is Unreadable,
            FrameStep::Unsafe => r is Unsafe,
            FrameStep::Unreadable => r is Unreadable,
            FrameStep::Frame(f, _) => match (f.error, f.body) {
                (Some(c), _) if c != 0 => (r matches LinkEvent::Failed(e) && e == c),
                (_, Some(p)) => match link_message(p) {
                    None => r is Unreadable,
                    Some((i, fl, _)) => if lost_of(f.kind, i, fl, ifindex) {
                        r is Lost
                    } else {
                        r is Stay
                    },
                },
                (_, None) => r is Stay,
            },
        },
{
    match frame_at(buf, 0) {
        FrameAt::End => LinkEvent::Unreadable,
        FrameAt::Unsafe => LinkEvent::Unsafe,
        FrameAt::Unreadable => LinkEvent::Unreadable,
        FrameAt::Frame(f, _) => {
            if let Some(c) = f.error {
                if c != 0 {
                    return LinkEvent::Failed(c);
                }
            }
            match f.body {
                Some(p) => match read_link(p.as_slice()) {
                    None => LinkEvent::Unreadable,
                    Some((i, fl, _)) => if link_lost(f.kind, i, fl, ifindex) {
                        LinkEvent::Lost
                    } else {
                        LinkEvent::Stay
                    },
                },
                None => LinkEvent::Stay,
            }
        },
    }
}

/// What the messages of an address dump from offset `pos` on give for the
/// interface `ifindex`: the first IPv4 address of a message about it, the
/// kernel's error, or nothing once the messages end or one does not read.
pub enum AddrFind {
    Found(u32),
    NotFound,
    Failed(i32),
    Unsafe,
}

pub open spec fn addr_find(b: Seq<u8>, pos: int, ifindex: u32) -> AddrFind
    decreases b.len() - pos,
{
    match frame_step(b, pos) {
        FrameStep::End => AddrFind::NotFound,
        FrameStep::Unsafe => AddrFind::Unsafe,
        FrameStep::Unreadable => AddrFind::NotFound,
        FrameStep::Frame(f, next) => if next <= pos || next > b.len() {
            AddrFind::NotFound
        } else {
            match (f.error, f.body) {
                (Some(c), _) => if c != 0 {
                    AddrFind::Failed(c)
                } else {
                    addr_find(b, next, ifindex)
                },
                (None, Some(p)) => match addr_message(p) {
                    None => AddrFind::NotFound,
                    Some((index, attrs)) => if index == ifindex && first_ipv4(attrs) is Some {
                        AddrFind::Found(first_ipv4(attrs)->0)
                    } else {
                        addr_find(b, next, ifindex)
                    },
                },
                (None, None) => addr_find(b, next, ifindex),
            }
        },
    }
}

/// Reads a buffer of an address dump for the address of the interface
/// `ifindex`.
pub fn read_addr_dump(buf: &[u8], ifindex: u32) -> (r: AddrFind)
    ensures
        r == addr_find(buf@, 0, ifindex),
{
    let mut pos: usize = 0;
    loop
        invariant
            pos <= buf@.len(),
            addr_find(buf@, pos as int, ifindex) == addr_find(buf@, 0, ifindex),
        decreases buf@.len() - pos,
    {
        match frame_at(buf, pos) {
            FrameAt::End => {
                return AddrFind::NotFound;
            },
            FrameAt::Unsafe => {
                return AddrFind::Unsafe;
            },
            FrameAt::Unreadable => {
                return AddrFind::NotFound;
            },
            FrameAt::Frame(f, next) => {
                match f.error {
                    Some(c) => {
                        if c != 0 {
                            return AddrFind::Failed(c);
                        }
                    },
                    None => match f.body {
                        Some(p) => match read_addr(p.as_slice()) {
                            None => {
                                return AddrFind::NotFound;
                            },
                            Some((index, attrs)) => {
                                if index == ifindex {
                                    if let Some(ip) = message_ipv4(&attrs) {
                                        return AddrFind::Found(ip);
                                    }
                                }
                            },
                        },
                        None => {},
                    },
                }
                pos = next;
            },
        }
    }
}

/// A message of a generic netlink reply: the attributes of a payload, the
/// code of an error, or anything else (an acknowledgement, an end of dump).
#[derive(Debug)]
pub enum GenlItem {
    Attrs(Vec<RawAttr>),
    Error(i32),
    Other,
}

pub enum GenlItemView {
    Attrs(Seq<(u16, Seq<u8>)>),
    Error(i32),
    Other,
}

impl View for GenlItem {
    type V = GenlItemView;

    open spec fn view(&self) -> GenlItemView {
        match self {
            GenlItem::Attrs(a) => GenlItemView::Attrs(attr_views(a@)),
            GenlItem::Error(c) => GenlItemView::Error(*c),
            GenlItem::Other => GenlItemView::Other,
        }
    }
}

/// What reading every message of a buffer gives: the messages in order, each
/// payload read as a generic netlink message; or a message that does not
/// read, or that `neli` would panic on.
pub enum GenlAll {
    Items(Seq<GenlItemView>),
    Unreadable,
    Unsafe,
}

/// The messages from offset `pos` on, after `acc`.
pub open spec fn genl_all(b: Seq<u8>, pos: int, acc: Seq<GenlItemView>) -> GenlAll
    decreases b.len() - pos,
{
    match frame_step(b, pos) {
        FrameStep::End => GenlAll::Items(acc),
        FrameStep::Unsafe => GenlAll::Unsafe,
        FrameStep::Unreadable => GenlAll::Unreadable,
        FrameStep::Frame(f, next) => if next <= pos || next > b.len() {
            GenlAll::Unreadable
        } else {
            match (f.error, f.body) {
                (Some(c), _) => genl_all(
                    b,
                    next,
                    acc.push(
                        if c != 0 {
                            GenlItemView::Error(c)
                        } else {
                            GenlItemView::Other
                        },
                    ),
                ),
                (None, Some(p)) => match genl_message(p) {
                    None => GenlAll::Unreadable,
                    Some((_, attrs)) => genl_all(b, next, acc.push(GenlItemView::Attrs(attrs))),
                },
                (None, None) => genl_all(b, next, acc.push(GenlItemView::Other)),
            }
        },
    }
}

pub open spec fn item_views(v: Seq<GenlItem>) -> Seq<GenlItemView> {
    v.map_values(|i: GenlItem| i@)
}

/// The outcome of reading every message of a buffer.
#[derive(Debug)]
pub enum GenlRead {
    Items(Vec<GenlItem>),
    Unreadable,
    Unsafe,
}

/// Reads every message of a buffer of generic netlink messages, in order.
pub fn read_genl_messages(buf: &[u8]) -> (r: GenlRead)
    ensures
        match genl_all(buf@, 0, Seq::empty()) {
            GenlAll::Items(v) => (r matches GenlRead::Items(w) && item_views(w@) == v),
            GenlAll::Unreadable => r is Unreadable,
            GenlAll::Unsafe => r is Unsafe,
        },
{
    let mut items: Vec<GenlItem> = Vec::new();
    let mut pos: usize = 0;
    assert(item_views(items@) =~= Seq::<GenlItemView>::empty());
    loop
        invariant
            pos <= buf@.len(),
            genl_all(buf@, pos as int, item_views(items@)) == genl_all(buf@, 0, Seq::empty()),
        decreases buf@.len() - pos,
    {
        let ghost before = item_views(items@);
        match frame_at(buf, pos) {
            FrameAt::End => {
                return GenlRead::Items(items);
            },
            FrameAt::Unsafe => {
                return GenlRead::Unsafe;
            },
            FrameAt::Unreadable => {
                return GenlRead::Unreadable;
            },
            FrameAt::Frame(f, next) => {
                let item = match f.error {
                    Some(c) => if c != 0 {
                        GenlItem::Error(c)
                    } else {
                        GenlItem::Other
                    },
                    None => match f.body {
                        Some(p) => match read_genl(p.as_slice()) {
                            None => {
                                return GenlRead::Unreadable;
                            },
                            Some((_, attrs)) => GenlItem::Attrs(attrs),
                        },
                        None => GenlItem::Other,
                    },
                };
                items.push(item);
                assert(item_views(items@) =~= before.push(item@));
                pos = next;
            },
        }
    }
}

} // verus!
