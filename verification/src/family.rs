//! Reading a generic netlink family: its id, its name, and the multicast
//! group on which nl80211 announces scan results.

use crate::netlink::{attr_views, attrs_from, nested_attrs, RawAttr};
use crate::scan::{le_u32, le_u32_of, lossy_text, utf8_lossy};
use crate::text::push_char;
use crate::types::FamilyInfo;
use neli::consts::genl::{CtrlAttr, CtrlAttrMcastGrp};
use neli::FromBytes;
use std::io::Cursor;
use vstd::endian::{endianness, Endian};
use vstd::prelude::*;
use vstd::string::*;

verus! {

/// A text with its trailing NUL characters removed.
pub open spec fn trim_nuls(s: Seq<char>) -> Seq<char>
    decreases s.len(),
{
    if s.len() > 0 && s.last() == '\0' {
        trim_nuls(s.drop_last())
    } else {
        s
    }
}

/// The text without its trailing NUL characters, as
/// `trim_end_matches('\0')` gives it.
pub fn trim_nuls_exec(s: &str) -> (r: String)
    ensures
        r@ == trim_nuls(s@),
{
    let n = s.unicode_len();
    let mut end = n;
    assert(s@.take(n as int) =~= s@);
    while end > 0 && s.get_char(end - 1) == '\0'
        invariant
            end <= n == s@.len(),
            trim_nuls(s@.take(end as int)) == trim_nuls(s@),
        decreases end,
    {
        assert(s@.take(end - 1) =~= s@.take(end as int).drop_last());
        end = end - 1;
    }
    let mut r = String::new();
    let mut i: usize = 0;
    while i < end
        invariant
            i <= end <= n == s@.len(),
            r@ == s@.take(i as int),
        decreases end - i,
    {
        push_char(&mut r, s.get_char(i));
        i = i + 1;
        assert(r@ =~= s@.take(i as int));
    }
    r
}

/// The attributes of a multicast group that are read.
#[derive(Debug, Clone, Copy, PartialEq, Eq, Structural)]
pub enum McastAttr {
    /// `CtrlAttrMcastGrp::Name`, 1.
    Name,
    /// `CtrlAttrMcastGrp::Id`, 2.
    Id,
    Other,
}

pub open spec fn mcast_attr_of(t: u16) -> McastAttr {
    if t == 1 {
        McastAttr::Name
    } else if t == 2 {
        McastAttr::Id
    } else {
        McastAttr::Other
    }
}

/// `CtrlAttrMcastGrp::from(t)` of `neli`, whose variants carry libc's
/// `CTRL_ATTR_MCAST_GRP_NAME` (1) and `CTRL_ATTR_MCAST_GRP_ID` (2).
#[verifier::external_body]
fn mcast_attr(t: u16) -> (r: McastAttr)
    ensures
        r == mcast_attr_of(t),
{
    match CtrlAttrMcastGrp::from(t) {
        CtrlAttrMcastGrp::Name => McastAttr::Name,
        CtrlAttrMcastGrp::Id => McastAttr::Id,
        _ => McastAttr::Other,
    }
}

/// The name and id after reading the attributes of one group, which start
/// from the name and id that earlier groups left; `None` when an id has
/// fewer than four bytes, which would panic.
pub open spec fn group_fold(name: Seq<char>, id: u32, inner: Seq<(u16, Seq<u8>)>) -> Option<
    (Seq<char>, u32),
>
    decreases inner.len(),
{
    if inner.len() == 0 {
        Some((name, id))
    } else {
        let rest = inner.drop_first();
        let p = inner[0].1;
        match mcast_attr_of(inner[0].0) {
            McastAttr::Name => group_fold(trim_nuls(utf8_lossy(p)), id, rest),
            McastAttr::Id => if p.len() < 4 {
                None
            } else {
                group_fold(name, le_u32_of(p), rest)
            },
            McastAttr::Other => group_fold(name, id, rest),
        }
    }
}

/// The outcome of searching the multicast groups for the scan group.
#[derive(Debug, Clone, Copy, PartialEq, Eq, Structural)]
pub enum McastSearch {
    /// The id of the group named `scan`.
    Found(u32),
    /// No group is named `scan`.
    NotFound,
    /// A group id has fewer than four bytes.
    Malformed,
}

/// Walks the groups in order from the name and id that earlier groups
/// left, up to the first whose name, once read, is `scan`: the name and id
/// then read, and whether that group was found; `None` when a group id is
/// too short.
pub open spec fn mcast_walk(name: Seq<char>, id: u32, groups: Seq<(u16, Seq<u8>)>) -> Option<
    (Seq<char>, u32, bool),
>
    decreases groups.len(),
{
    if groups.len() == 0 {
        Some((name, id, false))
    } else {
        match group_fold(name, id, attrs_from(groups[0].1, 0)) {
            None => None,
            Some((n, i)) => if n == "scan"@ {
                Some((n, i, true))
            } else {
                mcast_walk(n, i, groups.drop_first())
            },
        }
    }
}

/// The outcome of a walk: the id of the group named `scan`, if found.
pub open spec fn mcast_search(name: Seq<char>, id: u32, groups: Seq<(u16, Seq<u8>)>) -> McastSearch {
    match mcast_walk(name, id, groups) {
        None => McastSearch::Malformed,
        Some((_, i, true)) => McastSearch::Found(i),
        Some((_, _, false)) => McastSearch::NotFound,
    }
}

/// Walks the multicast groups listed in the payload of a family's
/// `McastGroups` attribute, from the name and id that earlier groups left.
pub fn walk_groups(mcast: &[u8], start_name: String, start_id: u32) -> (r: Option<(String, u32, bool)>)
    ensures
        match mcast_walk(start_name@, start_id, attrs_from(mcast@, 0)) {
            None => r is None,
            Some((n, i, found)) => (r matches Some((rn, ri, rf)) && rn@ == n && ri == i && rf == found),
        },
{
    proof {
        reveal_strlit("scan");
    }
    let scan = String::from_str("scan");
    let groups = nested_attrs(mcast);
    let ghost all = attr_views(groups@);
    let mut name = start_name;
    let mut id: u32 = start_id;
    let mut g: usize = 0;
    assert(all.skip(0) =~= all);
    while g < groups.len()
        invariant
            0 <= g <= groups@.len(),
            all == attr_views(groups@),
            all == attrs_from(mcast@, 0),
            scan@ == "scan"@,
            mcast_walk(name@, id, all.skip(g as int)) == mcast_walk(start_name@, start_id, all),
        decreases groups@.len() - g,
    {
        assert(all.skip(g as int)[0] == groups@[g as int]@);
        assert(all.skip(g as int).drop_first() =~= all.skip(g + 1));
        let inner = nested_attrs(&groups[g].payload);
        let ghost iv = attr_views(inner@);
        let ghost first_name = name@;
        let ghost first_id = id;
        let mut k: usize = 0;
        assert(iv.skip(0) =~= iv);
        while k < inner.len()
            invariant
                0 <= k <= inner@.len(),
                iv == attr_views(inner@),
                iv == attrs_from(groups@[g as int].payload@, 0),
                0 <= g < groups@.len(),
                all == attr_views(groups@),
                all == attrs_from(mcast@, 0),
                scan@ == "scan"@,
                all.skip(g as int)[0] == groups@[g as int]@,
                all.skip(g as int).drop_first() == all.skip(g + 1),
                mcast_walk(first_name, first_id, all.skip(g as int)) == mcast_walk(
                    start_name@,
                    start_id,
                    all,
                ),
                group_fold(name@, id, iv.skip(k as int)) == group_fold(first_name, first_id, iv),
            decreases inner@.len() - k,
        {
            assert(iv.skip(k as int)[0] == inner@[k as int]@);
            assert(iv.skip(k as int).drop_first() =~= iv.skip(k + 1));
            let a = &inner[k];
            match mcast_attr(a.kind) {
                McastAttr::Name => {
                    let raw = lossy_text(a.payload.as_slice());
                    name = trim_nuls_exec(raw.as_str());
                },
                McastAttr::Id => {
                    if a.payload.len() < 4 {
                        return None;
                    }
                    id = le_u32(a.payload.as_slice());
                },
                McastAttr::Other => {},
            }
            k = k + 1;
        }
        assert(iv.skip(k as int).len() == 0);
        if name == scan {
            return Some((name, id, true));
        }
        g = g + 1;
    }
    assert(all.skip(g as int).len() == 0);
    Some((name, id, false))
}

/// Searches the multicast groups listed in the payload of a family's
/// `McastGroups` attribute for the one named `scan`.
pub fn scan_group_id(mcast: &[u8]) -> (r: McastSearch)
    ensures
        r == mcast_search(Seq::empty(), 0, attrs_from(mcast@, 0)),
{
    match walk_groups(mcast, String::new(), 0) {
        None => McastSearch::Malformed,
        Some((_, id, true)) => McastSearch::Found(id),
        Some((_, _, false)) => McastSearch::NotFound,
    }
}

/// The attributes of a generic netlink family that are read.
#[derive(Debug, Clone, Copy, PartialEq, Eq, Structural)]
pub enum CtrlKind {
    /// `CtrlAttr::FamilyId`, 1.
    FamilyId,
    /// `CtrlAttr::FamilyName`, 2.
    FamilyName,
    /// `CtrlAttr::McastGroups`, 7.
    McastGroups,
    Other,
}

pub open spec fn ctrl_kind_of(t: u16) -> CtrlKind {
    if t == 1 {
        CtrlKind::FamilyId
    } else if t == 2 {
        CtrlKind::FamilyName
    } else if t == 7 {
        CtrlKind::McastGroups
    } else {
        CtrlKind::Other
    }
}

/// `CtrlAttr::from(t)` of `neli`, whose variants carry libc's
/// `CTRL_ATTR_FAMILY_ID` (1), `CTRL_ATTR_FAMILY_NAME` (2) and
/// `CTRL_ATTR_MCAST_GROUPS` (7).
#[verifier::external_body]
fn ctrl_attr(t: u16) -> (r: CtrlKind)
    ensures
        r == ctrl_kind_of(t),
{
    match CtrlAttr::from(t) {
        CtrlAttr::FamilyId => CtrlKind::FamilyId,
        CtrlAttr::FamilyName => CtrlKind::FamilyName,
        CtrlAttr::McastGroups => CtrlKind::McastGroups,
        _ => CtrlKind::Other,
    }
}

/// The number whose little-endian bytes start `p`.
pub open spec fn le_u16_of(p: Seq<u8>) -> u16 {
    (p[0] as int + p[1] as int * 0x100) as u16
}

/// The number whose big-endian bytes start `p`.
pub open spec fn be_u16_of(p: Seq<u8>) -> u16 {
    (p[0] as int * 0x100 + p[1] as int) as u16
}

/// The first two bytes of `p` read in the machine's byte order.
pub open spec fn native_u16_of(p: Seq<u8>) -> u16 {
    match endianness() {
        Endian::Little => le_u16_of(p),
        Endian::Big => be_u16_of(p),
    }
}

/// `u16::from_bytes` of `neli` on an attribute payload, as `get_payload_as`
/// calls it: it reads the first two bytes, and fails on fewer. It reads
/// them in the machine's byte order.
#[verifier::external_body]
fn payload_u16(p: &[u8]) -> (r: Option<u16>)
    ensures
        r is Some <==> p@.len() >= 2,
        r matches Some(v) ==> v == le_u16_of(p@) || v == be_u16_of(p@),
        r matches Some(v) ==> v == native_u16_of(p@),
{
    <u16 as FromBytes>::from_bytes(&mut Cursor::new(p)).ok()
}

/// What has been read of a family's attributes: its name, the payload of
/// the last id attribute, the scan group's id, and the name and id that the
/// walk over multicast groups left.
pub struct FamilyState {
    pub name: Seq<char>,
    pub id: Option<Seq<u8>>,
    pub group: u32,
    pub walk_name: Seq<char>,
    pub walk_id: u32,
}

/// The outcome of reading a family's attributes.
pub enum FamilyFold {
    Read(FamilyState),
    /// An id attribute has fewer than two bytes.
    ShortId,
    /// A multicast group id has fewer than four bytes.
    Malformed,
}

/// Reads the attributes in order: an id attribute gives the family id, a
/// name attribute its name (without trailing NULs), and a multicast groups
/// attribute is walked for the group named `scan`, whose id is kept when
/// found.
pub open spec fn family_fold(st: FamilyState, attrs: Seq<(u16, Seq<u8>)>) -> FamilyFold
    decreases attrs.len(),
{
    if attrs.len() == 0 {
        FamilyFold::Read(st)
    } else {
        let rest = attrs.drop_first();
        let p = attrs[0].1;
        match ctrl_kind_of(attrs[0].0) {
            CtrlKind::FamilyId => if p.len() < 2 {
                FamilyFold::ShortId
            } else {
                family_fold(FamilyState { id: Some(p), ..st }, rest)
            },
            CtrlKind::FamilyName => family_fold(FamilyState { name: trim_nuls(utf8_lossy(p)), ..st }, rest),
            CtrlKind::McastGroups => match mcast_walk(st.walk_name, st.walk_id, attrs_from(p, 0)) {
                None => FamilyFold::Malformed,
                Some((n, i, found)) => family_fold(
                    FamilyState { walk_name: n, walk_id: i, group: if found { i } else { st.group }, ..st },
                    rest,
                ),
            },
            CtrlKind::Other => family_fold(st, rest),
        }
    }
}

/// Nothing read yet.
pub open spec fn family_start() -> FamilyState {
    FamilyState { name: Seq::empty(), id: None, group: 0, walk_name: Seq::empty(), walk_id: 0 }
}

/// The family as its attributes describe it.
#[derive(Debug)]
pub enum FamilyRead {
    Read(FamilyInfo),
    /// An id attribute has fewer than two bytes.
    ShortId,
    /// A multicast group id has fewer than four bytes.
    MalformedGroup,
}

/// The id `v` is what the id payload `p` reads as in the machine's byte
/// order, or 0 when there is none.
pub open spec fn id_read(p: Option<Seq<u8>>, v: u16) -> bool {
    match p {
        None => v == 0,
        Some(b) => (v == le_u16_of(b) || v == be_u16_of(b)) && v == native_u16_of(b),
    }
}

/// Reads the attributes of a family, as the answer to `Getfamily` lists them.
pub fn read_family(attrs: &Vec<RawAttr>) -> (r: FamilyRead)
    ensures
        match family_fold(family_start(), attr_views(attrs@)) {
            FamilyFold::ShortId => r is ShortId,
            FamilyFold::Malformed => r is MalformedGroup,
            FamilyFold::Read(st) => (r matches FamilyRead::Read(info) && info.name@ == st.name
                && info.scan_group_id == st.group && id_read(st.id, info.id)),
        },
{
    let ghost all = attr_views(attrs@);
    let mut name = String::new();
    let mut id: u16 = 0;
    let ghost mut id_payload: Option<Seq<u8>> = None;
    let mut group: u32 = 0;
    let mut walk_name = String::new();
    let mut walk_id: u32 = 0;
    let mut i: usize = 0;
    assert(all.skip(0) =~= all);
    while i < attrs.len()
        invariant
            0 <= i <= attrs@.len(),
            all == attr_views(attrs@),
            family_fold(
                FamilyState { name: name@, id: id_payload, group, walk_name: walk_name@, walk_id },
                all.skip(i as int),
            ) == family_fold(family_start(), all),
            id_read(id_payload, id),
        decreases attrs@.len() - i,
    {
        assert(all.skip(i as int)[0] == attrs@[i as int]@);
        assert(all.skip(i as int).drop_first() =~= all.skip(i + 1));
        let a = &attrs[i];
        match ctrl_attr(a.kind) {
            CtrlKind::FamilyId => {
                match payload_u16(a.payload.as_slice()) {
                    Some(v) => {
                        id = v;
                        proof {
                            id_payload = Some(a.payload@);
                        }
                    },
                    None => {
                        return FamilyRead::ShortId;
                    },
                }
            },
            CtrlKind::FamilyName => {
                let raw = lossy_text(a.payload.as_slice());
                name = trim_nuls_exec(raw.as_str());
            },
            CtrlKind::McastGroups => {
                match walk_groups(a.payload.as_slice(), walk_name, walk_id) {
                    None => {
                        return FamilyRead::MalformedGroup;
                    },
                    Some((n, g, found)) => {
                        walk_name = n;
                        walk_id = g;
                        if found {
                            group = g;
                        }
                    },
                }
            },
            CtrlKind::Other => {},
        }
        i = i + 1;
    }
    assert(all.skip(i as int).len() == 0);
    FamilyRead::Read(FamilyInfo { name, id, scan_group_id: group })
}

} // verus!
