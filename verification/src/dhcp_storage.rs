//! The leases kept on disk, one record per interface.

use crate::types::{clone_addrs, DhcpLease};
use vstd::prelude::*;

verus! {

/// A lease granted on an interface, as it is kept on disk. Addresses are
/// `u32` as in [`DhcpLease`]; `time_initiated` is the Unix time at which the
/// record was written.
#[derive(Debug)]
pub struct DhcpFile {
    pub ifname: String,
    pub ip_addr: Option<u32>,
    pub subnet_mask: Option<u32>,
    pub gateway: Option<u32>,
    pub dns_servers: Vec<u32>,
    pub server_id: Option<u32>,
    pub lease_duration: u32,
    pub time_initiated: i64,
}

/// The mathematical form of a [`DhcpFile`].
pub struct DhcpFileView {
    pub ifname: Seq<char>,
    pub ip_addr: Option<u32>,
    pub subnet_mask: Option<u32>,
    pub gateway: Option<u32>,
    pub dns_servers: Seq<u32>,
    pub server_id: Option<u32>,
    pub lease_duration: u32,
    pub time_initiated: i64,
}

impl View for DhcpFile {
    type V = DhcpFileView;

    open spec fn view(&self) -> DhcpFileView {
        DhcpFileView {
            ifname: self.ifname@,
            ip_addr: self.ip_addr,
            subnet_mask: self.subnet_mask,
            gateway: self.gateway,
            dns_servers: self.dns_servers@,
            server_id: self.server_id,
            lease_duration: self.lease_duration,
            time_initiated: self.time_initiated,
        }
    }
}

impl DhcpFile {
    /// A copy of the record.
    pub fn copy(&self) -> (r: DhcpFile)
        ensures
            r@ == self@,
    {
        DhcpFile {
            ifname: self.ifname.clone(),
            ip_addr: self.ip_addr,
            subnet_mask: self.subnet_mask,
            gateway: self.gateway,
            dns_servers: clone_addrs(&self.dns_servers),
            server_id: self.server_id,
            lease_duration: self.lease_duration,
            time_initiated: self.time_initiated,
        }
    }
}

/// The views of a list of records.
pub open spec fn views(files: Seq<DhcpFile>) -> Seq<DhcpFileView> {
    files.map_values(|f: DhcpFile| f@)
}

/// `k` is the first record of the interface `ifname`.
pub open spec fn first_of(files: Seq<DhcpFileView>, ifname: Seq<char>, k: int) -> bool {
    &&& 0 <= k < files.len()
    &&& files[k].ifname == ifname
    &&& forall|j: int| 0 <= j < k ==> (#[trigger] files[j]).ifname != ifname
}

/// Some record is of the interface `ifname`.
pub open spec fn has_record(files: Seq<DhcpFileView>, ifname: Seq<char>) -> bool {
    exists|k: int| 0 <= k < files.len() && (#[trigger] files[k]).ifname == ifname
}

/// The records with the first record of each interface only, in order.
pub open spec fn unique_records(files: Seq<DhcpFileView>) -> Seq<DhcpFileView>
    decreases files.len(),
{
    if files.len() == 0 {
        files
    } else {
        let before = unique_records(files.drop_last());
        if has_record(before, files.last().ifname) {
            before
        } else {
            before.push(files.last())
        }
    }
}

/// The records after writing `c`: it replaces the first record of its
/// interface, or is added at the end.
pub open spec fn written(files: Seq<DhcpFileView>, c: DhcpFileView) -> Seq<DhcpFileView> {
    if has_record(files, c.ifname) {
        files.update(choose|k: int| first_of(files, c.ifname, k), c)
    } else {
        files.push(c)
    }
}

/// No two records are of the same interface.
pub open spec fn one_per_interface(files: Seq<DhcpFileView>) -> bool {
    forall|i: int, j: int|
        0 <= i < j < files.len() ==> (#[trigger] files[i]).ifname != (#[trigger] files[j]).ifname
}

proof fn lemma_first_of_unique(files: Seq<DhcpFileView>, ifname: Seq<char>, a: int, b: int)
    requires
        first_of(files, ifname, a),
        first_of(files, ifname, b),
    ensures
        a == b,
{
}

proof fn lemma_first_of_exists(files: Seq<DhcpFileView>, ifname: Seq<char>)
    requires
        has_record(files, ifname),
    ensures
        exists|k: int| first_of(files, ifname, k),
    decreases files.len(),
{
    if files.last().ifname == ifname && !has_record(files.drop_last(), ifname) {
        let k = files.len() - 1;
        assert forall|j: int| 0 <= j < k implies (#[trigger] files[j]).ifname != ifname by {
            assert(files.drop_last()[j] == files[j]);
        }
        assert(first_of(files, ifname, k));
    } else {
        let d = files.drop_last();
        if !has_record(d, ifname) {
            let w = choose|w: int| 0 <= w < files.len() && (#[trigger] files[w]).ifname == ifname;
            if w < files.len() - 1 {
                assert(d[w] == files[w]);
            }
        }
        lemma_first_of_exists(d, ifname);
        let k = choose|k: int| first_of(d, ifname, k);
        assert forall|j: int| 0 <= j < k implies (#[trigger] files[j]).ifname != ifname by {
            assert(d[j] == files[j]);
        }
        assert(d[k] == files[k]);
        assert(first_of(files, ifname, k));
    }
}

/// Reading an interface's lease after writing one for it gives back what
/// was written.
pub proof fn law_read_after_write(files: Seq<DhcpFileView>, c: DhcpFileView)
    ensures
        exists|k: int| first_of(written(files, c), c.ifname, k) && written(files, c)[k] == c,
{
    let w = written(files, c);
    if has_record(files, c.ifname) {
        lemma_first_of_exists(files, c.ifname);
        let k = choose|k: int| first_of(files, c.ifname, k);
        assert forall|j: int| 0 <= j < k implies (#[trigger] w[j]).ifname != c.ifname by {
            assert(w[j] == files[j]);
        }
        assert(first_of(w, c.ifname, k));
    } else {
        let k = files.len() as int;
        assert forall|j: int| 0 <= j < k implies (#[trigger] w[j]).ifname != c.ifname by {
            assert(w[j] == files[j]);
        }
        assert(first_of(w, c.ifname, k));
    }
}

/// Writing leaves the records of the other interfaces as they were.
pub proof fn law_write_keeps_others(files: Seq<DhcpFileView>, c: DhcpFileView, ifname: Seq<char>)
    requires
        ifname != c.ifname,
    ensures
        forall|k: int| first_of(files, ifname, k) ==> first_of(written(files, c), ifname, k) && written(
            files,
            c,
        )[k] == files[k],
{
    let w = written(files, c);
    if has_record(files, c.ifname) {
        lemma_first_of_exists(files, c.ifname);
    }
    assert forall|k: int| first_of(files, ifname, k) implies first_of(w, ifname, k) && w[k]
        == files[k] by {
        if has_record(files, c.ifname) {
            let m = choose|m: int| first_of(files, c.ifname, m);
            assert(m != k);
        }
        assert forall|j: int| 0 <= j < k implies (#[trigger] w[j]).ifname != ifname by {
            if has_record(files, c.ifname) {
                let m = choose|m: int| first_of(files, c.ifname, m);
                if j != m {
                    assert(w[j] == files[j]);
                }
            } else {
                assert(w[j] == files[j]);
            }
        }
    }
}

/// Writing keeps one record per interface.
pub proof fn law_write_keeps_one_per_interface(files: Seq<DhcpFileView>, c: DhcpFileView)
    requires
        one_per_interface(files),
    ensures
        one_per_interface(written(files, c)),
{
    let w = written(files, c);
    if has_record(files, c.ifname) {
        lemma_first_of_exists(files, c.ifname);
        let m = choose|m: int| first_of(files, c.ifname, m);
        assert forall|i: int, j: int| 0 <= i < j < w.len() implies (#[trigger] w[i]).ifname != (
        #[trigger] w[j]).ifname by {
            if i == m {
                assert(files[j].ifname != files[m].ifname);
            } else if j == m {
                assert(files[i].ifname != files[m].ifname);
            }
        }
    } else {
        assert forall|i: int, j: int| 0 <= i < j < w.len() implies (#[trigger] w[i]).ifname != (
        #[trigger] w[j]).ifname by {
            if j == files.len() {
                assert(w[i] == files[i]);
            }
        }
    }
}

/// Leaving out duplicates keeps one record per interface.
pub proof fn law_unique_one_per_interface(files: Seq<DhcpFileView>)
    ensures
        one_per_interface(unique_records(files)),
        forall|k: int|
            0 <= k < files.len() ==> has_record(unique_records(files), (#[trigger] files[k]).ifname),
    decreases files.len(),
{
    if files.len() > 0 {
        let d = files.drop_last();
        law_unique_one_per_interface(d);
        let before = unique_records(d);
        let u = unique_records(files);
        if !has_record(before, files.last().ifname) {
            assert forall|i: int, j: int| 0 <= i < j < u.len() implies (#[trigger] u[i]).ifname != (
            #[trigger] u[j]).ifname by {
                if j == before.len() {
                    assert(u[i] == before[i]);
                }
            }
            assert forall|k: int| 0 <= k < files.len() implies has_record(u, (#[trigger] files[k]).ifname) by {
                if k < files.len() - 1 {
                    assert(files[k] == d[k]);
                    let w = choose|w: int| 0 <= w < before.len() && (#[trigger] before[w]).ifname == d[k].ifname;
                    assert(u[w] == before[w]);
                } else {
                    assert(u[before.len() as int] == files.last());
                }
            }
        } else {
            assert forall|k: int| 0 <= k < files.len() implies has_record(u, (#[trigger] files[k]).ifname) by {
                if k < files.len() - 1 {
                    assert(files[k] == d[k]);
                }
            }
        }
    }
}

/// The index of the first record of `ifname`.
fn find_record(files: &Vec<DhcpFile>, ifname: &String) -> (r: Option<usize>)
    ensures
        r matches Some(k) ==> first_of(views(files@), ifname@, k as int),
        r is None ==> !has_record(views(files@), ifname@),
{
    let mut k: usize = 0;
    while k < files.len()
        invariant
            0 <= k <= files.len(),
            forall|j: int| 0 <= j < k ==> (#[trigger] views(files@)[j]).ifname != ifname@,
        decreases files.len() - k,
    {
        if files[k].ifname == *ifname {
            return Some(k);
        }
        k = k + 1;
    }
    None
}

/// Reading and writing the lease records.
pub struct DhcpStorage;

impl DhcpStorage {
    /// The records with duplicates of an interface left out: the first
    /// record of each interface is kept.
    pub fn get_unique(files: &Vec<DhcpFile>) -> (r: Vec<DhcpFile>)
        ensures
            views(r@) == unique_records(views(files@)),
    {
        let mut result: Vec<DhcpFile> = Vec::new();
        let mut i: usize = 0;
        while i < files.len()
            invariant
                0 <= i <= files.len(),
                views(result@) == unique_records(views(files@).take(i as int)),
            decreases files.len() - i,
        {
            assert(views(files@).take(i + 1).drop_last() =~= views(files@).take(i as int));
            assert(views(files@).take(i + 1).last() == files@[i as int]@);
            match find_record(&result, &files[i].ifname) {
                Some(_) => {},
                None => {
                    result.push(files[i].copy());
                    assert(views(result@) =~= unique_records(views(files@).take(i as int)).push(
                        files@[i as int]@,
                    ));
                },
            }
            i = i + 1;
        }
        assert(views(files@).take(files.len() as int) =~= views(files@));
        result
    }

    /// The first record of the interface `ifname`, if any.
    pub fn read_specific(files: &Vec<DhcpFile>, ifname: &str) -> (r: Option<DhcpFile>)
        ensures
            r matches Some(f) ==> exists|k: int|
                first_of(views(files@), ifname@, k) && f@ == views(files@)[k],
            r is None ==> !has_record(views(files@), ifname@),
    {
        let name = String::from_str(ifname);
        match find_record(files, &name) {
            Some(k) => Some(files[k].copy()),
            None => None,
        }
    }

    /// Records `content`, stamped with the time `now`: it replaces the first
    /// record of its interface, or is added at the end when there is none.
    pub fn write_file(files: &mut Vec<DhcpFile>, content: &mut DhcpFile, now: i64)
        ensures
            final(content)@ == (DhcpFileView { time_initiated: now, ..old(content)@ }),
            views(final(files)@) == written(views(old(files)@), final(content)@),
    {
        content.time_initiated = now;
        match find_record(files, &content.ifname) {
            Some(k) => {
                files.set(k, content.copy());
                proof {
                    let m = choose|m: int| first_of(views(old(files)@), content@.ifname, m);
                    lemma_first_of_unique(views(old(files)@), content@.ifname, m, k as int);
                }
                assert(views(files@) =~= views(old(files)@).update(k as int, content@));
            },
            None => {
                files.push(content.copy());
                assert(views(files@) =~= views(old(files)@).push(content@));
            },
        }
    }

    /// The record of a lease granted on the interface `ifname`, not yet
    /// stamped. The message that the lease answers is not part of the record.
    pub fn write_from_dhcplease(data: &DhcpLease, ifname: String) -> (r: DhcpFile)
        ensures
            r@ == (DhcpFileView {
                ifname: ifname@,
                ip_addr: data.ip_addr,
                subnet_mask: data.subnet_mask,
                gateway: data.gateway,
                dns_servers: data.dns_servers@,
                server_id: data.server_id,
                lease_duration: data.lease_duration,
                time_initiated: 0,
            }),
    {
        DhcpFile {
            ip_addr: data.ip_addr,
            subnet_mask: data.subnet_mask,
            gateway: data.gateway,
            dns_servers: clone_addrs(&data.dns_servers),
            lease_duration: data.lease_duration,
            server_id: data.server_id,
            ifname,
            time_initiated: 0,
        }
    }
}

/// A lease recorded at `time_initiated` for `lease_duration` seconds is over
/// at the time `now`.
pub fn lease_expired(file: &DhcpFile, now: i64) -> (r: bool)
    requires
        file.time_initiated + file.lease_duration <= i64::MAX,
    ensures
        r == (file.time_initiated + file.lease_duration <= now),
{
    file.time_initiated + file.lease_duration as i64 <= now
}

} // verus!
