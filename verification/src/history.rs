//! The list of networks saved after a successful connection.

use crate::types::Connection;
use vstd::prelude::*;
use vstd::string::*;

verus! {

/// Some saved network has the access point `bssid`.
pub open spec fn has_bssid(connections: Seq<Connection>, bssid: Seq<char>) -> bool {
    exists|i: int| 0 <= i < connections.len() && (#[trigger] connections[i]).bssid@ == bssid
}

/// The list after saving `connection`: unchanged when its access point is
/// saved already.
pub open spec fn added(connections: Seq<Connection>, connection: Connection) -> Seq<Connection> {
    if has_bssid(connections, connection.bssid@) {
        connections
    } else {
        connections.push(connection)
    }
}

/// No two saved networks share an access point.
pub open spec fn unique_bssids(connections: Seq<Connection>) -> bool {
    forall|i: int, j: int|
        0 <= i < j < connections.len() ==> (#[trigger] connections[i]).bssid@ != (#[trigger] connections[j]).bssid@
}

/// Saves `connection` unless a network with the same access point is saved
/// already. The result tells whether the list changed and must be written.
pub fn add_connection_to_history(connections: &mut Vec<Connection>, connection: Connection) -> (changed: bool)
    ensures
        changed == !has_bssid(old(connections)@, connection.bssid@),
        final(connections)@ == added(old(connections)@, connection),
{
    let mut i: usize = 0;
    while i < connections.len()
        invariant
            0 <= i <= connections.len(),
            forall|j: int| 0 <= j < i ==> (#[trigger] connections@[j]).bssid@ != connection.bssid@,
        decreases connections.len() - i,
    {
        if connections[i].bssid == connection.bssid {
            return false;
        }
        i = i + 1;
    }
    connections.push(connection);
    true
}

/// The saved networks whose access point is not `bssid`.
pub open spec fn without_bssid(connections: Seq<Connection>, bssid: Seq<char>) -> Seq<Connection> {
    connections.filter(other_than(bssid))
}

/// The saved network has an access point other than `bssid`.
pub open spec fn other_than(bssid: Seq<char>) -> spec_fn(Connection) -> bool {
    |c: Connection| c.bssid@ != bssid
}

/// Forgets every saved network with the access point `bssid`. The result
/// tells whether the list changed and must be written.
pub fn delete_connection_from_history(connections: &mut Vec<Connection>, bssid: &str) -> (changed: bool)
    ensures
        final(connections)@ == without_bssid(old(connections)@, bssid@),
        changed == (final(connections)@.len() != old(connections)@.len()),
{
    let target = String::from_str(bssid);
    let len_before = connections.len();
    let mut kept: Vec<Connection> = Vec::new();
    let ghost all = connections@;
    let mut i: usize = 0;
    while i < connections.len()
        invariant
            connections@ == all,
            0 <= i <= all.len(),
            len_before == all.len(),
            target@ == bssid@,
            kept@ == without_bssid(all.take(i as int), bssid@),
        decreases all.len() - i,
    {
        proof {
            reveal_with_fuel(Seq::filter, 1);
            assert(all.take(i + 1).drop_last() =~= all.take(i as int));
        }
        if connections[i].bssid != target {
            kept.push(connections[i].clone());
        }
        i = i + 1;
    }
    assert(all.take(all.len() as int) =~= all);
    *connections = kept;
    connections.len() != len_before
}

/// Saving the same network twice saves it once.
pub proof fn law_add_idempotent(connections: Seq<Connection>, connection: Connection)
    ensures
        added(added(connections, connection), connection) == added(connections, connection),
{
    if !has_bssid(connections, connection.bssid@) {
        let l = connections.push(connection);
        assert(l[l.len() - 1].bssid@ == connection.bssid@);
    }
}

/// Saving keeps the saved access points distinct.
pub proof fn law_add_keeps_unique(connections: Seq<Connection>, connection: Connection)
    requires
        unique_bssids(connections),
    ensures
        unique_bssids(added(connections, connection)),
{
    if !has_bssid(connections, connection.bssid@) {
        let l = connections.push(connection);
        assert forall|i: int, j: int| 0 <= i < j < l.len() implies (#[trigger] l[i]).bssid@
            != (#[trigger] l[j]).bssid@ by {
            if j == l.len() - 1 {
                assert(connections[i] == l[i]);
            } else {
                assert(connections[i] == l[i] && connections[j] == l[j]);
            }
        }
    }
}

/// After forgetting an access point, no saved network has it.
pub proof fn law_delete_forgets(connections: Seq<Connection>, bssid: Seq<char>)
    ensures
        !has_bssid(without_bssid(connections, bssid), bssid),
{
    let f = without_bssid(connections, bssid);
    assert forall|i: int| 0 <= i < f.len() implies (#[trigger] f[i]).bssid@ != bssid by {
        connections.lemma_filter_pred(other_than(bssid), i);
    }
}

/// Forgetting a network that was just saved, and not saved before, gives the
/// list that was there before.
pub proof fn law_add_then_delete(connections: Seq<Connection>, connection: Connection)
    requires
        !has_bssid(connections, connection.bssid@),
    ensures
        without_bssid(added(connections, connection), connection.bssid@) == connections,
{
    let b = connection.bssid@;
    let pred = other_than(b);
    let l = connections.push(connection);
    assert(l.drop_last() =~= connections);
    reveal_with_fuel(Seq::filter, 1);
    assert(l.filter(pred) == connections.filter(pred));
    lemma_filter_all(connections, b);
}

/// Forgetting an access point keeps the saved access points distinct.
pub proof fn law_delete_keeps_unique(connections: Seq<Connection>, bssid: Seq<char>)
    requires
        unique_bssids(connections),
    ensures
        unique_bssids(without_bssid(connections, bssid)),
    decreases connections.len(),
{
    reveal_with_fuel(Seq::filter, 1);
    if connections.len() > 0 {
        let d = connections.drop_last();
        let last = connections.last();
        assert forall|i: int, j: int| 0 <= i < j < d.len() implies (#[trigger] d[i]).bssid@ != (
        #[trigger] d[j]).bssid@ by {
            assert(d[i] == connections[i] && d[j] == connections[j]);
        }
        law_delete_keeps_unique(d, bssid);
        let fd = without_bssid(d, bssid);
        if other_than(bssid)(last) {
            let f = fd.push(last);
            assert(without_bssid(connections, bssid) == f);
            lemma_filter_members(d, bssid);
            assert forall|i: int, j: int| 0 <= i < j < f.len() implies (#[trigger] f[i]).bssid@ != (
            #[trigger] f[j]).bssid@ by {
                if j == f.len() - 1 {
                    let k = choose|k: int| 0 <= k < d.len() && d[k] == fd[i];
                    assert(connections[k] == d[k]);
                    assert(connections[connections.len() - 1] == last);
                } else {
                    assert(f[i] == fd[i] && f[j] == fd[j]);
                }
            }
        }
    }
}

proof fn lemma_filter_members(s: Seq<Connection>, b: Seq<char>)
    ensures
        forall|i: int|
            0 <= i < without_bssid(s, b).len() ==> exists|k: int|
                0 <= k < s.len() && s[k] == (#[trigger] without_bssid(s, b)[i]),
    decreases s.len(),
{
    reveal_with_fuel(Seq::filter, 1);
    if s.len() > 0 {
        let d = s.drop_last();
        lemma_filter_members(d, b);
        let fd = without_bssid(d, b);
        let f = without_bssid(s, b);
        assert forall|i: int| 0 <= i < f.len() implies exists|k: int|
            0 <= k < s.len() && s[k] == (#[trigger] f[i]) by {
            if i < fd.len() {
                assert(f[i] == fd[i]);
                let k = choose|k: int| 0 <= k < d.len() && d[k] == fd[i];
                assert(s[k] == d[k]);
            } else {
                assert(s[s.len() - 1] == f[i]);
            }
        }
    }
}

proof fn lemma_filter_all(connections: Seq<Connection>, b: Seq<char>)
    requires
        !has_bssid(connections, b),
    ensures
        without_bssid(connections, b) == connections,
    decreases connections.len(),
{
    reveal_with_fuel(Seq::filter, 1);
    if connections.len() > 0 {
        let d = connections.drop_last();
        assert forall|i: int| 0 <= i < d.len() implies (#[trigger] d[i]).bssid@ != b by {
            assert(d[i] == connections[i]);
        }
        lemma_filter_all(d, b);
        assert(connections[connections.len() - 1].bssid@ != b);
        assert(d.push(connections.last()) =~= connections);
    }
}

} // verus!
