use crate::peer::PeerAddr;
use vstd::prelude::*;

verus! {

/// Whether no peer has two entries.
pub open spec fn distinct_peers<V>(entries: Seq<(PeerAddr, V)>) -> bool {
    forall|i: int, j: int|
        0 <= i < entries.len() && 0 <= j < entries.len() && i != j ==> entries[i].0
            != entries[j].0
}

/// Whether `peer` has an entry.
pub open spec fn has_peer<V>(entries: Seq<(PeerAddr, V)>, peer: PeerAddr) -> bool {
    exists|i: int| 0 <= i < entries.len() && entries[i].0 == peer
}

/// The value entered for `peer`, if there is one.
pub open spec fn lookup<V>(entries: Seq<(PeerAddr, V)>, peer: PeerAddr) -> Option<V> {
    if has_peer(entries, peer) {
        Some(entries[choose|i: int| 0 <= i < entries.len() && entries[i].0 == peer].1)
    } else {
        None
    }
}

/// In a table without repeated peers, the entry found at any index is the
/// one that a lookup of its peer gives.
pub proof fn lemma_lookup_at<V>(entries: Seq<(PeerAddr, V)>, i: int)
    requires
        distinct_peers(entries),
        0 <= i < entries.len(),
    ensures
        has_peer(entries, entries[i].0),
        lookup(entries, entries[i].0) == Some(entries[i].1),
{
    let peer = entries[i].0;
    let j = choose|j: int| 0 <= j < entries.len() && entries[j].0 == peer;
    assert(j == i);
}

/// A peer that no entry names is not found.
pub proof fn lemma_lookup_absent<V>(entries: Seq<(PeerAddr, V)>, peer: PeerAddr)
    requires
        forall|i: int| 0 <= i < entries.len() ==> entries[i].0 != peer,
    ensures
        !has_peer(entries, peer),
        lookup(entries, peer) is None,
{
}

/// Replacing the value of one entry changes the lookup of its peer and of
/// no other.
pub proof fn lemma_lookup_update<V>(entries: Seq<(PeerAddr, V)>, i: int, value: V, peer: PeerAddr)
    requires
        distinct_peers(entries),
        0 <= i < entries.len(),
    ensures
        distinct_peers(entries.update(i, (entries[i].0, value))),
        lookup(entries.update(i, (entries[i].0, value)), peer) == if peer == entries[i].0 {
            Some(value)
        } else {
            lookup(entries, peer)
        },
{
    let updated = entries.update(i, (entries[i].0, value));
    assert(distinct_peers(updated));
    if peer == entries[i].0 {
        lemma_lookup_at(updated, i);
    } else if has_peer(entries, peer) {
        let j = choose|j: int| 0 <= j < entries.len() && entries[j].0 == peer;
        lemma_lookup_at(entries, j);
        assert(updated[j] == entries[j]);
        lemma_lookup_at(updated, j);
    } else {
        assert forall|k: int| 0 <= k < updated.len() implies updated[k].0 != peer by {
            assert(updated[k].0 == entries[k].0);
        }
        lemma_lookup_absent(updated, peer);
    }
}

/// Adding an entry for a new peer changes the lookup of that peer and of
/// no other.
pub proof fn lemma_lookup_push<V>(
    entries: Seq<(PeerAddr, V)>,
    new_peer: PeerAddr,
    value: V,
    peer: PeerAddr,
)
    requires
        distinct_peers(entries),
        !has_peer(entries, new_peer),
    ensures
        distinct_peers(entries.push((new_peer, value))),
        lookup(entries.push((new_peer, value)), peer) == if peer == new_peer {
            Some(value)
        } else {
            lookup(entries, peer)
        },
{
    let pushed = entries.push((new_peer, value));
    assert(distinct_peers(pushed)) by {
        assert forall|i: int, j: int|
            0 <= i < pushed.len() && 0 <= j < pushed.len() && i != j implies pushed[i].0
            != pushed[j].0 by {
            if i < entries.len() && j < entries.len() {
            } else if i < entries.len() {
                assert(entries[i].0 != new_peer);
            } else {
                assert(entries[j].0 != new_peer);
            }
        }
    }
    if peer == new_peer {
        lemma_lookup_at(pushed, entries.len() as int);
    } else if has_peer(entries, peer) {
        let j = choose|j: int| 0 <= j < entries.len() && entries[j].0 == peer;
        lemma_lookup_at(entries, j);
        assert(pushed[j] == entries[j]);
        lemma_lookup_at(pushed, j);
    } else {
        assert forall|k: int| 0 <= k < pushed.len() implies pushed[k].0 != peer by {
            if k < entries.len() {
                assert(pushed[k].0 == entries[k].0);
            }
        }
        lemma_lookup_absent(pushed, peer);
    }
}

/// Taking one entry out changes the lookup of its peer and of no other.
pub proof fn lemma_lookup_remove<V>(entries: Seq<(PeerAddr, V)>, i: int, peer: PeerAddr)
    requires
        distinct_peers(entries),
        0 <= i < entries.len(),
    ensures
        distinct_peers(entries.remove(i)),
        lookup(entries.remove(i), peer) == if peer == entries[i].0 {
            None
        } else {
            lookup(entries, peer)
        },
{
    let removed = entries.remove(i);
    assert forall|k: int| 0 <= k < removed.len() implies removed[k] == entries[if k < i {
        k
    } else {
        k + 1
    }] by {}
    assert(distinct_peers(removed));
    if peer == entries[i].0 {
        lemma_lookup_absent(removed, peer);
    } else if has_peer(entries, peer) {
        let j = choose|j: int| 0 <= j < entries.len() && entries[j].0 == peer;
        lemma_lookup_at(entries, j);
        let k = if j < i {
            j
        } else {
            j - 1
        };
        assert(removed[k] == entries[j]);
        lemma_lookup_at(removed, k);
    } else {
        lemma_lookup_absent(removed, peer);
    }
}

/// Where the entry of `peer` stands in the table, if it has one.
pub fn find_peer<V>(entries: &Vec<(PeerAddr, V)>, peer: PeerAddr) -> (found: Option<usize>)
    ensures
        found matches Some(i) ==> i < entries.len() && entries[i as int].0 == peer,
        found is None ==> !has_peer(entries@, peer),
        found is Some <==> has_peer(entries@, peer),
{
    let mut i: usize = 0;
    while i < entries.len()
        invariant
            i <= entries.len(),
            forall|k: int| 0 <= k < i ==> entries[k].0 != peer,
        decreases entries.len() - i,
    {
        if entries[i].0 == peer {
            return Some(i);
        }
        i += 1;
    }
    None
}

/// Whether no peer has two entries.
pub fn peers_distinct<V>(entries: &Vec<(PeerAddr, V)>) -> (b: bool)
    ensures
        b == distinct_peers(entries@),
{
    let mut i: usize = 0;
    while i < entries.len()
        invariant
            i <= entries.len(),
            forall|a: int, c: int| 0 <= a < i && a < c < entries.len() ==> entries[a].0 != entries[c].0,
        decreases entries.len() - i,
    {
        let mut j: usize = i + 1;
        while j < entries.len()
            invariant
                i < j <= entries.len(),
                forall|c: int| i < c < j ==> entries[i as int].0 != entries[c].0,
            decreases entries.len() - j,
        {
            if entries[i].0 == entries[j].0 {
                return false;
            }
            j += 1;
        }
        i += 1;
    }
    assert forall|a: int, c: int|
        0 <= a < entries.len() && 0 <= c < entries.len() && a != c implies entries[a].0
        != entries[c].0 by {
        if a < c {
        } else {
            assert(entries[c].0 != entries[a].0);
        }
    }
    true
}

} // verus!
