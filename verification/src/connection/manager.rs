use super::events::StatEvent;
use super::guard::ConnectionGuard;
use super::stats::{ConnectionStats, IpStats};
use super::table::{distinct_peers, find_peer, has_peer, lookup, peers_distinct};
use super::table::{lemma_lookup_at, lemma_lookup_push, lemma_lookup_remove, lemma_lookup_update};
use crate::config::ConnectionConfig;
use crate::errors::{ConnectionError, RelayError};
use crate::peer::PeerAddr;
use crate::text::{decimal_digits, push_decimal};
use vstd::prelude::*;
use vstd::string::*;

verus! {

/// The permits that the connections of one client hold, and the number of
/// its connections that count as open.
#[derive(Debug, Clone, Copy, PartialEq, Eq, Structural)]
pub struct PeerSlot {
    /// Connections let in and not yet released.
    pub held: u64,
    /// Connections counted as open. The clean-up may set this to zero
    /// while connections are still held.
    pub active: u64,
}

/// Which limit stands in the way of a connection.
#[derive(Debug, Clone, Copy, PartialEq, Eq, Structural)]
pub enum LimitScope {
    /// The limit on connections from one address.
    PerIp,
    /// The limit on connections in all.
    Global,
}

/// A connection that was let in: the token of its lifetime, and the event
/// that tells the statistics about it.
#[derive(Debug)]
pub struct Admission {
    pub guard: ConnectionGuard,
    pub event: StatEvent,
}

/// The slot of `peer`; a client without a slot holds and counts nothing.
pub open spec fn slot_of(slots: Seq<(PeerAddr, PeerSlot)>, peer: PeerAddr) -> PeerSlot {
    match lookup(slots, peer) {
        Some(slot) => slot,
        None => PeerSlot { held: 0, active: 0 },
    }
}

/// The permits held by all clients together.
pub open spec fn held_total(slots: Seq<(PeerAddr, PeerSlot)>) -> nat
    decreases slots.len(),
{
    if slots.len() == 0 {
        0
    } else {
        held_total(slots.drop_last()) + slots.last().1.held as nat
    }
}

/// The connections of all clients together that count as open.
pub open spec fn active_total(slots: Seq<(PeerAddr, PeerSlot)>) -> nat
    decreases slots.len(),
{
    if slots.len() == 0 {
        0
    } else {
        active_total(slots.drop_last()) + slots.last().1.active as nat
    }
}

/// Every slot holds at least one permit, counts no more connections than
/// it holds permits, and holds no more than `per_ip` where that is set.
pub open spec fn slots_in_bounds(slots: Seq<(PeerAddr, PeerSlot)>, per_ip: Option<u64>) -> bool {
    forall|i: int|
        0 <= i < slots.len() ==> {
            &&& 0 < (#[trigger] slots[i]).1.held
            &&& slots[i].1.active <= slots[i].1.held
            &&& per_ip matches Some(limit) ==> slots[i].1.held <= limit
        }
}

/// The slots after one more connection of `peer` was let in.
pub open spec fn admitted(slots: Seq<(PeerAddr, PeerSlot)>, peer: PeerAddr) -> Seq<
    (PeerAddr, PeerSlot),
> {
    if has_peer(slots, peer) {
        let i = choose|i: int| 0 <= i < slots.len() && slots[i].0 == peer;
        slots.update(
            i,
            (
                peer,
                PeerSlot {
                    held: (slots[i].1.held + 1) as u64,
                    active: (slots[i].1.active + 1) as u64,
                },
            ),
        )
    } else {
        slots.push((peer, PeerSlot { held: 1, active: 1 }))
    }
}

/// The slots after one connection of `peer` was released: one permit and
/// one counted connection less, and no slot left where no permit is.
pub open spec fn released(slots: Seq<(PeerAddr, PeerSlot)>, peer: PeerAddr) -> Seq<
    (PeerAddr, PeerSlot),
> {
    if has_peer(slots, peer) {
        let i = choose|i: int| 0 <= i < slots.len() && slots[i].0 == peer;
        if slots[i].1.held <= 1 {
            slots.remove(i)
        } else {
            slots.update(
                i,
                (
                    peer,
                    PeerSlot {
                        held: (slots[i].1.held - 1) as u64,
                        active: if slots[i].1.active > 0 {
                            (slots[i].1.active - 1) as u64
                        } else {
                            0
                        },
                    },
                ),
            )
        }
    } else {
        slots
    }
}

/// Whether a snapshot reports an open connection of `peer`.
pub open spec fn reported_active(per_ip: Seq<(PeerAddr, IpStats)>, peer: PeerAddr) -> bool {
    exists|i: int|
        0 <= i < per_ip.len() && per_ip[i].0 == peer && per_ip[i].1.active_connections > 0
}

/// The slots after the clean-up against a snapshot: a client of which
/// the snapshot reports no open connection counts none.
pub open spec fn cleaned(slots: Seq<(PeerAddr, PeerSlot)>, per_ip: Seq<(PeerAddr, IpStats)>) -> Seq<
    (PeerAddr, PeerSlot),
> {
    Seq::new(
        slots.len(),
        |i: int|
            (
                slots[i].0,
                PeerSlot {
                    held: slots[i].1.held,
                    active: if reported_active(per_ip, slots[i].0) {
                        slots[i].1.active
                    } else {
                        0
                    },
                },
            ),
    )
}

/// The text that says that the limit for one address is reached.
pub open spec fn per_ip_limit_text(limit: u64, peer: PeerAddr) -> Seq<char> {
    "Per-IP limit ("@ + decimal_digits(limit as nat) + ") reached for "@ + peer.text()
}

/// The text that says that the limit for all connections is reached.
pub open spec fn global_limit_text() -> Seq<char> {
    "Global connection limit reached"@
}

/// Whether `e` says that the limit of this scope stands in the way of
/// `peer`.
pub open spec fn is_limit_exceeded(e: RelayError, scope: LimitScope, limit: u64, peer: PeerAddr) -> bool {
    e matches RelayError::Connection(ConnectionError::LimitExceeded(text)) && text@ == match scope {
        LimitScope::PerIp => per_ip_limit_text(limit, peer),
        LimitScope::Global => global_limit_text(),
    }
}

/// Replacing one slot changes the totals by the difference between the
/// new slot and the old one; and no slot holds or counts more than all
/// slots together.
pub proof fn lemma_totals_update(slots: Seq<(PeerAddr, PeerSlot)>, i: int, entry: (PeerAddr, PeerSlot))
    requires
        0 <= i < slots.len(),
    ensures
        held_total(slots.update(i, entry)) == held_total(slots) - slots[i].1.held + entry.1.held,
        active_total(slots.update(i, entry)) == active_total(slots) - slots[i].1.active
            + entry.1.active,
        held_total(slots) >= slots[i].1.held,
        active_total(slots) >= slots[i].1.active,
    decreases slots.len(),
{
    let updated = slots.update(i, entry);
    if i == slots.len() - 1 {
        assert(updated.drop_last() == slots.drop_last());
    } else {
        assert(updated.drop_last() == slots.drop_last().update(i, entry));
        lemma_totals_update(slots.drop_last(), i, entry);
    }
}

/// A slot added at the end adds what it holds and counts to the totals.
pub proof fn lemma_totals_push(slots: Seq<(PeerAddr, PeerSlot)>, entry: (PeerAddr, PeerSlot))
    ensures
        held_total(slots.push(entry)) == held_total(slots) + entry.1.held,
        active_total(slots.push(entry)) == active_total(slots) + entry.1.active,
{
    assert(slots.push(entry).drop_last() == slots);
}

/// A slot taken out takes what it holds and counts off the totals.
pub proof fn lemma_totals_remove(slots: Seq<(PeerAddr, PeerSlot)>, i: int)
    requires
        0 <= i < slots.len(),
    ensures
        held_total(slots.remove(i)) == held_total(slots) - slots[i].1.held,
        active_total(slots.remove(i)) == active_total(slots) - slots[i].1.active,
    decreases slots.len(),
{
    let removed = slots.remove(i);
    if i == slots.len() - 1 {
        assert(removed == slots.drop_last());
    } else {
        assert(removed.drop_last() == slots.drop_last().remove(i));
        assert(removed.last() == slots.last());
        lemma_totals_remove(slots.drop_last(), i);
    }
}

/// Where no client counts more connections than it holds permits, all
/// clients together do not either.
pub proof fn lemma_active_within_held(slots: Seq<(PeerAddr, PeerSlot)>, per_ip: Option<u64>)
    requires
        slots_in_bounds(slots, per_ip),
    ensures
        active_total(slots) <= held_total(slots),
    decreases slots.len(),
{
    if slots.len() > 0 {
        let rest = slots.drop_last();
        assert forall|i: int| 0 <= i < rest.len() implies {
            &&& 0 < (#[trigger] rest[i]).1.held
            &&& rest[i].1.active <= rest[i].1.held
            &&& per_ip matches Some(limit) ==> rest[i].1.held <= limit
        } by {
            assert(rest[i] == slots[i]);
        }
        lemma_active_within_held(rest, per_ip);
        assert(slots.last() == slots[slots.len() - 1]);
    }
}

/// Admission control: who is let in, and how many connections each
/// client has open.
#[derive(Debug)]
pub struct Manager {
    max_connections: u64,
    per_ip_limits: Option<u64>,
    in_use: u64,
    slots: Vec<(PeerAddr, PeerSlot)>,
}

impl Manager {
    /// One slot per client that holds a permit.
    pub closed spec fn slots(self) -> Seq<(PeerAddr, PeerSlot)> {
        self.slots@
    }

    /// The number of connections that may be open at once.
    pub closed spec fn capacity(self) -> u64 {
        self.max_connections
    }

    /// The number of connections that may be open at once from one
    /// address, if that is limited.
    pub closed spec fn per_ip_limit(self) -> Option<u64> {
        self.per_ip_limits
    }

    /// The number of permits handed out and not yet given back.
    pub closed spec fn permits_in_use(self) -> u64 {
        self.in_use
    }

    /// The connections of `peer` that count as open.
    pub open spec fn active_connections(self, peer: PeerAddr) -> u64 {
        slot_of(self.slots(), peer).active
    }

    /// The permits that the connections of `peer` hold.
    pub open spec fn held_permits(self, peer: PeerAddr) -> u64 {
        slot_of(self.slots(), peer).held
    }

    /// The books are in order: one slot per client, each within its
    /// bounds, and as many permits in use as the slots hold together,
    /// which is no more than there are.
    pub open spec fn wf(self) -> bool {
        &&& distinct_peers(self.slots())
        &&& slots_in_bounds(self.slots(), self.per_ip_limit())
        &&& held_total(self.slots()) == self.permits_in_use()
        &&& self.permits_in_use() <= self.capacity()
    }

    /// Whether the books are in order.
    pub fn is_wf(&self) -> (b: bool)
        ensures
            b == self.wf(),
    {
        if !peers_distinct(&self.slots) || self.in_use > self.max_connections {
            return false;
        }
        let mut held: u64 = 0;
        let mut i: usize = 0;
        while i < self.slots.len()
            invariant
                i <= self.slots.len(),
                held == held_total(self.slots@.take(i as int)),
                held <= self.in_use,
                slots_in_bounds(self.slots@.take(i as int), self.per_ip_limits),
            decreases self.slots.len() - i,
        {
            let slot = self.slots[i].1;
            let ghost next = self.slots@.take(i + 1);
            proof {
                assert(next.drop_last() == self.slots@.take(i as int));
                assert(next.last() == self.slots@[i as int]);
            }
            let within_limit = match self.per_ip_limits {
                Some(limit) => slot.held <= limit,
                None => true,
            };
            if slot.held == 0 || slot.active > slot.held || !within_limit || slot.held
                > self.in_use - held {
                proof {
                    if slots_in_bounds(self.slots@, self.per_ip_limits) {
                        assert(self.slots@[i as int].1.held > 0);
                        lemma_held_prefix(self.slots@, i + 1);
                    }
                }
                return false;
            }
            held = held + slot.held;
            proof {
                assert forall|k: int| 0 <= k < next.len() implies {
                    &&& 0 < (#[trigger] next[k]).1.held
                    &&& next[k].1.active <= next[k].1.held
                    &&& self.per_ip_limits matches Some(limit) ==> next[k].1.held <= limit
                } by {
                    if k < i {
                        assert(next[k] == self.slots@.take(i as int)[k]);
                    }
                }
            }
            i += 1;
        }
        proof {
            assert(self.slots@.take(self.slots.len() as int) == self.slots@);
        }
        held == self.in_use
    }

    /// The number that the limit of a scope is set to; the limit for one
    /// address only where one is set.
    pub open spec fn limit_of(self, scope: LimitScope) -> u64 {
        match scope {
            LimitScope::PerIp => self.per_ip_limit().unwrap(),
            LimitScope::Global => self.capacity(),
        }
    }

    /// The limit that stands in the way of one more connection of `peer`,
    /// if one does. The limit for the address is looked at first.
    pub open spec fn refusal(self, peer: PeerAddr) -> Option<LimitScope> {
        if self.per_ip_limit() matches Some(limit) && self.held_permits(peer) >= limit {
            Some(LimitScope::PerIp)
        } else if self.permits_in_use() >= self.capacity() {
            Some(LimitScope::Global)
        } else {
            None
        }
    }

    /// A manager with no connection open.
    pub fn new(config: &ConnectionConfig) -> (m: Self)
        ensures
            m.wf(),
            m.slots() == Seq::<(PeerAddr, PeerSlot)>::empty(),
            m.capacity() == config.max_connections,
            m.per_ip_limit() == config.per_ip_limits,
            m.permits_in_use() == 0,
    {
        Manager {
            max_connections: config.max_connections,
            per_ip_limits: config.per_ip_limits,
            in_use: 0,
            slots: Vec::new(),
        }
    }

    /// Lets one more connection of `addr` in, unless a limit stands in the
    /// way. The limit for the address is tried before the limit for all,
    /// and a refusal changes nothing.
    pub fn accept_connection(&mut self, addr: PeerAddr) -> (r: Result<Admission, RelayError>)
        requires
            old(self).wf(),
        ensures
            final(self).wf(),
            final(self).capacity() == old(self).capacity(),
            final(self).per_ip_limit() == old(self).per_ip_limit(),
            match old(self).refusal(addr) {
                Some(scope) => {
                    &&& r matches Err(e) && is_limit_exceeded(
                        e,
                        scope,
                        old(self).limit_of(scope),
                        addr,
                    )
                    &&& final(self).slots() == old(self).slots()
                    &&& final(self).permits_in_use() == old(self).permits_in_use()
                },
                None => {
                    &&& r matches Ok(admission) && admission.guard.peer() == addr
                        && admission.guard.holds_per_ip_permit() == (old(self).per_ip_limit()
                        is Some) && admission.event == StatEvent::ClientConnected(addr)
                    &&& final(self).slots() == admitted(old(self).slots(), addr)
                    &&& final(self).permits_in_use() == old(self).permits_in_use() + 1
                },
            },
    {
        let found = find_peer(&self.slots, addr);
        let held = match found {
            Some(i) => {
                proof {
                    lemma_lookup_at(self.slots@, i as int);
                }
                self.slots[i].1.held
            },
            None => 0,
        };
        if let Some(limit) = self.per_ip_limits {
            if held >= limit {
                let mut text = String::from_str("Per-IP limit (");
                push_decimal(&mut text, limit);
                text.append(") reached for ");
                addr.push_to(&mut text);
                assert(text@ =~= per_ip_limit_text(limit, addr));
                return Err(
                    RelayError::Connection(ConnectionError::limit_exceeded(text.as_str())),
                );
            }
        }
        if self.in_use >= self.max_connections {
            return Err(
                RelayError::Connection(
                    ConnectionError::limit_exceeded("Global connection limit reached"),
                ),
            );
        }
        match found {
            Some(i) => {
                let slot = self.slots[i].1;
                proof {
                    lemma_totals_update(self.slots@, i as int, self.slots@[i as int]);
                    assert(self.slots@[i as int].1.active <= self.slots@[i as int].1.held);
                }
                let entry = (addr, PeerSlot { held: slot.held + 1, active: slot.active + 1 });
                proof {
                    let j = choose|j: int| 0 <= j < self.slots@.len() && self.slots@[j].0 == addr;
                    assert(j == i);
                    lemma_totals_update(self.slots@, i as int, entry);
                    lemma_lookup_update(self.slots@, i as int, entry.1, addr);
                }
                self.slots[i] = entry;
            },
            None => {
                let entry = (addr, PeerSlot { held: 1, active: 1 });
                proof {
                    lemma_totals_push(self.slots@, entry);
                    lemma_lookup_push(self.slots@, addr, entry.1, addr);
                }
                self.slots.push(entry);
            },
        }
        self.in_use = self.in_use + 1;
        Ok(
            Admission {
                guard: ConnectionGuard::issue(addr, self.per_ip_limits.is_some()),
                event: StatEvent::ClientConnected(addr),
            },
        )
    }

    /// Takes back the permits of a connection that has ended, and counts
    /// one connection of its client less. A guard of a client that holds
    /// no permit here changes nothing.
    pub fn release(&mut self, guard: ConnectionGuard) -> (event: StatEvent)
        requires
            old(self).wf(),
        ensures
            final(self).wf(),
            event == StatEvent::ClientDisconnected(guard.peer()),
            final(self).capacity() == old(self).capacity(),
            final(self).per_ip_limit() == old(self).per_ip_limit(),
            final(self).slots() == released(old(self).slots(), guard.peer()),
            final(self).permits_in_use() == if has_peer(old(self).slots(), guard.peer()) {
                old(self).permits_in_use() - 1
            } else {
                old(self).permits_in_use() as int
            },
    {
        let addr = guard.addr();
        match find_peer(&self.slots, addr) {
            Some(i) => {
                let slot = self.slots[i].1;
                proof {
                    let j = choose|j: int| 0 <= j < self.slots@.len() && self.slots@[j].0 == addr;
                    assert(j == i);
                    assert(0 < self.slots@[i as int].1.held);
                }
                if slot.held <= 1 {
                    proof {
                        lemma_totals_remove(self.slots@, i as int);
                        lemma_lookup_remove(self.slots@, i as int, addr);
                        let removed = self.slots@.remove(i as int);
                        assert forall|k: int| 0 <= k < removed.len() implies removed[k]
                            == self.slots@[if k < i {
                            k
                        } else {
                            k + 1
                        }] by {}
                    }
                    self.slots.remove(i);
                } else {
                    let entry = (
                        addr,
                        PeerSlot {
                            held: slot.held - 1,
                            active: if slot.active > 0 {
                                slot.active - 1
                            } else {
                                0
                            },
                        },
                    );
                    proof {
                        lemma_totals_update(self.slots@, i as int, entry);
                        lemma_lookup_update(self.slots@, i as int, entry.1, addr);
                    }
                    self.slots[i] = entry;
                }
                self.in_use = self.in_use - 1;
            },
            None => {},
        }
        StatEvent::ClientDisconnected(addr)
    }

    /// The number of connections of `addr` that count as open.
    pub fn get_connection_count(&self, addr: &PeerAddr) -> (n: u64)
        requires
            self.wf(),
        ensures
            n == self.active_connections(*addr),
    {
        match find_peer(&self.slots, *addr) {
            Some(i) => {
                proof {
                    lemma_lookup_at(self.slots@, i as int);
                }
                self.slots[i].1.active
            },
            None => 0,
        }
    }

    /// The number of connections of all clients that count as open. It
    /// never exceeds the number of connections that may be open at once.
    pub fn get_total_connections(&self) -> (n: u64)
        requires
            self.wf(),
        ensures
            n == active_total(self.slots()),
            n <= self.capacity(),
    {
        proof {
            lemma_active_within_held(self.slots@, self.per_ip_limits);
        }
        let mut n: u64 = 0;
        let mut i: usize = 0;
        while i < self.slots.len()
            invariant
                i <= self.slots.len(),
                n == active_total(self.slots@.take(i as int)),
                active_total(self.slots@) <= u64::MAX,
            decreases self.slots.len() - i,
        {
            proof {
                assert(self.slots@.take(i + 1).drop_last() == self.slots@.take(i as int));
                lemma_active_prefix(self.slots@, i + 1);
            }
            n = n + self.slots[i].1.active;
            i += 1;
        }
        proof {
            assert(self.slots@.take(self.slots.len() as int) == self.slots@);
        }
        n
    }

    /// The event that tells the statistics about a request that was
    /// handled.
    pub fn record_request(
        &self,
        addr: PeerAddr,
        success: bool,
        duration_ms: u64,
    ) -> (event: StatEvent)
        ensures
            event == (StatEvent::RequestProcessed { addr, success, duration_ms }),
    {
        StatEvent::RequestProcessed { addr, success, duration_ms }
    }

    /// Brings the counts of open connections in line with a snapshot of
    /// the statistics: a client of which the snapshot reports no open
    /// connection counts none. Permits are not touched.
    pub fn cleanup_idle_connections(&mut self, stats: &ConnectionStats)
        requires
            old(self).wf(),
        ensures
            final(self).wf(),
            final(self).capacity() == old(self).capacity(),
            final(self).per_ip_limit() == old(self).per_ip_limit(),
            final(self).permits_in_use() == old(self).permits_in_use(),
            final(self).slots() == cleaned(old(self).slots(), stats.per_ip_stats@),
    {
        let ghost before = self.slots@;
        let ghost target = cleaned(before, stats.per_ip_stats@);
        let mut i: usize = 0;
        while i < self.slots.len()
            invariant
                i <= self.slots.len(),
                self.slots@.len() == before.len(),
                target == cleaned(before, stats.per_ip_stats@),
                forall|k: int| 0 <= k < i ==> self.slots@[k] == target[k],
                forall|k: int| i <= k < before.len() ==> self.slots@[k] == before[k],
                held_total(self.slots@) == held_total(before),
                distinct_peers(before),
                slots_in_bounds(before, self.per_ip_limits),
                held_total(before) == self.in_use,
                self.in_use <= self.max_connections,
                self.in_use == old(self).in_use,
                self.max_connections == old(self).max_connections,
                self.per_ip_limits == old(self).per_ip_limits,
            decreases self.slots.len() - i,
        {
            let entry = self.slots[i];
            if !reports_active(&stats.per_ip_stats, entry.0) {
                let cleared = (entry.0, PeerSlot { held: entry.1.held, active: 0 });
                proof {
                    lemma_totals_update(self.slots@, i as int, cleared);
                }
                self.slots[i] = cleared;
            }
            i += 1;
        }
        proof {
            assert(self.slots@ =~= target);
            assert(distinct_peers(target)) by {
                assert forall|a: int, b: int|
                    0 <= a < target.len() && 0 <= b < target.len() && a != b implies target[a].0
                    != target[b].0 by {
                    assert(target[a].0 == before[a].0);
                    assert(target[b].0 == before[b].0);
                }
            }
            assert(slots_in_bounds(target, self.per_ip_limits)) by {
                assert forall|k: int| 0 <= k < target.len() implies {
                    &&& 0 < (#[trigger] target[k]).1.held
                    &&& target[k].1.active <= target[k].1.held
                    &&& self.per_ip_limits matches Some(limit) ==> target[k].1.held <= limit
                } by {
                    assert(target[k].1.held == before[k].1.held);
                    assert(0 < before[k].1.held);
                    assert(before[k].1.active <= before[k].1.held);
                }
            }
        }
    }
}

/// Letting a connection in raises the counts of its client by one and
/// leaves every other client as it was.
pub proof fn lemma_admitted_counts(slots: Seq<(PeerAddr, PeerSlot)>, peer: PeerAddr, other: PeerAddr)
    requires
        distinct_peers(slots),
        held_total(slots) < u64::MAX,
        slots_in_bounds(slots, None),
    ensures
        distinct_peers(admitted(slots, peer)),
        slot_of(admitted(slots, peer), peer).held == slot_of(slots, peer).held + 1,
        slot_of(admitted(slots, peer), peer).active == slot_of(slots, peer).active + 1,
        other != peer ==> slot_of(admitted(slots, peer), other) == slot_of(slots, other),
        held_total(admitted(slots, peer)) == held_total(slots) + 1,
        active_total(admitted(slots, peer)) == active_total(slots) + 1,
{
    if has_peer(slots, peer) {
        let i = choose|i: int| 0 <= i < slots.len() && slots[i].0 == peer;
        let entry = admitted(slots, peer)[i];
        lemma_lookup_at(slots, i);
        lemma_totals_update(slots, i, entry);
        lemma_lookup_update(slots, i, entry.1, peer);
        lemma_lookup_update(slots, i, entry.1, other);
    } else {
        let entry = (peer, PeerSlot { held: 1, active: 1 });
        lemma_totals_push(slots, entry);
        lemma_lookup_push(slots, peer, entry.1, peer);
        lemma_lookup_push(slots, peer, entry.1, other);
    }
}

/// Releasing a connection lowers the counts of its client by one, as far
/// as they are above zero, and leaves every other client as it was.
pub proof fn lemma_released_counts(slots: Seq<(PeerAddr, PeerSlot)>, peer: PeerAddr, other: PeerAddr)
    requires
        distinct_peers(slots),
        slots_in_bounds(slots, None),
    ensures
        distinct_peers(released(slots, peer)),
        slot_of(released(slots, peer), peer).held == if slot_of(slots, peer).held > 0 {
            slot_of(slots, peer).held - 1
        } else {
            0
        },
        slot_of(released(slots, peer), peer).active == if slot_of(slots, peer).active > 0 {
            slot_of(slots, peer).active - 1
        } else {
            0
        },
        other != peer ==> slot_of(released(slots, peer), other) == slot_of(slots, other),
{
    if has_peer(slots, peer) {
        let i = choose|i: int| 0 <= i < slots.len() && slots[i].0 == peer;
        lemma_lookup_at(slots, i);
        assert(0 < slots[i].1.held);
        if slots[i].1.held <= 1 {
            lemma_lookup_remove(slots, i, peer);
            lemma_lookup_remove(slots, i, other);
        } else {
            let entry = released(slots, peer)[i];
            lemma_lookup_update(slots, i, entry.1, peer);
            lemma_lookup_update(slots, i, entry.1, other);
        }
    }
}

/// Each connection that was let in is counted once and, when it is
/// released, taken off the count once: letting a connection in and
/// releasing it leaves the books exactly as they were.
pub proof fn lemma_release_undoes_admit(slots: Seq<(PeerAddr, PeerSlot)>, peer: PeerAddr)
    requires
        distinct_peers(slots),
        slots_in_bounds(slots, None),
        held_total(slots) < u64::MAX,
    ensures
        released(admitted(slots, peer), peer) == slots,
{
    let let_in = admitted(slots, peer);
    lemma_admitted_counts(slots, peer, peer);
    if has_peer(slots, peer) {
        let i = choose|i: int| 0 <= i < slots.len() && slots[i].0 == peer;
        lemma_totals_update(slots, i, slots[i]);
        assert(let_in[i].0 == peer);
        let j = choose|j: int| 0 <= j < let_in.len() && let_in[j].0 == peer;
        assert(j == i);
        assert(0 < slots[i].1.held);
        assert(released(let_in, peer) =~= slots);
    } else {
        assert(let_in[slots.len() as int].0 == peer);
        let j = choose|j: int| 0 <= j < let_in.len() && let_in[j].0 == peer;
        assert(j == slots.len());
        assert(released(let_in, peer) =~= slots);
    }
}

impl Manager {
    /// At every moment the connections that count as open are no more
    /// than may be open at once, and those of one address no more than
    /// its limit, where one is set.
    pub proof fn lemma_within_limits(self, peer: PeerAddr)
        requires
            self.wf(),
        ensures
            active_total(self.slots()) <= self.capacity(),
            self.active_connections(peer) <= self.held_permits(peer),
            self.held_permits(peer) <= self.permits_in_use(),
            self.per_ip_limit() matches Some(limit) ==> self.active_connections(peer) <= limit,
    {
        lemma_active_within_held(self.slots(), self.per_ip_limit());
        if has_peer(self.slots(), peer) {
            let i = choose|i: int| 0 <= i < self.slots().len() && self.slots()[i].0 == peer;
            lemma_lookup_at(self.slots(), i);
            lemma_totals_update(self.slots(), i, self.slots()[i]);
            assert(0 < self.slots()[i].1.held);
        }
    }

    /// A client at its limit is refused for that limit, whatever room is
    /// left in all; any other client is refused exactly when no room is
    /// left in all.
    pub proof fn lemma_refusal_scope(self, peer: PeerAddr)
        requires
            self.wf(),
        ensures
            self.refusal(peer) == Some(LimitScope::PerIp) <==> (self.per_ip_limit() matches Some(
                limit,
            ) && self.held_permits(peer) >= limit),
            self.refusal(peer) == Some(LimitScope::Global) <==> (!(self.per_ip_limit() matches Some(
                limit,
            ) && self.held_permits(peer) >= limit) && self.permits_in_use()
                == self.capacity()),
    {
    }
}

/// The permits held in a part of the slots are no more than are held in
/// all.
proof fn lemma_held_prefix(slots: Seq<(PeerAddr, PeerSlot)>, n: int)
    requires
        0 <= n <= slots.len(),
    ensures
        held_total(slots.take(n)) <= held_total(slots),
    decreases slots.len() - n,
{
    if n < slots.len() {
        assert(slots.take(n + 1).drop_last() == slots.take(n));
        lemma_held_prefix(slots, n + 1);
    } else {
        assert(slots.take(n) == slots);
    }
}

/// The connections counted in a part of the slots are no more than are
/// counted in all.
proof fn lemma_active_prefix(slots: Seq<(PeerAddr, PeerSlot)>, n: int)
    requires
        0 <= n <= slots.len(),
    ensures
        active_total(slots.take(n)) <= active_total(slots),
    decreases slots.len() - n,
{
    if n < slots.len() {
        assert(slots.take(n + 1).drop_last() == slots.take(n));
        lemma_active_prefix(slots, n + 1);
    } else {
        assert(slots.take(n) == slots);
    }
}

/// Whether a snapshot reports an open connection of `peer`.
pub fn reports_active(per_ip: &Vec<(PeerAddr, IpStats)>, peer: PeerAddr) -> (found: bool)
    ensures
        found == reported_active(per_ip@, peer),
{
    let mut i: usize = 0;
    while i < per_ip.len()
        invariant
            i <= per_ip.len(),
            forall|k: int|
                0 <= k < i ==> !(per_ip[k].0 == peer && per_ip[k].1.active_connections > 0),
        decreases per_ip.len() - i,
    {
        if per_ip[i].0 == peer && per_ip[i].1.active_connections > 0 {
            return true;
        }
        i += 1;
    }
    false
}

} // verus!
