//! The pool of relay servers: round-robin rotation over the healthy ones,
//! health tracking from probe results, and replacement of the list.

use vstd::prelude::*;
use vstd::arithmetic::div_mod::*;
use crate::text::str_eq;

verus! {

/// One configured relay server with its health state.
#[derive(Debug, PartialEq, Eq)]
pub struct RelayServerEntry {
    pub address: String,
    pub healthy: bool,
    /// Probes that failed in a row since the last one that succeeded.
    pub failures: u32,
}

/// What a `RelayServerEntry` holds.
pub ghost struct RelayEntryView {
    pub address: Seq<char>,
    pub healthy: bool,
    pub failures: u32,
}

impl View for RelayServerEntry {
    type V = RelayEntryView;

    open spec fn view(&self) -> RelayEntryView {
        RelayEntryView { address: self.address@, healthy: self.healthy, failures: self.failures }
    }
}

impl Clone for RelayServerEntry {
    fn clone(&self) -> (r: Self)
        ensures
            r@ == self@,
    {
        RelayServerEntry {
            address: self.address.clone(),
            healthy: self.healthy,
            failures: self.failures,
        }
    }
}

/// What a `RelayPool` holds: the entries in configured order, the position
/// at which the next rotation starts, and the number of failed probes in a
/// row at which an entry counts as unhealthy.
pub ghost struct RelayPoolView {
    pub entries: Seq<RelayEntryView>,
    pub cursor: int,
    pub failure_threshold: u32,
}

/// The views of a list of entries, in order.
pub open spec fn entry_views(s: Seq<RelayServerEntry>) -> Seq<RelayEntryView> {
    Seq::new(s.len(), |i: int| s[i]@)
}

/// A relay that was just configured: healthy, with no failure counted.
pub open spec fn fresh_entry(address: Seq<char>) -> RelayEntryView {
    RelayEntryView { address, healthy: true, failures: 0 }
}

/// Whether every entry is healthy.
pub open spec fn all_healthy(entries: Seq<RelayEntryView>) -> bool {
    forall|i: int| 0 <= i < entries.len() ==> (#[trigger] entries[i]).healthy
}

/// Whether no entry is healthy.
pub open spec fn none_healthy(entries: Seq<RelayEntryView>) -> bool {
    forall|i: int| 0 <= i < entries.len() ==> !(#[trigger] entries[i]).healthy
}

/// Walks the pool in a circle from `cursor`, `skipped` entries already
/// passed over, up to the first healthy entry. Where the walk comes round
/// without finding one, the result is `cursor` itself.
pub open spec fn scan_healthy(entries: Seq<RelayEntryView>, cursor: int, skipped: int) -> int
    decreases entries.len() - skipped,
{
    if skipped < 0 || skipped >= entries.len() {
        cursor
    } else if entries[(cursor + skipped) % (entries.len() as int)].healthy {
        (cursor + skipped) % (entries.len() as int)
    } else {
        scan_healthy(entries, cursor, skipped + 1)
    }
}

/// The position of the entry that the next rotation hands out: the first
/// healthy one at or after the cursor, or the one at the cursor where none is
/// healthy.
pub open spec fn next_pick(entries: Seq<RelayEntryView>, cursor: int) -> int {
    scan_healthy(entries, cursor, 0)
}

/// The pool after one rotation: the cursor stands behind the entry that was
/// handed out.
pub open spec fn rotated(pool: RelayPoolView) -> RelayPoolView {
    if pool.entries.len() == 0 {
        pool
    } else {
        RelayPoolView {
            cursor: (next_pick(pool.entries, pool.cursor) + 1) % (pool.entries.len() as int),
            ..pool
        }
    }
}

/// An entry after one probe. A probe that succeeds makes it healthy and
/// clears the count; one that fails adds to the count, and the entry is
/// healthy only while the count is under the threshold.
pub open spec fn probed(e: RelayEntryView, reachable: bool, threshold: u32) -> RelayEntryView {
    if reachable {
        RelayEntryView { healthy: true, failures: 0, ..e }
    } else {
        let failures = if e.failures < u32::MAX {
            (e.failures + 1) as u32
        } else {
            e.failures
        };
        RelayEntryView { healthy: failures < threshold, failures, ..e }
    }
}

/// The entries after a probe of `address` came back.
pub open spec fn after_probe(
    entries: Seq<RelayEntryView>,
    address: Seq<char>,
    reachable: bool,
    threshold: u32,
) -> Seq<RelayEntryView> {
    Seq::new(
        entries.len(),
        |i: int|
            if entries[i].address == address {
                probed(entries[i], reachable, threshold)
            } else {
                entries[i]
            },
    )
}

/// The entries after a round of probes of which `reachable` lists the
/// addresses that answered.
pub open spec fn after_round(
    entries: Seq<RelayEntryView>,
    reachable: Seq<Seq<char>>,
    threshold: u32,
) -> Seq<RelayEntryView> {
    Seq::new(
        entries.len(),
        |i: int| probed(entries[i], reachable.contains(entries[i].address), threshold),
    )
}

/// The first entry with the given address, if there is one.
pub open spec fn find_entry(entries: Seq<RelayEntryView>, address: Seq<char>) -> Option<
    RelayEntryView,
>
    decreases entries.len(),
{
    if entries.len() == 0 {
        None
    } else if entries[0].address == address {
        Some(entries[0])
    } else {
        find_entry(entries.drop_first(), address)
    }
}

/// The entry that a new list gets for `address`: the state that the old
/// list held for it, or a fresh entry where the address is new.
pub open spec fn carried_over(old_entries: Seq<RelayEntryView>, address: Seq<char>) -> RelayEntryView {
    match find_entry(old_entries, address) {
        Some(e) => e,
        None => fresh_entry(address),
    }
}

/// The pool after the list of addresses was replaced.
pub open spec fn replaced(pool: RelayPoolView, addresses: Seq<Seq<char>>) -> RelayPoolView {
    RelayPoolView {
        entries: Seq::new(addresses.len(), |i: int| carried_over(pool.entries, addresses[i])),
        cursor: if addresses.len() == 0 {
            0
        } else {
            pool.cursor % (addresses.len() as int)
        },
        failure_threshold: pool.failure_threshold,
    }
}

/// The addresses to probe: all of them where the pool has more than one
/// entry, none otherwise.
pub open spec fn probe_list(entries: Seq<RelayEntryView>) -> Seq<Seq<char>> {
    if entries.len() > 1 {
        Seq::new(entries.len(), |i: int| entries[i].address)
    } else {
        Seq::empty()
    }
}

proof fn lemma_wrap(c: int, k: int, n: int)
    requires
        0 <= c < n,
        0 <= k < n,
    ensures
        (c + k) % n == if c + k < n {
            c + k
        } else {
            c + k - n
        },
{
    if c + k < n {
        lemma_small_mod((c + k) as nat, n as nat);
    } else {
        lemma_fundamental_div_mod_converse(c + k, n, 1, c + k - n);
    }
}

/// The relay pool.
pub struct RelayPool {
    entries: Vec<RelayServerEntry>,
    cursor: usize,
    failure_threshold: u32,
}

impl View for RelayPool {
    type V = RelayPoolView;

    closed spec fn view(&self) -> RelayPoolView {
        RelayPoolView {
            entries: entry_views(self.entries@),
            cursor: self.cursor as int,
            failure_threshold: self.failure_threshold,
        }
    }
}

/// The cursor stands on an entry, or at 0 in an empty pool.
pub open spec fn pool_wf(pool: RelayPoolView) -> bool {
    0 <= pool.cursor && (pool.cursor < pool.entries.len() || pool.cursor == 0)
}

impl RelayPool {
    /// The cursor stands on an entry, or at 0 in an empty pool.
    pub open spec fn wf(&self) -> bool {
        pool_wf(self@)
    }

    /// A pool of the given addresses, all healthy, that starts its rotation
    /// at the first one.
    pub fn new(addresses: Vec<String>, failure_threshold: u32) -> (pool: Self)
        ensures
            pool.wf(),
            pool@.cursor == 0,
            pool@.failure_threshold == failure_threshold,
            pool@.entries == Seq::new(addresses@.len(), |i: int| fresh_entry(addresses@[i]@)),
    {
        let mut entries: Vec<RelayServerEntry> = Vec::new();
        let mut i: usize = 0;
        while i < addresses.len()
            invariant
                i <= addresses@.len(),
                entries@.len() == i,
                forall|j: int| 0 <= j < i ==> (#[trigger] entries@[j])@ == fresh_entry(addresses@[j]@),
            decreases addresses@.len() - i,
        {
            entries.push(
                RelayServerEntry { address: addresses[i].clone(), healthy: true, failures: 0 },
            );
            i += 1;
        }
        let pool = RelayPool { entries, cursor: 0, failure_threshold };
        assert(pool@.entries =~= Seq::new(addresses@.len(), |i: int| fresh_entry(addresses@[i]@)));
        pool
    }

    /// The number of configured relays.
    pub fn len(&self) -> (n: usize)
        ensures
            n == self@.entries.len(),
    {
        self.entries.len()
    }

    /// The entry at a position of the configured list.
    pub fn entry(&self, i: usize) -> (e: &RelayServerEntry)
        requires
            i < self@.entries.len(),
        ensures
            e@ == self@.entries[i as int],
    {
        &self.entries[i]
    }

    /// Hands out the next relay and moves the cursor behind it. Unhealthy
    /// entries are passed over; where none is healthy the entry at the cursor
    /// is handed out all the same. `None` only for an empty pool.
    pub fn rotate_next(&mut self) -> (r: Option<RelayServerEntry>)
        requires
            old(self).wf(),
        ensures
            final(self).wf(),
            final(self)@ == rotated(old(self)@),
            match r {
                None => old(self)@.entries.len() == 0,
                Some(e) => old(self)@.entries.len() > 0 && e@ == old(self)@.entries[next_pick(
                    old(self)@.entries,
                    old(self)@.cursor,
                )],
            },
    {
        let n = self.entries.len();
        if n == 0 {
            return None;
        }
        let ghost entries = self@.entries;
        let cursor = self.cursor;
        let mut pick = cursor;
        let mut found = false;
        let mut k: usize = 0;
        while k < n && !found
            invariant
                n == self.entries@.len(),
                n > 0,
                entries == entry_views(self.entries@),
                cursor < n,
                k <= n,
                pick < n,
                !found ==> pick == cursor && scan_healthy(entries, cursor as int, k as int)
                    == next_pick(entries, cursor as int),
                found ==> pick == next_pick(entries, cursor as int),
            decreases n - k + if found { 0int } else { 1int },
        {
            let j = if k < n - cursor {
                cursor + k
            } else {
                k - (n - cursor)
            };
            proof {
                lemma_wrap(cursor as int, k as int, n as int);
                assert(entries[j as int] == self.entries@[j as int]@);
            }
            if self.entries[j].healthy {
                pick = j;
                found = true;
            } else {
                k += 1;
            }
        }
        let next = if pick + 1 == n {
            0
        } else {
            pick + 1
        };
        proof {
            if n > 1 {
                lemma_wrap(pick as int, 1, n as int);
            } else {
                assert((pick + 1) % (n as int) == 0) by {
                    lemma_fundamental_div_mod_converse(pick as int + 1, n as int, 1, 0);
                }
            }
            assert(entries[pick as int] == self.entries@[pick as int]@);
        }
        let e = self.entries[pick].clone();
        self.cursor = next;
        Some(e)
    }

    /// The addresses that the next round of probes goes to.
    pub fn probe_targets(&self) -> (out: Vec<String>)
        ensures
            crate::text::views_of(out@) == probe_list(self@.entries),
    {
        let mut out: Vec<String> = Vec::new();
        if self.entries.len() > 1 {
            let mut i: usize = 0;
            while i < self.entries.len()
                invariant
                    i <= self.entries@.len(),
                    out@.len() == i,
                    forall|j: int| 0 <= j < i ==> (#[trigger] out@[j])@ == self.entries@[j].address@,
                decreases self.entries@.len() - i,
            {
                out.push(self.entries[i].address.clone());
                i += 1;
            }
        }
        assert(crate::text::views_of(out@) =~= probe_list(self@.entries));
        out
    }

    /// Takes in the result of one probe: every entry with this address is
    /// updated, the others and the cursor stay.
    pub fn record_probe(&mut self, address: &str, reachable: bool)
        requires
            old(self).wf(),
        ensures
            final(self).wf(),
            final(self)@ == (RelayPoolView {
                entries: after_probe(
                    old(self)@.entries,
                    address@,
                    reachable,
                    old(self)@.failure_threshold,
                ),
                ..old(self)@
            }),
    {
        let threshold = self.failure_threshold;
        let n = self.entries.len();
        let ghost before = self@.entries;
        let mut i: usize = 0;
        while i < n
            invariant
                n == self.entries@.len(),
                before.len() == n,
                i <= n,
                self.cursor == old(self).cursor,
                self.failure_threshold == threshold,
                threshold == old(self).failure_threshold,
                before == old(self)@.entries,
                forall|j: int|
                    0 <= j < i ==> (#[trigger] self.entries@[j])@ == after_probe(
                        before,
                        address@,
                        reachable,
                        threshold,
                    )[j],
                forall|j: int| i <= j < n ==> (#[trigger] self.entries@[j])@ == before[j],
            decreases n - i,
        {
            if str_eq(self.entries[i].address.as_str(), address) {
                let cur = &self.entries[i];
                let failures = if reachable {
                    0
                } else if cur.failures < u32::MAX {
                    cur.failures + 1
                } else {
                    cur.failures
                };
                let e = RelayServerEntry {
                    address: cur.address.clone(),
                    healthy: reachable || failures < threshold,
                    failures,
                };
                self.entries.set(i, e);
            }
            i += 1;
        }
        assert(self@.entries =~= after_probe(before, address@, reachable, threshold));
    }

    /// Takes in a whole round of probes: an entry whose address is among
    /// `reachable` has answered, every other entry has failed.
    pub fn record_round(&mut self, reachable: &Vec<String>)
        requires
            old(self).wf(),
        ensures
            final(self).wf(),
            final(self)@ == (RelayPoolView {
                entries: after_round(
                    old(self)@.entries,
                    crate::text::views_of(reachable@),
                    old(self)@.failure_threshold,
                ),
                ..old(self)@
            }),
    {
        let threshold = self.failure_threshold;
        let n = self.entries.len();
        let ghost before = self@.entries;
        let ghost answered = crate::text::views_of(reachable@);
        let mut i: usize = 0;
        while i < n
            invariant
                n == self.entries@.len(),
                before.len() == n,
                i <= n,
                self.cursor == old(self).cursor,
                self.failure_threshold == threshold,
                threshold == old(self).failure_threshold,
                before == old(self)@.entries,
                answered == crate::text::views_of(reachable@),
                forall|j: int|
                    0 <= j < i ==> (#[trigger] self.entries@[j])@ == after_round(
                        before,
                        answered,
                        threshold,
                    )[j],
                forall|j: int| i <= j < n ==> (#[trigger] self.entries@[j])@ == before[j],
            decreases n - i,
        {
            let cur = &self.entries[i];
            let ok = crate::text::contains_str(reachable, cur.address.as_str());
            let failures = if ok {
                0
            } else if cur.failures < u32::MAX {
                cur.failures + 1
            } else {
                cur.failures
            };
            let e = RelayServerEntry {
                address: cur.address.clone(),
                healthy: ok || failures < threshold,
                failures,
            };
            self.entries.set(i, e);
            i += 1;
        }
        assert(self@.entries =~= after_round(before, answered, threshold));
    }

    fn find(&self, address: &str) -> (r: Option<usize>)
        ensures
            match r {
                Some(i) => i < self.entries@.len() && find_entry(self@.entries, address@) == Some(
                    self.entries@[i as int]@,
                ),
                None => find_entry(self@.entries, address@) is None,
            },
    {
        let ghost all = self@.entries;
        let n = self.entries.len();
        let mut i: usize = 0;
        assert(all.subrange(0, n as int) =~= all);
        while i < n
            invariant
                n == self.entries@.len(),
                all == entry_views(self.entries@),
                i <= n,
                find_entry(all, address@) == find_entry(all.subrange(i as int, n as int), address@),
            decreases n - i,
        {
            let ghost rest = all.subrange(i as int, n as int);
            assert(rest[0] == self.entries@[i as int]@);
            if str_eq(self.entries[i].address.as_str(), address) {
                return Some(i);
            }
            assert(rest.drop_first() =~= all.subrange(i as int + 1, n as int));
            i += 1;
        }
        assert(all.subrange(n as int, n as int).len() == 0);
        None
    }

    /// Replaces the configured addresses. An address that the old list held
    /// keeps the health state it had there; a new one starts fresh.
    pub fn replace_list(&mut self, addresses: Vec<String>)
        requires
            old(self).wf(),
        ensures
            final(self).wf(),
            final(self)@ == replaced(old(self)@, crate::text::views_of(addresses@)),
    {
        let mut entries: Vec<RelayServerEntry> = Vec::new();
        let ghost before = self@.entries;
        let mut i: usize = 0;
        while i < addresses.len()
            invariant
                i <= addresses@.len(),
                entries@.len() == i,
                before == self@.entries,
                forall|j: int|
                    0 <= j < i ==> (#[trigger] entries@[j])@ == carried_over(
                        before,
                        addresses@[j]@,
                    ),
            decreases addresses@.len() - i,
        {
            let e = match self.find(addresses[i].as_str()) {
                Some(k) => RelayServerEntry {
                    address: self.entries[k].address.clone(),
                    healthy: self.entries[k].healthy,
                    failures: self.entries[k].failures,
                },
                None => RelayServerEntry {
                    address: addresses[i].clone(),
                    healthy: true,
                    failures: 0,
                },
            };
            entries.push(e);
            i += 1;
        }
        let n = entries.len();
        let cursor = if n == 0 {
            0
        } else {
            self.cursor % n
        };
        self.entries = entries;
        self.cursor = cursor;
        assert(self@.entries =~= replaced(old(self)@, crate::text::views_of(addresses@)).entries);
    }
}

/// The relay addresses that a comma-separated list names: its entries
/// without the empty ones.
pub fn parse_relay_servers(list: &str) -> (addresses: Vec<String>)
    ensures
        crate::text::views_of(addresses@) == crate::text::non_empty_fields(
            crate::text::split_at_commas(list@),
        ),
{
    crate::text::comma_list(list)
}

/// The pool after `k` rotations in a row.
pub open spec fn rotated_times(pool: RelayPoolView, k: nat) -> RelayPoolView
    decreases k,
{
    if k == 0 {
        pool
    } else {
        rotated(rotated_times(pool, (k - 1) as nat))
    }
}

/// The position that rotation number `k` (counted from 0) hands out.
pub open spec fn pick_at(pool: RelayPoolView, k: nat) -> int {
    let p = rotated_times(pool, k);
    next_pick(p.entries, p.cursor)
}

/// How many of the first `n` rotations hand out position `i`.
pub open spec fn times_picked(pool: RelayPoolView, n: nat, i: int) -> nat
    decreases n,
{
    if n == 0 {
        0
    } else {
        let before = times_picked(pool, (n - 1) as nat, i);
        if pick_at(pool, (n - 1) as nat) == i {
            before + 1
        } else {
            before
        }
    }
}

/// In a pool whose entries are all healthy, rotation number `k` hands out
/// the entry `k` places after the cursor, counted in a circle.
pub proof fn lemma_round_robin(pool: RelayPoolView, k: nat)
    requires
        pool.entries.len() > 0,
        pool_wf(pool),
        all_healthy(pool.entries),
    ensures
        rotated_times(pool, k) == (RelayPoolView {
            cursor: (pool.cursor + k) % (pool.entries.len() as int),
            ..pool
        }),
        pick_at(pool, k) == (pool.cursor + k) % (pool.entries.len() as int),
    decreases k,
{
    let n = pool.entries.len() as int;
    if k == 0 {
        lemma_small_mod(pool.cursor as nat, n as nat);
    } else {
        lemma_round_robin(pool, (k - 1) as nat);
        let p = rotated_times(pool, (k - 1) as nat);
        lemma_mod_pos_bound(pool.cursor + k - 1, n);
        lemma_small_mod(p.cursor as nat, n as nat);
        assert(next_pick(p.entries, p.cursor) == p.cursor);
        lemma_add_mod_noop(pool.cursor + k - 1, 1, n);
        lemma_add_mod_noop_right(p.cursor, 1, n);
        lemma_mod_twice(pool.cursor + k - 1, n);
        assert((p.cursor + 1) % n == (pool.cursor + k) % n) by {
            lemma_add_mod_noop(pool.cursor + k - 1, 1, n);
            lemma_add_mod_noop(p.cursor, 1, n);
        }
    }
    let q = rotated_times(pool, k);
    lemma_mod_pos_bound(pool.cursor + k, n);
    lemma_small_mod(q.cursor as nat, n as nat);
}

/// How many places after `cursor` the position `i` lies, counted in a circle
/// of `n` places.
pub open spec fn places_after(cursor: int, i: int, n: int) -> int {
    if i >= cursor {
        i - cursor
    } else {
        i - cursor + n
    }
}

proof fn lemma_hit(cursor: int, k: nat, i: int, n: int)
    requires
        0 <= cursor < n,
        0 <= i < n,
    ensures
        ((cursor + k) % n == i) <==> ((k as int) % n == places_after(cursor, i, n)),
{
    let r = (k as int) % n;
    lemma_mod_pos_bound(k as int, n);
    lemma_add_mod_noop_right(cursor, k as int, n);
    lemma_wrap(cursor, r, n);
}

proof fn lemma_step_div_mod(m: int, n: int)
    requires
        0 <= m,
        0 < n,
    ensures
        m % n + 1 < n ==> (m + 1) / n == m / n && (m + 1) % n == m % n + 1,
        m % n + 1 == n ==> (m + 1) / n == m / n + 1 && (m + 1) % n == 0,
{
    let q = m / n;
    let r = m % n;
    lemma_fundamental_div_mod(m, n);
    lemma_mod_pos_bound(m, n);
    assert(m == q * n + r) by (nonlinear_arith)
        requires
            m == n * q + r,
    ;
    if r + 1 < n {
        lemma_fundamental_div_mod_converse(m + 1, n, q, r + 1);
    } else {
        assert(m + 1 == (q + 1) * n + 0) by (nonlinear_arith)
            requires
                m == q * n + r,
                r + 1 == n,
        ;
        lemma_fundamental_div_mod_converse(m + 1, n, q + 1, 0);
    }
}

/// In a pool whose entries are all healthy, the first `m` rotations hand
/// out position `i` once in every full round, and once more where `i` lies
/// in the part of the last round that was begun.
pub proof fn lemma_times_picked(pool: RelayPoolView, m: nat, i: int)
    requires
        pool.entries.len() > 0,
        pool_wf(pool),
        all_healthy(pool.entries),
        0 <= i < pool.entries.len(),
    ensures
        times_picked(pool, m, i) == (m as int) / (pool.entries.len() as int) + if places_after(
            pool.cursor,
            i,
            pool.entries.len() as int,
        ) < (m as int) % (pool.entries.len() as int) {
            1int
        } else {
            0int
        },
    decreases m,
{
    let n = pool.entries.len() as int;
    if m == 0 {
        lemma_fundamental_div_mod_converse(0, n, 0, 0);
    } else {
        let k = (m - 1) as nat;
        lemma_times_picked(pool, k, i);
        lemma_round_robin(pool, k);
        lemma_hit(pool.cursor, k, i, n);
        lemma_step_div_mod(k as int, n);
        lemma_mod_pos_bound(k as int, n);
    }
}

/// Rotation is fair: in a pool whose entries are all healthy, over any
/// number `m` of rotations each relay is handed out `m / size` times, or once
/// more.
pub proof fn lemma_rotation_is_fair(pool: RelayPoolView, m: nat, i: int)
    requires
        pool.entries.len() > 0,
        pool_wf(pool),
        all_healthy(pool.entries),
        0 <= i < pool.entries.len(),
    ensures
        (m as int) / (pool.entries.len() as int) <= times_picked(pool, m, i) <= (m as int) / (
        pool.entries.len() as int) + 1,
{
    lemma_times_picked(pool, m, i);
}

} // verus!
