//! A guard per key against starting an action that is already running.

use std::time::Instant;

use vstd::prelude::*;

verus! {

/// A point of the monotonic clock.
#[verifier::external_type_specification]
#[verifier::external_body]
pub struct ExInstant(std::time::Instant);

/// `Instant::now`. Nothing is claimed of the time it gives.
#[verifier::external_body]
fn instant_now() -> (now: Instant) {
    Instant::now()
}

/// `Instant::elapsed`, in nanoseconds. Nothing is claimed of the time it gives.
#[verifier::external_body]
fn nanos_since(start: &Instant) -> (nanos: u128) {
    start.elapsed().as_nanos()
}

/// Five minutes, in nanoseconds: how long an action may run before it counts as
/// unusually long.
pub const IN_FLIGHT_TIMEOUT: u128 = 300_000_000_000;

/// What can identify a row: a value that can be copied and told apart.
pub trait RowKey: Copy {
    /// Whether both are the same key.
    fn same(&self, other: &Self) -> (r: bool)
        ensures
            r == (*self == *other),
    ;
}

impl RowKey for i32 {
    fn same(&self, other: &Self) -> (r: bool) {
        *self == *other
    }
}

impl RowKey for u64 {
    fn same(&self, other: &Self) -> (r: bool) {
        *self == *other
    }
}

impl RowKey for [u8; 32] {
    fn same(&self, other: &Self) -> (r: bool) {
        crate::model::identifier::same_id(self, other)
    }
}

/// The keys that have an action running, each with the time it began, counted
/// in nanoseconds from the guard's own creation.
#[derive(Debug)]
pub struct InFlightActions<K: RowKey> {
    in_flight: Vec<(K, u128)>,
    created: Instant,
}

/// The keys of `entries` with their times.
spec fn as_map<K>(entries: Seq<(K, u128)>) -> Map<K, u128>
    decreases entries.len(),
{
    if entries.len() == 0 {
        Map::empty()
    } else {
        as_map(entries.drop_last()).insert(entries.last().0, entries.last().1)
    }
}

/// No key stands twice.
spec fn distinct_keys<K>(entries: Seq<(K, u128)>) -> bool {
    forall|i: int, j: int| 0 <= i < j < entries.len() ==> (#[trigger] entries[i]).0 != (
    #[trigger] entries[j]).0
}

proof fn lemma_as_map_has<K>(entries: Seq<(K, u128)>, key: K)
    ensures
        as_map(entries).dom().contains(key) <==> exists|i: int|
            0 <= i < entries.len() && (#[trigger] entries[i]).0 == key,
    decreases entries.len(),
{
    if entries.len() > 0 {
        let before = entries.drop_last();
        lemma_as_map_has(before, key);
        if as_map(before).dom().contains(key) {
            let i = choose|i: int| 0 <= i < before.len() && (#[trigger] before[i]).0 == key;
            assert(entries[i].0 == key);
        }
        if entries.last().0 == key {
            assert(entries[entries.len() - 1].0 == key);
        }
        if exists|i: int| 0 <= i < entries.len() && (#[trigger] entries[i]).0 == key {
            let i = choose|i: int| 0 <= i < entries.len() && (#[trigger] entries[i]).0 == key;
            if i < before.len() {
                assert(before[i].0 == key);
            }
        }
    }
}

proof fn lemma_as_map_at<K>(entries: Seq<(K, u128)>, i: int)
    requires
        distinct_keys(entries),
        0 <= i < entries.len(),
    ensures
        as_map(entries).dom().contains(entries[i].0),
        as_map(entries)[entries[i].0] == entries[i].1,
    decreases entries.len(),
{
    let before = entries.drop_last();
    if i < before.len() {
        assert(distinct_keys(before)) by {
            assert forall|a: int, b: int| 0 <= a < b < before.len() implies (
            #[trigger] before[a]).0 != (#[trigger] before[b]).0 by {
                assert(entries[a].0 != entries[b].0);
            }
        }
        lemma_as_map_at(before, i);
        assert(before[i].0 != entries.last().0);
    }
}

impl<K: RowKey> View for InFlightActions<K> {
    type V = Map<K, u128>;

    closed spec fn view(&self) -> Map<K, u128> {
        as_map(self.in_flight@)
    }
}

/// What is running after the slot of `key` was asked for at the time `now`: its
/// action too, and one that was running already goes on.
pub open spec fn begun<K>(running: Map<K, u128>, key: K, now: u128) -> Map<K, u128> {
    if running.dom().contains(key) {
        running
    } else {
        running.insert(key, now)
    }
}

/// What is running after the slot of `key` was released.
pub open spec fn released<K>(running: Map<K, u128>, key: K) -> Map<K, u128> {
    running.remove(key)
}

/// Whether, at the time `now`, the action of `key` is running and has been for the
/// timeout or longer.
pub open spec fn long_at<K>(running: Map<K, u128>, key: K, now: u128) -> bool {
    running.dom().contains(key) && now - running[key] >= IN_FLIGHT_TIMEOUT
}

/// What is left at the time `now`: the actions that have been running for less than
/// the timeout, each with the time it began.
pub open spec fn fresh_at<K>(running: Map<K, u128>, now: u128) -> Map<K, u128> {
    Map::new(
        |key: K| running.dom().contains(key) && now - running[key] < IN_FLIGHT_TIMEOUT,
        |key: K| running[key],
    )
}

impl<K: RowKey> Clone for InFlightActions<K> {
    fn clone(&self) -> (copy: Self)
        ensures
            copy@ == self@,
            copy.origin() == self.origin(),
    {
        proof {
            use_type_invariant(self);
        }
        let mut in_flight: Vec<(K, u128)> = Vec::new();
        let mut i: usize = 0;
        while i < self.in_flight.len()
            invariant
                i <= self.in_flight@.len(),
                in_flight@ == self.in_flight@.take(i as int),
            decreases self.in_flight@.len() - i,
        {
            in_flight.push(self.in_flight[i]);
            i = i + 1;
        }
        assert(in_flight@ =~= self.in_flight@);
        InFlightActions { in_flight, created: self.created }
    }
}

impl<K: RowKey> Default for InFlightActions<K> {
    fn default() -> (guard: Self)
        ensures
            guard@ == Map::<K, u128>::empty(),
    {
        InFlightActions { in_flight: Vec::new(), created: instant_now() }
    }
}

impl<K: RowKey> InFlightActions<K> {
    #[verifier::type_invariant]
    spec fn well_formed(self) -> bool {
        distinct_keys(self.in_flight@)
    }

    /// The moment from which the times that actions began are counted.
    pub closed spec fn origin(self) -> Instant {
        self.created
    }

    /// A guard with no action running.
    pub fn new() -> (guard: Self)
        ensures
            guard@ == Map::<K, u128>::empty(),
    {
        InFlightActions { in_flight: Vec::new(), created: instant_now() }
    }

    fn position(&self, key: &K) -> (i: usize)
        ensures
            i <= self.in_flight@.len(),
            i < self.in_flight@.len() ==> self.in_flight@[i as int].0 == *key,
            i < self.in_flight@.len() <==> self@.dom().contains(*key),
            i < self.in_flight@.len() ==> self@[*key] == self.in_flight@[i as int].1,
    {
        proof {
            use_type_invariant(self);
            lemma_as_map_has(self.in_flight@, *key);
        }
        let mut i: usize = 0;
        while i < self.in_flight.len() && !self.in_flight[i].0.same(key)
            invariant
                i <= self.in_flight@.len(),
                forall|j: int| 0 <= j < i ==> (#[trigger] self.in_flight@[j]).0 != *key,
            decreases self.in_flight@.len() - i,
        {
            i = i + 1;
        }
        proof {
            use_type_invariant(self);
            if i < self.in_flight@.len() {
                lemma_as_map_at(self.in_flight@, i as int);
            }
        }
        i
    }

    /// Claims the slot of `key` at the time `now`: `true` if the caller may start
    /// the action, `false` if one is running for that key already.
    pub fn begin_at(&mut self, key: K, now: u128) -> (claimed: bool)
        ensures
            claimed == !old(self)@.dom().contains(key),
            final(self)@ == begun(old(self)@, key, now),
            final(self).origin() == old(self).origin(),
    {
        if self.is_in_flight(&key) {
            return false;
        }
        proof {
            use_type_invariant(&*self);
            lemma_as_map_has(self.in_flight@, key);
        }
        let mut entries: Vec<(K, u128)> = Vec::new();
        std::mem::swap(&mut entries, &mut self.in_flight);
        entries.push((key, now));
        proof {
            let before = old(self).in_flight@;
            assert(entries@.drop_last() =~= before);
            assert forall|i: int, j: int| 0 <= i < j < entries@.len() implies (
            #[trigger] entries@[i]).0 != (#[trigger] entries@[j]).0 by {
                if j == before.len() {
                    assert(before[i].0 != key);
                } else {
                    assert(before[i].0 != before[j].0);
                }
            }
        }
        self.in_flight = entries;
        true
    }

    /// Claims the slot of `key` now: `true` if the caller may start the action,
    /// `false` if one is running for that key already.
    #[must_use]
    pub fn begin(&mut self, key: K) -> (claimed: bool)
        ensures
            claimed == !old(self)@.dom().contains(key),
            !claimed ==> final(self)@ == old(self)@,
            claimed ==> exists|now: u128| final(self)@ == #[trigger] old(self)@.insert(key, now),
            exists|now: u128| final(self)@ == #[trigger] begun(old(self)@, key, now),
            final(self).origin() == old(self).origin(),
    {
        let now: u128 = nanos_since(&self.created);
        self.begin_at(key, now)
    }

    /// Whether an action is running for this key.
    pub fn is_in_flight(&self, key: &K) -> (running: bool)
        ensures
            running == self@.dom().contains(*key),
    {
        self.position(key) < self.in_flight.len()
    }

    /// Whether, at the time `now`, the action of this key has been running for
    /// the timeout or longer.
    pub fn is_taking_long_at(&self, key: &K, now: u128) -> (long: bool)
        ensures
            long == long_at(self@, *key, now),
    {
        let i: usize = self.position(key);
        if i < self.in_flight.len() {
            let started: u128 = self.in_flight[i].1;
            started <= now && now - started >= IN_FLIGHT_TIMEOUT
        } else {
            false
        }
    }

    /// Whether the action of this key has been running for the timeout or longer, at
    /// the moment that the clock gives. Which moment that is, is left to the clock.
    pub fn is_taking_long(&self, key: &K) -> (long: bool)
        ensures
            exists|now: u128| long == #[trigger] long_at(self@, *key, now),
    {
        let now: u128 = nanos_since(&self.created);
        let long: bool = self.is_taking_long_at(key, now);
        assert(long == long_at(self@, *key, now));
        long
    }

    /// Releases the guard of one key.
    pub fn release(&mut self, key: &K)
        ensures
            final(self)@ == released(old(self)@, *key),
            final(self).origin() == old(self).origin(),
    {
        let i: usize = self.position(key);
        if i < self.in_flight.len() {
            proof {
                use_type_invariant(&*self);
            }
            let ghost before = self.in_flight@;
            let mut entries: Vec<(K, u128)> = Vec::new();
            std::mem::swap(&mut entries, &mut self.in_flight);
            entries.remove(i);
            proof {
                lemma_remove(before, i as int);
            }
            self.in_flight = entries;
        }
        proof {
            assert(self@ =~= old(self)@.remove(*key));
        }
    }

    /// Releases every guard.
    pub fn clear(&mut self)
        ensures
            final(self)@ == Map::<K, u128>::empty(),
            final(self).origin() == old(self).origin(),
    {
        self.in_flight = Vec::new();
    }

    /// The keys that have an action running, each once.
    pub fn keys(&self) -> (keys: Vec<K>)
        ensures
            keys@.no_duplicates(),
            forall|key: K| keys@.contains(key) <==> self@.dom().contains(key),
    {
        proof {
            use_type_invariant(self);
        }
        let mut keys: Vec<K> = Vec::new();
        let mut i: usize = 0;
        while i < self.in_flight.len()
            invariant
                i <= self.in_flight@.len(),
                keys@.len() == i,
                forall|j: int| 0 <= j < i ==> #[trigger] keys@[j] == self.in_flight@[j].0,
            decreases self.in_flight@.len() - i,
        {
            keys.push(self.in_flight[i].0);
            i = i + 1;
        }
        proof {
            assert forall|key: K| keys@.contains(key) <==> self@.dom().contains(key) by {
                lemma_as_map_has(self.in_flight@, key);
                if keys@.contains(key) {
                    let j = choose|j: int| 0 <= j < keys@.len() && keys@[j] == key;
                    assert(self.in_flight@[j].0 == key);
                }
                if self@.dom().contains(key) {
                    let j = choose|j: int|
                        0 <= j < self.in_flight@.len() && (#[trigger] self.in_flight@[j]).0 == key;
                    assert(keys@[j] == key);
                }
            }
        }
        keys
    }

    /// Drops the guards that, at the time `now`, have lasted the timeout or
    /// longer, and no others.
    pub fn prune_stale_at(&mut self, now: u128)
        ensures
            final(self)@ == fresh_at(old(self)@, now),
            final(self).origin() == old(self).origin(),
    {
        proof {
            use_type_invariant(&*self);
        }
        let ghost all = self.in_flight@;
        let mut entries: Vec<(K, u128)> = Vec::new();
        std::mem::swap(&mut entries, &mut self.in_flight);
        let mut kept: Vec<(K, u128)> = Vec::new();
        let mut i: usize = 0;
        assert(all.take(0) =~= Seq::empty());
        while i < entries.len()
            invariant
                i <= entries@.len(),
                entries@ == all,
                kept@ == fresh(all.take(i as int), now),
            decreases entries@.len() - i,
        {
            let entry: (K, u128) = entries[i];
            assert(all.take(i + 1).drop_last() =~= all.take(i as int));
            if entry.1 > now || now - entry.1 < IN_FLIGHT_TIMEOUT {
                kept.push(entry);
            }
            i = i + 1;
        }
        proof {
            assert(all.take(i as int) =~= all);
            lemma_fresh(all, now);
            assert(as_map(kept@) =~= fresh_at(as_map(all), now));
        }
        self.in_flight = kept;
    }

    /// Drops the guards that have lasted the timeout or longer, and no others, all
    /// judged at the one moment that the clock gives. Which moment that is, is left to
    /// the clock.
    pub fn prune_stale(&mut self)
        ensures
            exists|now: u128| final(self)@ == #[trigger] fresh_at(old(self)@, now),
            final(self).origin() == old(self).origin(),
    {
        let now: u128 = nanos_since(&self.created);
        self.prune_stale_at(now);
        assert(self@ == fresh_at(old(self)@, now));
    }
}

/// The entries that, at the time `now`, have not lasted the timeout.
spec fn fresh<K>(entries: Seq<(K, u128)>, now: u128) -> Seq<(K, u128)>
    decreases entries.len(),
{
    if entries.len() == 0 {
        entries
    } else if now - entries.last().1 < IN_FLIGHT_TIMEOUT {
        fresh(entries.drop_last(), now).push(entries.last())
    } else {
        fresh(entries.drop_last(), now)
    }
}

proof fn lemma_fresh<K>(entries: Seq<(K, u128)>, now: u128)
    requires
        distinct_keys(entries),
    ensures
        distinct_keys(fresh(entries, now)),
        forall|key: K|
            #[trigger] as_map(fresh(entries, now)).dom().contains(key) <==> as_map(
                entries,
            ).dom().contains(key) && now - as_map(entries)[key] < IN_FLIGHT_TIMEOUT,
        forall|key: K|
            as_map(fresh(entries, now)).dom().contains(key) ==> #[trigger] as_map(
                fresh(entries, now),
            )[key] == as_map(entries)[key],
    decreases entries.len(),
{
    if entries.len() > 0 {
        let before = entries.drop_last();
        let last = entries.last();
        assert(distinct_keys(before)) by {
            assert forall|a: int, b: int| 0 <= a < b < before.len() implies (
            #[trigger] before[a]).0 != (#[trigger] before[b]).0 by {
                assert(entries[a].0 != entries[b].0);
            }
        }
        lemma_fresh(before, now);
        lemma_as_map_has(before, last.0);
        assert(!as_map(before).dom().contains(last.0)) by {
            assert forall|i: int| 0 <= i < before.len() implies (#[trigger] before[i]).0
                != last.0 by {
                assert(entries[i].0 != entries[entries.len() - 1].0);
            }
        }
        let rest = fresh(before, now);
        lemma_as_map_has(rest, last.0);
        let out = fresh(entries, now);
        if now - last.1 < IN_FLIGHT_TIMEOUT {
            assert(out.drop_last() =~= rest);
            assert forall|a: int, b: int| 0 <= a < b < out.len() implies (#[trigger] out[a]).0 != (
            #[trigger] out[b]).0 by {
                if b == rest.len() {
                    assert(rest[a].0 != last.0);
                } else {
                    assert(rest[a].0 != rest[b].0);
                }
            }
        }
    }
}

proof fn lemma_remove<K>(entries: Seq<(K, u128)>, i: int)
    requires
        distinct_keys(entries),
        0 <= i < entries.len(),
    ensures
        distinct_keys(entries.remove(i)),
        as_map(entries.remove(i)) == as_map(entries).remove(entries[i].0),
{
    let rest = entries.remove(i);
    let key = entries[i].0;
    assert forall|a: int, b: int| 0 <= a < b < rest.len() implies (#[trigger] rest[a]).0 != (
    #[trigger] rest[b]).0 by {
        let x = if a < i {
            a
        } else {
            a + 1
        };
        let y = if b < i {
            b
        } else {
            b + 1
        };
        assert(entries[x].0 != entries[y].0);
    }
    assert forall|k: K| as_map(rest).dom().contains(k) <==> as_map(entries).remove(
        key,
    ).dom().contains(k) by {
        lemma_as_map_has(rest, k);
        lemma_as_map_has(entries, k);
        if as_map(rest).dom().contains(k) {
            let a = choose|a: int| 0 <= a < rest.len() && (#[trigger] rest[a]).0 == k;
            let x = if a < i {
                a
            } else {
                a + 1
            };
            assert(entries[x].0 == k && x != i);
        }
        if as_map(entries).dom().contains(k) && k != key {
            let x = choose|x: int| 0 <= x < entries.len() && (#[trigger] entries[x]).0 == k;
            let a = if x < i {
                x
            } else {
                x - 1
            };
            assert(rest[a].0 == k);
        }
    }
    assert forall|k: K| as_map(rest).dom().contains(k) implies as_map(rest)[k] == as_map(
        entries,
    ).remove(key)[k] by {
        lemma_as_map_has(rest, k);
        let a = choose|a: int| 0 <= a < rest.len() && (#[trigger] rest[a]).0 == k;
        let x = if a < i {
            a
        } else {
            a + 1
        };
        lemma_as_map_at(rest, a);
        lemma_as_map_at(entries, x);
        assert(entries[x].0 == k);
    }
    assert(as_map(rest) =~= as_map(entries).remove(key));
}

/// An action that was begun runs until it is released, one that was running keeps
/// its time, and what is done for one key changes nothing for another.
pub proof fn actions_run_until_released<K>(
    running: Map<K, u128>,
    key: K,
    other: K,
    now: u128,
)
    requires
        key != other,
    ensures
        begun(running, key, now).dom().contains(key),
        running.dom().contains(key) ==> begun(running, key, now)[key] == running[key],
        !running.dom().contains(key) ==> begun(running, key, now)[key] == now,
        begun(running, key, now).dom().contains(other) <==> running.dom().contains(other),
        running.dom().contains(other) ==> begun(running, key, now)[other] == running[other],
        !released(running, key).dom().contains(key),
        released(running, key).dom().contains(other) <==> running.dom().contains(other),
        running.dom().contains(other) ==> released(running, key)[other] == running[other],
{
}

/// An action takes long once five minutes have passed since it began, and exactly
/// then it is dropped as stale; until then it keeps its time.
pub proof fn long_actions_are_the_stale_ones<K>(running: Map<K, u128>, key: K, now: u128)
    ensures
        long_at(running, key, now) ==> running.dom().contains(key),
        running.dom().contains(key) ==> (long_at(running, key, now) <==> now >= running[key]
            + 300_000_000_000),
        running.dom().contains(key) ==> (fresh_at(running, now).dom().contains(key)
            <==> !long_at(running, key, now)),
        fresh_at(running, now).dom().contains(key) ==> running.dom().contains(key) && fresh_at(
            running,
            now,
        )[key] == running[key],
{
}

} // verus!
