//! The connection registry: one broadcast channel per online user.
//!
//! A channel is made when a user first connects and is shared by all of that
//! user's connections. Publishing to a user without a channel does nothing and
//! makes none. A channel leaves the registry only through `sweep`, and only after
//! two sweeps in a row found it without a subscriber.
use std::sync::Arc;
use dashmap::DashMap;
use tokio::sync::broadcast::Sender;
use vstd::prelude::*;
use crate::event::Event;
use crate::resolver::contains_user;

verus! {

/// `dashmap::DashMap`, the sharded concurrent map, as an opaque type.
#[verifier::external_type_specification]
#[verifier::external_body]
#[verifier::reject_recursive_types(K)]
#[verifier::reject_recursive_types(V)]
#[verifier::reject_recursive_types(S)]
pub struct ExDashMap<K, V, S>(DashMap<K, V, S>);

/// `tokio::sync::broadcast::Sender`, the sending half of a bounded
/// multi-subscriber channel, as an opaque type.
#[verifier::external_type_specification]
#[verifier::external_body]
#[verifier::reject_recursive_types(T)]
pub struct ExSender<T>(Sender<T>);

/// The user ids that are keys of the map.
pub uninterp spec fn channel_users(map: DashMap<u64, Sender<Arc<Event>>>) -> Set<u64>;

/// Calls `DashMap::new`: a map without keys.
#[verifier::external_body]
fn map_new() -> (out: DashMap<u64, Sender<Arc<Event>>>)
    ensures
        channel_users(out) == Set::<u64>::empty(),
{
    DashMap::new()
}

/// Calls `DashMap::contains_key`: whether `user` is a key of the map.
#[verifier::external_body]
fn map_contains(map: &DashMap<u64, Sender<Arc<Event>>>, user: u64) -> (out: bool)
    ensures
        out == channel_users(*map).contains(user),
{
    map.contains_key(&user)
}

/// Calls `DashMap::get` and clones the sender found: a handle to the channel
/// stored under `user`, present exactly where `user` is a key.
#[verifier::external_body]
fn map_get(map: &DashMap<u64, Sender<Arc<Event>>>, user: u64) -> (out: Option<Sender<Arc<Event>>>)
    ensures
        out is Some <==> channel_users(*map).contains(user),
{
    map.get(&user).map(|entry| entry.value().clone())
}

/// Calls `DashMap::entry` and `Entry::or_insert` in one step: afterwards `user`
/// is a key and no other key has come or gone. A key that was there keeps its
/// channel and `fresh` is dropped; a new key gets `fresh`. The handle returned is
/// to the channel now stored under `user`.
#[verifier::external_body]
fn map_get_or_insert(map: &mut DashMap<u64, Sender<Arc<Event>>>, user: u64, fresh: Sender<Arc<Event>>) -> (out:
    Sender<Arc<Event>>)
    ensures
        channel_users(*final(map)) == channel_users(*old(map)).insert(user),
{
    map.entry(user).or_insert(fresh).value().clone()
}

/// Calls `DashMap::remove_if` with `is_idle` as the condition: the key leaves
/// only where it was there and its channel was idle, and the result says whether
/// it left. No other key changes.
#[verifier::external_body]
fn map_remove_if_idle(map: &mut DashMap<u64, Sender<Arc<Event>>>, user: u64) -> (out: bool)
    ensures
        out ==> channel_users(*old(map)).contains(user),
        channel_users(*final(map)) == if out {
            channel_users(*old(map)).remove(user)
        } else {
            channel_users(*old(map))
        },
{
    map.remove_if(&user, |_, tx| is_idle(tx)).is_some()
}

/// Calls `DashMap::iter` and collects the keys: every key once, in the order in
/// which the map happens to be walked.
#[verifier::external_body]
fn map_keys(map: &DashMap<u64, Sender<Arc<Event>>>) -> (out: Vec<u64>)
    ensures
        out@.no_duplicates(),
        out@.to_set() == channel_users(*map),
{
    map.iter().map(|entry| *entry.key()).collect()
}

/// Calls `tokio::sync::broadcast::channel` and keeps the sending half. The
/// outside function panics on a capacity of zero or above `usize::MAX / 2`.
#[verifier::external_body]
fn new_channel(capacity: usize) -> (out: Sender<Arc<Event>>)
    requires
        0 < capacity <= usize::MAX / 2,
{
    tokio::sync::broadcast::channel(capacity).0
}

/// Calls `Sender::send`: `Ok` with the number of subscriptions the value was
/// queued for, which is at least one, or the value handed back where the channel
/// has no subscription.
#[verifier::external_body]
fn channel_send(tx: &Sender<Arc<Event>>, event: Arc<Event>) -> (out: Result<usize, Arc<Event>>)
    ensures
        out matches Ok(n) ==> n >= 1,
        out matches Err(back) ==> back == event,
{
    tx.send(event).map_err(|e| e.0)
}

/// Calls `Sender::receiver_count`: how many subscriptions the channel has at
/// this moment. Nothing is claimed of the number.
#[verifier::external_body]
fn channel_receivers(tx: &Sender<Arc<Event>>) -> (out: usize) {
    tx.receiver_count()
}

/// Calls `Arc::clone`: another handle to the same event.
#[verifier::external_body]
fn share(event: &Arc<Event>) -> (out: Arc<Event>)
    ensures
        out == *event,
{
    Arc::clone(event)
}

/// Whether the channel has no subscription at this moment. The count is read
/// from the channel, which its subscribers change at any time, so nothing is
/// claimed of the answer here: `idle_with` says what it is for each count.
fn is_idle(tx: &Sender<Arc<Event>>) -> bool {
    idle_with(channel_receivers(tx))
}

/// Whether a channel with this many subscriptions is idle: it is with none.
pub fn idle_with(receivers: usize) -> (out: bool)
    ensures
        out == (receivers == 0),
{
    receivers == 0
}

/// What became of one publication.
#[derive(Debug, Clone, Copy, PartialEq, Eq, Structural)]
pub enum Delivery {
    /// The user has no channel: nothing was done.
    Offline,
    /// The user's channel has no subscription: the event was dropped.
    Idle,
    /// The event was queued for this many subscriptions.
    Delivered(usize),
}

/// How one event fared over its recipients.
#[derive(Debug, Clone, Copy, PartialEq, Eq, Structural)]
pub struct FanOut {
    /// Recipients whose channel took the event.
    pub delivered: usize,
    /// Recipients with a channel that nobody reads.
    pub idle: usize,
    /// Recipients without a channel.
    pub offline: usize,
}

/// How many of `recipients` are not in `online`, each entry counted.
pub open spec fn offline_count(recipients: Seq<u64>, online: Set<u64>) -> nat
    decreases recipients.len(),
{
    if recipients.len() == 0 {
        0
    } else {
        offline_count(recipients.drop_last(), online) + if online.contains(recipients.last()) {
            0nat
        } else {
            1nat
        }
    }
}

/// What a publication amounts to, given what the channel's `send` came back with.
pub open spec fn delivery_of(sent: Result<usize, Arc<Event>>) -> Delivery {
    match sent {
        Ok(n) => Delivery::Delivered(n),
        Err(_) => Delivery::Idle,
    }
}

/// Names the outcome of a `send` on a user's channel.
pub fn classify_send(sent: Result<usize, Arc<Event>>) -> (out: Delivery)
    ensures
        out == delivery_of(sent),
{
    match sent {
        Ok(n) => Delivery::Delivered(n),
        Err(_) => Delivery::Idle,
    }
}

/// The registry of user channels.
pub struct Registry {
    users: DashMap<u64, Sender<Arc<Event>>>,
    capacity: usize,
    marked: Vec<u64>,
}

impl Registry {
    /// The users who have a channel.
    pub closed spec fn online(&self) -> Set<u64> {
        channel_users(self.users)
    }

    /// The users whose channel the last sweep found idle.
    pub closed spec fn marked(&self) -> Set<u64> {
        self.marked@.to_set()
    }

    /// The number of events that a channel of this registry retains.
    pub closed spec fn capacity(&self) -> usize {
        self.capacity
    }

    /// The capacity is one that a channel can be made with.
    pub closed spec fn wf(&self) -> bool {
        0 < self.capacity <= usize::MAX / 2 && self.marked@.no_duplicates()
    }

    /// An empty registry whose channels will retain `capacity` events each;
    /// `None` exactly where no channel can have that capacity.
    pub fn new(capacity: usize) -> (out: Option<Registry>)
        ensures
            out is Some <==> 0 < capacity <= usize::MAX / 2,
            out matches Some(r) ==> r.wf() && r.capacity() == capacity && r.online()
                == Set::<u64>::empty() && r.marked() == Set::<u64>::empty(),
    {
        if capacity == 0 || capacity > usize::MAX / 2 {
            None
        } else {
            let marked: Vec<u64> = Vec::new();
            assert(marked@.to_set() =~= Set::<u64>::empty());
            Some(Registry { users: map_new(), capacity, marked })
        }
    }

    /// Whether `user` has a channel.
    pub fn is_online(&self, user: u64) -> (out: bool)
        ensures
            out == self.online().contains(user),
    {
        map_contains(&self.users, user)
    }

    /// A handle to the channel of `user`. A channel is made only if the user has
    /// none, and stored by a single insert-if-absent on the map, so a user never
    /// has two. No other user's channel comes or goes.
    pub fn get_or_create(&mut self, user: u64) -> (out: Sender<Arc<Event>>)
        requires
            old(self).wf(),
        ensures
            final(self).wf(),
            final(self).online() == old(self).online().insert(user),
            final(self).marked() == old(self).marked(),
            final(self).capacity() == old(self).capacity(),
    {
        match map_get(&self.users, user) {
            Some(tx) => {
                assert(self.online().insert(user) =~= self.online());
                tx
            },
            None => {
                let fresh = new_channel(self.capacity);
                map_get_or_insert(&mut self.users, user, fresh)
            },
        }
    }

    /// Publishes `event` to `user`. A user without a channel is offline: nothing
    /// is sent, and since the registry is only read, no channel is made.
    pub fn publish(&self, user: u64, event: Arc<Event>) -> (out: Delivery)
        ensures
            out is Offline <==> !self.online().contains(user),
            out matches Delivery::Delivered(n) ==> n >= 1,
    {
        match map_get(&self.users, user) {
            None => Delivery::Offline,
            Some(tx) => classify_send(channel_send(&tx, event)),
        }
    }

    /// Publishes `event` to every entry of `recipients` in turn and counts the
    /// outcomes. Every entry is counted once; the offline ones are exactly those
    /// without a channel.
    pub fn fan_out(&self, recipients: &Vec<u64>, event: &Arc<Event>) -> (out: FanOut)
        ensures
            out.offline == offline_count(recipients@, self.online()),
            out.delivered + out.idle + out.offline == recipients@.len(),
    {
        let mut out = FanOut { delivered: 0, idle: 0, offline: 0 };
        let mut i: usize = 0;
        while i < recipients.len()
            invariant
                i <= recipients.len(),
                out.offline == offline_count(recipients@.take(i as int), self.online()),
                out.delivered + out.idle + out.offline == i,
            decreases recipients.len() - i,
        {
            assert(recipients@.take(i + 1).drop_last() =~= recipients@.take(i as int));
            match self.publish(recipients[i], share(event)) {
                Delivery::Offline => { out.offline += 1; },
                Delivery::Idle => { out.idle += 1; },
                Delivery::Delivered(_) => { out.delivered += 1; },
            }
            i += 1;
        }
        assert(recipients@.take(i as int) =~= recipients@);
        out
    }

    /// One pass of the reaper. A channel leaves only if the last sweep had marked
    /// it idle and it is idle still; the users that left are returned. A channel
    /// found idle for the first time is marked for the next sweep, and a mark
    /// lasts for one sweep only.
    pub fn sweep(&mut self) -> (reaped: Vec<u64>)
        requires
            old(self).wf(),
        ensures
            final(self).wf(),
            final(self).capacity() == old(self).capacity(),
            final(self).online().subset_of(old(self).online()),
            final(self).marked().subset_of(final(self).online()),
            final(self).marked().disjoint(old(self).marked()),
            reaped@.to_set().subset_of(old(self).marked()),
            reaped@.no_duplicates(),
            forall|u: u64|
                reaped@.contains(u) <==> (old(self).online().contains(u)
                    && !final(self).online().contains(u)),
    {
        let keys = map_keys(&self.users);
        let ghost before = channel_users(self.users);
        let ghost old_marked = self.marked@;
        let mut next: Vec<u64> = Vec::new();
        let mut reaped: Vec<u64> = Vec::new();
        let mut i: usize = 0;
        while i < keys.len()
            invariant
                i <= keys.len(),
                keys@.no_duplicates(),
                keys@.to_set() == before,
                self.marked@ == old_marked,
                self.capacity == old(self).capacity,
                next@.no_duplicates(),
                reaped@.no_duplicates(),
                channel_users(self.users).subset_of(before),
                forall|u: u64|
                    reaped@.contains(u) <==> (before.contains(u) && !channel_users(
                        self.users,
                    ).contains(u)),
                forall|u: u64| reaped@.contains(u) ==> old_marked.contains(u),
                forall|u: u64| reaped@.contains(u) ==> keys@.take(i as int).contains(u),
                forall|u: u64| next@.contains(u) ==> keys@.take(i as int).contains(u),
                forall|u: u64| next@.contains(u) ==> channel_users(self.users).contains(u),
                forall|u: u64| next@.contains(u) ==> !old_marked.contains(u),
            decreases keys.len() - i,
        {
            let user = keys[i];
            assert(keys@.to_set().contains(user));
            let ghost reaped_before = reaped@;
            let ghost next_before = next@;
            proof {
                lemma_fresh_key(keys@, i as int);
                assert(!reaped@.contains(user));
                assert(!next@.contains(user));
                lemma_push_fresh(reaped@, user);
                lemma_push_fresh(next@, user);
            }
            if contains_user(&self.marked, user) {
                if map_remove_if_idle(&mut self.users, user) {
                    reaped.push(user);
                }
            } else {
                match map_get(&self.users, user) {
                    Some(tx) => {
                        if is_idle(&tx) {
                            next.push(user);
                        }
                    },
                    None => {},
                }
            }
            proof {
                assert(reaped@ == reaped_before || reaped@ == reaped_before.push(user));
                assert(next@ == next_before || next@ == next_before.push(user));
                assert forall|u: u64| reaped@.contains(u) <==> (reaped_before.contains(u) || (u
                    == user && reaped@ != reaped_before)) by {
                    lemma_push_contains(reaped_before, user, u);
                }
                assert forall|u: u64| next@.contains(u) <==> (next_before.contains(u) || (u == user
                    && next@ != next_before)) by {
                    lemma_push_contains(next_before, user, u);
                }
                assert forall|u: u64| reaped@.contains(u) implies keys@.take(i + 1).contains(u) by {
                    lemma_push_contains(reaped_before, user, u);
                    assert(reaped_before.contains(u) || u == user);
                    lemma_take_grows(keys@, i as int, u);
                }
                assert forall|u: u64| next@.contains(u) implies channel_users(self.users).contains(
                    u,
                ) by {
                    lemma_push_contains(next_before, user, u);
                    if u != user {
                        assert(next_before.contains(u));
                    }
                }
                assert forall|u: u64| next@.contains(u) implies keys@.take(i + 1).contains(u) by {
                    lemma_push_contains(next_before, user, u);
                    assert(next_before.contains(u) || u == user);
                    lemma_take_grows(keys@, i as int, u);
                }
            }
            i += 1;
        }
        self.marked = next;
        reaped
    }
}

/// The entry at `i` of a list without repeats is not among the entries before it.
proof fn lemma_fresh_key(keys: Seq<u64>, i: int)
    requires
        0 <= i < keys.len(),
        keys.no_duplicates(),
    ensures
        !keys.take(i).contains(keys[i]),
{
    if keys.take(i).contains(keys[i]) {
        let k = choose|k: int| 0 <= k < keys.take(i).len() && keys.take(i)[k] == keys[i];
        assert(keys[k] == keys[i]);
    }
}

/// A list without repeats stays so when an entry that it lacks is added.
proof fn lemma_push_fresh(s: Seq<u64>, x: u64)
    requires
        s.no_duplicates(),
        !s.contains(x),
    ensures
        s.push(x).no_duplicates(),
{
    assert forall|a: int, b: int| 0 <= a < b < s.push(x).len() implies s.push(x)[a] != s.push(x)[b] by {
        if b == s.len() {
            assert(s[a] != x);
        }
    }
}

/// What a list holds after one more entry.
proof fn lemma_push_contains(s: Seq<u64>, x: u64, u: u64)
    ensures
        s.push(x).contains(u) <==> (s.contains(u) || u == x),
{
    if s.contains(u) {
        let k = choose|k: int| 0 <= k < s.len() && s[k] == u;
        assert(s.push(x)[k] == u);
    }
    if u == x {
        assert(s.push(x)[s.len() as int] == u);
    }
}

/// What is among the first `i` entries, or is entry `i`, is among the first `i + 1`.
proof fn lemma_take_grows(keys: Seq<u64>, i: int, u: u64)
    requires
        0 <= i < keys.len(),
        keys.take(i).contains(u) || u == keys[i],
    ensures
        keys.take(i + 1).contains(u),
{
    if keys.take(i).contains(u) {
        let k = choose|k: int| 0 <= k < keys.take(i).len() && keys.take(i)[k] == u;
        assert(keys.take(i + 1)[k] == u);
    } else {
        assert(keys.take(i + 1)[i] == u);
    }
}

/// A user who connects again while having a channel gets no second one: after
/// the first `get_or_create` for a user, a further one leaves the set of channels
/// as it is.
pub proof fn lemma_one_channel_per_user(before: Registry, once: Registry, twice: Registry, user: u64)
    requires
        once.online() == before.online().insert(user),
        twice.online() == once.online().insert(user),
    ensures
        once.online().contains(user),
        twice.online() == once.online(),
{
    assert(once.online().insert(user) =~= once.online());
}

/// Where nobody is online, a fan-out counts every recipient as offline.
pub proof fn lemma_all_offline_when_empty(recipients: Seq<u64>)
    ensures
        offline_count(recipients, Set::<u64>::empty()) == recipients.len(),
    decreases recipients.len(),
{
    if recipients.len() > 0 {
        lemma_all_offline_when_empty(recipients.drop_last());
    }
}

} // verus!
