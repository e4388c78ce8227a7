//! From an event to the users who must see it.
//!
//! An event that carries its chat's membership is resolved from the event alone.
//! For any other the caller looks the membership up and hands the snapshot in; a
//! failed lookup drops the event.
use vstd::prelude::*;
use crate::event::Event;

verus! {

/// The registry's key for a stored user id.
pub open spec fn as_user(id: i64) -> u64 {
    id as u64
}

/// The set of users that a list of stored ids names.
pub open spec fn users_of(ids: Seq<i64>) -> Set<u64> {
    Set::new(|u: u64| exists|i: int| 0 <= i < ids.len() && #[trigger] as_user(ids[i]) == u)
}

/// Whether the event's recipients depend on a membership lookup.
pub open spec fn needs_lookup(e: Event) -> bool {
    e.spec_embedded_members() is None
}

/// The users who must see `e`, where `snapshot` is the current membership of the
/// chat that `e` is about. An event that carries a membership goes to exactly
/// those members; a message without one goes to the snapshot; a join or a leave
/// goes to the snapshot and to the user who joined or left.
pub open spec fn recipient_set(e: Event, snapshot: Seq<i64>) -> Set<u64> {
    match e {
        Event::NewMessage { members: Some(m), .. } => users_of(m@),
        Event::NewMessage { members: None, .. } => users_of(snapshot),
        Event::ChatCreated { members, .. } => users_of(members@),
        Event::MemberAdded { member_id, .. } => users_of(snapshot).insert(as_user(member_id)),
        Event::MemberRemoved { member_id, .. } => users_of(snapshot).insert(as_user(member_id)),
    }
}

/// `out` lists the recipients of `e` under `snapshot`, each once.
pub open spec fn resolves_to(e: Event, snapshot: Seq<i64>, out: Seq<u64>) -> bool {
    out.no_duplicates() && out.to_set() == recipient_set(e, snapshot)
}

/// Why an event was not resolved.
#[derive(Debug, Clone, Copy, PartialEq, Eq, Structural)]
pub enum ResolveError {
    /// The membership lookup failed; the event is dropped, not retried.
    LookupFailed,
}

/// What a membership lookup came back with.
#[derive(Debug, Clone, PartialEq)]
pub enum Lookup {
    Members(Vec<i64>),
    Unavailable,
}

/// The registry's key for a stored user id.
pub fn to_user(id: i64) -> (out: u64)
    ensures
        out == as_user(id),
{
    id as u64
}

/// Whether `user` occurs in `list`.
pub fn contains_user(list: &Vec<u64>, user: u64) -> (out: bool)
    ensures
        out == list@.contains(user),
{
    let mut i: usize = 0;
    while i < list.len()
        invariant
            i <= list.len(),
            forall|j: int| 0 <= j < i ==> list@[j] != user,
        decreases list.len() - i,
    {
        if list[i] == user {
            return true;
        }
        i += 1;
    }
    false
}

/// Adds `user` to `list` unless it is there already.
pub fn add_user(list: &mut Vec<u64>, user: u64)
    requires
        old(list)@.no_duplicates(),
    ensures
        final(list)@.no_duplicates(),
        final(list)@.to_set() == old(list)@.to_set().insert(user),
        final(list)@ == if old(list)@.contains(user) {
            old(list)@
        } else {
            old(list)@.push(user)
        },
{
    let ghost before = list@;
    if !contains_user(list, user) {
        list.push(user);
        proof {
            assert forall|u: u64| list@.contains(u) <==> (before.contains(u) || u == user) by {
                if before.contains(u) {
                    let k = choose|k: int| 0 <= k < before.len() && before[k] == u;
                    assert(list@[k] == u);
                }
                if u == user {
                    assert(list@[before.len() as int] == u);
                }
            }
            assert(list@.to_set() =~= before.to_set().insert(user));
        }
    } else {
        assert(before.to_set().insert(user) =~= before.to_set());
    }
}

/// Whether one of the first `n` ids of `ids` names `u`.
spec fn named_among(ids: Seq<i64>, n: int, u: u64) -> bool {
    exists|j: int| 0 <= j < n && j < ids.len() && #[trigger] as_user(ids[j]) == u
}

/// Adds to `list` every user that `ids` names and `list` lacks.
pub fn add_users(list: &mut Vec<u64>, ids: &Vec<i64>)
    requires
        old(list)@.no_duplicates(),
    ensures
        final(list)@.no_duplicates(),
        final(list)@.to_set() == old(list)@.to_set().union(users_of(ids@)),
{
    let ghost before = list@.to_set();
    let mut i: usize = 0;
    while i < ids.len()
        invariant
            i <= ids.len(),
            list@.no_duplicates(),
            forall|u: u64|
                #[trigger] list@.to_set().contains(u) <==> (before.contains(u) || named_among(
                    ids@,
                    i as int,
                    u,
                )),
        decreases ids.len() - i,
    {
        let ghost prev = list@.to_set();
        let user = to_user(ids[i]);
        add_user(list, user);
        proof {
            assert forall|u: u64|
                #[trigger] list@.to_set().contains(u) <==> (before.contains(u) || named_among(
                    ids@,
                    i + 1,
                    u,
                )) by {
                assert(list@.to_set().contains(u) <==> (prev.contains(u) || u == user));
                assert(prev.contains(u) <==> (before.contains(u) || named_among(ids@, i as int, u)));
                if u == user {
                    assert(as_user(ids@[i as int]) == u);
                    assert(named_among(ids@, i + 1, u));
                }
                if named_among(ids@, i as int, u) {
                    let j = choose|j: int| 0 <= j < i && j < ids@.len() && #[trigger] as_user(ids@[j]) == u;
                    assert(named_among(ids@, i + 1, u));
                }
                if named_among(ids@, i + 1, u) {
                    let j = choose|j: int|
                        0 <= j < i + 1 && j < ids@.len() && #[trigger] as_user(ids@[j]) == u;
                    if j < i {
                        assert(named_among(ids@, i as int, u));
                    }
                }
            }
        }
        i += 1;
    }
    proof {
        assert forall|u: u64| users_of(ids@).contains(u) <==> named_among(ids@, i as int, u) by {
            if users_of(ids@).contains(u) {
                let j = choose|j: int| 0 <= j < ids@.len() && #[trigger] as_user(ids@[j]) == u;
                assert(named_among(ids@, i as int, u));
            }
            if named_among(ids@, i as int, u) {
                let j = choose|j: int| 0 <= j < i && j < ids@.len() && #[trigger] as_user(ids@[j]) == u;
                assert(users_of(ids@).contains(u));
            }
        }
        assert(list@.to_set() =~= before.union(users_of(ids@)));
    }
}

/// The users whom an event reaches by what it carries alone: `None` exactly where
/// the membership has to be looked up first.
pub fn resolve(e: &Event) -> (out: Option<Vec<u64>>)
    ensures
        out is None <==> needs_lookup(*e),
        out matches Some(list) ==> resolves_to(*e, Seq::empty(), list@),
{
    let mut list: Vec<u64> = Vec::new();
    assert(list@.to_set() =~= Set::<u64>::empty());
    match e {
        Event::NewMessage { members: Some(m), .. } => {
            add_users(&mut list, m);
            assert(list@.to_set() =~= users_of(m@));
            Some(list)
        },
        Event::ChatCreated { members, .. } => {
            add_users(&mut list, members);
            assert(list@.to_set() =~= users_of(members@));
            Some(list)
        },
        _ => None,
    }
}

/// The users whom an event reaches, given the current membership of its chat.
/// The snapshot is read only where the event carries no membership of its own.
pub fn resolve_with(e: &Event, snapshot: &Vec<i64>) -> (out: Vec<u64>)
    ensures
        resolves_to(*e, snapshot@, out@),
{
    let mut list: Vec<u64> = Vec::new();
    assert(list@.to_set() =~= Set::<u64>::empty());
    match e {
        Event::NewMessage { members: Some(m), .. } => {
            add_users(&mut list, m);
            assert(list@.to_set() =~= users_of(m@));
        },
        Event::NewMessage { members: None, .. } => {
            add_users(&mut list, snapshot);
            assert(list@.to_set() =~= users_of(snapshot@));
        },
        Event::ChatCreated { members, .. } => {
            add_users(&mut list, members);
            assert(list@.to_set() =~= users_of(members@));
        },
        Event::MemberAdded { member_id, .. } => {
            add_users(&mut list, snapshot);
            assert(list@.to_set() =~= users_of(snapshot@));
            add_user(&mut list, to_user(*member_id));
        },
        Event::MemberRemoved { member_id, .. } => {
            add_users(&mut list, snapshot);
            assert(list@.to_set() =~= users_of(snapshot@));
            add_user(&mut list, to_user(*member_id));
        },
    }
    list
}

/// Resolves an event once its membership lookup has come back: the recipients
/// under the members found, or `LookupFailed` exactly where the lookup failed.
pub fn resolve_after_lookup(e: &Event, lookup: &Lookup) -> (out: Result<Vec<u64>, ResolveError>)
    ensures
        out is Err <==> lookup is Unavailable,
        out matches Err(err) ==> err == ResolveError::LookupFailed,
        out matches Ok(list) ==> lookup is Members && resolves_to(*e, lookup->Members_0@, list@),
{
    match lookup {
        Lookup::Members(snapshot) => Ok(resolve_with(e, snapshot)),
        Lookup::Unavailable => Err(ResolveError::LookupFailed),
    }
}

/// Resolving one event twice against one membership snapshot gives the same
/// recipients: the same set of users, and as many entries.
pub proof fn lemma_resolution_repeatable(e: Event, snapshot: Seq<i64>, first: Seq<u64>, second: Seq<u64>)
    requires
        resolves_to(e, snapshot, first),
        resolves_to(e, snapshot, second),
    ensures
        first.to_set() == second.to_set(),
        first.len() == second.len(),
{
    first.unique_seq_to_set();
    second.unique_seq_to_set();
}

/// The order of a snapshot, and how often it names a member, do not matter: two
/// snapshots that name the same members give the same recipients.
pub proof fn lemma_snapshot_order_irrelevant(e: Event, a: Seq<i64>, b: Seq<i64>)
    requires
        a.to_set() == b.to_set(),
    ensures
        recipient_set(e, a) == recipient_set(e, b),
{
    lemma_users_of_by_members(a, b);
    lemma_users_of_by_members(b, a);
    assert(users_of(a) =~= users_of(b));
}

/// Every user that `a` names is named by `b`, where `b` holds every id of `a`.
proof fn lemma_users_of_by_members(a: Seq<i64>, b: Seq<i64>)
    requires
        a.to_set() == b.to_set(),
    ensures
        users_of(a).subset_of(users_of(b)),
{
    assert forall|u: u64| users_of(a).contains(u) implies users_of(b).contains(u) by {
        let i = choose|i: int| 0 <= i < a.len() && #[trigger] as_user(a[i]) == u;
        assert(a.to_set().contains(a[i]));
        assert(b.contains(a[i]));
        let j = choose|j: int| 0 <= j < b.len() && b[j] == a[i];
        assert(as_user(b[j]) == u);
    }
}

/// Who is a recipient: a member of the chat, by the event's own list where it
/// carries one and by the snapshot where it does not, or the user who joined or
/// left. Nobody else is.
pub proof fn lemma_recipients_are_members(e: Event, snapshot: Seq<i64>, u: u64)
    ensures
        recipient_set(e, snapshot).contains(u) <==> (users_of(
            match e.spec_embedded_members() {
                Some(m) => m,
                None => snapshot,
            },
        ).contains(u) || (e.spec_affected_member() matches Some(id) && as_user(id) == u)),
{
}

/// An event that carries its membership reaches the same users whatever the
/// snapshot holds.
pub proof fn lemma_embedded_ignores_snapshot(e: Event, a: Seq<i64>, b: Seq<i64>)
    requires
        !needs_lookup(e),
    ensures
        recipient_set(e, a) == recipient_set(e, b),
{
}

} // verus!
