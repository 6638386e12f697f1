//! The session registry: which user is reachable right now, and through
//! which connection handle.

use std::collections::HashMap;
use vstd::prelude::*;

verus! {

broadcast use vstd::std_specs::hash::group_hash_axioms;

/// Maps a user id to the handle of that user's live connection.
///
/// At most one handle is held per user; joining again replaces the old one
/// (the superseded connection is not closed here).
pub struct ChatServer<H> {
    sessions: HashMap<i32, H>,
}

/// A payload handed to one live connection.
pub struct Outgoing<'a, H> {
    pub user_id: i32,
    pub session: &'a H,
    pub text: String,
}

/// The ids of `user_ids` that have a live session in `m`, in order, repeats kept.
pub open spec fn reachable<H>(m: Map<i32, H>, user_ids: Seq<i32>) -> Seq<i32>
    decreases user_ids.len(),
{
    if user_ids.len() == 0 {
        Seq::empty()
    } else {
        let rest = reachable(m, user_ids.drop_last());
        if m.contains_key(user_ids.last()) {
            rest.push(user_ids.last())
        } else {
            rest
        }
    }
}

/// The registry `m` after `joins` have been applied to it in order.
pub open spec fn after_joins<H>(m: Map<i32, H>, joins: Seq<(i32, H)>) -> Map<i32, H>
    decreases joins.len(),
{
    if joins.len() == 0 {
        m
    } else {
        after_joins(m, joins.drop_last()).insert(joins.last().0, joins.last().1)
    }
}

/// After any sequence of joins, a user holds exactly one handle: the one of
/// that user's most recent join.
pub proof fn lemma_last_join_wins<H>(m: Map<i32, H>, joins: Seq<(i32, H)>, k: int)
    requires
        0 <= k < joins.len(),
        forall|j: int| k < j < joins.len() ==> (#[trigger] joins[j]).0 != joins[k].0,
    ensures
        after_joins(m, joins).contains_key(joins[k].0),
        after_joins(m, joins)[joins[k].0] == joins[k].1,
    decreases joins.len(),
{
    if k < joins.len() - 1 {
        let prefix = joins.drop_last();
        assert forall|j: int| k < j < prefix.len() implies (#[trigger] prefix[j]).0 != prefix[k].0 by {
            assert(prefix[j] == joins[j]);
        }
        lemma_last_join_wins(m, prefix, k);
    }
}

/// Leaving is idempotent: leaving twice equals leaving once, a user who left is
/// not registered, and leaving without a session changes nothing.
pub proof fn lemma_leave_idempotent<H>(m: Map<i32, H>, user_id: i32)
    ensures
        m.remove(user_id).remove(user_id) == m.remove(user_id),
        !m.remove(user_id).contains_key(user_id),
        !m.contains_key(user_id) ==> m.remove(user_id) == m,
{
    assert(m.remove(user_id).remove(user_id) =~= m.remove(user_id));
    if !m.contains_key(user_id) {
        assert(m.remove(user_id) =~= m);
    }
}

/// A user with no live session is never among the targets of a broadcast.
pub proof fn lemma_offline_not_reached<H>(m: Map<i32, H>, user_ids: Seq<i32>, user_id: i32)
    requires
        !m.contains_key(user_id),
    ensures
        !reachable(m, user_ids).contains(user_id),
    decreases user_ids.len(),
{
    if user_ids.len() > 0 {
        lemma_offline_not_reached(m, user_ids.drop_last(), user_id);
        let rest = reachable(m, user_ids.drop_last());
        if m.contains_key(user_ids.last()) {
            assert(rest.push(user_ids.last()).contains(user_id) ==> rest.contains(user_id)) by {
                if rest.push(user_ids.last()).contains(user_id) {
                    let i = choose|i: int| 0 <= i < rest.len() + 1 && rest.push(user_ids.last())[i] == user_id;
                    assert(rest.push(user_ids.last())[i] == rest[i]);
                }
            }
        }
    }
}

impl<H> View for ChatServer<H> {
    type V = Map<i32, H>;

    closed spec fn view(&self) -> Map<i32, H> {
        self.sessions@
    }
}

impl<H> ChatServer<H> {
    /// An empty registry.
    pub fn new() -> (r: Self)
        ensures
            r@ == Map::<i32, H>::empty(),
    {
        ChatServer { sessions: HashMap::new() }
    }

    /// Registers `session` as the live connection of `user_id`, replacing any earlier one.
    pub fn join(&mut self, user_id: i32, session: H)
        ensures
            final(self)@ == old(self)@.insert(user_id, session),
    {
        self.sessions.insert(user_id, session);
    }

    /// Forgets the live connection of `user_id`; nothing happens if there is none.
    pub fn leave(&mut self, user_id: i32)
        ensures
            final(self)@ == old(self)@.remove(user_id),
    {
        self.sessions.remove(&user_id);
    }

    /// The live connection of `user_id`, if any.
    pub fn lookup(&self, user_id: i32) -> (r: Option<&H>)
        ensures
            match r {
                Some(h) => self@.contains_key(user_id) && *h == self@[user_id],
                None => !self@.contains_key(user_id),
            },
    {
        self.sessions.get(&user_id)
    }

    /// Pairs `message` with the live connection of `user_id`; an offline user gets nothing.
    pub fn send_message<'a>(&'a self, user_id: i32, message: &str) -> (r: Option<Outgoing<'a, H>>)
        ensures
            match r {
                Some(o) => {
                    &&& self@.contains_key(user_id)
                    &&& o.user_id == user_id
                    &&& *o.session == self@[user_id]
                    &&& o.text@ == message@
                },
                None => !self@.contains_key(user_id),
            },
    {
        match self.sessions.get(&user_id) {
            Some(session) => Some(Outgoing { user_id, session, text: message.to_string() }),
            None => None,
        }
    }

    /// One delivery of `message` for each id of `user_ids` that is online, in the
    /// order given; offline ids are skipped.
    pub fn broadcast<'a>(&'a self, user_ids: &[i32], message: &str) -> (r: Vec<Outgoing<'a, H>>)
        ensures
            r@.len() == reachable(self@, user_ids@).len(),
            forall|i: int|
                0 <= i < r@.len() ==> {
                    &&& #[trigger] r@[i].user_id == reachable(self@, user_ids@)[i]
                    &&& self@.contains_key(r@[i].user_id)
                    &&& *r@[i].session == self@[r@[i].user_id]
                    &&& r@[i].text@ == message@
                },
    {
        let mut out: Vec<Outgoing<'a, H>> = Vec::new();
        let mut i: usize = 0;
        while i < user_ids.len()
            invariant
                i <= user_ids@.len(),
                out@.len() == reachable(self@, user_ids@.subrange(0, i as int)).len(),
                forall|k: int|
                    0 <= k < out@.len() ==> {
                        &&& #[trigger] out@[k].user_id == reachable(
                            self@,
                            user_ids@.subrange(0, i as int),
                        )[k]
                        &&& self@.contains_key(out@[k].user_id)
                        &&& *out@[k].session == self@[out@[k].user_id]
                        &&& out@[k].text@ == message@
                    },
            decreases user_ids.len() - i,
        {
            let id = user_ids[i];
            proof {
                assert(user_ids@.subrange(0, i + 1).drop_last() =~= user_ids@.subrange(0, i as int));
            }
            match self.sessions.get(&id) {
                Some(session) => {
                    out.push(Outgoing { user_id: id, session, text: message.to_string() });
                },
                None => {},
            }
            i = i + 1;
        }
        proof {
            assert(user_ids@.subrange(0, user_ids@.len() as int) =~= user_ids@);
        }
        out
    }
}

} // verus!
