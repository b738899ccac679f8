//! Per-guild connection acquisition with at-most-one-join-in-flight
//! semantics. The caller serializes attempts for one guild with that
//! guild's join-mutex (`SessionRegistry::ensure_join_lock`); under the
//! mutex it re-checks `existing`, performs the provider's join only when
//! none is recorded, and records the outcome with `record_join`. Each
//! locked section is one step of `join_round`, and `lemma_join_exactly_once`
//! states what a round of serialized callers yields.

use std::collections::HashMap;
use vstd::prelude::*;

use crate::error::MusicError;

verus! {

broadcast use vstd::std_specs::hash::group_hash_axioms;

/// The connection handles the coordinator currently knows, one per guild.
/// Handles are the caller's identifiers for the provider's live sessions.
pub struct JoinCoordinator {
    connections: HashMap<u64, u64>,
}

impl View for JoinCoordinator {
    type V = Map<u64, u64>;

    closed spec fn view(&self) -> Map<u64, u64> {
        self.connections@
    }
}

impl JoinCoordinator {
    /// A coordinator that knows no connection.
    pub fn new() -> (r: JoinCoordinator)
        ensures
            r@ == Map::<u64, u64>::empty(),
    {
        JoinCoordinator { connections: HashMap::new() }
    }

    /// The guild's recorded connection, if any: the fast path, also
    /// re-checked under the join-mutex before a join is attempted.
    pub fn existing(&self, guild_id: u64) -> (r: Option<u64>)
        ensures
            r == (if self@.contains_key(guild_id) {
                Some(self@[guild_id])
            } else {
                None::<u64>
            }),
    {
        match self.connections.get(&guild_id) {
            Some(h) => Some(*h),
            None => None,
        }
    }

    /// Forgets the guild's connection: the defensive release of a stale
    /// handle before a fresh join, and the record of a teardown.
    pub fn drop_connection(&mut self, guild_id: u64)
        ensures
            final(self)@ == old(self)@.remove(guild_id),
    {
        self.connections.remove(&guild_id);
    }

    /// Records the provider's answer to a join this caller performed while
    /// holding the guild's join-mutex with no connection recorded. A success
    /// is recorded and returned; a failure leaves nothing recorded — the
    /// mutex is released either way, so a later attempt may retry — and
    /// surfaces the provider's reason as a `JoinError`.
    pub fn record_join(&mut self, guild_id: u64, outcome: Result<u64, String>) -> (r: Result<
        u64,
        MusicError,
    >)
        requires
            !old(self)@.contains_key(guild_id),
        ensures
            match outcome {
                Ok(h) => {
                    &&& final(self)@ == old(self)@.insert(guild_id, h)
                    &&& r == Ok::<u64, MusicError>(h)
                },
                Err(reason) => {
                    &&& final(self)@ == old(self)@
                    &&& r == Err::<u64, MusicError>(MusicError::JoinError(reason))
                },
            },
    {
        match outcome {
            Ok(h) => {
                self.connections.insert(guild_id, h);
                Ok(h)
            },
            Err(reason) => {
                proof {
                    assert(self@ =~= old(self)@);
                }
                Err(MusicError::JoinError(reason))
            },
        }
    }
}

/// One serialized caller against the guild's connection slot: a recorded
/// connection is reused; otherwise the join runs and its handle is
/// recorded. Returns the slot afterwards, whether this caller joined, and
/// the handle this caller got.
pub open spec fn join_step(conn: Option<u64>, handle: u64) -> (Option<u64>, bool, u64) {
    match conn {
        Some(x) => (conn, false, x),
        None => (Some(handle), true, handle),
    }
}

/// `callers` serialized callers in a row, each taking one `join_step`, where
/// a join performed by any of them yields `handle`. Returns the slot
/// afterwards, how many joins ran, and each caller's handle in order.
pub open spec fn join_round(conn: Option<u64>, callers: nat, handle: u64) -> (
    Option<u64>,
    nat,
    Seq<u64>,
)
    decreases callers,
{
    if callers == 0 {
        (conn, 0, Seq::<u64>::empty())
    } else {
        let (c1, n1, rs) = join_round(conn, (callers - 1) as nat, handle);
        let (c2, joined, r) = join_step(c1, handle);
        (c2, if joined {
            n1 + 1
        } else {
            n1
        }, rs.push(r))
    }
}

/// Concurrent callers, serialized by the guild's join-mutex, with no
/// connection recorded: exactly one join runs, and every caller receives
/// the handle that join produced.
pub proof fn lemma_join_exactly_once(callers: nat, handle: u64)
    requires
        callers >= 1,
    ensures
        join_round(None, callers, handle).0 == Some(handle),
        join_round(None, callers, handle).1 == 1,
        join_round(None, callers, handle).2.len() == callers,
        forall|i: int| 0 <= i < callers ==> join_round(None, callers, handle).2[i] == handle,
    decreases callers,
{
    reveal_with_fuel(join_round, 2);
    if callers > 1 {
        lemma_join_exactly_once((callers - 1) as nat, handle);
    }
}

/// Callers arriving once a connection is recorded perform no join at all:
/// every one of them reuses the recorded handle.
pub proof fn lemma_connected_reused(conn: u64, callers: nat, handle: u64)
    ensures
        join_round(Some(conn), callers, handle).0 == Some(conn),
        join_round(Some(conn), callers, handle).1 == 0,
        join_round(Some(conn), callers, handle).2.len() == callers,
        forall|i: int| 0 <= i < callers ==> join_round(Some(conn), callers, handle).2[i] == conn,
    decreases callers,
{
    reveal_with_fuel(join_round, 2);
    if callers > 0 {
        lemma_connected_reused(conn, (callers - 1) as nat, handle);
    }
}

} // verus!
