//! Guild-keyed queue storage and the operations commands use on it. A guild
//! with no entry behaves as a guild with an empty queue.

use std::collections::HashMap;
use vstd::prelude::*;

use crate::queue::MusicQueue;
use crate::queue::QueueModel;
use crate::track::Track;

verus! {

broadcast use vstd::std_specs::hash::group_hash_axioms;

/// The table of per-guild queues. Exclusive access per operation is the
/// caller's concern (one lock around the table); no operation here blocks.
pub struct GuildQueues {
    queues: HashMap<u64, MusicQueue>,
}

impl View for GuildQueues {
    type V = Map<u64, QueueModel>;

    closed spec fn view(&self) -> Map<u64, QueueModel> {
        Map::new(
            |g: u64| self.queues@.contains_key(g),
            |g: u64| self.queues@[g]@,
        )
    }
}

impl GuildQueues {
    /// The pending sequence of a guild; absent guilds have an empty one.
    pub open spec fn pending_of(self, guild_id: u64) -> Seq<Track> {
        if self@.contains_key(guild_id) {
            self@[guild_id].pending
        } else {
            Seq::<Track>::empty()
        }
    }

    /// The playing slot of a guild; absent guilds have an empty one.
    pub open spec fn playing_of(self, guild_id: u64) -> Option<Track> {
        if self@.contains_key(guild_id) {
            self@[guild_id].playing
        } else {
            None
        }
    }
}

pub struct QueueService;

impl QueueService {
    /// An empty table: no guild has any state yet.
    pub fn new_guild_queues() -> (q: GuildQueues)
        ensures
            q@ == Map::<u64, QueueModel>::empty(),
    {
        let q = GuildQueues { queues: HashMap::new() };
        proof {
            assert(q@ =~= Map::<u64, QueueModel>::empty());
        }
        q
    }

    /// Appends a track to a guild's queue, creating the entry if absent.
    pub fn add_track(queues: &mut GuildQueues, guild_id: u64, track: Track)
        ensures
            final(queues)@ == old(queues)@.insert(
                guild_id,
                QueueModel {
                    pending: old(queues).pending_of(guild_id).push(track),
                    playing: old(queues).playing_of(guild_id),
                },
            ),
    {
        let mut q = match queues.queues.remove(&guild_id) {
            Some(q) => q,
            None => MusicQueue::new(),
        };
        q.push(track);
        queues.queues.insert(guild_id, q);
        proof {
            assert(queues@ =~= old(queues)@.insert(
                guild_id,
                QueueModel {
                    pending: old(queues).pending_of(guild_id).push(track),
                    playing: old(queues).playing_of(guild_id),
                },
            ));
        }
    }

    /// Advances the guild's queue: pops the next pending track into the
    /// playing slot and returns a copy of it. A guild with no entry is left
    /// untouched.
    pub fn advance(queues: &mut GuildQueues, guild_id: u64) -> (r: Option<Track>)
        ensures
            !old(queues)@.contains_key(guild_id) ==> {
                &&& r is None
                &&& final(queues)@ == old(queues)@
            },
            old(queues)@.contains_key(guild_id) ==> {
                let was = old(queues)@[guild_id];
                if was.pending.len() > 0 {
                    &&& r matches Some(t) && t@ == was.pending[0]@
                    &&& final(queues)@ == old(queues)@.insert(
                        guild_id,
                        QueueModel {
                            pending: was.pending.drop_first(),
                            playing: Some(was.pending[0]),
                        },
                    )
                } else {
                    &&& r is None
                    &&& final(queues)@ == old(queues)@.insert(
                        guild_id,
                        QueueModel { pending: was.pending, playing: None },
                    )
                }
            },
    {
        let mut q = match queues.queues.remove(&guild_id) {
            Some(q) => q,
            None => {
                proof {
                    assert(queues@ =~= old(queues)@);
                }
                return None;
            },
        };
        let r = match q.advance() {
            Some(t) => Some(t.clone()),
            None => None,
        };
        queues.queues.insert(guild_id, q);
        proof {
            let was = old(queues)@[guild_id];
            if was.pending.len() > 0 {
                assert(queues@ =~= old(queues)@.insert(
                    guild_id,
                    QueueModel {
                        pending: was.pending.drop_first(),
                        playing: Some(was.pending[0]),
                    },
                ));
            } else {
                assert(queues@ =~= old(queues)@.insert(
                    guild_id,
                    QueueModel { pending: was.pending, playing: None },
                ));
            }
        }
        r
    }

    /// A copy of the guild's currently playing track, if any.
    pub fn current(queues: &GuildQueues, guild_id: u64) -> (r: Option<Track>)
        ensures
            match queues.playing_of(guild_id) {
                Some(t) => r matches Some(c) && c@ == t@,
                None => r is None,
            },
    {
        match queues.queues.get(&guild_id) {
            Some(q) => match q.current() {
                Some(t) => Some(t.clone()),
                None => None,
            },
            None => None,
        }
    }

    /// Takes the currently playing track out of the guild's queue (used by
    /// skip to report what was skipped).
    pub fn skip(queues: &mut GuildQueues, guild_id: u64) -> (r: Option<Track>)
        ensures
            !old(queues)@.contains_key(guild_id) ==> {
                &&& r is None
                &&& final(queues)@ == old(queues)@
            },
            old(queues)@.contains_key(guild_id) ==> {
                let was = old(queues)@[guild_id];
                &&& r == was.playing
                &&& final(queues)@ == old(queues)@.insert(
                    guild_id,
                    QueueModel { pending: was.pending, playing: None },
                )
            },
    {
        let mut q = match queues.queues.remove(&guild_id) {
            Some(q) => q,
            None => {
                proof {
                    assert(queues@ =~= old(queues)@);
                }
                return None;
            },
        };
        let r = q.take_current();
        queues.queues.insert(guild_id, q);
        proof {
            let was = old(queues)@[guild_id];
            assert(queues@ =~= old(queues)@.insert(
                guild_id,
                QueueModel { pending: was.pending, playing: None },
            ));
        }
        r
    }

    /// Clears the guild's queue; a guild with no entry is left untouched.
    pub fn clear(queues: &mut GuildQueues, guild_id: u64)
        ensures
            !old(queues)@.contains_key(guild_id) ==> final(queues)@ == old(queues)@,
            old(queues)@.contains_key(guild_id) ==> final(queues)@ == old(queues)@.insert(
                guild_id,
                QueueModel { pending: Seq::<Track>::empty(), playing: None },
            ),
    {
        let mut q = match queues.queues.remove(&guild_id) {
            Some(q) => q,
            None => {
                proof {
                    assert(queues@ =~= old(queues)@);
                }
                return ;
            },
        };
        q.clear();
        queues.queues.insert(guild_id, q);
        proof {
            assert(queues@ =~= old(queues)@.insert(
                guild_id,
                QueueModel { pending: Seq::<Track>::empty(), playing: None },
            ));
        }
    }

    /// A copy of the guild's pending sequence, in order; empty for a guild
    /// with no entry.
    pub fn list(queues: &GuildQueues, guild_id: u64) -> (r: Vec<Track>)
        ensures
            r@.len() == queues.pending_of(guild_id).len(),
            forall|i: int|
                0 <= i < r@.len() ==> #[trigger] r@[i]@ == queues.pending_of(guild_id)[i]@,
    {
        match queues.queues.get(&guild_id) {
            Some(q) => {
                let pending = q.list();
                let n = pending.len();
                let mut out: Vec<Track> = Vec::new();
                for i in 0..n
                    invariant
                        n == pending@.len(),
                        pending@ == queues.pending_of(guild_id),
                        out@.len() == i,
                        forall|j: int|
                            0 <= j < i ==> #[trigger] out@[j]@ == queues.pending_of(guild_id)[j]@,
                {
                    out.push(pending[i].clone());
                }
                out
            },
            None => Vec::new(),
        }
    }
}

} // verus!
