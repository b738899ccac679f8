//! The process-wide session registry: guild-keyed tables for the queue,
//! live bulk-task cancellation flags, the inactivity-monitor handle, the
//! "now playing" message reference, the repeat flag, and the identities of
//! the per-guild join and bulk-enqueue mutexes. The registry only does
//! bookkeeping; it never blocks on anything external.
//!
//! Flags, monitor handles and mutexes are recorded by plain identifiers:
//! the caller owns the corresponding runtime objects and acts on them with
//! what these operations return.

use std::collections::HashMap;
use vstd::prelude::*;

use crate::queue::QueueModel;
use crate::queue_service::GuildQueues;
use crate::queue_service::QueueService;
use crate::track::Track;

verus! {

broadcast use vstd::std_specs::hash::group_hash_axioms;

/// The mathematical state of the registry: one map per table.
pub struct RegistryModel {
    pub queues: Map<u64, QueueModel>,
    pub cancels: Map<u64, Seq<u64>>,
    pub monitors: Map<u64, u64>,
    pub messages: Map<u64, (u64, u64)>,
    pub repeats: Map<u64, bool>,
    pub join_locks: Map<u64, u64>,
    pub enqueue_locks: Map<u64, u64>,
}

pub struct SessionRegistry {
    /// The per-guild track queues.
    pub queues: GuildQueues,
    enqueue_cancels: HashMap<u64, Vec<u64>>,
    inactivity_handles: HashMap<u64, u64>,
    now_playing_messages: HashMap<u64, (u64, u64)>,
    repeat_states: HashMap<u64, bool>,
    join_locks: HashMap<u64, u64>,
    enqueue_locks: HashMap<u64, u64>,
}

impl View for SessionRegistry {
    type V = RegistryModel;

    closed spec fn view(&self) -> RegistryModel {
        RegistryModel {
            queues: self.queues@,
            cancels: Map::new(
                |g: u64| self.enqueue_cancels@.contains_key(g),
                |g: u64| self.enqueue_cancels@[g]@,
            ),
            monitors: self.inactivity_handles@,
            messages: self.now_playing_messages@,
            repeats: self.repeat_states@,
            join_locks: self.join_locks@,
            enqueue_locks: self.enqueue_locks@,
        }
    }
}

impl SessionRegistry {
    /// A fresh registry: every table empty.
    pub fn new() -> (r: SessionRegistry)
        ensures
            r@.queues == Map::<u64, QueueModel>::empty(),
            r@.cancels == Map::<u64, Seq<u64>>::empty(),
            r@.monitors == Map::<u64, u64>::empty(),
            r@.messages == Map::<u64, (u64, u64)>::empty(),
            r@.repeats == Map::<u64, bool>::empty(),
            r@.join_locks == Map::<u64, u64>::empty(),
            r@.enqueue_locks == Map::<u64, u64>::empty(),
    {
        let r = SessionRegistry {
            queues: QueueService::new_guild_queues(),
            enqueue_cancels: HashMap::new(),
            inactivity_handles: HashMap::new(),
            now_playing_messages: HashMap::new(),
            repeat_states: HashMap::new(),
            join_locks: HashMap::new(),
            enqueue_locks: HashMap::new(),
        };
        proof {
            assert(r@.cancels =~= Map::<u64, Seq<u64>>::empty());
        }
        r
    }

    /// Clears the guild's queue in place; a guild with no entry is left
    /// untouched.
    pub fn clear_queue(&mut self, guild_id: u64)
        ensures
            final(self)@ == (RegistryModel {
                queues: if old(self)@.queues.contains_key(guild_id) {
                    old(self)@.queues.insert(
                        guild_id,
                        QueueModel { pending: Seq::<Track>::empty(), playing: None },
                    )
                } else {
                    old(self)@.queues
                },
                ..old(self)@
            }),
    {
        QueueService::clear(&mut self.queues, guild_id);
    }

    /// The list of live cancellation-flag identifiers of a guild; absent
    /// guilds have an empty one.
    pub open spec fn cancels_of(self, guild_id: u64) -> Seq<u64> {
        if self@.cancels.contains_key(guild_id) {
            self@.cancels[guild_id]
        } else {
            Seq::<u64>::empty()
        }
    }

    /// Records one more live cancellation flag for an in-flight bulk task of
    /// this guild.
    pub fn register_bulk_flag(&mut self, guild_id: u64, flag_id: u64)
        ensures
            final(self)@ == (RegistryModel {
                cancels: old(self)@.cancels.insert(
                    guild_id,
                    old(self).cancels_of(guild_id).push(flag_id),
                ),
                ..old(self)@
            }),
    {
        let mut flags = match self.enqueue_cancels.remove(&guild_id) {
            Some(f) => f,
            None => Vec::new(),
        };
        flags.push(flag_id);
        self.enqueue_cancels.insert(guild_id, flags);
        proof {
            assert(self@.cancels =~= old(self)@.cancels.insert(
                guild_id,
                old(self).cancels_of(guild_id).push(flag_id),
            ));
        }
    }

    /// Detaches the guild's cancellation-flag list so the caller can signal
    /// every flag without holding the registry.
    pub fn take_cancel_flags(&mut self, guild_id: u64) -> (r: Vec<u64>)
        ensures
            r@ == old(self).cancels_of(guild_id),
            final(self)@ == (RegistryModel {
                cancels: old(self)@.cancels.remove(guild_id),
                ..old(self)@
            }),
    {
        let r = match self.enqueue_cancels.remove(&guild_id) {
            Some(f) => f,
            None => Vec::new(),
        };
        proof {
            assert(self@.cancels =~= old(self)@.cancels.remove(guild_id));
        }
        r
    }

    /// Whether an inactivity monitor is registered for the guild.
    pub fn has_monitor(&self, guild_id: u64) -> (r: bool)
        ensures
            r == self@.monitors.contains_key(guild_id),
    {
        self.inactivity_handles.contains_key(&guild_id)
    }

    /// Registers a monitor handle only if none is registered: the
    /// check-and-insert that keeps at most one monitor alive per guild.
    /// Returns whether the handle was accepted; a caller whose handle was
    /// refused must not start a monitor.
    pub fn try_register_monitor(&mut self, guild_id: u64, handle_id: u64) -> (accepted: bool)
        ensures
            accepted == !old(self)@.monitors.contains_key(guild_id),
            accepted ==> final(self)@ == (RegistryModel {
                monitors: old(self)@.monitors.insert(guild_id, handle_id),
                ..old(self)@
            }),
            !accepted ==> final(self)@ == old(self)@,
    {
        if self.inactivity_handles.contains_key(&guild_id) {
            false
        } else {
            self.inactivity_handles.insert(guild_id, handle_id);
            true
        }
    }

    /// Detaches the guild's monitor handle, if any, so the caller can signal
    /// it to stop.
    pub fn take_monitor(&mut self, guild_id: u64) -> (r: Option<u64>)
        ensures
            r == (if old(self)@.monitors.contains_key(guild_id) {
                Some(old(self)@.monitors[guild_id])
            } else {
                None
            }),
            final(self)@ == (RegistryModel {
                monitors: old(self)@.monitors.remove(guild_id),
                ..old(self)@
            }),
    {
        self.inactivity_handles.remove(&guild_id)
    }

    /// Records the guild's current "now playing" message, replacing any
    /// previous reference.
    pub fn set_now_playing_message(&mut self, guild_id: u64, channel_id: u64, message_id: u64)
        ensures
            final(self)@ == (RegistryModel {
                messages: old(self)@.messages.insert(guild_id, (channel_id, message_id)),
                ..old(self)@
            }),
    {
        self.now_playing_messages.insert(guild_id, (channel_id, message_id));
    }

    /// Detaches the guild's "now playing" message reference, if any, so the
    /// caller can delete the message.
    pub fn take_now_playing_message(&mut self, guild_id: u64) -> (r: Option<(u64, u64)>)
        ensures
            r == (if old(self)@.messages.contains_key(guild_id) {
                Some(old(self)@.messages[guild_id])
            } else {
                None
            }),
            final(self)@ == (RegistryModel {
                messages: old(self)@.messages.remove(guild_id),
                ..old(self)@
            }),
    {
        self.now_playing_messages.remove(&guild_id)
    }

    /// The guild's repeat flag; off for a guild with no entry.
    pub open spec fn repeat_of(self, guild_id: u64) -> bool {
        if self@.repeats.contains_key(guild_id) {
            self@.repeats[guild_id]
        } else {
            false
        }
    }

    /// Reads the guild's repeat flag.
    pub fn repeat_state(&self, guild_id: u64) -> (r: bool)
        ensures
            r == self.repeat_of(guild_id),
    {
        match self.repeat_states.get(&guild_id) {
            Some(b) => *b,
            None => false,
        }
    }

    /// Flips the guild's repeat flag and returns the new value.
    pub fn toggle_repeat(&mut self, guild_id: u64) -> (r: bool)
        ensures
            r == !old(self).repeat_of(guild_id),
            final(self)@ == (RegistryModel {
                repeats: old(self)@.repeats.insert(guild_id, r),
                ..old(self)@
            }),
    {
        let r = !self.repeat_state(guild_id);
        self.repeat_states.insert(guild_id, r);
        r
    }

    /// The guild's join-mutex identity, created on first use with the
    /// caller's fresh identifier and retained afterwards: every caller for
    /// one guild gets the same mutex.
    pub fn ensure_join_lock(&mut self, guild_id: u64, fresh_id: u64) -> (r: u64)
        ensures
            r == (if old(self)@.join_locks.contains_key(guild_id) {
                old(self)@.join_locks[guild_id]
            } else {
                fresh_id
            }),
            final(self)@ == (RegistryModel {
                join_locks: old(self)@.join_locks.insert(guild_id, r),
                ..old(self)@
            }),
    {
        let r = match self.join_locks.get(&guild_id) {
            Some(id) => *id,
            None => fresh_id,
        };
        self.join_locks.insert(guild_id, r);
        r
    }

    /// The guild's bulk-enqueue-mutex identity, with the same get-or-insert
    /// semantics as `ensure_join_lock`.
    pub fn ensure_enqueue_lock(&mut self, guild_id: u64, fresh_id: u64) -> (r: u64)
        ensures
            r == (if old(self)@.enqueue_locks.contains_key(guild_id) {
                old(self)@.enqueue_locks[guild_id]
            } else {
                fresh_id
            }),
            final(self)@ == (RegistryModel {
                enqueue_locks: old(self)@.enqueue_locks.insert(guild_id, r),
                ..old(self)@
            }),
    {
        let r = match self.enqueue_locks.get(&guild_id) {
            Some(id) => *id,
            None => fresh_id,
        };
        self.enqueue_locks.insert(guild_id, r);
        r
    }
}

} // verus!
