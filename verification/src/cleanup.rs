//! Idempotent, multi-trigger teardown of a guild's session state. Any of an
//! explicit stop, a platform-driven disconnect, or the inactivity monitor's
//! terminal transition may invoke it, in any order and any number of times.

use vstd::prelude::*;

use crate::queue::QueueModel;
use crate::registry::RegistryModel;
use crate::registry::SessionRegistry;
use crate::track::Track;

verus! {

/// What one cleanup call detached, for the caller to act on without holding
/// the registry: cancellation flags to signal, a monitor handle to stop, and
/// a "now playing" message to delete.
pub struct CleanupActions {
    pub cancel_flags: Vec<u64>,
    pub monitor: Option<u64>,
    pub message: Option<(u64, u64)>,
}

/// The registry state after cleaning up one guild: its cancellation flags,
/// monitor handle and message reference are gone; its queue, if it had one,
/// is empty; every other guild is untouched. The guild's mutex identities
/// persist, cheap to keep and reused by the next session.
pub open spec fn spec_cleanup(m: RegistryModel, guild_id: u64) -> RegistryModel {
    RegistryModel {
        queues: if m.queues.contains_key(guild_id) {
            m.queues.insert(
                guild_id,
                QueueModel { pending: Seq::<Track>::empty(), playing: None },
            )
        } else {
            m.queues
        },
        cancels: m.cancels.remove(guild_id),
        monitors: m.monitors.remove(guild_id),
        messages: m.messages.remove(guild_id),
        ..m
    }
}

/// Cancels the guild's background enqueue tasks, clears its queue, detaches
/// its inactivity monitor, and detaches its "now playing" message reference.
/// Cancellation flags are detached before the queue is cleared, so a task
/// mid-iteration sees a set flag no later than it sees the emptied queue.
///
/// Safe to call redundantly: a second call finds nothing to detach and
/// leaves the state exactly as the first call left it
/// (`lemma_cleanup_idempotent`).
pub fn cleanup_guild(registry: &mut SessionRegistry, guild_id: u64) -> (actions: CleanupActions)
    ensures
        final(registry)@ == spec_cleanup(old(registry)@, guild_id),
        actions.cancel_flags@ == old(registry).cancels_of(guild_id),
        actions.monitor == (if old(registry)@.monitors.contains_key(guild_id) {
            Some(old(registry)@.monitors[guild_id])
        } else {
            None
        }),
        actions.message == (if old(registry)@.messages.contains_key(guild_id) {
            Some(old(registry)@.messages[guild_id])
        } else {
            None
        }),
{
    let cancel_flags = registry.take_cancel_flags(guild_id);
    registry.clear_queue(guild_id);
    let monitor = registry.take_monitor(guild_id);
    let message = registry.take_now_playing_message(guild_id);
    CleanupActions { cancel_flags, monitor, message }
}

/// Cleanup is idempotent: cleaning a guild twice leaves exactly the state
/// one cleaning leaves, and the second pass finds no flags, no monitor and
/// no message to act on.
pub proof fn lemma_cleanup_idempotent(m: RegistryModel, guild_id: u64)
    ensures
        spec_cleanup(spec_cleanup(m, guild_id), guild_id) == spec_cleanup(m, guild_id),
        spec_cleanup(m, guild_id).cancels.contains_key(guild_id) == false,
        spec_cleanup(m, guild_id).monitors.contains_key(guild_id) == false,
        spec_cleanup(m, guild_id).messages.contains_key(guild_id) == false,
{
    let once = spec_cleanup(m, guild_id);
    let twice = spec_cleanup(once, guild_id);
    assert(twice.queues =~= once.queues);
    assert(twice.cancels =~= once.cancels);
    assert(twice.monitors =~= once.monitors);
    assert(twice.messages =~= once.messages);
}

} // verus!
