//! Cancellable, strictly-ordered bulk population of a guild's queue from a
//! resolved track list. The caller registers a cancellation flag
//! (`SessionRegistry::register_bulk_flag`), acquires the guild's
//! bulk-enqueue-mutex (`ensure_enqueue_lock`) for the whole run — so whole
//! collections are serialized against each other — and then drives `step`
//! once per item, handing in the flag's value as observed at that check and
//! submitting the returned playable request to the pipeline. The flag is a
//! signal, not a wait: a set flag stops the run at the next check, leaving
//! every already-processed item in place.

use vstd::prelude::*;

use crate::queue_service::GuildQueues;
use crate::queue_service::QueueService;
use crate::track::Track;
use crate::track::TrackModel;
use crate::track::spotify_to_youtube_query;
use crate::track::spotify_to_youtube_query_spec;

verus! {

/// What the playback pipeline is asked to play for one track: the track's
/// own URL when its native source streams directly, or a derived search
/// query when it does not.
pub enum PlayRequest {
    Direct(String),
    Search(String),
}

/// The content of a track sequence, item by item.
pub open spec fn track_views(ts: Seq<Track>) -> Seq<TrackModel> {
    ts.map_values(|t: Track| t@)
}

/// One bulk-enqueue task: the resolved list, how many items it has
/// processed, and whether it has observed its cancellation flag.
pub struct BulkRun {
    tracks: Vec<Track>,
    processed: usize,
    stopped: bool,
}

impl BulkRun {
    /// The resolved track list this run was given.
    pub closed spec fn tracks(self) -> Seq<Track> {
        self.tracks@
    }

    /// How many items have been processed so far.
    pub closed spec fn processed(self) -> nat {
        self.processed as nat
    }

    /// Whether the run stopped on an observed cancellation.
    pub closed spec fn is_stopped(self) -> bool {
        self.stopped
    }

    /// A run is finished once it stopped or ran out of items.
    pub open spec fn is_finished(self) -> bool {
        self.is_stopped() || self.processed() == self.tracks().len()
    }

    pub closed spec fn inv(self) -> bool {
        self.processed <= self.tracks@.len()
    }

    /// A fresh run over a resolved list: nothing processed, not stopped.
    pub fn new(tracks: Vec<Track>) -> (r: BulkRun)
        ensures
            r.inv(),
            r.tracks() == tracks@,
            r.processed() == 0,
            !r.is_stopped(),
    {
        BulkRun { tracks, processed: 0, stopped: false }
    }

    /// How many items the run has processed, for reporting.
    pub fn processed_count(&self) -> (r: usize)
        ensures
            r == self.processed(),
    {
        self.processed
    }

    /// One iteration of the run, with `cancel_seen` the value of the task's
    /// cancellation flag at this check. A finished run does nothing. An
    /// observed cancellation stops the run immediately, appending nothing —
    /// every already-processed item stays. Otherwise the next track is
    /// appended to the guild's queue, strictly in list order, and the
    /// playable request to submit to the pipeline is returned.
    pub fn step(&mut self, queues: &mut GuildQueues, guild_id: u64, cancel_seen: bool) -> (r:
        Option<PlayRequest>)
        requires
            old(self).inv(),
        ensures
            final(self).inv(),
            final(self).tracks() == old(self).tracks(),
            old(self).is_finished() ==> {
                &&& r is None
                &&& *final(self) == *old(self)
                &&& final(queues)@ == old(queues)@
            },
            !old(self).is_finished() && cancel_seen ==> {
                &&& r is None
                &&& final(self).is_stopped()
                &&& final(self).processed() == old(self).processed()
                &&& final(queues)@ == old(queues)@
            },
            !old(self).is_finished() && !cancel_seen ==> {
                let t = old(self).tracks()[old(self).processed() as int];
                &&& final(self).processed() == old(self).processed() + 1
                &&& !final(self).is_stopped()
                &&& (r matches Some(req) && match req {
                    PlayRequest::Direct(u) => t.source is YouTube && u@ == t.url@,
                    PlayRequest::Search(q) => t.source is Spotify && q@
                        == spotify_to_youtube_query_spec(t),
                })
                &&& final(queues)@.remove(guild_id) == old(queues)@.remove(guild_id)
                &&& final(queues)@.contains_key(guild_id)
                &&& track_views(final(queues).pending_of(guild_id)) == track_views(
                    old(queues).pending_of(guild_id),
                ).push(t@)
                &&& final(queues).playing_of(guild_id) == old(queues).playing_of(guild_id)
            },
    {
        if self.stopped || self.processed == self.tracks.len() {
            return None;
        }
        if cancel_seen {
            self.stopped = true;
            return None;
        }
        let t = &self.tracks[self.processed];
        let req = match t.source {
            crate::track::TrackSource::YouTube => PlayRequest::Direct(t.url.clone()),
            crate::track::TrackSource::Spotify => PlayRequest::Search(spotify_to_youtube_query(t)),
        };
        let item = t.clone();
        QueueService::add_track(queues, guild_id, item);
        self.processed = self.processed + 1;
        proof {
            let g = guild_id;
            assert(queues@.remove(g) =~= old(queues)@.remove(g));
            assert(track_views(queues.pending_of(g)) =~= track_views(
                old(queues).pending_of(g),
            ).push(old(self).tracks()[old(self).processed() as int]@));
        }
        Some(req)
    }
}

/// How many items a run over `n` items processes when `obs[i]` is the
/// cancellation flag's value at the check before item `i`: items are
/// processed until the first set observation.
pub open spec fn bulk_processed(n: nat, obs: Seq<bool>) -> nat
    decreases n,
{
    if n == 0 || obs.len() == 0 {
        0
    } else if obs[0] {
        0
    } else {
        1 + bulk_processed((n - 1) as nat, obs.drop_first())
    }
}

/// The queue content a run leaves behind, under the same observations:
/// starting from pending content `p`, each step whose check sees a clear
/// flag appends its item, and the first set observation ends the run.
pub open spec fn bulk_content(
    p: Seq<TrackModel>,
    ts: Seq<TrackModel>,
    obs: Seq<bool>,
) -> Seq<TrackModel>
    decreases ts.len(),
{
    if ts.len() == 0 || obs.len() == 0 {
        p
    } else if obs[0] {
        p
    } else {
        bulk_content(p.push(ts[0]), ts.drop_first(), obs.drop_first())
    }
}

/// Setting a bulk task's cancellation flag after `k` of `n` items have been
/// processed results in exactly `k` items from that task in the queue, with
/// no further growth once the flag is observed: the run processes items
/// `0..k`, leaves the queue holding exactly those `k` items after what it
/// started with, and stops at check `k`.
pub proof fn lemma_cancel_after_k_stops_at_k(
    p: Seq<TrackModel>,
    ts: Seq<TrackModel>,
    obs: Seq<bool>,
    k: nat,
)
    requires
        obs.len() == ts.len(),
        k <= ts.len(),
        forall|i: int| 0 <= i < k ==> !obs[i],
        k < ts.len() ==> obs[k as int],
    ensures
        bulk_processed(ts.len(), obs) == k,
        bulk_content(p, ts, obs) == p + ts.take(k as int),
    decreases ts.len(),
{
    if ts.len() > 0 && k > 0 {
        lemma_cancel_after_k_stops_at_k(
            p.push(ts[0]),
            ts.drop_first(),
            obs.drop_first(),
            (k - 1) as nat,
        );
        assert(p.push(ts[0]) + ts.drop_first().take(k - 1) =~= p + ts.take(k as int));
    } else {
        assert(p + ts.take(0) =~= p);
    }
}

/// Flag observations for a run that is never cancelled.
pub open spec fn no_cancellation(n: nat) -> Seq<bool> {
    Seq::new(n, |i: int| false)
}

/// A run whose flag is never set appends its whole list, in order.
pub proof fn lemma_uncancelled_run_appends_all(p: Seq<TrackModel>, ts: Seq<TrackModel>)
    ensures
        bulk_content(p, ts, no_cancellation(ts.len())) == p + ts,
{
    lemma_cancel_after_k_stops_at_k(p, ts, no_cancellation(ts.len()), ts.len());
    assert(ts.take(ts.len() as int) =~= ts);
}

/// Two collections enqueued for the same guild never interleave: the
/// bulk-enqueue-mutex serializes whole runs, so whichever task acquires it
/// first completes its whole run before the other starts. Starting from
/// pending content `p`, two uncancelled runs leave `p` followed by one
/// collection followed by the other — each occupying one contiguous range —
/// and never a shuffle.
pub proof fn lemma_collections_never_interleave(
    p: Seq<TrackModel>,
    a: Seq<TrackModel>,
    b: Seq<TrackModel>,
    a_first: bool,
)
    ensures
        ({
            let first = if a_first {
                a
            } else {
                b
            };
            let second = if a_first {
                b
            } else {
                a
            };
            let after_first = bulk_content(p, first, no_cancellation(first.len()));
            let outcome = bulk_content(after_first, second, no_cancellation(second.len()));
            &&& outcome == p + (a + b) || outcome == p + (b + a)
            &&& outcome.subrange(p.len() as int, (p.len() + first.len()) as int) == first
            &&& outcome.subrange((p.len() + first.len()) as int, outcome.len() as int) == second
        }),
{
    let first = if a_first {
        a
    } else {
        b
    };
    let second = if a_first {
        b
    } else {
        a
    };
    lemma_uncancelled_run_appends_all(p, first);
    lemma_uncancelled_run_appends_all(p + first, second);
    let outcome = (p + first) + second;
    assert(outcome =~= p + (first + second));
    assert(outcome.subrange(p.len() as int, (p.len() + first.len()) as int) =~= first);
    assert(outcome.subrange((p.len() + first.len()) as int, outcome.len() as int) =~= second);
}

} // verus!
