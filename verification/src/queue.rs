//! The per-guild track queue: an ordered pending sequence plus an optional
//! "currently playing" slot. `current` is set only by an explicit `advance`;
//! order is first in, first out.

use std::collections::VecDeque;
use vstd::prelude::*;

use crate::track::Track;

verus! {

/// The mathematical state of a queue: the pending tracks in order, and the
/// track occupying the "currently playing" slot, if any.
pub struct QueueModel {
    pub pending: Seq<Track>,
    pub playing: Option<Track>,
}

#[derive(Debug)]
pub struct MusicQueue {
    current: Option<Track>,
    tracks: VecDeque<Track>,
}

impl View for MusicQueue {
    type V = QueueModel;

    closed spec fn view(&self) -> QueueModel {
        QueueModel { pending: self.tracks@, playing: self.current }
    }
}

impl MusicQueue {
    /// An empty queue: nothing pending, nothing playing.
    pub fn new() -> (q: MusicQueue)
        ensures
            q@.pending == Seq::<Track>::empty(),
            q@.playing is None,
    {
        MusicQueue { current: None, tracks: VecDeque::new() }
    }

    /// Appends a track to the back of the pending sequence; always succeeds.
    pub fn push(&mut self, track: Track)
        ensures
            final(self)@.pending == old(self)@.pending.push(track),
            final(self)@.playing == old(self)@.playing,
    {
        self.tracks.push_back(track);
    }

    /// Removes and returns the front pending track, without touching the
    /// "currently playing" slot.
    pub fn pop(&mut self) -> (r: Option<Track>)
        ensures
            old(self)@.pending.len() > 0 ==> {
                &&& r == Some(old(self)@.pending[0])
                &&& final(self)@.pending == old(self)@.pending.drop_first()
            },
            old(self)@.pending.len() == 0 ==> {
                &&& r is None
                &&& final(self)@.pending == old(self)@.pending
            },
            final(self)@.playing == old(self)@.playing,
    {
        self.tracks.pop_front()
    }

    /// Pops the next pending track into the "currently playing" slot and
    /// returns it; an empty pending sequence leaves the slot absent.
    pub fn advance(&mut self) -> (r: Option<&Track>)
        ensures
            old(self)@.pending.len() > 0 ==> {
                &&& final(self)@.playing == Some(old(self)@.pending[0])
                &&& final(self)@.pending == old(self)@.pending.drop_first()
            },
            old(self)@.pending.len() == 0 ==> {
                &&& final(self)@.playing is None
                &&& final(self)@.pending == old(self)@.pending
            },
            match r {
                Some(t) => final(self)@.playing == Some(*t),
                None => final(self)@.playing is None,
            },
    {
        self.current = self.tracks.pop_front();
        self.current.as_ref()
    }

    /// Returns the currently playing track without mutating anything.
    pub fn current(&self) -> (r: Option<&Track>)
        ensures
            match r {
                Some(t) => self@.playing == Some(*t),
                None => self@.playing is None,
            },
    {
        self.current.as_ref()
    }

    /// Removes and returns the currently playing track (used by skip to
    /// report what was skipped, whether or not `advance` has run since).
    pub fn take_current(&mut self) -> (r: Option<Track>)
        ensures
            r == old(self)@.playing,
            final(self)@.playing is None,
            final(self)@.pending == old(self)@.pending,
    {
        self.current.take()
    }

    /// Resets both the pending sequence and the playing slot to empty.
    pub fn clear(&mut self)
        ensures
            final(self)@.pending == Seq::<Track>::empty(),
            final(self)@.playing is None,
    {
        self.current = None;
        self.tracks.clear();
    }

    /// The pending sequence, in insertion order.
    pub fn list(&self) -> (r: &VecDeque<Track>)
        ensures
            r@ == self@.pending,
    {
        &self.tracks
    }

    pub fn len(&self) -> (r: usize)
        ensures
            r == self@.pending.len(),
    {
        self.tracks.len()
    }

    pub fn is_empty(&self) -> (r: bool)
        ensures
            r == (self@.pending.len() == 0),
    {
        self.tracks.len() == 0
    }
}

impl Default for MusicQueue {
    /// Same state as `MusicQueue::new`: empty and idle.
    fn default() -> (q: MusicQueue)
        ensures
            q@.pending == Seq::<Track>::empty(),
            q@.playing is None,
    {
        MusicQueue::new()
    }
}

} // verus!
