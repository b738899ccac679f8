//! The per-guild inactivity supervisor: accumulates idle polling intervals
//! and reports when the accumulated idle time crosses the timeout threshold.
//! The caller runs the polling loop (sleep, observe, poll) and performs the
//! teardown when a poll reports firing; a fired monitor is terminal and is
//! never polled again.

use vstd::prelude::*;

verus! {

/// Seconds between two idleness checks.
pub const CHECK_INTERVAL_SECS: u64 = 30;

/// Accumulated idle seconds after which the session is torn down.
pub const INACTIVITY_TIMEOUT_SECS: u64 = 900;

/// Whether one polling interval counts as idle: the playback pipeline has
/// nothing queued, or nobody else shares the voice channel. A missing
/// connection counts as idle; an unknown member count does not.
pub fn compute_idle(handler_present: bool, queue_empty: bool, members_in_channel: Option<u64>) -> (r:
    bool)
    ensures
        r == (!handler_present || queue_empty || (members_in_channel matches Some(m) && m <= 1)),
{
    if !handler_present {
        true
    } else if queue_empty {
        true
    } else {
        match members_in_channel {
            Some(m) => m <= 1,
            None => false,
        }
    }
}

pub struct InactivityMonitor {
    interval_secs: u64,
    threshold_secs: u64,
    idle_secs: u64,
    fired: bool,
}

impl InactivityMonitor {
    pub closed spec fn interval(self) -> u64 {
        self.interval_secs
    }

    pub closed spec fn threshold(self) -> u64 {
        self.threshold_secs
    }

    /// The accumulated idle seconds.
    pub closed spec fn accumulated(self) -> u64 {
        self.idle_secs
    }

    /// Whether the monitor has fired; a fired monitor is terminal.
    pub closed spec fn has_fired(self) -> bool {
        self.fired
    }

    /// Well-formedness: a positive interval and threshold, room to
    /// accumulate one more interval, and a live monitor strictly below the
    /// threshold (crossing it fires and ends the monitor).
    pub closed spec fn inv(self) -> bool {
        &&& self.interval_secs >= 1
        &&& self.threshold_secs >= 1
        &&& self.threshold_secs <= u64::MAX - self.interval_secs
        &&& (!self.fired ==> self.idle_secs < self.threshold_secs)
    }

    /// A monitor that has observed nothing yet.
    pub fn new(interval_secs: u64, threshold_secs: u64) -> (m: InactivityMonitor)
        requires
            1 <= interval_secs,
            1 <= threshold_secs <= u64::MAX - interval_secs,
        ensures
            m.inv(),
            m.interval() == interval_secs,
            m.threshold() == threshold_secs,
            m.accumulated() == 0,
            !m.has_fired(),
    {
        InactivityMonitor { interval_secs, threshold_secs, idle_secs: 0, fired: false }
    }

    /// Records one polling interval. An idle interval adds the full interval
    /// to the accumulator; a non-idle one resets it to zero, with no partial
    /// credit. Returns whether the accumulated idle time has reached the
    /// threshold — the signal to tear the session down; the monitor then
    /// never polls again.
    pub fn poll(&mut self, idle: bool) -> (fired: bool)
        requires
            old(self).inv(),
            !old(self).has_fired(),
        ensures
            final(self).inv(),
            final(self).interval() == old(self).interval(),
            final(self).threshold() == old(self).threshold(),
            idle ==> final(self).accumulated() == old(self).accumulated() + old(self).interval(),
            !idle ==> final(self).accumulated() == 0,
            fired == (final(self).accumulated() >= old(self).threshold()),
            final(self).has_fired() == fired,
    {
        if idle {
            self.idle_secs = self.idle_secs + self.interval_secs;
        } else {
            self.idle_secs = 0;
        }
        let fired = self.idle_secs >= self.threshold_secs;
        self.fired = fired;
        fired
    }
}

/// The number of consecutive idle polls after which the monitor fires:
/// the least `j` with `j * interval >= threshold`.
pub open spec fn polls_to_fire(interval: nat, threshold: nat) -> nat
    recommends
        interval > 0,
{
    ((threshold + interval - 1) / (interval as int)) as nat
}

/// Idle-interval accumulation: starting from an empty accumulator, `j`
/// consecutive idle polls accumulate exactly `j * interval` seconds, so the
/// monitor fires on exactly the poll numbered `polls_to_fire` — not on any
/// earlier one. A single non-idle poll resets the accumulator to zero
/// (an ensures of `poll`), after which the same count applies again.
pub proof fn lemma_fires_exactly_at_threshold(interval: nat, threshold: nat, j: nat)
    requires
        interval >= 1,
        threshold >= 1,
    ensures
        (j * interval >= threshold) <==> (j >= polls_to_fire(interval, threshold)),
        polls_to_fire(interval, threshold) >= 1,
{
    let c = polls_to_fire(interval, threshold);
    assert(c == (threshold + interval - 1) / (interval as int));
    assert((threshold + interval - 1) == (interval as int) * c + ((threshold + interval - 1) % (
    interval as int))) by {
        vstd::arithmetic::div_mod::lemma_fundamental_div_mod(
            (threshold + interval - 1) as int,
            interval as int,
        );
    }
    let rem = (threshold + interval - 1) % (interval as int);
    assert(0 <= rem < interval) by {
        vstd::arithmetic::div_mod::lemma_mod_bound((threshold + interval - 1) as int, interval as int);
    }
    // c * interval >= threshold, and (c - 1) * interval < threshold.
    assert(c * interval == interval * c) by (nonlinear_arith);
    assert(c * interval >= threshold);
    assert((c - 1) * interval == interval * c - interval) by (nonlinear_arith);
    assert((c - 1) * interval < threshold);
    assert(c >= 1) by {
        if c == 0 {
            assert(c * interval == 0) by (nonlinear_arith)
                requires
                    c == 0,
            ;
        }
    }
    if j >= c {
        assert(j * interval >= c * interval) by (nonlinear_arith)
            requires
                j >= c,
                interval >= 1,
        ;
    }
    if j < c {
        assert(j * interval <= (c - 1) * interval) by (nonlinear_arith)
            requires
                j <= c - 1,
                interval >= 1,
        ;
    }
}

} // verus!
