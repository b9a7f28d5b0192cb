//! A pause-aware countdown timer.
//!
//! The timer never reads a clock itself: every operation that depends on the
//! current time takes `now`, a caller-supplied monotonic timestamp in
//! milliseconds. Elapsed running time is the time since launch minus the
//! time spent paused; it is cached in `time_passed` and recomputed on each
//! `update`, so the cached value is only current right after an `update`.
//! While paused, `update` is a no-op and the cached value stays frozen.
use vstd::prelude::*;

verus! {

#[derive(Debug, Clone, Copy)]
pub struct Timer {
    /// Configured duration of this phase, in milliseconds.
    total_time: u64,
    /// Timestamp at which the timer was created.
    launch_instant: u64,
    /// Cached elapsed running time (excluding pauses), in milliseconds.
    time_passed: u64,
    /// Timestamp at which the current pause began; present iff paused.
    pause_instant: Option<u64>,
    /// Total time spent paused, over all finished pause/resume rounds.
    accumulated_pause: u64,
    /// The largest timestamp any operation of this timer has seen.
    last_instant: u64,
}

impl Timer {
    pub closed spec fn spec_total(self) -> u64 {
        self.total_time
    }

    pub closed spec fn spec_launch(self) -> u64 {
        self.launch_instant
    }

    pub closed spec fn spec_elapsed(self) -> u64 {
        self.time_passed
    }

    pub closed spec fn spec_paused_at(self) -> Option<u64> {
        self.pause_instant
    }

    pub closed spec fn spec_paused_total(self) -> u64 {
        self.accumulated_pause
    }

    pub closed spec fn spec_last(self) -> u64 {
        self.last_instant
    }

    pub open spec fn spec_is_paused(self) -> bool {
        self.spec_paused_at() is Some
    }

    /// A timer is finished once its elapsed running time strictly exceeds
    /// the configured duration; exact equality is not yet finished.
    pub open spec fn spec_is_finished(self) -> bool {
        self.spec_elapsed() > self.spec_total()
    }

    /// Remaining time, saturating at zero.
    pub open spec fn spec_time_left(self) -> u64 {
        if self.spec_total() >= self.spec_elapsed() {
            (self.spec_total() - self.spec_elapsed()) as u64
        } else {
            0u64
        }
    }

    /// Well-formedness: timestamps never precede the launch, and the paused
    /// total cannot exceed the time the timer has existed. This is what
    /// keeps the pause accounting free of overflow.
    pub open spec fn wf(self) -> bool {
        &&& self.spec_launch() <= self.spec_last()
        &&& match self.spec_paused_at() {
            Some(p) => self.spec_launch() <= p <= self.spec_last()
                && self.spec_paused_total() <= p - self.spec_launch(),
            None => self.spec_paused_total() <= self.spec_last() - self.spec_launch(),
        }
    }

    /// The value of a fresh timer for a phase of `total_time` milliseconds,
    /// launched at time `now`.
    pub closed spec fn spec_new(total_time: u64, now: u64) -> Timer {
        Timer {
            total_time,
            launch_instant: now,
            time_passed: 0,
            pause_instant: None,
            accumulated_pause: 0,
            last_instant: now,
        }
    }

    /// What a fresh timer looks like, for callers that only see the value
    /// `spec_new` describes.
    pub proof fn lemma_spec_new_facts(total_time: u64, now: u64)
        ensures
            Timer::spec_new(total_time, now).wf(),
            Timer::spec_new(total_time, now).spec_total() == total_time,
            Timer::spec_new(total_time, now).spec_launch() == now,
            Timer::spec_new(total_time, now).spec_elapsed() == 0,
            Timer::spec_new(total_time, now).spec_paused_at() is None,
            Timer::spec_new(total_time, now).spec_paused_total() == 0,
            Timer::spec_new(total_time, now).spec_last() == now,
            Timer::spec_new(total_time, now).spec_time_left() == total_time,
            !Timer::spec_new(total_time, now).spec_is_finished(),
    {
    }

    /// The timer value after `pause` at time `now`: a no-op when already
    /// paused, otherwise it marks the start of a pause.
    pub closed spec fn spec_pause(self, now: u64) -> Timer {
        match self.pause_instant {
            Some(_) => self,
            None => Timer { pause_instant: Some(now), last_instant: now, ..self },
        }
    }

    /// The timer value after `resume` at time `now`: a no-op when not
    /// paused, otherwise the finished pause is added to the paused total.
    pub closed spec fn spec_resume(self, now: u64) -> Timer {
        match self.pause_instant {
            Some(p) => Timer {
                pause_instant: None,
                accumulated_pause: (self.accumulated_pause + (now - p)) as u64,
                last_instant: now,
                ..self
            },
            None => self,
        }
    }

    /// The timer value after `update` at time `now`: frozen while paused,
    /// otherwise the cached elapsed time becomes the time since launch less
    /// the paused total, saturating at zero.
    pub closed spec fn spec_update(self, now: u64) -> Timer {
        match self.pause_instant {
            Some(_) => self,
            None => Timer {
                time_passed: if now - self.launch_instant >= self.accumulated_pause {
                    (now - self.launch_instant - self.accumulated_pause) as u64
                } else {
                    0u64
                },
                last_instant: now,
                ..self
            },
        }
    }

    /// A fresh timer for a phase of `total_time` milliseconds, launched at
    /// time `now`: nothing elapsed, not paused, the full time left.
    pub fn new(total_time: u64, now: u64) -> (timer: Timer)
        ensures
            timer == Timer::spec_new(total_time, now),
            timer.wf(),
            timer.spec_total() == total_time,
            timer.spec_launch() == now,
            timer.spec_elapsed() == 0,
            timer.spec_paused_at() is None,
            timer.spec_paused_total() == 0,
            timer.spec_last() == now,
            timer.spec_time_left() == total_time,
            !timer.spec_is_finished(),
    {
        Timer {
            total_time,
            launch_instant: now,
            time_passed: 0,
            pause_instant: None,
            accumulated_pause: 0,
            last_instant: now,
        }
    }

    pub fn get_time_left(&self) -> (left: u64)
        ensures
            left == self.spec_time_left(),
    {
        if self.total_time >= self.time_passed {
            self.total_time - self.time_passed
        } else {
            0
        }
    }

    pub fn is_finished(&self) -> (finished: bool)
        ensures
            finished == self.spec_is_finished(),
    {
        self.time_passed > self.total_time
    }

    pub fn is_paused(&self) -> (paused: bool)
        ensures
            paused == self.spec_is_paused(),
    {
        self.pause_instant.is_some()
    }

    /// Begin a pause at time `now`. Idempotent: pausing an already paused
    /// timer changes nothing, so a pause is never counted twice.
    pub fn pause(&mut self, now: u64)
        requires
            old(self).wf(),
            now >= old(self).spec_last(),
        ensures
            *final(self) == old(self).spec_pause(now),
            final(self).wf(),
            final(self).spec_is_paused(),
            old(self).spec_is_paused() ==> *final(self) == *old(self),
            !old(self).spec_is_paused() ==> {
                &&& final(self).spec_paused_at() == Some(now)
                &&& final(self).spec_last() == now
            },
            final(self).spec_total() == old(self).spec_total(),
            final(self).spec_elapsed() == old(self).spec_elapsed(),
            final(self).spec_paused_total() == old(self).spec_paused_total(),
            final(self).spec_launch() == old(self).spec_launch(),
            final(self).spec_time_left() == old(self).spec_time_left(),
    {
        match self.pause_instant {
            Some(_) => {},
            None => {
                self.pause_instant = Some(now);
                self.last_instant = now;
            },
        }
    }

    /// End a pause at time `now`: the gap since the matching `pause` joins
    /// the paused total. Idempotent: resuming a running timer changes
    /// nothing.
    pub fn resume(&mut self, now: u64)
        requires
            old(self).wf(),
            now >= old(self).spec_last(),
        ensures
            *final(self) == old(self).spec_resume(now),
            final(self).wf(),
            !final(self).spec_is_paused(),
            !old(self).spec_is_paused() ==> *final(self) == *old(self),
            old(self).spec_is_paused() ==> {
                &&& final(self).spec_paused_total() == old(self).spec_paused_total() + (now
                    - old(self).spec_paused_at()->Some_0)
                &&& final(self).spec_last() == now
            },
            final(self).spec_total() == old(self).spec_total(),
            final(self).spec_elapsed() == old(self).spec_elapsed(),
            final(self).spec_launch() == old(self).spec_launch(),
            final(self).spec_time_left() == old(self).spec_time_left(),
    {
        match self.pause_instant {
            Some(pause_start) => {
                self.accumulated_pause = self.accumulated_pause + (now - pause_start);
                self.pause_instant = None;
                self.last_instant = now;
            },
            None => {},
        }
    }

    /// Recompute the cached elapsed time against the clock sample `now`.
    /// A no-op while paused: the cached value stays frozen at what it was
    /// when the pause began, so the time left never shrinks during a pause.
    pub fn update(&mut self, now: u64)
        requires
            old(self).wf(),
            now >= old(self).spec_last(),
        ensures
            *final(self) == old(self).spec_update(now),
            final(self).wf(),
            old(self).spec_is_paused() ==> *final(self) == *old(self),
            !old(self).spec_is_paused() ==> {
                &&& final(self).spec_elapsed() == (if now - old(self).spec_launch() >= old(
                    self,
                ).spec_paused_total() {
                    now - old(self).spec_launch() - old(self).spec_paused_total()
                } else {
                    0int
                })
                &&& final(self).spec_last() == now
            },
            final(self).spec_total() == old(self).spec_total(),
            final(self).spec_paused_at() == old(self).spec_paused_at(),
            final(self).spec_paused_total() == old(self).spec_paused_total(),
            final(self).spec_launch() == old(self).spec_launch(),
    {
        if self.pause_instant.is_none() {
            let since_launch = now - self.launch_instant;
            self.time_passed = if since_launch >= self.accumulated_pause {
                since_launch - self.accumulated_pause
            } else {
                0
            };
            self.last_instant = now;
        }
    }
}

/// What `spec_pause` does, observer by observer: pausing an already paused
/// timer changes nothing; pausing a running timer records the pause start
/// and touches nothing else.
pub proof fn lemma_spec_pause_facts(timer: Timer, now: u64)
    ensures
        timer.spec_pause(now).spec_is_paused(),
        timer.spec_pause(now).spec_total() == timer.spec_total(),
        timer.spec_pause(now).spec_elapsed() == timer.spec_elapsed(),
        timer.spec_pause(now).spec_launch() == timer.spec_launch(),
        timer.spec_pause(now).spec_paused_total() == timer.spec_paused_total(),
        timer.spec_pause(now).spec_time_left() == timer.spec_time_left(),
        timer.spec_is_paused() ==> timer.spec_pause(now) == timer,
        !timer.spec_is_paused() ==> timer.spec_pause(now).spec_paused_at() == Some(now),
        !timer.spec_is_paused() ==> timer.spec_pause(now).spec_last() == now,
{
}

/// What `spec_resume` does, observer by observer: resuming a running timer
/// changes nothing; resuming a paused timer adds the finished pause to the
/// paused total and touches nothing else.
pub proof fn lemma_spec_resume_facts(timer: Timer, now: u64)
    requires
        timer.wf(),
        now >= timer.spec_last(),
    ensures
        timer.spec_resume(now).wf(),
        !timer.spec_resume(now).spec_is_paused(),
        timer.spec_resume(now).spec_total() == timer.spec_total(),
        timer.spec_resume(now).spec_elapsed() == timer.spec_elapsed(),
        timer.spec_resume(now).spec_launch() == timer.spec_launch(),
        timer.spec_resume(now).spec_time_left() == timer.spec_time_left(),
        !timer.spec_is_paused() ==> timer.spec_resume(now) == timer,
        timer.spec_is_paused() ==> timer.spec_resume(now).spec_paused_total()
            == timer.spec_paused_total() + (now - timer.spec_paused_at()->Some_0),
        timer.spec_is_paused() ==> timer.spec_resume(now).spec_last() == now,
{
}

/// What `spec_update` does, observer by observer: updating a paused timer
/// changes nothing; updating a running timer recomputes the cached elapsed
/// time against `now` and touches nothing else.
pub proof fn lemma_spec_update_facts(timer: Timer, now: u64)
    requires
        timer.wf(),
        now >= timer.spec_last(),
    ensures
        timer.spec_update(now).wf(),
        timer.spec_update(now).spec_total() == timer.spec_total(),
        timer.spec_update(now).spec_launch() == timer.spec_launch(),
        timer.spec_update(now).spec_paused_at() == timer.spec_paused_at(),
        timer.spec_update(now).spec_paused_total() == timer.spec_paused_total(),
        timer.spec_is_paused() ==> timer.spec_update(now) == timer,
        !timer.spec_is_paused() ==> timer.spec_update(now).spec_elapsed() == (if now
            - timer.spec_launch() >= timer.spec_paused_total() {
            now - timer.spec_launch() - timer.spec_paused_total()
        } else {
            0int
        }),
        !timer.spec_is_paused() ==> timer.spec_update(now).spec_last() == now,
{
}

/// The timer after a run of matched pause/resume rounds, each round pausing
/// at the pair's first timestamp and resuming at its second.
pub open spec fn spec_run_pairs(timer: Timer, pairs: Seq<(u64, u64)>) -> Timer
    decreases pairs.len(),
{
    if pairs.len() == 0 {
        timer
    } else {
        spec_run_pairs(
            timer.spec_pause(pairs.first().0).spec_resume(pairs.first().1),
            pairs.drop_first(),
        )
    }
}

/// The total of the real-time gaps spanned by a run of pause/resume pairs.
pub open spec fn spec_gap_sum(pairs: Seq<(u64, u64)>) -> int
    decreases pairs.len(),
{
    if pairs.len() == 0 {
        0int
    } else {
        (pairs.first().1 - pairs.first().0) + spec_gap_sum(pairs.drop_first())
    }
}

/// The pairs describe forward-running wall-clock time: no round starts
/// before `start`, ends before it starts, or starts before the round
/// preceding it ended.
pub open spec fn spec_pairs_monotone(start: u64, pairs: Seq<(u64, u64)>) -> bool
    decreases pairs.len(),
{
    pairs.len() == 0 || {
        &&& start <= pairs.first().0
        &&& pairs.first().0 <= pairs.first().1
        &&& spec_pairs_monotone(pairs.first().1, pairs.drop_first())
    }
}

/// Law of pause accounting: over any run of matched pause/resume rounds in
/// forward-running time, the paused total grows by exactly the sum of the
/// real-time gaps between each pause and its matching resume — and the
/// elapsed running time is untouched by the run.
pub proof fn lemma_paused_total_is_gap_sum(timer: Timer, pairs: Seq<(u64, u64)>)
    requires
        timer.wf(),
        !timer.spec_is_paused(),
        spec_pairs_monotone(timer.spec_last(), pairs),
    ensures
        spec_run_pairs(timer, pairs).wf(),
        !spec_run_pairs(timer, pairs).spec_is_paused(),
        spec_run_pairs(timer, pairs).spec_paused_total() == timer.spec_paused_total()
            + spec_gap_sum(pairs),
        spec_run_pairs(timer, pairs).spec_elapsed() == timer.spec_elapsed(),
        spec_run_pairs(timer, pairs).spec_total() == timer.spec_total(),
        spec_run_pairs(timer, pairs).spec_launch() == timer.spec_launch(),
        spec_run_pairs(timer, pairs).spec_last() == (if pairs.len() == 0 {
            timer.spec_last()
        } else {
            pairs.last().1
        }),
    decreases pairs.len(),
{
    if pairs.len() > 0 {
        let paused = timer.spec_pause(pairs.first().0);
        let resumed = paused.spec_resume(pairs.first().1);
        assert(resumed.wf());
        lemma_paused_total_is_gap_sum(resumed, pairs.drop_first());
        if pairs.len() == 1 {
            assert(pairs.last() == pairs.first());
        } else {
            assert(pairs.drop_first().last() == pairs.last());
        }
    }
}

/// The tie-break of finishing: a timer only finishes when its elapsed
/// running time strictly exceeds its duration, so elapsed time exactly
/// equal to the duration is not yet finished — the next `update` normally
/// pushes it past equality one tick later.
pub proof fn lemma_exact_elapsed_not_finished(timer: Timer)
    requires
        timer.spec_elapsed() <= timer.spec_total(),
    ensures
        !timer.spec_is_finished(),
{
}

/// While a timer is paused, the clock is frozen: an `update` changes
/// nothing, so in particular the time left never decreases; and the pause
/// itself left the elapsed time and the time left exactly as they were.
pub proof fn lemma_frozen_while_paused(timer: Timer, now: u64)
    requires
        timer.wf(),
    ensures
        timer.spec_is_paused() ==> timer.spec_update(now) == timer,
        timer.spec_is_paused() ==> timer.spec_update(now).spec_time_left()
            == timer.spec_time_left(),
        timer.spec_pause(now).spec_elapsed() == timer.spec_elapsed(),
        timer.spec_pause(now).spec_time_left() == timer.spec_time_left(),
{
}

} // verus!
