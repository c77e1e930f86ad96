//! A timer that records one start instant and the laps measured from it.

use vstd::prelude::*;

use crate::human::duration_to_human_string;
use crate::human::spec_human;
use crate::time::clock_now;
use crate::time::Duration;
use crate::time::Instant;

verus! {

/// Why a timer operation failed.
#[derive(Clone, Copy, Debug, PartialEq, Eq, Structural)]
pub enum TimerError {
    /// `start` was called on a timer that already holds a start instant.
    AlreadyStarted,
    /// `start_time` or `lap` was called before any successful `start`.
    NotStarted,
    /// The clock reading at `lap` was earlier than the recorded start
    /// instant: the clock went backwards, and the sample is invalid.
    InternalClockError,
}

/// The elapsed time from `start` to `now`, in nanoseconds.
pub open spec fn spec_elapsed(start: Instant, now: Instant) -> nat
    recommends
        start@ <= now@,
{
    (now@ - start@) as nat
}

/// A timer: absent until `start` succeeds, it then holds the start instant
/// and accumulates laps, each measured from that same start.
pub struct Timer {
    started: Option<Instant>,
    laps: Vec<Duration>,
}

impl Timer {
    /// The start instant, present exactly when `start` has succeeded.
    pub closed spec fn spec_started(&self) -> Option<Instant> {
        self.started
    }

    /// The laps recorded so far, in call order.
    pub closed spec fn spec_laps(&self) -> Seq<Duration> {
        self.laps@
    }

    /// Whether `start` has succeeded on this timer.
    pub open spec fn is_started(&self) -> bool {
        self.spec_started() is Some
    }

    /// What `start_time` reports: the start instant once captured, and
    /// `NotStarted` before that.
    pub open spec fn spec_start_time(&self) -> Result<Instant, TimerError> {
        match self.spec_started() {
            Some(s) => Ok(s),
            None => Err(TimerError::NotStarted),
        }
    }

    /// A fresh timer: not started, with no laps.
    pub fn new() -> (r: Timer)
        ensures
            !r.is_started(),
            r.spec_laps() == Seq::<Duration>::empty(),
    {
        Timer { started: None, laps: Vec::new() }
    }

    /// Starts the timer at instant `now`. Succeeds exactly once per timer:
    /// a second call fails with `AlreadyStarted` and changes nothing.
    pub fn start_at(&mut self, now: Instant) -> (r: Result<(), TimerError>)
        ensures
            !old(self).is_started() ==> r == Ok::<(), TimerError>(())
                && final(self).spec_started() == Some(now)
                && final(self).spec_laps() == old(self).spec_laps(),
            old(self).is_started() ==> r == Err::<(), TimerError>(TimerError::AlreadyStarted)
                && *final(self) == *old(self),
    {
        match self.started {
            None => {
                self.started = Some(now);
                Ok(())
            },
            Some(_) => Err(TimerError::AlreadyStarted),
        }
    }

    /// Starts the timer at the current clock reading. Succeeds exactly once
    /// per timer: a second call fails with `AlreadyStarted` and changes
    /// nothing, so the instant captured by the first call stays in place.
    pub fn start(&mut self) -> (r: Result<(), TimerError>)
        ensures
            !old(self).is_started() ==> r == Ok::<(), TimerError>(())
                && final(self).is_started()
                && final(self).spec_laps() == old(self).spec_laps(),
            old(self).is_started() ==> r == Err::<(), TimerError>(TimerError::AlreadyStarted)
                && *final(self) == *old(self),
    {
        match self.started {
            None => {
                let now = clock_now();
                self.start_at(now)
            },
            Some(_) => Err(TimerError::AlreadyStarted),
        }
    }

    /// Reports the captured start instant, or `NotStarted` before any
    /// successful `start`. Read-only: the result is a function of the
    /// timer's state alone, so repeated calls report the same instant.
    pub fn start_time(&self) -> (r: Result<Instant, TimerError>)
        ensures
            r == self.spec_start_time(),
    {
        match self.started {
            Some(s) => Ok(s),
            None => Err(TimerError::NotStarted),
        }
    }

    /// Records a lap as of instant `now`: the elapsed time from the start
    /// instant to `now` is appended to the laps and returned. Fails with
    /// `NotStarted` before any successful `start`, and with
    /// `InternalClockError` — appending nothing — when `now` is earlier
    /// than the start instant.
    pub fn lap_at(&mut self, now: Instant) -> (r: Result<Duration, TimerError>)
        ensures
            r == Err::<Duration, TimerError>(TimerError::NotStarted) <==> !old(self).is_started(),
            !old(self).is_started() ==> *final(self) == *old(self),
            old(self).spec_started() matches Some(s) ==> (
                if s@ <= now@ {
                    r matches Ok(d)
                        && d@ == spec_elapsed(s, now)
                        && final(self).spec_started() == old(self).spec_started()
                        && final(self).spec_laps() == old(self).spec_laps().push(d)
                } else {
                    r == Err::<Duration, TimerError>(TimerError::InternalClockError)
                        && *final(self) == *old(self)
                }
            ),
    {
        match self.started {
            None => Err(TimerError::NotStarted),
            Some(s) => {
                let start_nanos: u128 = s.as_nanos();
                let now_nanos: u128 = now.as_nanos();
                if start_nanos <= now_nanos {
                    let d = Duration::from_nanos(now_nanos - start_nanos);
                    self.laps.push(d);
                    Ok(d)
                } else {
                    Err(TimerError::InternalClockError)
                }
            },
        }
    }

    /// Records a lap as of the current clock reading. Fails with
    /// `NotStarted` before any successful `start`; on a started timer it
    /// either appends the returned duration to the laps, or fails with
    /// `InternalClockError` — changing nothing — when the clock reading
    /// came out earlier than the start instant.
    pub fn lap(&mut self) -> (r: Result<Duration, TimerError>)
        ensures
            r == Err::<Duration, TimerError>(TimerError::NotStarted) <==> !old(self).is_started(),
            !old(self).is_started() ==> *final(self) == *old(self),
            old(self).is_started() ==> final(self).spec_started() == old(self).spec_started(),
            old(self).is_started() ==> match r {
                Ok(d) => final(self).spec_laps() == old(self).spec_laps().push(d),
                Err(e) => e == TimerError::InternalClockError && *final(self) == *old(self),
            },
    {
        let now = clock_now();
        self.lap_at(now)
    }

    /// A snapshot of the laps recorded so far, in call order. The returned
    /// vector is a copy: later laps extend the timer's own sequence only.
    pub fn laps(&self) -> (r: Vec<Duration>)
        ensures
            r@ == self.spec_laps(),
    {
        let mut out: Vec<Duration> = Vec::new();
        let mut idx: usize = 0;
        while idx < self.laps.len()
            invariant
                idx <= self.laps.len(),
                out@ == self.laps@.take(idx as int),
            decreases self.laps.len() - idx,
        {
            out.push(self.laps[idx]);
            proof {
                assert(self.laps@.take(idx + 1 as int) =~= self.laps@.take(idx as int).push(self.laps@[idx as int]));
            }
            idx += 1;
        }
        proof {
            assert(self.laps@.take(self.laps@.len() as int) =~= self.laps@);
        }
        out
    }

    /// The laps recorded so far, each rendered by `duration_to_human_string`,
    /// in the same order as `laps`.
    pub fn laps_formatted(&self) -> (r: Vec<String>)
        ensures
            r@.len() == self.spec_laps().len(),
            forall|i: int| 0 <= i < r@.len() ==> r@[i]@ == spec_human(self.spec_laps()[i]@),
    {
        let mut out: Vec<String> = Vec::new();
        let mut idx: usize = 0;
        while idx < self.laps.len()
            invariant
                idx <= self.laps.len(),
                out@.len() == idx as int,
                forall|i: int| 0 <= i < idx ==> out@[i]@ == spec_human(self.laps@[i]@),
            decreases self.laps.len() - idx,
        {
            let s = duration_to_human_string(&self.laps[idx]);
            out.push(s);
            idx += 1;
        }
        out
    }
}

/// Laps taken from one start instant never shrink with the clock: of two
/// laps measured from `start`, one at `now1` and a later one at `now2`, the
/// second duration is at least the first whenever the clock did not go
/// backwards between them.
pub proof fn lemma_laps_monotonic(start: Instant, now1: Instant, now2: Instant)
    requires
        start@ <= now1@,
        now1@ <= now2@,
    ensures
        spec_elapsed(start, now1) <= spec_elapsed(start, now2),
{
}

/// `laps` hands back a snapshot: a later lap extends the timer's own
/// sequence by one, but every entry an already-returned snapshot holds, and
/// its length, stay as they were.
pub proof fn lemma_laps_snapshot_fixed(snapshot: Seq<Duration>, laps: Seq<Duration>, d: Duration)
    requires
        snapshot == laps,
    ensures
        laps.push(d).len() == snapshot.len() + 1,
        forall|i: int| 0 <= i < snapshot.len() ==> laps.push(d)[i] == snapshot[i],
{
}

} // verus!
