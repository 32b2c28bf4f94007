//! When a widget is due: a fixed polling period, counted from the start of
//! its stream, and the number of batches produced so far.
//!
//! Time is measured in nanoseconds since the stream was started. The batch
//! with number `n` (the first has number 1) is due at `n` periods, whatever
//! time the earlier batches took; nothing is due at time zero.

use vstd::prelude::*;

verus! {

pub const NANOS_PER_SECOND: u64 = 1_000_000_000;

/// A polling period: a positive number of nanoseconds.
#[derive(Clone, Copy, Debug, PartialEq, Eq)]
pub struct Interval {
    nanos: u64,
}

impl Interval {
    #[verifier::type_invariant]
    spec fn positive(self) -> bool {
        self.nanos > 0
    }

    /// The length of the period in nanoseconds.
    pub closed spec fn nanos(self) -> nat {
        self.nanos as nat
    }

    /// The period of `nanos` nanoseconds, unless that is zero.
    pub fn from_nanos(nanos: u64) -> (r: Option<Interval>)
        ensures
            nanos == 0 <==> r is None,
            r matches Some(i) ==> i.nanos() == nanos,
    {
        if nanos == 0 {
            None
        } else {
            Some(Interval { nanos })
        }
    }

    /// The period of `secs` seconds, unless that is zero or more nanoseconds
    /// than a `u64` holds.
    pub fn from_secs(secs: u64) -> (r: Option<Interval>)
        ensures
            secs == 0 || secs * NANOS_PER_SECOND > u64::MAX <==> r is None,
            r matches Some(i) ==> i.nanos() == secs * NANOS_PER_SECOND,
    {
        match secs.checked_mul(NANOS_PER_SECOND) {
            None => None,
            Some(nanos) => Interval::from_nanos(nanos),
        }
    }

    /// The length of the period in nanoseconds; never zero.
    pub fn as_nanos(&self) -> (n: u64)
        ensures
            n == self.nanos(),
            n > 0,
    {
        proof {
            use_type_invariant(self);
        }
        self.nanos
    }
}

/// What the driver of a stream is to do next.
#[derive(Clone, Copy, Debug, PartialEq, Eq, Structural)]
pub enum Step {
    /// Nothing is due before the time `until`.
    Wait { until: u128 },
    /// Sample and render now: this is batch number `tick`.
    Fire { tick: u64 },
    /// The stream was cancelled and produces nothing more.
    Stopped,
}

/// The timetable of one widget's stream.
#[derive(Clone, Copy, Debug, PartialEq, Eq)]
pub struct Schedule {
    period: Interval,
    fired: u64,
    stopped: bool,
}

impl Schedule {
    /// The polling period in nanoseconds.
    pub closed spec fn period(self) -> nat {
        self.period.nanos()
    }

    /// The number of batches produced so far.
    pub closed spec fn fired(self) -> nat {
        self.fired as nat
    }

    /// Whether the stream was cancelled.
    pub closed spec fn stopped(self) -> bool {
        self.stopped
    }

    /// The time at which the next batch is due.
    pub open spec fn next_due(self) -> nat {
        (self.fired() + 1) * self.period()
    }

    /// A fresh timetable: nothing produced yet, the first batch due after one
    /// full period.
    pub fn new(period: Interval) -> (s: Schedule)
        ensures
            s.period() == period.nanos(),
            s.fired() == 0,
            !s.stopped(),
    {
        Schedule { period, fired: 0, stopped: false }
    }

    /// The number of batches produced so far.
    pub fn ticks(&self) -> (n: u64)
        ensures
            n == self.fired(),
    {
        self.fired
    }

    /// Whether the stream was cancelled.
    pub fn is_stopped(&self) -> (b: bool)
        ensures
            b == self.stopped(),
    {
        self.stopped
    }

    /// Decides what to do at time `now`.
    ///
    /// A cancelled stream stays stopped. Otherwise the next batch is fired if
    /// and only if its due time has come, and batches are numbered one by one;
    /// a late poll fires the batches that were missed one after the other,
    /// without moving any due time.
    pub fn poll(&mut self, now: u64) -> (step: Step)
        ensures
            final(self).period() == old(self).period(),
            final(self).stopped() == old(self).stopped(),
            old(self).stopped() ==> step == Step::Stopped && final(self).fired() == old(
                self,
            ).fired(),
            !old(self).stopped() && now >= old(self).next_due() ==> step == (Step::Fire {
                tick: (old(self).fired() + 1) as u64,
            }) && final(self).fired() == old(self).fired() + 1,
            !old(self).stopped() && now < old(self).next_due() ==> step == (Step::Wait {
                until: old(self).next_due() as u128,
            }) && final(self).fired() == old(self).fired(),
            step matches Step::Fire { tick } ==> now >= tick * old(self).period(),
    {
        if self.stopped {
            return Step::Stopped;
        }
        let period: u64 = self.period.as_nanos();
        let count: u128 = self.fired as u128 + 1;
        assert(count * period <= 0x1_0000_0000_0000_0000 * 0xffff_ffff_ffff_ffff) by (nonlinear_arith)
            requires
                0 <= count <= 0x1_0000_0000_0000_0000,
                0 <= period <= 0xffff_ffff_ffff_ffff,
        ;
        let due: u128 = count * (period as u128);
        if now as u128 >= due {
            assert(count <= due) by (nonlinear_arith)
                requires
                    due == count * period,
                    period >= 1,
                    count >= 0,
            ;
            self.fired = self.fired + 1;
            Step::Fire { tick: self.fired }
        } else {
            Step::Wait { until: due }
        }
    }

    /// Cancels the stream. A cancelled stream cannot be resumed.
    pub fn cancel(&mut self)
        ensures
            final(self).stopped(),
            final(self).period() == old(self).period(),
            final(self).fired() == old(self).fired(),
    {
        self.stopped = true;
    }
}

} // verus!
