//! The schedule of the task that purges expired clips.
//!
//! The task itself waits, asks the store to delete, and logs; this type
//! decides when a sweep is due and with which cutoff.

use crate::data::{surviving, ClipStore};
use crate::domain::time::Time;
use crate::lifecycle::Phase;
use vstd::prelude::*;

verus! {

/// When the sweep after one at `now` is due: one interval later, or at the
/// end of time where that cannot be told.
pub open spec fn next_due(now: int, interval: int) -> int {
    if now + interval > i64::MAX {
        i64::MAX as int
    } else {
        now + interval
    }
}

/// The sweeper's schedule: a fixed interval between sweeps.
pub struct Maintenance {
    phase: Phase,
    interval: u32,
    due: i64,
}

impl Maintenance {
    pub closed spec fn phase(&self) -> Phase {
        self.phase
    }

    /// The seconds between two sweeps.
    pub closed spec fn interval(&self) -> int {
        self.interval as int
    }

    /// The moment from which the next sweep is due.
    pub closed spec fn due(&self) -> int {
        self.due as int
    }

    /// A schedule with `interval` seconds between sweeps, not yet started.
    pub fn new(interval: u32) -> (schedule: Maintenance)
        ensures
            schedule.phase() == Phase::Created,
            schedule.interval() == interval,
    {
        Maintenance { phase: Phase::Created, interval, due: 0 }
    }

    pub fn current_phase(&self) -> (phase: Phase)
        ensures
            phase == self.phase(),
    {
        self.phase
    }

    fn after_interval(&self, now: &Time) -> (next: i64)
        ensures
            next == next_due(now@, self.interval()),
    {
        let secs: i64 = now.timestamp();
        let step: i64 = self.interval as i64;
        if secs > i64::MAX - step {
            i64::MAX
        } else {
            secs + step
        }
    }

    /// Starts a schedule that was just made: the first sweep is due one
    /// interval after `now`. Any other schedule stays as it is.
    pub fn start(&mut self, now: &Time) -> (started: bool)
        ensures
            started == (old(self).phase() == Phase::Created),
            old(self).phase().leads_to(final(self).phase()),
            started ==> final(self).phase() == Phase::Running && final(self).due() == next_due(
                now@,
                old(self).interval(),
            ) && final(self).interval() == old(self).interval(),
            !started ==> *final(self) == *old(self),
    {
        if self.phase == Phase::Created {
            self.due = self.after_interval(now);
            self.phase = Phase::Running;
            true
        } else {
            false
        }
    }

    /// Called when the task wakes at `now`. Where the schedule runs and a
    /// sweep is due, the answer is the cutoff for the store: every clip that
    /// expires at or before it is to be deleted. The next sweep is then due
    /// one interval after `now`, whether or not the store succeeds.
    pub fn poll(&mut self, now: &Time) -> (cutoff: Option<Time>)
        ensures
            final(self).phase() == old(self).phase(),
            final(self).interval() == old(self).interval(),
            old(self).phase() == Phase::Running && old(self).due() <= now@ ==> cutoff == Some(*now)
                && final(self).due() == next_due(now@, old(self).interval()),
            !(old(self).phase() == Phase::Running && old(self).due() <= now@) ==> cutoff is None
                && *final(self) == *old(self),
    {
        if self.phase == Phase::Running && self.due <= now.timestamp() {
            self.due = self.after_interval(now);
            Some(*now)
        } else {
            None
        }
    }

    /// One wake-up at `now` against `store`: where a sweep is due, every clip
    /// that expires at or before `now` is deleted in one pass, and the answer
    /// is how many were. Otherwise the store is left alone.
    pub fn sweep(&mut self, store: &mut ClipStore, now: &Time) -> (deleted: Option<usize>)
        ensures
            final(self).phase() == old(self).phase(),
            final(self).interval() == old(self).interval(),
            old(self).phase() == Phase::Running && old(self).due() <= now@ ==> final(store)@
                == surviving(old(store)@, now@) && deleted == Some(
                (old(store)@.len() - final(store)@.len()) as usize,
            ) && final(self).due() == next_due(now@, old(self).interval()),
            !(old(self).phase() == Phase::Running && old(self).due() <= now@) ==> deleted is None
                && *final(self) == *old(self) && final(store)@ == old(store)@,
    {
        match self.poll(now) {
            Some(cutoff) => Some(store.delete_expired(&cutoff)),
            None => None,
        }
    }

    /// Asks the schedule to stop. A running schedule is stopping and owes
    /// one last sweep (the answer is `true`); one that never ran is stopped.
    pub fn shutdown(&mut self) -> (final_sweep: bool)
        ensures
            final_sweep == (old(self).phase() == Phase::Running),
            old(self).phase().leads_to(final(self).phase()),
            final(self).interval() == old(self).interval(),
            final(self).due() == old(self).due(),
            final(self).phase() == (match old(self).phase() {
                Phase::Created => Phase::Stopped,
                Phase::Running => Phase::Stopping,
                Phase::Stopping => Phase::Stopping,
                Phase::Stopped => Phase::Stopped,
            }),
    {
        match self.phase {
            Phase::Running => {
                self.phase = Phase::Stopping;
                true
            },
            Phase::Created => {
                self.phase = Phase::Stopped;
                false
            },
            _ => false,
        }
    }

    /// Called after the last sweep was attempted: a stopping schedule is stopped.
    pub fn finish(&mut self)
        ensures
            old(self).phase().leads_to(final(self).phase()),
            final(self).interval() == old(self).interval(),
            final(self).due() == old(self).due(),
            final(self).phase() == if old(self).phase() == Phase::Stopping {
                Phase::Stopped
            } else {
                old(self).phase()
            },
    {
        if self.phase == Phase::Stopping {
            self.phase = Phase::Stopped;
        }
    }
}

} // verus!
