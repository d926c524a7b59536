//! The polling worker, modelled as a state machine.
//!
//! The worker is either stopped or running; at most one polling loop is
//! active at any time. Starting while running means restart: the caller
//! first signals the previous loop to stop. The loop itself lives with
//! the caller (it sleeps, spawns and performs fetches); the decisions —
//! when a start must stop a predecessor, what a polled stop signal
//! means, and on which tick to actually poll — are taken here.

use vstd::prelude::*;

verus! {

/// What one non-blocking check of the stop channel observed.
#[derive(Debug)]
pub enum StopSignal {
    /// A stop message arrived.
    Received,
    /// The sending side is gone; the loop is orphaned.
    Disconnected,
    /// Nothing arrived; keep going.
    Empty,
}

/// The error a worker operation surfaces.
#[derive(Debug)]
pub enum BackgroundVideoFetcherError {
    /// Could not stop worker because it was not started
    FailedToStopBecauseWorkerNotStarted,
}

/// Manages the background worker which fetches new videos
pub struct BackgroundVideoFetcher {
    running: bool,
}

impl BackgroundVideoFetcher {
    /// Whether a polling loop is currently bound to this worker.
    pub closed spec fn is_running(&self) -> bool {
        self.running
    }

    /// A worker with no polling loop.
    pub fn new() -> (w: BackgroundVideoFetcher)
        ensures
            !w.is_running(),
    {
        BackgroundVideoFetcher { running: false }
    }

    /// Whether the worker already has an active polling loop.
    pub fn worker_already_started(&self) -> (b: bool)
        ensures
            b == self.is_running(),
    {
        self.running
    }

    /// Transitions to running. Returns whether a previous loop was
    /// active: the caller must then signal that loop to stop before
    /// spawning the new one, so at most one loop polls at any time.
    pub fn start(&mut self) -> (stopped_previous: bool)
        ensures
            final(self).is_running(),
            stopped_previous == old(self).is_running(),
    {
        let was_running = self.running;
        self.running = true;
        was_running
    }

    /// Transitions to stopped. Stopping a worker that was never started
    /// (or already stopped) reports a benign "not running" condition
    /// rather than failing hard.
    pub fn stop(&mut self) -> (r: Result<(), BackgroundVideoFetcherError>)
        ensures
            !final(self).is_running(),
            old(self).is_running() ==> r is Ok,
            !old(self).is_running() ==> r == Err::<(), BackgroundVideoFetcherError>(
                BackgroundVideoFetcherError::FailedToStopBecauseWorkerNotStarted,
            ),
    {
        if self.running {
            self.running = false;
            Ok(())
        } else {
            Err(BackgroundVideoFetcherError::FailedToStopBecauseWorkerNotStarted)
        }
    }

    /// Whether the loop must exit, given what a non-blocking check of
    /// the stop channel observed: a stop message or a vanished sender
    /// ends the loop; an empty channel keeps it going.
    pub fn worker_must_be_stopped(signal: &StopSignal) -> (b: bool)
        ensures
            b == (signal is Received || signal is Disconnected),
    {
        match signal {
            StopSignal::Received => true,
            StopSignal::Disconnected => true,
            StopSignal::Empty => false,
        }
    }
}

/// Decides on which tick to poll, decoupling the frequent stop-signal
/// check from the long poll period: the loop ticks often (sub-second),
/// but a poll is due only when the elapsed-tick counter reaches the
/// configured period.
pub struct PollSchedule {
    ticks_per_poll: u64,
    ticks_elapsed: u64,
}

impl PollSchedule {
    /// How many ticks make one poll period.
    pub closed spec fn period(&self) -> u64 {
        self.ticks_per_poll
    }

    /// How many ticks have passed since the last poll.
    pub closed spec fn elapsed(&self) -> u64 {
        self.ticks_elapsed
    }

    /// The counter never reaches the period between ticks.
    pub open spec fn wf(&self) -> bool {
        0 < self.period() && self.elapsed() < self.period()
    }

    /// A schedule that polls every `ticks_per_poll` ticks, the first
    /// time after a full period.
    pub fn new(ticks_per_poll: u64) -> (s: PollSchedule)
        requires
            ticks_per_poll > 0,
        ensures
            s.wf(),
            s.period() == ticks_per_poll,
            s.elapsed() == 0,
    {
        PollSchedule { ticks_per_poll, ticks_elapsed: 0 }
    }

    /// Advances the schedule by one tick; true exactly when the period
    /// is full and a poll is due, which resets the counter.
    pub fn tick(&mut self) -> (poll_now: bool)
        requires
            old(self).wf(),
        ensures
            final(self).wf(),
            final(self).period() == old(self).period(),
            poll_now == (old(self).elapsed() + 1 == old(self).period()),
            poll_now ==> final(self).elapsed() == 0,
            !poll_now ==> final(self).elapsed() == old(self).elapsed() + 1,
    {
        if self.ticks_elapsed + 1 == self.ticks_per_poll {
            self.ticks_elapsed = 0;
            true
        } else {
            self.ticks_elapsed = self.ticks_elapsed + 1;
            false
        }
    }
}

} // verus!
