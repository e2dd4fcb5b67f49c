//! The single-flight guard over the background listener: at most one listener
//! loop runs at a time.

use vstd::prelude::*;

verus! {

/// What a start request leads to.
#[derive(Clone, Copy, Debug, PartialEq, Eq, Structural)]
pub enum StartOutcome {
    /// Permission to observe input is not granted; nothing starts.
    PermissionDenied,
    /// A listener already runs; the request succeeds with no new worker.
    AlreadyRunning,
    /// The caller must spawn the one worker that runs the listener loop.
    SpawnWorker,
}

/// The guard's state after a start request, and what the request leads to.
pub open spec fn start_step(running: bool, permitted: bool) -> (bool, StartOutcome) {
    if !permitted {
        (running, StartOutcome::PermissionDenied)
    } else if running {
        (true, StartOutcome::AlreadyRunning)
    } else {
        (true, StartOutcome::SpawnWorker)
    }
}

/// Whether a background listener is active.
pub struct ListenerSupervisor {
    running: bool,
}

impl View for ListenerSupervisor {
    type V = bool;

    closed spec fn view(&self) -> bool {
        self.running
    }
}

impl ListenerSupervisor {
    /// A guard with no listener running.
    pub fn new() -> (r: ListenerSupervisor)
        ensures
            !r@,
    {
        ListenerSupervisor { running: false }
    }

    /// Whether a listener is active.
    pub fn is_running(&self) -> (r: bool)
        ensures
            r == self@,
    {
        self.running
    }

    /// Decides a start request: denied without permission, a no-op while a
    /// listener runs, else the flag goes from idle to running and the caller
    /// spawns the worker.
    pub fn request_start(&mut self, permitted: bool) -> (r: StartOutcome)
        ensures
            (final(self)@, r) == start_step(old(self)@, permitted),
    {
        if !permitted {
            StartOutcome::PermissionDenied
        } else if self.running {
            StartOutcome::AlreadyRunning
        } else {
            self.running = true;
            StartOutcome::SpawnWorker
        }
    }

    /// Records that the worker's listener loop returned; a later start may retry.
    pub fn worker_finished(&mut self)
        ensures
            !final(self)@,
    {
        self.running = false;
    }
}

/// Two start requests in a row, both permitted, spawn exactly one worker when
/// none ran before and none when one did; afterwards a listener is running.
pub proof fn lemma_single_flight(running: bool)
    ensures
        ({
            let (r1, o1) = start_step(running, true);
            let (r2, o2) = start_step(r1, true);
            &&& r1 && r2
            &&& o2 == StartOutcome::AlreadyRunning
            &&& (o1 == StartOutcome::SpawnWorker <==> !running)
        }),
{
}

} // verus!
