//! Tunnel lifecycle: the start/stop controller.
//!
//! The controller owns the two pieces of state that the tunnel shares
//! across threads: the "stop requested" flag and the worker-handle slot.
//! It enforces the single-instance invariant: at most one worker exists
//! at any time, and a second `start` is rejected while one is present.
//! The caller keeps the controller behind its own lock and spawns or
//! drops the actual worker thread according to the decisions made here.

use vstd::prelude::*;

verus! {

/// Errors that `start` and `stop` report synchronously to their caller.
#[derive(Clone, Copy, PartialEq, Eq, Debug)]
pub enum TunnelError {
    /// A worker handle is already present: only one tunnel may run.
    AlreadyRunning,
}

impl TunnelError {
    /// The descriptive string handed to the caller.
    pub fn message(&self) -> (r: String)
        ensures
            r@ == "Tunnel already running"@,
    {
        "Tunnel already running".to_owned()
    }
}

/// Lifecycle state of the single tunnel.
///
/// `worker_present` mirrors whether the caller holds a worker handle:
/// a handle exists if and only if a tunnel is running or finishing
/// shutdown. `generation` counts successful starts, so that a restart
/// can be told apart from a stale handle.
pub struct TunnelController {
    /// Cooperative cancellation flag polled by the worker's loops.
    pub stop_requested: bool,
    /// Whether the worker-handle slot is occupied.
    pub worker_present: bool,
    /// How many workers have ever been started; the present worker,
    /// if any, is the `generation`-th.
    pub generation: Ghost<nat>,
}

/// What a successful or failed `start` does: with a worker present it
/// fails and leaves the state untouched; otherwise it clears the stop
/// flag and fills the handle slot with a fresh worker.
pub open spec fn start_rel(
    pre: TunnelController,
    post: TunnelController,
    r: Result<(), TunnelError>,
) -> bool {
    if pre.worker_present {
        &&& r == Err::<(), TunnelError>(TunnelError::AlreadyRunning)
        &&& post == pre
    } else {
        &&& r == Ok::<(), TunnelError>(())
        &&& post.worker_present
        &&& !post.stop_requested
        &&& post.generation@ == pre.generation@ + 1
    }
}

/// What `stop` does: it always succeeds, raises the stop flag and
/// empties the handle slot, without waiting for the worker to exit.
pub open spec fn stop_rel(
    pre: TunnelController,
    post: TunnelController,
    r: Result<(), TunnelError>,
) -> bool {
    &&& r == Ok::<(), TunnelError>(())
    &&& post.stop_requested
    &&& !post.worker_present
    &&& post.generation == pre.generation
}

impl TunnelController {
    /// The state at process start: stopped and empty.
    pub fn new() -> (c: Self)
        ensures
            !c.stop_requested,
            !c.worker_present,
            c.generation@ == 0,
    {
        TunnelController { stop_requested: false, worker_present: false, generation: Ghost(0) }
    }

    /// Decides whether a tunnel may start. On success the caller must
    /// spawn the worker and keep its handle; on `AlreadyRunning` nothing
    /// changed and the running tunnel is undisturbed.
    pub fn start(&mut self) -> (r: Result<(), TunnelError>)
        ensures
            start_rel(*old(self), *final(self), r),
    {
        if self.worker_present {
            return Err(TunnelError::AlreadyRunning);
        }
        self.stop_requested = false;
        self.worker_present = true;
        self.generation = Ghost(self.generation@ + 1);
        Ok(())
    }

    /// Requests shutdown and detaches: raises the stop flag, empties the
    /// handle slot, and returns without waiting for the worker to exit.
    /// Stopping when nothing runs is a no-op, not an error.
    pub fn stop(&mut self) -> (r: Result<(), TunnelError>)
        ensures
            stop_rel(*old(self), *final(self), r),
    {
        self.stop_requested = true;
        self.worker_present = false;
        Ok(())
    }

    /// Whether a worker handle is currently held.
    pub fn is_running(&self) -> (r: bool)
        ensures
            r == self.worker_present,
    {
        self.worker_present
    }

    /// Whether the worker's loops have been asked to wind down.
    pub fn is_stop_requested(&self) -> (r: bool)
        ensures
            r == self.stop_requested,
    {
        self.stop_requested
    }
}

/// Single instance: a second `start` without an intervening `stop` is
/// rejected with `AlreadyRunning` and does not disturb the first
/// tunnel's state.
pub proof fn lemma_single_instance(
    c0: TunnelController,
    c1: TunnelController,
    r1: Result<(), TunnelError>,
    c2: TunnelController,
    r2: Result<(), TunnelError>,
)
    requires
        start_rel(c0, c1, r1),
        r1 is Ok,
        start_rel(c1, c2, r2),
    ensures
        r2 == Err::<(), TunnelError>(TunnelError::AlreadyRunning),
        c2 == c1,
{
}

/// Idempotent stop: stopping while nothing runs succeeds, and a
/// subsequent `start` succeeds as well.
pub proof fn lemma_stop_idempotent(
    c0: TunnelController,
    c1: TunnelController,
    r1: Result<(), TunnelError>,
    c2: TunnelController,
    r2: Result<(), TunnelError>,
)
    requires
        !c0.worker_present,
        stop_rel(c0, c1, r1),
        start_rel(c1, c2, r2),
    ensures
        r1 is Ok,
        r2 is Ok,
{
}

/// Restart after stop: start, stop, start all succeed, and the second
/// worker is fresh, not the stale handle of the first.
pub proof fn lemma_restart_fresh(
    c0: TunnelController,
    c1: TunnelController,
    r1: Result<(), TunnelError>,
    c2: TunnelController,
    r2: Result<(), TunnelError>,
    c3: TunnelController,
    r3: Result<(), TunnelError>,
)
    requires
        !c0.worker_present,
        start_rel(c0, c1, r1),
        stop_rel(c1, c2, r2),
        start_rel(c2, c3, r3),
    ensures
        r1 is Ok,
        r2 is Ok,
        r3 is Ok,
        c3.worker_present,
        c3.generation@ != c1.generation@,
{
}

} // verus!
