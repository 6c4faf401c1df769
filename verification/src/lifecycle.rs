//! The lifecycle controller: owns the on/off state of the polling engine.
//!
//! The engine is started lazily by the first query and stopped exactly once
//! at teardown. Starting is idempotent — only one worker is ever spawned —
//! and shutting down an engine that is not running changes nothing. The
//! controller also keeps the last per-query error tag the engine recorded,
//! for diagnostic inspection only; it is never surfaced to the host.

use vstd::prelude::*;

verus! {

/// Controller state: whether the engine runs, whether it was asked to stop,
/// and the last recorded query error, tagged by the query that produced it.
pub struct Controller {
    pub running: bool,
    pub stop: bool,
    pub has_error: bool,
    pub error_src: String,
}

/// The mathematical value of the controller state.
pub ghost struct ControllerView {
    pub running: bool,
    pub stop: bool,
    pub has_error: bool,
    pub error_src: Seq<char>,
}

impl View for Controller {
    type V = ControllerView;

    open spec fn view(&self) -> ControllerView {
        ControllerView {
            running: self.running,
            stop: self.stop,
            has_error: self.has_error,
            error_src: self.error_src@,
        }
    }
}

/// What the start trigger does: nothing while the engine runs; otherwise a
/// fresh running state with the stop flag down and no recorded error.
pub open spec fn spec_ensure_started(c: ControllerView) -> ControllerView {
    if c.running {
        c
    } else {
        ControllerView { running: true, stop: false, has_error: false, error_src: Seq::empty() }
    }
}

/// What shutdown does: raises the stop flag and clears the running state if
/// the engine runs; otherwise nothing.
pub open spec fn spec_shutdown(c: ControllerView) -> ControllerView {
    if c.running {
        ControllerView { running: false, stop: true, ..c }
    } else {
        c
    }
}

/// How many workers `n` successive start triggers spawn from state `c`.
pub open spec fn spawn_count(c: ControllerView, n: nat) -> nat
    decreases n,
{
    if n == 0 {
        0
    } else {
        (if c.running {
            0nat
        } else {
            1nat
        }) + spawn_count(spec_ensure_started(c), (n - 1) as nat)
    }
}

/// Idempotence of starting: however many times the start trigger runs, at
/// most one worker is spawned — exactly one when the engine was not already
/// running, none when it was.
pub proof fn lemma_start_spawns_exactly_once(c: ControllerView, n: nat)
    requires
        1 <= n,
    ensures
        spawn_count(c, n) == if c.running {
            0nat
        } else {
            1nat
        },
    decreases n,
{
    if n == 1 {
        assert(spawn_count(spec_ensure_started(c), 0) == 0);
    } else {
        lemma_start_spawns_exactly_once(spec_ensure_started(c), (n - 1) as nat);
    }
}

/// Idempotence of shutdown: after one shutdown the engine is not running, and
/// a second shutdown changes nothing.
pub proof fn lemma_shutdown_twice_noop(c: ControllerView)
    ensures
        !spec_shutdown(c).running,
        spec_shutdown(spec_shutdown(c)) == spec_shutdown(c),
{
}

impl Controller {
    /// A controller for an engine that has never started.
    pub fn new() -> (r: Controller)
        ensures
            !r@.running,
            !r@.stop,
            !r@.has_error,
            r@.error_src == Seq::<char>::empty(),
    {
        Controller { running: false, stop: false, has_error: false, error_src: String::new() }
    }

    /// The start trigger. Returns whether a worker must now be spawned: true
    /// exactly on the call that turned the engine on. Calling again while
    /// running changes nothing.
    pub fn ensure_started(&mut self) -> (spawn: bool)
        ensures
            spawn == !old(self)@.running,
            final(self)@ == spec_ensure_started(old(self)@),
    {
        if self.running {
            false
        } else {
            self.running = true;
            self.stop = false;
            self.has_error = false;
            self.error_src = String::new();
            true
        }
    }

    /// Requests shutdown. Returns whether a worker must now be joined: true
    /// exactly when the engine was running. The stop flag stays up for the
    /// worker to observe; a repeated call changes nothing.
    pub fn shutdown(&mut self) -> (join: bool)
        ensures
            join == old(self)@.running,
            final(self)@ == spec_shutdown(old(self)@),
    {
        if self.running {
            self.running = false;
            self.stop = true;
            true
        } else {
            false
        }
    }

    /// Whether the engine was asked to stop; the worker checks this once per
    /// cycle.
    pub fn should_stop(&self) -> (r: bool)
        ensures
            r == self@.stop,
    {
        self.stop
    }

    /// Records a failed query under its source tag, leaving the lifecycle
    /// state untouched.
    pub fn record_error(&mut self, src: String)
        ensures
            final(self)@.has_error,
            final(self)@.error_src == src@,
            final(self)@.running == old(self)@.running,
            final(self)@.stop == old(self)@.stop,
    {
        self.has_error = true;
        self.error_src = src;
    }
}

} // verus!
