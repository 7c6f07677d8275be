//! Process-lifecycle decisions: when the one OS kill is issued, and what a
//! failed read or write against the child's pipes means.
//!
//! The engine never talks to the operating system itself.  It keeps the
//! authoritative liveness state of the child and decides: a kill is issued
//! to the host at most once, however many times and from however many paths
//! (normal teardown, host shutdown, an external interrupt) termination is
//! requested; and of an I/O failure, only the broken-pipe signature means
//! the child is gone — an expected, clean closure — while anything else is
//! passed on as a genuine error.

use vstd::prelude::*;

verus! {

/// The engine's view of the child process handle.
#[derive(Clone, Copy, PartialEq, Eq, Structural, Debug)]
pub struct ChildLifecycle {
    /// Whether the handle may still name a running process.  Once false, no
    /// further kill is ever issued.
    pub alive: bool,
}

/// What one termination request does: the handle is dead afterwards, and an
/// OS kill is issued exactly when it was alive before.
pub open spec fn kill_model(l: ChildLifecycle) -> (ChildLifecycle, bool) {
    (ChildLifecycle { alive: false }, l.alive)
}

/// The state after `n` termination requests.
pub open spec fn kill_n(l: ChildLifecycle, n: nat) -> ChildLifecycle
    decreases n,
{
    if n == 0 {
        l
    } else {
        kill_model(kill_n(l, (n - 1) as nat)).0
    }
}

/// How the engine classifies a failed read or write on the child's pipes.
#[derive(Clone, Copy, PartialEq, Eq, Structural, Debug)]
pub enum IoFailure {
    /// The broken-pipe signature: the other end of the pipe is gone.
    ChildClosed,
    /// Any other I/O failure.
    Other,
}

/// What the host must do after a failed read or write.
#[derive(Clone, Copy, PartialEq, Eq, Structural, Debug)]
pub enum IoDecision {
    /// Expected termination: stop driving ticks and close the drawing
    /// surface; issue the OS kill first when `issue_kill` is true.
    CloseSurface { issue_kill: bool },
    /// A genuine error: propagate it out of the current tick.
    Propagate,
}

impl ChildLifecycle {
    /// A freshly spawned child.
    pub fn new() -> (l: ChildLifecycle)
        ensures
            l.alive,
    {
        ChildLifecycle { alive: true }
    }

    /// Requests termination.  The handle is dead afterwards; the host must
    /// issue the one OS kill exactly when the result is true.
    pub fn kill(&mut self) -> (issue: bool)
        ensures
            (*final(self), issue) == kill_model(*old(self)),
    {
        let was = self.alive;
        self.alive = false;
        was
    }

    /// Classifies a failed pipe operation: a broken pipe is the child's
    /// normal closure — the child is killed (idempotently) and the surface
    /// closes — while any other failure propagates and changes nothing.
    pub fn on_io_failure(&mut self, f: IoFailure) -> (d: IoDecision)
        ensures
            match f {
                IoFailure::ChildClosed => {
                    &&& !final(self).alive
                    &&& d == (IoDecision::CloseSurface { issue_kill: old(self).alive })
                },
                IoFailure::Other => {
                    &&& *final(self) == *old(self)
                    &&& d == IoDecision::Propagate
                },
            },
    {
        match f {
            IoFailure::ChildClosed => {
                let issue = self.kill();
                IoDecision::CloseSurface { issue_kill: issue }
            },
            IoFailure::Other => IoDecision::Propagate,
        }
    }
}

/// Law (idempotent kill): on a dead handle, any number of further
/// termination requests leaves the handle exactly as it is, and none of
/// them issues an OS kill.
pub proof fn lemma_kill_idempotent(l: ChildLifecycle, n: nat)
    requires
        !l.alive,
    ensures
        kill_n(l, n) == l,
        forall|k: nat| !kill_model(#[trigger] kill_n(l, k)).1,
    decreases n,
{
    if n > 0 {
        lemma_kill_idempotent(l, (n - 1) as nat);
    }
    assert forall|k: nat| !kill_model(#[trigger] kill_n(l, k)).1 by {
        lemma_kill_n_dead(l, k);
    }
}

/// After any number of termination requests on a dead handle, the handle is
/// still dead.
proof fn lemma_kill_n_dead(l: ChildLifecycle, n: nat)
    requires
        !l.alive,
    ensures
        !kill_n(l, n).alive,
    decreases n,
{
    if n > 0 {
        lemma_kill_n_dead(l, (n - 1) as nat);
    }
}

} // verus!
