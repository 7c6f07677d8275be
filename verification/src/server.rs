//! The engine as one machine: spawn, negotiate once, then tick after tick
//! encode input and interpret frame commands, until the child closes or the
//! host shuts down.
//!
//! The host owns the process, the pipes and the drawing surface; it feeds
//! every child line and every observed event through these functions and
//! performs exactly the steps they return.  All protocol state — the
//! handshake result, the held keys, the render registers, the texture cache
//! and the child's liveness — lives here.

use vstd::prelude::*;

use crate::cache::Texture;
use crate::frame::FrameInterpreter;
use crate::frame::FrameStep;
use crate::frame::InterpModel;
use crate::frame::frame_step_spec;
use crate::init::InitConfig;
use crate::init::InitModel;
use crate::init::InitStep;
use crate::init::InitStepSpec;
use crate::init::init_step_spec;
use crate::input::InputEvent;
use crate::input::InputTracker;
use crate::input::TrackerModel;
use crate::input::encode_tick_spec;
use crate::lifecycle::ChildLifecycle;
use crate::lifecycle::IoDecision;
use crate::lifecycle::IoFailure;
use crate::lifecycle::kill_model;
use crate::fixed::Fixed;
use crate::render::RenderState;

verus! {

/// Where the engine stands.
#[derive(Clone, Copy, PartialEq, Eq, Structural, Debug)]
pub enum Phase {
    /// Before the surface exists: reading init lines.
    Negotiating,
    /// The surface exists: ticking input and frame phases.
    Running,
    /// The child is gone or the host shut down: nothing more is driven.
    Closed,
}

/// The protocol engine's entire state.
pub struct Server {
    pub phase: Phase,
    pub init: InitConfig,
    pub tracker: InputTracker,
    pub interp: FrameInterpreter,
    pub child: ChildLifecycle,
}

pub struct ServerModel {
    pub phase: Phase,
    pub init: InitModel,
    pub tracker: TrackerModel,
    pub interp: InterpModel,
    pub child: ChildLifecycle,
}

impl View for Server {
    type V = ServerModel;

    open spec fn view(&self) -> ServerModel {
        ServerModel {
            phase: self.phase,
            init: self.init@,
            tracker: self.tracker@,
            interp: self.interp@,
            child: self.child,
        }
    }
}

impl Server {
    pub open spec fn wf(&self) -> bool {
        self.interp.wf()
    }

    /// The engine right after a successful spawn: negotiating, child alive,
    /// defaults everywhere.
    pub fn new() -> (s: Server)
        ensures
            s.wf(),
            s@.phase == Phase::Negotiating,
            s@.init == InitConfig::spec_init(),
            s@.tracker.keys == Seq::<Seq<char>>::empty(),
            s@.tracker.last_size == (Fixed { raw: 0 }, Fixed { raw: 0 }),
            s@.interp.render == RenderState::spec_init(),
            s@.interp.cache == Map::<Seq<char>, Option<Texture>>::empty(),
            s@.child.alive,
    {
        Server {
            phase: Phase::Negotiating,
            init: InitConfig::new(),
            tracker: InputTracker::new(),
            interp: FrameInterpreter::new(),
            child: ChildLifecycle::new(),
        }
    }

    /// One line of the handshake.  On `end_init` the engine starts running;
    /// everything outside the negotiated configuration stays untouched.
    pub fn handle_init_line(&mut self, line: &[char]) -> (r: InitStep)
        requires
            old(self).wf(),
            old(self)@.phase == Phase::Negotiating,
            !old(self)@.init.done,
        ensures
            final(self).wf(),
            (final(self)@.init, r@) == init_step_spec(old(self)@.init, line@),
            final(self)@.phase == if r@ is Done {
                Phase::Running
            } else {
                Phase::Negotiating
            },
            final(self)@.tracker == old(self)@.tracker,
            final(self)@.interp == old(self)@.interp,
            final(self)@.child == old(self)@.child,
    {
        let r = self.init.handle_init_line(line);
        if let InitStep::Done = &r {
            self.phase = Phase::Running;
        }
        r
    }

    /// One tick's input phase: the block of lines to write to the child,
    /// closed by `end_input`.
    pub fn send_input_lines(
        &mut self,
        width: Fixed,
        height: Fixed,
        events: &Vec<InputEvent>,
        dt: Fixed,
    ) -> (lines: Vec<Vec<char>>)
        requires
            old(self).wf(),
            old(self)@.phase == Phase::Running,
        ensures
            final(self).wf(),
            (final(self)@.tracker, lines.deep_view()) == encode_tick_spec(
                old(self)@.tracker,
                width,
                height,
                events.deep_view(),
                dt,
            ),
            final(self)@.phase == old(self)@.phase,
            final(self)@.init == old(self)@.init,
            final(self)@.interp == old(self)@.interp,
            final(self)@.child == old(self)@.child,
    {
        self.tracker.send_input_lines(width, height, events, dt)
    }

    /// One line of the frame phase: what the host must do about it.
    pub fn handle_frame_line(&mut self, line: &[char]) -> (r: FrameStep)
        requires
            old(self).wf(),
            old(self)@.phase == Phase::Running,
        ensures
            final(self).wf(),
            (final(self)@.interp, r@) == frame_step_spec(old(self)@.interp, line@),
            final(self)@.phase == old(self)@.phase,
            final(self)@.init == old(self)@.init,
            final(self)@.tracker == old(self)@.tracker,
            final(self)@.child == old(self)@.child,
    {
        self.interp.handle_frame_line(line)
    }

    /// Records the host's one load attempt for a texture path the
    /// interpreter asked about.
    pub fn record_texture(&mut self, path: Vec<char>, outcome: Option<Texture>)
        requires
            old(self).wf(),
            !old(self)@.interp.cache.contains_key(path@),
        ensures
            final(self).wf(),
            final(self)@.interp.cache == old(self)@.interp.cache.insert(path@, outcome),
            final(self)@.interp.render == old(self)@.interp.render,
            final(self)@.phase == old(self)@.phase,
            final(self)@.init == old(self)@.init,
            final(self)@.tracker == old(self)@.tracker,
            final(self)@.child == old(self)@.child,
    {
        self.interp.record_texture(path, outcome);
    }

    /// A read or write on the child's pipes failed.  A broken pipe is the
    /// child's normal closure: the engine stops, and the one OS kill is
    /// issued exactly when the child was still considered alive — however
    /// many paths race to terminate it.  Anything else propagates and
    /// changes nothing.
    pub fn on_io_failure(&mut self, f: IoFailure) -> (d: IoDecision)
        requires
            old(self).wf(),
        ensures
            final(self).wf(),
            match f {
                IoFailure::ChildClosed => {
                    &&& final(self)@.child == kill_model(old(self)@.child).0
                    &&& final(self)@.phase == Phase::Closed
                    &&& d == (IoDecision::CloseSurface { issue_kill: old(self)@.child.alive })
                },
                IoFailure::Other => {
                    &&& *final(self) == *old(self)
                    &&& d == IoDecision::Propagate
                },
            },
            final(self)@.init == old(self)@.init,
            final(self)@.tracker == old(self)@.tracker,
            final(self)@.interp == old(self)@.interp,
    {
        let d = self.child.on_io_failure(f);
        if let IoDecision::CloseSurface { .. } = &d {
            self.phase = Phase::Closed;
        }
        d
    }

    /// The host is shutting down (window closed or external interrupt):
    /// the engine stops, and the one OS kill is issued exactly when the
    /// child was still considered alive.
    pub fn shutdown(&mut self) -> (issue_kill: bool)
        requires
            old(self).wf(),
        ensures
            final(self).wf(),
            final(self)@.child == kill_model(old(self)@.child).0,
            issue_kill == old(self)@.child.alive,
            final(self)@.phase == Phase::Closed,
            final(self)@.init == old(self)@.init,
            final(self)@.tracker == old(self)@.tracker,
            final(self)@.interp == old(self)@.interp,
    {
        self.phase = Phase::Closed;
        self.child.kill()
    }
}

} // verus!

