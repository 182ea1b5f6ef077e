//! The lifecycle of the native engine and the handle through which the host
//! reaches it.
//!
//! The engine is built by a chain of asynchronous native callbacks. Each step
//! is an event for the state machine below; a failure at any step leaves the
//! engine for good in a non-ready phase. The controller is deposited once the
//! initial navigation has been issued, and only then can scripts be evaluated
//! or bounds applied: before that, such calls are dropped.
use vstd::prelude::*;

verus! {

#[derive(PartialEq, Eq, Structural, Clone, Copy, Debug)]
pub enum Phase {
    Uninitialized,
    EnvironmentBuilding,
    ControllerBuilding,
    Configuring,
    Navigating,
    Ready,
    Failed,
}

/// A step of the initialization chain, as reported by its native callback.
#[derive(PartialEq, Eq, Structural, Clone, Copy, Debug)]
pub enum Event {
    /// Building the environment was requested.
    Start,
    /// The environment callback delivered an environment.
    EnvironmentBuilt,
    /// The controller callback delivered a controller.
    ControllerBuilt,
    /// Settings, scripts, handlers and interception are in place.
    Configured,
    /// A native callback or call reported an error.
    Failure,
}

/// Where the chain stands after `e` in phase `p`. An event that does not
/// belong to the phase changes nothing.
pub open spec fn next_phase(p: Phase, e: Event) -> Phase {
    match (p, e) {
        (Phase::Uninitialized, Event::Start) => Phase::EnvironmentBuilding,
        (Phase::EnvironmentBuilding, Event::EnvironmentBuilt) => Phase::ControllerBuilding,
        (Phase::ControllerBuilding, Event::ControllerBuilt) => Phase::Configuring,
        (Phase::Configuring, Event::Configured) => Phase::Navigating,
        (Phase::Ready, _) => Phase::Ready,
        (Phase::Failed, _) => Phase::Failed,
        (_, Event::Failure) => Phase::Failed,
        _ => p,
    }
}

/// The position of a phase along the chain; the terminal failure counts as
/// the furthest.
pub open spec fn rank(p: Phase) -> nat {
    match p {
        Phase::Uninitialized => 0,
        Phase::EnvironmentBuilding => 1,
        Phase::ControllerBuilding => 2,
        Phase::Configuring => 3,
        Phase::Navigating => 4,
        Phase::Ready => 5,
        Phase::Failed => 6,
    }
}

pub fn step(p: Phase, e: Event) -> (r: Phase)
    ensures
        r == next_phase(p, e),
{
    match (p, e) {
        (Phase::Uninitialized, Event::Start) => Phase::EnvironmentBuilding,
        (Phase::EnvironmentBuilding, Event::EnvironmentBuilt) => Phase::ControllerBuilding,
        (Phase::ControllerBuilding, Event::ControllerBuilt) => Phase::Configuring,
        (Phase::Configuring, Event::Configured) => Phase::Navigating,
        (Phase::Ready, _) => Phase::Ready,
        (Phase::Failed, _) => Phase::Failed,
        (_, Event::Failure) => Phase::Failed,
        _ => p,
    }
}

/// The engine's phase together with the cell that holds its controller once
/// it is ready.
pub struct Engine<C> {
    phase: Phase,
    controller: Option<C>,
}

impl<C> Engine<C> {
    /// The cell is filled exactly in the ready phase.
    pub open spec fn wf(&self) -> bool {
        self.spec_controller() is Some <==> self.spec_phase() == Phase::Ready
    }

    pub closed spec fn spec_phase(&self) -> Phase {
        self.phase
    }

    pub closed spec fn spec_controller(&self) -> Option<C> {
        self.controller
    }

    pub fn new() -> (r: Engine<C>)
        ensures
            r.wf(),
            r.spec_phase() == Phase::Uninitialized,
            r.spec_controller() is None,
    {
        Engine { phase: Phase::Uninitialized, controller: None }
    }

    pub fn phase(&self) -> (r: Phase)
        ensures
            r == self.spec_phase(),
    {
        self.phase
    }

    pub fn is_ready(&self) -> (r: bool)
        ensures
            r == (self.spec_phase() == Phase::Ready),
    {
        self.phase == Phase::Ready
    }

    /// Records a step of the initialization chain.
    pub fn advance(&mut self, e: Event)
        requires
            old(self).wf(),
        ensures
            final(self).wf(),
            final(self).spec_phase() == next_phase(old(self).spec_phase(), e),
            final(self).spec_controller() == old(self).spec_controller(),
    {
        self.phase = step(self.phase, e);
    }

    /// Deposits the controller once the initial navigation has been issued.
    /// The cell is set at most once: outside the navigating phase nothing
    /// changes, and `false` is returned.
    pub fn set_ready(&mut self, controller: C) -> (r: bool)
        requires
            old(self).wf(),
        ensures
            final(self).wf(),
            r == (old(self).spec_phase() == Phase::Navigating),
            r ==> final(self).spec_phase() == Phase::Ready && final(self).spec_controller() == Some(
                controller,
            ),
            !r ==> final(self).spec_phase() == old(self).spec_phase()
                && final(self).spec_controller() == old(self).spec_controller(),
    {
        if self.phase == Phase::Navigating {
            self.phase = Phase::Ready;
            self.controller = Some(controller);
            true
        } else {
            false
        }
    }

    /// The controller that a script evaluation or a resize goes to: none
    /// before the engine is ready, in which case the call is dropped.
    pub fn live_controller(&self) -> (r: Option<&C>)
        requires
            self.wf(),
        ensures
            r is Some <==> self.spec_phase() == Phase::Ready,
            r is Some ==> Some(*r->0) == self.spec_controller(),
    {
        match &self.controller {
            Some(c) => Some(c),
            None => None,
        }
    }
}

/// The chain never runs backwards: no event returns to an earlier phase, and
/// the ready and failed phases are final.
pub proof fn lemma_phases_only_advance(p: Phase, e: Event)
    ensures
        rank(next_phase(p, e)) >= rank(p),
        p == Phase::Ready ==> next_phase(p, e) == Phase::Ready,
        p == Phase::Failed ==> next_phase(p, e) == Phase::Failed,
        next_phase(p, e) != Phase::Ready || p == Phase::Ready,
{
}

/// Before the engine is ready a script evaluation finds no controller, so it
/// has no effect at all.
pub proof fn lemma_evaluation_before_ready_is_dropped<C>(engine: Engine<C>)
    requires
        engine.wf(),
        engine.spec_phase() != Phase::Ready,
    ensures
        engine.spec_controller() is None,
{
}

/// A permission that page content may ask for.
#[derive(PartialEq, Eq, Structural, Clone, Copy, Debug)]
pub enum PermissionKind {
    ClipboardRead,
    Other,
}

/// Whether a permission request is granted. Reading the clipboard is; every
/// other request is left to the engine's default.
pub fn grants_permission(kind: PermissionKind) -> (r: bool)
    ensures
        r == (kind == PermissionKind::ClipboardRead),
{
    match kind {
        PermissionKind::ClipboardRead => true,
        PermissionKind::Other => false,
    }
}

} // verus!
