//! The frame phase gate.
//!
//! Each tick is driven by one of two host callbacks — the visual update or
//! the physics update — or by neither. The external tick driver decides the
//! phase and passes it in; nothing in this crate ever changes it. A system
//! registered for one phase is wrapped into a [`GatedSystem`], which runs
//! the wrapped system exactly when the tick's phase matches the phase the
//! system was wrapped for.

use vstd::prelude::*;

verus! {

/// Which host callback drives the current tick. Some ticks are driven by
/// neither callback (`Idle`), e.g. a non-rendering tick.
#[derive(Clone, Copy, Debug, PartialEq, Eq, Structural)]
pub enum Phase {
    /// The tick was triggered by the host's visual update callback.
    Visual,
    /// The tick was triggered by the host's physics update callback.
    Physics,
    /// The tick was triggered by neither callback.
    Idle,
}

/// A zero-argument system paired with the phase it is gated on. Built once
/// at registration time through [`AsPhysicsSystem`] or [`AsVisualSystem`];
/// the scheduler then hands each tick's phase to [`GatedSystem::run`].
pub struct GatedSystem<F> {
    /// The phase the wrapped system is allowed to run in.
    pub required: Phase,
    /// The wrapped system.
    pub system: F,
}

impl<F: FnOnce() -> ()> GatedSystem<F> {
    /// Runs the wrapped system if and only if the current tick's phase is
    /// the one the system was gated on, and reports whether it ran.
    pub fn run(self, current: Phase) -> (ran: bool)
        requires
            current == self.required ==> call_requires(self.system, ()),
        ensures
            ran == (current == self.required),
            ran ==> call_ensures(self.system, (), ()),
    {
        if current == self.required {
            (self.system)();
            true
        } else {
            false
        }
    }
}

/// Wraps a zero-argument system so that it is scheduled only for ticks
/// driven by the physics update callback.
pub trait AsPhysicsSystem: Sized {
    /// Gates `self` on [`Phase::Physics`].
    fn as_physics_system(self) -> (gated: GatedSystem<Self>)
        ensures
            gated == (GatedSystem { required: Phase::Physics, system: self }),
    ;
}

impl<F: FnOnce() -> ()> AsPhysicsSystem for F {
    fn as_physics_system(self) -> (gated: GatedSystem<F>) {
        GatedSystem { required: Phase::Physics, system: self }
    }
}

/// Wraps a zero-argument system so that it is scheduled only for ticks
/// driven by the visual update callback.
pub trait AsVisualSystem: Sized {
    /// Gates `self` on [`Phase::Visual`].
    fn as_visual_system(self) -> (gated: GatedSystem<Self>)
        ensures
            gated == (GatedSystem { required: Phase::Visual, system: self }),
    ;
}

impl<F: FnOnce() -> ()> AsVisualSystem for F {
    fn as_visual_system(self) -> (gated: GatedSystem<F>) {
        GatedSystem { required: Phase::Visual, system: self }
    }
}

} // verus!
