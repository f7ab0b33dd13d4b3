//! Non-owning references to host-owned objects.
//!
//! The host runtime owns every object an event refers to, and may invalidate
//! it at any point outside the current tick. A [`HostHandle`] is therefore a
//! weak back-reference: it carries the object's identity, a tag for the
//! object's dynamic class, and whether the host still guarantees the object
//! to be valid. Every downcast goes through the single checked conversion
//! [`HostHandle::try_cast`], which yields nothing on a class mismatch or an
//! expired handle; nothing in this crate reinterprets a handle unchecked.

use vstd::prelude::*;

verus! {

/// The dynamic class of a host-owned input-event object.
///
/// `KeyInput` is a subclass of the generic `Input` class, mirroring the
/// host's own class hierarchy for input events.
#[derive(Clone, Copy, Debug, PartialEq, Eq, Structural)]
pub enum EventClass {
    /// The base input-event class.
    Input,
    /// The keyboard-event subclass of `Input`.
    KeyInput,
}

/// True when an object of class `sub` can be viewed as an object of class
/// `sup`: the classes are equal, or `sub` is the keyboard subclass of the
/// base input class.
pub open spec fn is_subclass_of(sub: EventClass, sup: EventClass) -> bool {
    sub == sup || (sub == EventClass::KeyInput && sup == EventClass::Input)
}

/// A non-owning reference to a host-owned object.
///
/// The core never destroys the referenced object; `live` records whether the
/// host still guarantees the reference to be valid. A handle whose object has
/// expired fails every checked cast instead of causing undefined behavior.
#[derive(Clone, Copy, Debug, PartialEq, Eq, Structural)]
pub struct HostHandle {
    /// Host-side identity of the referenced object.
    pub id: u64,
    /// Dynamic class of the referenced object.
    pub class: EventClass,
    /// Whether the host still guarantees the reference to be valid.
    pub live: bool,
}

impl HostHandle {
    /// True when a checked cast of this handle to `target` succeeds: the
    /// handle is still valid and its dynamic class is `target` or a subclass
    /// of `target`.
    pub open spec fn casts_to(self, target: EventClass) -> bool {
        self.live && is_subclass_of(self.class, target)
    }

    /// The one checked conversion: view this handle as a reference of class
    /// `target`. Yields nothing when the handle has expired or the live
    /// class cannot be interpreted as `target`; has no effect on the handle.
    pub fn try_cast(&self, target: EventClass) -> (r: Option<HostHandle>)
        ensures
            r is Some <==> self.casts_to(target),
            r is Some ==> r->Some_0 == *self,
    {
        let compatible = match (self.class, target) {
            (EventClass::Input, EventClass::Input) => true,
            (EventClass::KeyInput, EventClass::KeyInput) => true,
            (EventClass::KeyInput, EventClass::Input) => true,
            (EventClass::Input, EventClass::KeyInput) => false,
        };
        if self.live && compatible {
            Some(*self)
        } else {
            None
        }
    }
}

} // verus!
