//! Typed input events, as republished by the event bridge.
//!
//! Each variant wraps a [`HostHandle`] to a host-owned input-event object.
//! `InputEvent` and `UnhandledInputEvent` wrap a handle to a generic
//! input-event object; `KeyInputEvent` wraps a handle the bridge has already
//! checked to be of the keyboard subclass. Each type offers a checked
//! downcast (`try_get`) and an unchecked convenience accessor (`get`) whose
//! precondition is that the downcast succeeds.

use vstd::prelude::*;

use crate::handle::{EventClass, HostHandle};

verus! {

/// An input event delivered through the host's ordinary input callback.
#[derive(Clone, Copy, Debug, PartialEq, Eq, Structural)]
pub struct InputEvent(pub HostHandle);

impl InputEvent {
    /// Checked downcast of the wrapped handle to `target`.
    ///
    /// Present exactly when the handle is still valid and its live class can
    /// be viewed as `target`; never affects the handle.
    pub fn try_get(&self, target: EventClass) -> (r: Option<HostHandle>)
        ensures
            r is Some <==> self.0.casts_to(target),
            r is Some ==> r->Some_0 == self.0,
    {
        self.0.try_cast(target)
    }

    /// Unchecked convenience accessor: the caller asserts that the downcast
    /// to `target` succeeds. Use only where the subtype is known from
    /// context; a failure would be a caller logic error, so the offending
    /// inputs are excluded here rather than handled.
    pub fn get(&self, target: EventClass) -> (h: HostHandle)
        requires
            self.0.casts_to(target),
        ensures
            h == self.0,
    {
        self.0.try_cast(target).unwrap()
    }
}

/// An input event delivered through the host's unhandled-input callback.
#[derive(Clone, Copy, Debug, PartialEq, Eq, Structural)]
pub struct UnhandledInputEvent(pub HostHandle);

impl UnhandledInputEvent {
    /// Checked downcast of the wrapped handle to `target`.
    ///
    /// Present exactly when the handle is still valid and its live class can
    /// be viewed as `target`; never affects the handle.
    pub fn try_get(&self, target: EventClass) -> (r: Option<HostHandle>)
        ensures
            r is Some <==> self.0.casts_to(target),
            r is Some ==> r->Some_0 == self.0,
    {
        self.0.try_cast(target)
    }

    /// Unchecked convenience accessor: the caller asserts that the downcast
    /// to `target` succeeds.
    pub fn get(&self, target: EventClass) -> (h: HostHandle)
        requires
            self.0.casts_to(target),
        ensures
            h == self.0,
    {
        self.0.try_cast(target).unwrap()
    }
}

/// An input event delivered through the host's unhandled-key-input callback.
/// The bridge only constructs this variant from a handle whose class is the
/// keyboard subclass.
#[derive(Clone, Copy, Debug, PartialEq, Eq, Structural)]
pub struct KeyInputEvent(pub HostHandle);

impl KeyInputEvent {
    /// Checked downcast of the wrapped handle to the keyboard subclass.
    ///
    /// Present exactly when the handle is still valid (the class was checked
    /// at construction, but the object may have expired since).
    pub fn try_get(&self) -> (r: Option<HostHandle>)
        ensures
            r is Some <==> self.0.casts_to(EventClass::KeyInput),
            r is Some ==> r->Some_0 == self.0,
    {
        self.0.try_cast(EventClass::KeyInput)
    }

    /// Unchecked convenience accessor: the caller asserts that the handle is
    /// still a valid keyboard event.
    pub fn get(&self) -> (h: HostHandle)
        requires
            self.0.casts_to(EventClass::KeyInput),
        ensures
            h == self.0,
    {
        self.0.try_cast(EventClass::KeyInput).unwrap()
    }
}

/// The tag the host attaches to each raw event, naming the callback the
/// event came from and so the typed queue it must be republished into.
#[derive(Clone, Copy, Debug, PartialEq, Eq, Structural)]
pub enum InputEventType {
    /// From the unhandled-input callback.
    Unhandled,
    /// From the ordinary input callback.
    Normal,
    /// From the unhandled-key-input callback; the host guarantees the paired
    /// handle references a keyboard-event object.
    Key,
}

/// Protocol desynchronization between host and core: a `Key`-tagged raw
/// event whose handle is not of the keyboard subclass. This is a fatal
/// host contract violation, not a recoverable condition; the bridge reports
/// it instead of misrouting or silently dropping the event.
#[derive(Clone, Copy, Debug, PartialEq, Eq, Structural)]
pub struct ProtocolError;

} // verus!
