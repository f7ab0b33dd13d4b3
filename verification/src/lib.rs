//! Core glue between a callback-driven host engine and a tick-based
//! entity-component scheduler.
//!
//! The host produces raw input events on its own threads and drives the
//! scheduler in discrete ticks, each tick belonging to at most one phase
//! (visual or physics). This crate provides the pieces that sit on that
//! boundary:
//!
//! - a model of non-owning host object handles with checked downcasts
//!   ([`handle`]),
//! - the typed input events the scheduler consumes ([`input_event`]),
//! - the bridge that drains the raw event channel once per tick and
//!   republishes each event into the queue for its tag ([`bridge`]),
//! - phase gating for systems that must only run in one phase ([`phase`]),
//! - a per-call-site delta timer independent of the scheduler clock
//!   ([`timer`]),
//! - a linear-scan lookup of an entity by display name ([`lookup`]).

pub mod bridge;
pub mod handle;
pub mod input_event;
pub mod lookup;
pub mod phase;
pub mod timer;
