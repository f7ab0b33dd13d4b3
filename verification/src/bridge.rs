//! The event bridge: from the raw host channel into the typed queues.
//!
//! Host callbacks enqueue `(tag, handle)` pairs into a non-blocking,
//! unbounded, multi-producer channel. Once per tick, before the typed
//! queues age out old entries, the bridge drains everything currently
//! available and republishes each pair into the queue for its tag, keeping
//! the relative order of the drained sequence within every queue.
//!
//! A `Key`-tagged pair whose handle is not of the keyboard subclass means
//! the host broke its tagging contract; the bridge then publishes nothing
//! and reports [`ProtocolError`] instead of misrouting the event.

use vstd::prelude::*;

use crate::handle::{EventClass, HostHandle};
use crate::input_event::{InputEvent, InputEventType, KeyInputEvent, ProtocolError, UnhandledInputEvent};

verus! {

#[verifier::external_type_specification]
#[verifier::external_body]
#[verifier::reject_recursive_types(T)]
pub struct ExReceiver<T>(std::sync::mpsc::Receiver<T>);

/// The consumer half of the raw event channel. Host callbacks hold the
/// producer half and enqueue one `(tag, handle)` pair per raw event.
pub struct InputEventReader(pub std::sync::mpsc::Receiver<(InputEventType, HostHandle)>);

/// Non-blocking drain: takes every raw event currently available, in the
/// channel's delivery order, and never waits for more.
///
/// Relies on `std::sync::mpsc::Receiver::try_iter`: an iterator that yields
/// each value already queued, in enqueue order, and stops — instead of
/// blocking — as soon as the channel is momentarily empty or disconnected.
/// What comes out depends on what host threads have sent, so nothing is
/// promised of the result; callers pass it to [`route_raw_events`], whose
/// contract covers every possible sequence.
#[verifier::external_body]
pub fn drain_raw_events(events: &InputEventReader) -> Vec<(InputEventType, HostHandle)> {
    events.0.try_iter().collect()
}

/// The host's tagging contract: every `Key`-tagged raw event references an
/// object of the keyboard subclass.
pub open spec fn key_protocol_ok(raw: Seq<(InputEventType, HostHandle)>) -> bool {
    forall|i: int|
        0 <= i < raw.len() ==> ((#[trigger] raw[i]).0 == InputEventType::Key
            ==> raw[i].1.class == EventClass::KeyInput)
}

/// The ordinary-input queue entries produced by routing `raw`: exactly the
/// `Normal`-tagged handles, wrapped, in their original relative order.
pub open spec fn normal_events_of(raw: Seq<(InputEventType, HostHandle)>) -> Seq<InputEvent> {
    raw.filter(|e: (InputEventType, HostHandle)| e.0 == InputEventType::Normal).map_values(
        |e: (InputEventType, HostHandle)| InputEvent(e.1),
    )
}

/// The unhandled-input queue entries produced by routing `raw`: exactly the
/// `Unhandled`-tagged handles, wrapped, in their original relative order.
pub open spec fn unhandled_events_of(raw: Seq<(InputEventType, HostHandle)>) -> Seq<
    UnhandledInputEvent,
> {
    raw.filter(|e: (InputEventType, HostHandle)| e.0 == InputEventType::Unhandled).map_values(
        |e: (InputEventType, HostHandle)| UnhandledInputEvent(e.1),
    )
}

/// The key-input queue entries produced by routing `raw`: exactly the
/// `Key`-tagged handles, wrapped, in their original relative order.
pub open spec fn key_events_of(raw: Seq<(InputEventType, HostHandle)>) -> Seq<KeyInputEvent> {
    raw.filter(|e: (InputEventType, HostHandle)| e.0 == InputEventType::Key).map_values(
        |e: (InputEventType, HostHandle)| KeyInputEvent(e.1),
    )
}

/// One routing step: extending the raw sequence by one pair extends exactly
/// the queue for that pair's tag, by that pair's handle.
proof fn lemma_events_of_push(raw: Seq<(InputEventType, HostHandle)>, e: (InputEventType, HostHandle))
    ensures
        normal_events_of(raw.push(e)) == if e.0 == InputEventType::Normal {
            normal_events_of(raw).push(InputEvent(e.1))
        } else {
            normal_events_of(raw)
        },
        unhandled_events_of(raw.push(e)) == if e.0 == InputEventType::Unhandled {
            unhandled_events_of(raw).push(UnhandledInputEvent(e.1))
        } else {
            unhandled_events_of(raw)
        },
        key_events_of(raw.push(e)) == if e.0 == InputEventType::Key {
            key_events_of(raw).push(KeyInputEvent(e.1))
        } else {
            key_events_of(raw)
        },
{
    reveal(Seq::filter);
    let normal_pred = |p: (InputEventType, HostHandle)| p.0 == InputEventType::Normal;
    let unhandled_pred = |p: (InputEventType, HostHandle)| p.0 == InputEventType::Unhandled;
    let key_pred = |p: (InputEventType, HostHandle)| p.0 == InputEventType::Key;
    assert(raw.push(e).drop_last() =~= raw);
    if e.0 == InputEventType::Normal {
        assert(raw.filter(normal_pred).push(e).map_values(
            |p: (InputEventType, HostHandle)| InputEvent(p.1),
        ) =~= normal_events_of(raw).push(InputEvent(e.1)));
    }
    if e.0 == InputEventType::Unhandled {
        assert(raw.filter(unhandled_pred).push(e).map_values(
            |p: (InputEventType, HostHandle)| UnhandledInputEvent(p.1),
        ) =~= unhandled_events_of(raw).push(UnhandledInputEvent(e.1)));
    }
    if e.0 == InputEventType::Key {
        assert(raw.filter(key_pred).push(e).map_values(
            |p: (InputEventType, HostHandle)| KeyInputEvent(p.1),
        ) =~= key_events_of(raw).push(KeyInputEvent(e.1)));
    }
}

/// Checks the host's tagging contract over a drained sequence: true exactly
/// when every `Key`-tagged pair references a keyboard-class object.
pub fn keys_castable(raw: &Vec<(InputEventType, HostHandle)>) -> (ok: bool)
    ensures
        ok == key_protocol_ok(raw@),
{
    let mut i: usize = 0;
    while i < raw.len()
        invariant
            0 <= i <= raw@.len(),
            forall|j: int|
                0 <= j < i ==> ((#[trigger] raw@[j]).0 == InputEventType::Key
                    ==> raw@[j].1.class == EventClass::KeyInput),
        decreases raw@.len() - i,
    {
        let (tag, handle) = raw[i];
        if tag == InputEventType::Key && !(handle.class == EventClass::KeyInput) {
            assert(!key_protocol_ok(raw@)) by {
                assert(raw@[i as int].0 == InputEventType::Key);
            }
            return false;
        }
        i = i + 1;
    }
    true
}

/// Classifies each drained `(tag, handle)` pair and appends it to the queue
/// for its tag. Every queue keeps its old entries and gains exactly the
/// handles whose tag matches it, in the relative order they stand in `raw`,
/// and nothing else; events of different tags never cross queues.
///
/// Callers establish the host's tagging contract first (see
/// [`keys_castable`]); a `Key`-tagged pair is then known to wrap a
/// keyboard-class handle, so the narrowing to [`KeyInputEvent`] cannot fail.
pub fn route_raw_events(
    raw: &Vec<(InputEventType, HostHandle)>,
    unhandled_evts: &mut Vec<UnhandledInputEvent>,
    normal_evts: &mut Vec<InputEvent>,
    key_evts: &mut Vec<KeyInputEvent>,
)
    requires
        key_protocol_ok(raw@),
    ensures
        final(unhandled_evts)@ == old(unhandled_evts)@ + unhandled_events_of(raw@),
        final(normal_evts)@ == old(normal_evts)@ + normal_events_of(raw@),
        final(key_evts)@ == old(key_evts)@ + key_events_of(raw@),
{
    let mut i: usize = 0;
    while i < raw.len()
        invariant
            0 <= i <= raw@.len(),
            key_protocol_ok(raw@),
            unhandled_evts@ == old(unhandled_evts)@ + unhandled_events_of(raw@.take(i as int)),
            normal_evts@ == old(normal_evts)@ + normal_events_of(raw@.take(i as int)),
            key_evts@ == old(key_evts)@ + key_events_of(raw@.take(i as int)),
        decreases raw@.len() - i,
    {
        let (tag, handle) = raw[i];
        proof {
            assert(raw@.take(i as int + 1) =~= raw@.take(i as int).push(raw@[i as int]));
            lemma_events_of_push(raw@.take(i as int), raw@[i as int]);
        }
        match tag {
            InputEventType::Unhandled => unhandled_evts.push(UnhandledInputEvent(handle)),
            InputEventType::Normal => normal_evts.push(InputEvent(handle)),
            InputEventType::Key => key_evts.push(KeyInputEvent(handle)),
        }
        i = i + 1;
    }
    proof {
        assert(raw@.take(raw@.len() as int) =~= raw@);
    }
}

/// Relates the three typed queues after one bridge run to their state
/// before it: some drained raw sequence honoured the tagging contract and
/// each queue gained exactly that sequence's matching events, in order.
pub open spec fn publishes_from(
    raw: Seq<(InputEventType, HostHandle)>,
    unhandled_before: Seq<UnhandledInputEvent>,
    normal_before: Seq<InputEvent>,
    key_before: Seq<KeyInputEvent>,
    unhandled_after: Seq<UnhandledInputEvent>,
    normal_after: Seq<InputEvent>,
    key_after: Seq<KeyInputEvent>,
) -> bool {
    &&& key_protocol_ok(raw)
    &&& unhandled_after == unhandled_before + unhandled_events_of(raw)
    &&& normal_after == normal_before + normal_events_of(raw)
    &&& key_after == key_before + key_events_of(raw)
}

/// One bridge run: drains the channel completely, checks the host's tagging
/// contract over the drained sequence, and either publishes every drained
/// event into the queue for its tag (keeping relative order per queue) or,
/// on a contract violation, publishes nothing and reports the
/// desynchronization as fatal for this tick.
pub fn write_input_events(
    events: &InputEventReader,
    unhandled_evts: &mut Vec<UnhandledInputEvent>,
    normal_evts: &mut Vec<InputEvent>,
    key_evts: &mut Vec<KeyInputEvent>,
) -> (r: Result<(), ProtocolError>)
    ensures
        r is Ok ==> exists|raw: Seq<(InputEventType, HostHandle)>|
            publishes_from(
                raw,
                old(unhandled_evts)@,
                old(normal_evts)@,
                old(key_evts)@,
                final(unhandled_evts)@,
                final(normal_evts)@,
                final(key_evts)@,
            ),
        r is Err ==> {
            &&& final(unhandled_evts)@ == old(unhandled_evts)@
            &&& final(normal_evts)@ == old(normal_evts)@
            &&& final(key_evts)@ == old(key_evts)@
        },
{
    let raw = drain_raw_events(events);
    if keys_castable(&raw) {
        route_raw_events(&raw, unhandled_evts, normal_evts, key_evts);
        proof {
            assert(publishes_from(
                raw@,
                old(unhandled_evts)@,
                old(normal_evts)@,
                old(key_evts)@,
                unhandled_evts@,
                normal_evts@,
                key_evts@,
            ));
        }
        Ok(())
    } else {
        Err(ProtocolError)
    }
}

} // verus!
