//! What holds of a tracker over several events in a row.

use crate::event::{InputEvent, WindowEvent};
use crate::input::InputModel;
use crate::keys::{Change, InputKeyType};
use std::time::Instant;
use vstd::prelude::*;

verus! {

impl InputModel {
    /// The model after every event of `trace` was taken in, first to last,
    /// each with the time that stands beside it.
    pub open spec fn replay(self, trace: Seq<(WindowEvent, Instant)>) -> InputModel
        decreases trace.len(),
    {
        if trace.len() == 0 {
            self
        } else {
            self.replay(trace.drop_last()).ingest(trace.last().0, trace.last().1)
        }
    }

    /// The model after the pointer moved through every position of `path`.
    pub open spec fn follow(self, path: Seq<(i32, i32)>) -> InputModel
        decreases path.len(),
    {
        if path.len() == 0 {
            self
        } else {
            self.follow(path.drop_last()).move_cursor(path.last().0, path.last().1)
        }
    }

    /// The model after every event of `events` was appended, first to last.
    pub open spec fn enqueue_all(self, events: Seq<InputEvent>) -> InputModel
        decreases events.len(),
    {
        if events.len() == 0 {
            self
        } else {
            self.enqueue_all(events.drop_last()).enqueue(events.last())
        }
    }

    /// The model after `n` events were taken from the front of the queue.
    pub open spec fn dequeue_n(self, n: nat) -> InputModel
        decreases n,
    {
        if n == 0 {
            self
        } else {
            self.dequeue_n((n - 1) as nat).dequeue()
        }
    }
}

/// An identity that has no entry, and that no event of a trace writes, has no
/// entry after the trace.
pub proof fn lemma_replay_keeps_unwritten(
    model: InputModel,
    trace: Seq<(WindowEvent, Instant)>,
    key: InputKeyType,
)
    requires
        !model.state.contains_key(key),
        forall|i: int| 0 <= i < trace.len() ==> !(#[trigger] trace[i]).0.writes(key),
    ensures
        !model.replay(trace).state.contains_key(key),
    decreases trace.len(),
{
    if trace.len() > 0 {
        lemma_replay_keeps_unwritten(model, trace.drop_last(), key);
    }
}

/// A key or button that was never written reads as released: after any trace
/// on a new tracker in which no event writes `key` or its wildcard, the state
/// of `key` is `Released`.
pub proof fn lemma_unwritten_is_released(trace: Seq<(WindowEvent, Instant)>, key: InputKeyType)
    requires
        forall|i: int|
            0 <= i < trace.len() ==> !(#[trigger] trace[i]).0.writes(key) && !trace[i].0.writes(
                key.wildcard(),
            ),
    ensures
        InputModel::initial().replay(trace).state_of(key) == Change::Released,
{
    lemma_replay_keeps_unwritten(InputModel::initial(), trace, key);
    lemma_replay_keeps_unwritten(InputModel::initial(), trace, key.wildcard());
}

/// A keyboard event reaches the wildcard: once a key with scan code `s` and
/// any symbol went through `change`, the state of that key is `change`, the
/// state of the wildcard of `s` is `change`, and so is the state of `s` with
/// any other symbol for which nothing was written.
pub proof fn lemma_key_event_reaches_wildcard(
    model: InputModel,
    event: WindowEvent,
    time: Instant,
    other_symbol: u32,
)
    requires
        event is KeyboardInput,
    ensures
        ({
            let after = model.ingest(event, time);
            let scancode = event->scancode;
            let other = InputKeyType::Keyboard(scancode, Some(other_symbol));
            &&& after.state_of(InputKeyType::Keyboard(scancode, event->virtual_keycode))
                == event->KeyboardInput_state
            &&& after.state_of(InputKeyType::Keyboard(scancode, None)) == event->KeyboardInput_state
            &&& !model.state.contains_key(other) ==> after.state_of(other)
                == event->KeyboardInput_state
        }),
{
}

/// Pointer buttons are independent: a button event changes the state of no
/// identity but that button.
pub proof fn lemma_button_event_leaves_others(
    model: InputModel,
    event: WindowEvent,
    time: Instant,
    other: InputKeyType,
)
    requires
        event is MouseInput,
        other != InputKeyType::Mouse(event->button),
    ensures
        model.ingest(event, time).state_of(other) == model.state_of(other),
        model.ingest(event, time).state_of(InputKeyType::Mouse(event->button))
            == event->MouseInput_state,
{
}

/// A keyboard event changes the state of no pointer button and of no key with
/// another scan code.
pub proof fn lemma_key_event_leaves_others(
    model: InputModel,
    event: WindowEvent,
    time: Instant,
    other: InputKeyType,
)
    requires
        event is KeyboardInput,
        other.wildcard() != InputKeyType::Keyboard(event->scancode, None),
    ensures
        model.ingest(event, time).state_of(other) == model.state_of(other),
{
}

/// Pointer movements in a row become one queue entry. With no movement
/// pending, moving through `path` appends exactly one entry, whose delta is
/// the way from where the pointer was to the end of `path`; the state table
/// is as before.
pub proof fn lemma_path_coalesces(model: InputModel, path: Seq<(i32, i32)>)
    requires
        path.len() > 0,
        !model.motion_pending(),
    ensures
        model.follow(path).events == model.events.push(
            InputEvent::motion(path.last().0 - model.cursor.0, path.last().1 - model.cursor.1),
        ),
        model.follow(path).cursor == path.last(),
        model.follow(path).state == model.state,
    decreases path.len(),
{
    let earlier = path.drop_last();
    if earlier.len() == 0 {
        assert(model.follow(earlier) == model);
    } else {
        lemma_path_coalesces(model, earlier);
    }
}

/// Three pointer movements in a row, taken in while no movement is pending,
/// append exactly one entry to the queue, and its delta is the sum of the
/// three displacements, component by component.
pub proof fn lemma_three_moves_coalesce(
    model: InputModel,
    first: WindowEvent,
    second: WindowEvent,
    third: WindowEvent,
    times: (Instant, Instant, Instant),
)
    requires
        first is CursorMoved,
        second is CursorMoved,
        third is CursorMoved,
        !model.motion_pending(),
    ensures
        ({
            let dx1 = first->x - model.cursor.0;
            let dy1 = first->y - model.cursor.1;
            let dx2 = second->x - first->x;
            let dy2 = second->y - first->y;
            let dx3 = third->x - second->x;
            let dy3 = third->y - second->y;
            let after = model.ingest(first, times.0).ingest(second, times.1).ingest(
                third,
                times.2,
            );
            &&& after.events == model.events.push(
                InputEvent::CursorMoved {
                    delta_x: (dx1 + dx2 + dx3) as i64,
                    delta_y: (dy1 + dy2 + dy3) as i64,
                },
            )
            &&& i64::MIN <= dx1 + dx2 + dx3 <= i64::MAX
            &&& i64::MIN <= dy1 + dy2 + dy3 <= i64::MAX
            &&& after.state == model.state
        }),
{
}

/// A transition interrupts the summing of movements: a movement, then a key
/// or button event, then a movement leave a movement entry, the transition
/// and a second movement entry at the end of the queue, in that order, the
/// second carrying the second displacement alone. With no movement pending
/// before, these are three new entries.
pub proof fn lemma_transition_interrupts_motion(
    model: InputModel,
    first: WindowEvent,
    between: WindowEvent,
    second: WindowEvent,
    times: (Instant, Instant, Instant),
)
    requires
        first is CursorMoved,
        between is MouseInput || between is KeyboardInput,
        second is CursorMoved,
    ensures
        ({
            let moved = model.ingest(first, times.0);
            let after = moved.ingest(between, times.1).ingest(second, times.2);
            let transition = between.transition().unwrap();
            &&& moved.motion_pending()
            &&& after.events == moved.events.push(
                InputEvent::key_input((first->x, first->y), transition.0, transition.1, times.1),
            ).push(InputEvent::motion(second->x - first->x, second->y - first->y))
            &&& !model.motion_pending() ==> moved.events == model.events.push(
                InputEvent::motion(first->x - model.cursor.0, first->y - model.cursor.1),
            )
        }),
{
}

/// Appending `events` puts them behind what was queued, in their order, and
/// changes nothing else.
pub proof fn lemma_enqueue_all(model: InputModel, events: Seq<InputEvent>)
    ensures
        model.enqueue_all(events).events == model.events + events,
        model.enqueue_all(events).cursor == model.cursor,
        model.enqueue_all(events).state == model.state,
    decreases events.len(),
{
    if events.len() > 0 {
        lemma_enqueue_all(model, events.drop_last());
    }
}

/// Taking `n` events from a queue that holds at least `n` leaves what stood
/// behind them, and changes nothing else.
pub proof fn lemma_dequeue_n(model: InputModel, n: nat)
    requires
        n <= model.events.len(),
    ensures
        model.dequeue_n(n).events == model.events.skip(n as int),
        model.dequeue_n(n).cursor == model.cursor,
        model.dequeue_n(n).state == model.state,
    decreases n,
{
    if n > 0 {
        lemma_dequeue_n(model, (n - 1) as nat);
    }
}

/// The queue is first in, first out: after `events` were appended, the event
/// that the pop number `i` (from 0) returns is entry `i` of what was queued
/// before followed by `events`, whatever kind the entries have; once all are
/// taken, the queue is empty.
pub proof fn lemma_first_in_first_out(model: InputModel, events: Seq<InputEvent>, i: nat)
    requires
        i <= model.events.len() + events.len(),
    ensures
        i < model.events.len() + events.len() ==> model.enqueue_all(events).dequeue_n(i).front()
            == Some((model.events + events)[i as int]),
        i == model.events.len() + events.len() ==> model.enqueue_all(events).dequeue_n(i).front()
            is None,
{
    lemma_enqueue_all(model, events);
    lemma_dequeue_n(model.enqueue_all(events), i);
}

} // verus!
