//! The input tracker: a press/release table and a queue of input events, both
//! fed from window events.

use crate::event::{capture_time, clamp, InputEvent, WindowEvent};
use crate::keys::{Change, InputKeyType};
use std::collections::{HashMap, VecDeque};
use std::time::Instant;
use vstd::prelude::*;

verus! {

broadcast use vstd::std_specs::hash::group_hash_axioms;

/// What a tracker holds, as mathematical values.
pub struct InputModel {
    /// The last reported absolute pointer position.
    pub cursor: (i32, i32),
    /// The queued events, oldest first.
    pub events: Seq<InputEvent>,
    /// The most recent change written for each identity.
    pub state: Map<InputKeyType, Change>,
}

/// Tracks the state of keys and buttons and queues input events.
#[derive(Debug)]
pub struct InputHelper {
    current_cursor_pos: (i32, i32),
    input_events: VecDeque<InputEvent>,
    state: HashMap<u128, Change>,
}

impl View for InputHelper {
    type V = InputModel;

    closed spec fn view(&self) -> InputModel {
        InputModel {
            cursor: self.current_cursor_pos,
            events: self.input_events@,
            state: Map::new(
                |key: InputKeyType| self.state@.contains_key(key.code()),
                |key: InputKeyType| self.state@[key.code()],
            ),
        }
    }
}

impl InputModel {
    /// The model of a tracker that has seen nothing: pointer at the origin,
    /// no event queued, no entry written.
    pub open spec fn initial() -> InputModel {
        InputModel { cursor: (0, 0), events: Seq::empty(), state: Map::empty() }
    }

    /// The model after `event` was appended to the queue.
    pub open spec fn enqueue(self, event: InputEvent) -> InputModel {
        InputModel { events: self.events.push(event), ..self }
    }

    /// The oldest queued event, if there is one.
    pub open spec fn front(self) -> Option<InputEvent> {
        if self.events.len() > 0 {
            Some(self.events[0])
        } else {
            None
        }
    }

    /// The model after the oldest event left the queue; the model itself
    /// where the queue is empty.
    pub open spec fn dequeue(self) -> InputModel {
        if self.events.len() > 0 {
            InputModel { events: self.events.subrange(1, self.events.len() as int), ..self }
        } else {
            self
        }
    }

    /// The state that a query for `key` reports: the change written for `key`
    /// itself; failing that, the change written for its wildcard; failing
    /// that, `Released`.
    pub open spec fn state_of(self, key: InputKeyType) -> Change {
        if self.state.contains_key(key) {
            self.state[key]
        } else if self.state.contains_key(key.wildcard()) {
            self.state[key.wildcard()]
        } else {
            Change::Released
        }
    }

    /// The model after `change` was written for `key`: for a pointer button
    /// one entry, for a keyboard key its own entry and its wildcard's.
    pub open spec fn write(self, key: InputKeyType, change: Change) -> InputModel {
        InputModel { state: self.state.insert(key.wildcard(), change).insert(key, change), ..self }
    }

    /// The model after `key` went through `change` at `time`: the change is
    /// written, and a key transition that carries the pointer position is
    /// queued.
    pub open spec fn transition(self, key: InputKeyType, change: Change, time: Instant)
        -> InputModel {
        self.write(key, change).enqueue(InputEvent::key_input(self.cursor, key, change, time))
    }

    /// Whether the newest queued event is a pointer movement, so that the
    /// next movement is summed into it.
    pub open spec fn motion_pending(self) -> bool {
        self.events.len() > 0 && self.events.last() is CursorMoved
    }

    /// The model after the pointer moved to (`x`, `y`): the position is
    /// recorded, and the displacement is summed into the newest queued event
    /// if that is a pointer movement, and queued as a new one otherwise.
    pub open spec fn move_cursor(self, x: i32, y: i32) -> InputModel {
        let dx = x - self.cursor.0;
        let dy = y - self.cursor.1;
        let events = if self.motion_pending() {
            self.events.drop_last().push(
                InputEvent::motion(
                    self.events.last()->delta_x + dx,
                    self.events.last()->delta_y + dy,
                ),
            )
        } else {
            self.events.push(InputEvent::motion(dx, dy))
        };
        InputModel { cursor: (x, y), events, ..self }
    }

    /// The model after `event` was taken in. Only a key or button transition
    /// reads `time`.
    pub open spec fn ingest(self, event: WindowEvent, time: Instant) -> InputModel {
        match event.transition() {
            Some((key, change)) => self.transition(key, change, time),
            None => match event {
                WindowEvent::CursorMoved { x, y } => self.move_cursor(x, y),
                _ => self,
            },
        }
    }
}

/// Adds a displacement to an accumulated one, staying at the bound of `i64`
/// where the sum would cross it.
fn accumulate(total: i64, delta: i64) -> (sum: i64)
    ensures
        sum == clamp(total + delta),
{
    match total.checked_add(delta) {
        Some(sum) => sum,
        None => if delta > 0 {
            i64::MAX
        } else {
            i64::MIN
        },
    }
}

impl InputHelper {
    /// A tracker that has seen nothing.
    pub fn new() -> (helper: Self)
        ensures
            helper@ == InputModel::initial(),
    {
        let helper = Self {
            current_cursor_pos: (0, 0),
            input_events: VecDeque::new(),
            state: HashMap::new(),
        };
        assert(helper@.state =~= Map::empty());
        helper
    }

    /// Appends `event` to the queue.
    pub fn add_event(&mut self, event: InputEvent)
        ensures
            final(self)@ == old(self)@.enqueue(event),
    {
        self.input_events.push_back(event);
    }

    /// Removes and returns the oldest queued event; `None` when the queue is
    /// empty, and then nothing changes.
    pub fn pop_event(&mut self) -> (event: Option<InputEvent>)
        ensures
            event == old(self)@.front(),
            final(self)@ == old(self)@.dequeue(),
    {
        self.input_events.pop_front()
    }

    /// The current state of `key`: what was last written for it, or for its
    /// wildcard where nothing was written for `key` itself, or `Released`.
    pub fn get_state(&self, key: InputKeyType) -> (change: Change)
        ensures
            change == self@.state_of(key),
    {
        if let Some(change) = self.state.get(&key.table_key()) {
            return *change;
        }
        match key {
            InputKeyType::Mouse(_) => Change::Released,
            InputKeyType::Keyboard(code, _) => {
                match self.state.get(&InputKeyType::Keyboard(code, None).table_key()) {
                    Some(change) => *change,
                    None => Change::Released,
                }
            },
        }
    }

    /// Records that the pointer moved to (`x`, `y`).
    pub fn move_cursor(&mut self, x: i32, y: i32)
        ensures
            final(self)@ == old(self)@.move_cursor(x, y),
    {
        let dx: i64 = x as i64 - self.current_cursor_pos.0 as i64;
        let dy: i64 = y as i64 - self.current_cursor_pos.1 as i64;
        self.current_cursor_pos = (x, y);
        let queued: usize = self.input_events.len();
        if queued > 0 {
            if let InputEvent::CursorMoved { delta_x, delta_y } = self.input_events[queued - 1] {
                self.input_events.pop_back();
                self.input_events.push_back(
                    InputEvent::CursorMoved {
                        delta_x: accumulate(delta_x, dx),
                        delta_y: accumulate(delta_y, dy),
                    },
                );
                return ;
            }
        }
        self.input_events.push_back(InputEvent::CursorMoved { delta_x: dx, delta_y: dy });
    }

    /// Records that `key` went through `change` at `time`.
    pub fn add_transition(&mut self, key: InputKeyType, change: Change, time: Instant)
        ensures
            final(self)@ == old(self)@.transition(key, change, time),
    {
        let cursor_x = self.current_cursor_pos.0;
        let cursor_y = self.current_cursor_pos.1;
        if let InputKeyType::Keyboard(code, _) = key {
            self.state.insert(InputKeyType::Keyboard(code, None).table_key(), change);
        }
        self.state.insert(key.table_key(), change);
        self.input_events.push_back(
            InputEvent::KeyInput { cursor_x, cursor_y, change, key_type: key, time },
        );
        proof {
            let written = old(self)@.state.insert(key.wildcard(), change).insert(key, change);
            assert forall|k: InputKeyType| #[trigger]
                self@.state.contains_key(k) == written.contains_key(k) && (written.contains_key(k)
                    ==> self@.state[k] == written[k]) by {
                InputKeyType::lemma_code_injective(k, key);
                InputKeyType::lemma_code_injective(k, key.wildcard());
            }
            assert(self@.state =~= written);
        }
    }

    /// Like `add_window_event`, with the time of the event given by the
    /// caller instead of read from the clock.
    pub fn add_window_event_at(&mut self, window_event: &WindowEvent, time: Instant) -> (handled:
        bool)
        ensures
            handled == window_event.recognized(),
            final(self)@ == old(self)@.ingest(*window_event, time),
    {
        match *window_event {
            WindowEvent::CursorMoved { x, y } => {
                self.move_cursor(x, y);
            },
            WindowEvent::MouseInput { state, button } => {
                self.add_transition(InputKeyType::Mouse(button), state, time);
            },
            WindowEvent::KeyboardInput { scancode, virtual_keycode, state } => {
                self.add_transition(InputKeyType::Keyboard(scancode, virtual_keycode), state, time);
            },
            WindowEvent::Unrecognized => {
                return false;
            },
        }
        true
    }

    /// Takes in one window event and says whether it was absorbed.
    ///
    /// A pointer movement, a button change and a key change are absorbed and
    /// change the tracker as `InputModel::ingest` says, a transition being
    /// stamped with the clock's reading. Any other event is left to the
    /// caller: the result is `false` and nothing changes.
    pub fn add_window_event(&mut self, window_event: &WindowEvent) -> (handled: bool)
        ensures
            handled == window_event.recognized(),
            exists|time: Instant| final(self)@ == old(self)@.ingest(*window_event, time),
            *window_event matches WindowEvent::CursorMoved { x, y } ==> final(self)@ == old(
                self,
            )@.move_cursor(x, y),
            window_event.transition() matches Some((key, change)) ==> exists|time: Instant|
                final(self)@ == old(self)@.transition(key, change, time),
            !window_event.recognized() ==> final(self)@ == old(self)@,
    {
        match *window_event {
            WindowEvent::CursorMoved { x, y } => {
                self.move_cursor(x, y);
                assert(self@ == old(self)@.ingest(*window_event, arbitrary()));
                true
            },
            WindowEvent::MouseInput { .. } | WindowEvent::KeyboardInput { .. } => {
                let time = capture_time();
                self.add_window_event_at(window_event, time)
            },
            WindowEvent::Unrecognized => {
                assert(self@ == old(self)@.ingest(*window_event, arbitrary()));
                false
            },
        }
    }
}

} // verus!
