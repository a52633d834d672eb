//! The events that enter the tracker and the events that it queues.

use crate::keys::{Change, InputKeyType, MouseButton};
use std::time::Instant;
use vstd::prelude::*;

verus! {

/// `std::time::Instant`, a point in time on the monotonic clock. Nothing is
/// known of a value but whether it equals another.
#[verifier::external_type_specification]
#[verifier::external_body]
pub struct ExInstant(Instant);

/// A notification from the window, reduced to what the tracker reads of it.
///
/// Coordinates are whole numbers in a unit of the caller's choosing.
#[derive(Debug, Clone, Copy)]
pub enum WindowEvent {
    /// The pointer is now at the absolute position (`x`, `y`).
    CursorMoved { x: i32, y: i32 },
    /// A pointer button was pressed or released.
    MouseInput { state: Change, button: MouseButton },
    /// A keyboard key was pressed or released.
    KeyboardInput { scancode: u32, virtual_keycode: Option<u32>, state: Change },
    /// Any other notification: resize, focus, close request and so on.
    Unrecognized,
}

/// An entry of the tracker's queue.
#[derive(Debug, Clone, Copy)]
pub enum InputEvent {
    /// The pointer travelled by (`delta_x`, `delta_y`) since the entry was
    /// queued; consecutive movements are summed into one entry.
    CursorMoved { delta_x: i64, delta_y: i64 },
    /// A key or button changed state while the pointer was at
    /// (`cursor_x`, `cursor_y`).
    KeyInput { cursor_x: i32, cursor_y: i32, change: Change, key_type: InputKeyType, time: Instant },
}

impl WindowEvent {
    /// Whether the tracker absorbs this event.
    pub open spec fn recognized(self) -> bool {
        !(self is Unrecognized)
    }

    /// The transition that this event reports, as the identity concerned and
    /// its new state; `None` for an event that reports none.
    pub open spec fn transition(self) -> Option<(InputKeyType, Change)> {
        match self {
            WindowEvent::MouseInput { state, button } => Some((InputKeyType::Mouse(button), state)),
            WindowEvent::KeyboardInput { scancode, virtual_keycode, state } => Some(
                (InputKeyType::Keyboard(scancode, virtual_keycode), state),
            ),
            _ => None,
        }
    }

    /// Whether taking this event in writes the state entry of `key`: the
    /// event reports a transition of `key`, or of a keyboard key of which
    /// `key` is the wildcard.
    pub open spec fn writes(self, key: InputKeyType) -> bool {
        match self.transition() {
            Some((target, _)) => key == target || key == target.wildcard(),
            None => false,
        }
    }
}

impl InputEvent {
    /// The queue entry for a pointer movement by (`dx`, `dy`), each component
    /// kept within `i64`.
    pub open spec fn motion(dx: int, dy: int) -> InputEvent {
        InputEvent::CursorMoved { delta_x: clamp(dx), delta_y: clamp(dy) }
    }

    /// The queue entry for `key` going through `change` at `time` with the
    /// pointer at `cursor`.
    pub open spec fn key_input(
        cursor: (i32, i32),
        key: InputKeyType,
        change: Change,
        time: Instant,
    ) -> InputEvent {
        InputEvent::KeyInput {
            cursor_x: cursor.0,
            cursor_y: cursor.1,
            change,
            key_type: key,
            time,
        }
    }
}

/// `v` brought into the range of `i64`: a sum of displacements that leaves
/// the range stays at the bound it crossed.
pub open spec fn clamp(v: int) -> i64 {
    if v > i64::MAX {
        i64::MAX
    } else if v < i64::MIN {
        i64::MIN
    } else {
        v as i64
    }
}

/// Reads the monotonic clock with `Instant::now`. Nothing is claimed of the
/// value that comes back.
#[verifier::external_body]
pub(crate) fn capture_time() -> (time: Instant) {
    Instant::now()
}

} // verus!
