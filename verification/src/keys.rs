//! Identities of input sources and the press/release state they can be in.

use vstd::prelude::*;

verus! {

/// Whether a key or button is held down.
#[derive(Debug, PartialEq, Eq, Structural, Hash, Clone, Copy)]
pub enum Change {
    Pressed,
    Released,
}

/// A button of the pointing device.
#[derive(Debug, PartialEq, Eq, Structural, Hash, Clone, Copy)]
pub enum MouseButton {
    Left,
    Right,
    Middle,
    Other(u16),
}

/// What a state entry or a key transition is about: a pointer button, or a
/// keyboard key given by its scan code and, optionally, its symbolic code.
///
/// `Keyboard(s, None)` is the wildcard identity of scan code `s`: it is written
/// on every transition of a key with that scan code, whatever its symbol.
#[derive(Debug, PartialEq, Eq, Structural, Hash, Clone, Copy)]
pub enum InputKeyType {
    Mouse(MouseButton),
    Keyboard(u32, Option<u32>),
}

impl InputKeyType {
    /// The wildcard identity that stands behind this one: for a keyboard key,
    /// the same scan code without a symbol; for a pointer button, itself.
    pub open spec fn wildcard(self) -> InputKeyType {
        match self {
            InputKeyType::Mouse(_) => self,
            InputKeyType::Keyboard(scancode, _) => InputKeyType::Keyboard(scancode, None),
        }
    }

    /// The number under which this identity is stored. Distinct identities
    /// have distinct numbers (`lemma_code_injective`).
    pub open spec fn code(self) -> u128 {
        match self {
            InputKeyType::Mouse(MouseButton::Left) => 0u128,
            InputKeyType::Mouse(MouseButton::Right) => 1u128,
            InputKeyType::Mouse(MouseButton::Middle) => 2u128,
            InputKeyType::Mouse(MouseButton::Other(n)) => (OTHER_BUTTON_BASE + n) as u128,
            InputKeyType::Keyboard(scancode, None) => (SCANCODE_BASE + scancode) as u128,
            InputKeyType::Keyboard(scancode, Some(symbol)) => (SYMBOL_BASE + scancode
                * SCANCODE_STRIDE + symbol) as u128,
        }
    }

    /// Computes `code`.
    pub fn table_key(&self) -> (key: u128)
        ensures
            key == self.code(),
    {
        match *self {
            InputKeyType::Mouse(MouseButton::Left) => 0u128,
            InputKeyType::Mouse(MouseButton::Right) => 1u128,
            InputKeyType::Mouse(MouseButton::Middle) => 2u128,
            InputKeyType::Mouse(MouseButton::Other(n)) => OTHER_BUTTON_BASE + n as u128,
            InputKeyType::Keyboard(scancode, None) => SCANCODE_BASE + scancode as u128,
            InputKeyType::Keyboard(scancode, Some(symbol)) => SYMBOL_BASE + scancode as u128
                * SCANCODE_STRIDE + symbol as u128,
        }
    }

    /// Two identities stored under the same number are the same identity.
    pub proof fn lemma_code_injective(a: InputKeyType, b: InputKeyType)
        ensures
            a.code() == b.code() <==> a == b,
    {
    }
}

/// winit's `ElementState`, with its two variants as winit declares them.
#[verifier::external_type_specification]
pub struct ExElementState(winit::event::ElementState);

impl From<&winit::event::ElementState> for Change {
    fn from(e: &winit::event::ElementState) -> (change: Self) {
        match e {
            winit::event::ElementState::Pressed => Self::Pressed,
            winit::event::ElementState::Released => Self::Released,
        }
    }
}

impl vstd::std_specs::convert::FromSpecImpl<&winit::event::ElementState> for Change {
    open spec fn obeys_from_spec() -> bool {
        true
    }

    /// The state of the same name.
    open spec fn from_spec(e: &winit::event::ElementState) -> Change {
        match *e {
            winit::event::ElementState::Pressed => Change::Pressed,
            winit::event::ElementState::Released => Change::Released,
        }
    }
}

/// First number of the pointer buttons beyond left, right and middle.
pub const OTHER_BUTTON_BASE: u128 = 0x1_0000_0000_0000_0000;

/// First number of the wildcard keyboard identities.
pub const SCANCODE_BASE: u128 = 0x2_0000_0000_0000_0000;

/// First number of the keyboard identities that carry a symbol.
pub const SYMBOL_BASE: u128 = 0x3_0000_0000_0000_0000;

/// Distance between the numbers of two consecutive scan codes with a symbol.
pub const SCANCODE_STRIDE: u128 = 0x1_0000_0000;

} // verus!
