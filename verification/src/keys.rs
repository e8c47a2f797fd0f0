//! Keyboard input as the camera reads it: a logical key, whether it went
//! down or up, and everything else a window can report folded into one
//! variant that carries nothing.

use vstd::prelude::*;

verus! {

/// A logical key. The letters, the digit row, the arrows, the space bar and
/// the two shift keys are told apart; every other key is `Other`.
#[derive(Clone, Copy, Debug, PartialEq, Eq, Structural)]
pub enum Key {
    Key1,
    Key2,
    Key3,
    Key4,
    Key5,
    Key6,
    Key7,
    Key8,
    Key9,
    Key0,
    A,
    B,
    C,
    D,
    E,
    F,
    G,
    H,
    I,
    J,
    K,
    L,
    M,
    N,
    O,
    P,
    Q,
    R,
    S,
    T,
    U,
    V,
    W,
    X,
    Y,
    Z,
    Left,
    Up,
    Right,
    Down,
    Space,
    LShift,
    RShift,
    Other,
}

/// Whether a key went down or came back up.
#[derive(Clone, Copy, Debug, PartialEq, Eq, Structural)]
pub enum ElementState {
    Pressed,
    Released,
}

impl ElementState {
    /// `true` for `Pressed`.
    pub open spec fn is_pressed(self) -> bool {
        self == ElementState::Pressed
    }
}

/// One event from the windowing layer.
///
/// A keyboard event carries the key's state and, when the platform could
/// name the key, the key itself. Anything that is not a keyboard event is
/// `Other`.
#[derive(Clone, Copy, Debug, PartialEq, Eq, Structural)]
pub enum InputEvent {
    Keyboard { state: ElementState, key: Option<Key> },
    Other,
}

impl InputEvent {
    /// The event of `key` going down.
    pub open spec fn press(key: Key) -> InputEvent {
        InputEvent::Keyboard { state: ElementState::Pressed, key: Some(key) }
    }

    /// The event of `key` coming back up.
    pub open spec fn release(key: Key) -> InputEvent {
        InputEvent::Keyboard { state: ElementState::Released, key: Some(key) }
    }
}

} // verus!
