//! What the camera can be told to do, which key tells it, and what one
//! tick of each action does to the camera.

use vstd::prelude::*;
use crate::keys::{InputEvent, Key};

verus! {

/// One of the three directions of travel. Each is a row of the rotation
/// matrix: the camera's right, its up and its forward direction.
#[derive(Clone, Copy, Debug, PartialEq, Eq, Structural)]
pub enum Axis {
    Lateral,
    Vertical,
    Longitudinal,
}

impl Axis {
    /// The row of the rotation matrix that holds this direction.
    pub open spec fn row_index(self) -> int {
        match self {
            Axis::Lateral => 0,
            Axis::Vertical => 1,
            Axis::Longitudinal => 2,
        }
    }

    /// The row of the rotation matrix that holds this direction.
    pub fn row(self) -> (r: usize)
        ensures
            r == self.row_index(),
    {
        match self {
            Axis::Lateral => 0,
            Axis::Vertical => 1,
            Axis::Longitudinal => 2,
        }
    }
}

/// A number of the camera that a tick can change.
#[derive(Clone, Copy, Debug, PartialEq, Eq, Structural)]
pub enum Quantity {
    /// The position, along one direction of travel.
    Position(Axis),
    /// The pitch angle.
    Pitch,
    /// The yaw angle.
    Yaw,
    /// The scale factor.
    Scale,
}

/// One change of one quantity by one unit.
///
/// The unit of a position is the linear speed times the scale, along the
/// axis's row of the rotation matrix, both as the tick finds them: it is
/// the same for every step of one tick and may differ from tick to tick.
/// The unit of an angle is the angular speed, and that of the scale is one
/// factor of the multiplier; these are the same in every tick. A step in
/// reverse subtracts the unit from a position or an angle, and multiplies
/// the scale by the multiplier's reciprocal.
#[derive(Clone, Copy, Debug, PartialEq, Eq, Structural)]
pub struct Step {
    pub quantity: Quantity,
    pub reverse: bool,
}

impl Step {
    /// By how many units this step changes `quantity`: one, minus one in
    /// reverse, and zero where the step is about another quantity.
    pub open spec fn change(self, quantity: Quantity) -> int {
        if self.quantity != quantity {
            0
        } else if self.reverse {
            -1
        } else {
            1
        }
    }
}

/// A thing the user can hold the camera to.
#[derive(Clone, Copy, Debug, PartialEq, Eq, Structural)]
pub enum Action {
    Forward,
    Backward,
    Left,
    Right,
    Up,
    Down,
    YawLeft,
    YawRight,
    PitchUp,
    PitchDown,
    ScaleUp,
    ScaleDown,
}

impl Action {
    /// The place of this action in a table of all twelve.
    pub open spec fn index_spec(self) -> int {
        match self {
            Action::Forward => 0,
            Action::Backward => 1,
            Action::Left => 2,
            Action::Right => 3,
            Action::Up => 4,
            Action::Down => 5,
            Action::YawLeft => 6,
            Action::YawRight => 7,
            Action::PitchUp => 8,
            Action::PitchDown => 9,
            Action::ScaleUp => 10,
            Action::ScaleDown => 11,
        }
    }

    /// The place of this action in a table of all twelve.
    pub fn index(self) -> (index: usize)
        ensures
            index == self.index_spec(),
            index < 12,
    {
        match self {
            Action::Forward => 0,
            Action::Backward => 1,
            Action::Left => 2,
            Action::Right => 3,
            Action::Up => 4,
            Action::Down => 5,
            Action::YawLeft => 6,
            Action::YawRight => 7,
            Action::PitchUp => 8,
            Action::PitchDown => 9,
            Action::ScaleUp => 10,
            Action::ScaleDown => 11,
        }
    }

    /// What one tick does while this action is held.
    pub open spec fn step_spec(self) -> Step {
        match self {
            Action::Forward => Step { quantity: Quantity::Position(Axis::Longitudinal), reverse: false },
            Action::Backward => Step { quantity: Quantity::Position(Axis::Longitudinal), reverse: true },
            Action::Left => Step { quantity: Quantity::Position(Axis::Lateral), reverse: true },
            Action::Right => Step { quantity: Quantity::Position(Axis::Lateral), reverse: false },
            Action::Up => Step { quantity: Quantity::Position(Axis::Vertical), reverse: false },
            Action::Down => Step { quantity: Quantity::Position(Axis::Vertical), reverse: true },
            Action::YawLeft => Step { quantity: Quantity::Yaw, reverse: false },
            Action::YawRight => Step { quantity: Quantity::Yaw, reverse: true },
            Action::PitchUp => Step { quantity: Quantity::Pitch, reverse: false },
            Action::PitchDown => Step { quantity: Quantity::Pitch, reverse: true },
            Action::ScaleUp => Step { quantity: Quantity::Scale, reverse: false },
            Action::ScaleDown => Step { quantity: Quantity::Scale, reverse: true },
        }
    }

    /// What one tick does while this action is held.
    #[verifier::when_used_as_spec(step_spec)]
    pub fn step(self) -> (step: Step)
        ensures
            step == self.step_spec(),
    {
        match self {
            Action::Forward => Step { quantity: Quantity::Position(Axis::Longitudinal), reverse: false },
            Action::Backward => Step { quantity: Quantity::Position(Axis::Longitudinal), reverse: true },
            Action::Left => Step { quantity: Quantity::Position(Axis::Lateral), reverse: true },
            Action::Right => Step { quantity: Quantity::Position(Axis::Lateral), reverse: false },
            Action::Up => Step { quantity: Quantity::Position(Axis::Vertical), reverse: false },
            Action::Down => Step { quantity: Quantity::Position(Axis::Vertical), reverse: true },
            Action::YawLeft => Step { quantity: Quantity::Yaw, reverse: false },
            Action::YawRight => Step { quantity: Quantity::Yaw, reverse: true },
            Action::PitchUp => Step { quantity: Quantity::Pitch, reverse: false },
            Action::PitchDown => Step { quantity: Quantity::Pitch, reverse: true },
            Action::ScaleUp => Step { quantity: Quantity::Scale, reverse: false },
            Action::ScaleDown => Step { quantity: Quantity::Scale, reverse: true },
        }
    }
}

/// The action that `key` is bound to, if it is bound.
pub open spec fn binding(key: Key) -> Option<Action> {
    match key {
        Key::W | Key::Up => Some(Action::Forward),
        Key::A | Key::Left => Some(Action::Left),
        Key::S | Key::Down => Some(Action::Backward),
        Key::D | Key::Right => Some(Action::Right),
        Key::E | Key::Space => Some(Action::Up),
        Key::Q | Key::RShift | Key::LShift => Some(Action::Down),
        Key::J => Some(Action::PitchDown),
        Key::U => Some(Action::PitchUp),
        Key::H => Some(Action::YawLeft),
        Key::K => Some(Action::YawRight),
        Key::Key0 => Some(Action::ScaleUp),
        Key::Key1 => Some(Action::ScaleDown),
        _ => None,
    }
}

/// The action that `key` is bound to, if it is bound.
pub fn action_for(key: Key) -> (action: Option<Action>)
    ensures
        action == binding(key),
{
    match key {
        Key::W | Key::Up => Some(Action::Forward),
        Key::A | Key::Left => Some(Action::Left),
        Key::S | Key::Down => Some(Action::Backward),
        Key::D | Key::Right => Some(Action::Right),
        Key::E | Key::Space => Some(Action::Up),
        Key::Q | Key::RShift | Key::LShift => Some(Action::Down),
        Key::J => Some(Action::PitchDown),
        Key::U => Some(Action::PitchUp),
        Key::H => Some(Action::YawLeft),
        Key::K => Some(Action::YawRight),
        Key::Key0 => Some(Action::ScaleUp),
        Key::Key1 => Some(Action::ScaleDown),
        _ => None,
    }
}

/// What `event` asks of the camera: the action to hold or to let go and
/// which of the two, or nothing where the event is no keyboard event, names
/// no key, or names a key that is not bound.
pub open spec fn command(event: InputEvent) -> Option<(Action, bool)> {
    match event {
        InputEvent::Keyboard { state, key: Some(key) } => match binding(key) {
            Some(action) => Some((action, state.is_pressed())),
            None => None,
        },
        _ => None,
    }
}

/// The held actions once `event` has been taken in.
pub open spec fn after_event(held: Set<Action>, event: InputEvent) -> Set<Action> {
    match command(event) {
        Some((action, true)) => held.insert(action),
        Some((action, false)) => held.remove(action),
        None => held,
    }
}

/// Pressing a bound key and then releasing it raises the flag of the key's
/// action and then lowers it again. Both events are consumed, and no other
/// flag changes on the way.
pub proof fn lemma_press_then_release(held: Set<Action>, key: Key)
    requires
        binding(key) is Some,
    ensures
        command(InputEvent::press(key)) is Some,
        command(InputEvent::release(key)) is Some,
        after_event(held, InputEvent::press(key)).contains(binding(key).unwrap()),
        !after_event(
            after_event(held, InputEvent::press(key)),
            InputEvent::release(key),
        ).contains(binding(key).unwrap()),
        forall|other: Action|
            other != binding(key).unwrap() ==> {
                &&& after_event(held, InputEvent::press(key)).contains(other) == held.contains(
                    other,
                )
                &&& after_event(
                    after_event(held, InputEvent::press(key)),
                    InputEvent::release(key),
                ).contains(other) == held.contains(other)
            },
{
}

/// An event that is no keyboard event, that names no key, or whose key is
/// not bound is not consumed and changes no flag.
pub proof fn lemma_unbound_event_is_ignored(held: Set<Action>, event: InputEvent)
    requires
        event is Other || event->key is None || binding(event->key.unwrap()) is None,
    ensures
        command(event) is None,
        after_event(held, event) == held,
{
}

/// Of two events for the same action the later one decides: whatever the
/// first did to the action's flag, the flags end up as if the second alone
/// had been taken in.
pub proof fn lemma_last_event_wins(held: Set<Action>, first: InputEvent, second: InputEvent)
    requires
        command(first) is Some,
        command(second) is Some,
        command(first).unwrap().0 == command(second).unwrap().0,
    ensures
        after_event(after_event(held, first), second) == after_event(held, second),
{
    assert(after_event(after_event(held, first), second) =~= after_event(held, second));
}

} // verus!
