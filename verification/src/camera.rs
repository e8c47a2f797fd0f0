//! The camera controller: the actions that are held at the moment, the
//! keyboard events that change them, and the steps that each tick takes.

use vstd::prelude::*;
use crate::action::{action_for, after_event, command, Action, Step};
use crate::keys::{ElementState, InputEvent};
use crate::motion::{lemma_steps_of_push, steps_of, tick_order, tick_steps, tick_table};

verus! {

/// Which actions are held. A flag goes up when a key bound to its action is
/// pressed and stays up until such a key is released.
#[derive(Clone, Copy, Debug)]
pub struct CameraController {
    /// One flag for each action, at the action's index.
    pressed: [bool; 12],
}

impl CameraController {
    /// The actions that are held.
    pub closed spec fn held(&self) -> Set<Action> {
        Set::new(|action: Action| self.pressed@[action.index_spec()])
    }

    /// A controller with no action held.
    pub fn new() -> (controller: CameraController)
        ensures
            controller.held() == Set::<Action>::empty(),
    {
        let controller = CameraController { pressed: [false; 12] };
        assert(controller.held() =~= Set::<Action>::empty());
        controller
    }

    /// Whether `action` is held.
    pub fn is_pressed(&self, action: Action) -> (pressed: bool)
        ensures
            pressed == self.held().contains(action),
    {
        self.pressed[action.index()]
    }

    /// Holds `action` or lets it go. No other action is touched.
    pub fn set_pressed(&mut self, action: Action, pressed: bool)
        ensures
            final(self).held() == if pressed {
                old(self).held().insert(action)
            } else {
                old(self).held().remove(action)
            },
    {
        self.pressed[action.index()] = pressed;
        proof {
            if pressed {
                assert(self.held() =~= old(self).held().insert(action));
            } else {
                assert(self.held() =~= old(self).held().remove(action));
            }
        }
    }

    /// Takes in one event. A press of a bound key holds the key's action, a
    /// release lets it go, and the event is then consumed; any other event
    /// changes nothing and is not consumed.
    pub fn process_events(&mut self, event: &InputEvent) -> (consumed: bool)
        ensures
            consumed == command(*event).is_some(),
            final(self).held() == after_event(old(self).held(), *event),
    {
        match event {
            InputEvent::Keyboard { state, key: Some(keycode) } => {
                let is_pressed = *state == ElementState::Pressed;
                match action_for(*keycode) {
                    Some(action) => {
                        self.set_pressed(action, is_pressed);
                        true
                    },
                    None => false,
                }
            },
            _ => false,
        }
    }

    /// The steps of one tick, in the order in which they are taken: one
    /// for each action that is held, by the table of the tick's order.
    pub fn update_camera(&self) -> (steps: Vec<Step>)
        ensures
            steps@ == tick_steps(self.held()),
    {
        let table = tick_table();
        let mut steps: Vec<Step> = Vec::new();
        let mut place: usize = 0;
        while place < 12
            invariant
                place <= 12,
                table@ == tick_order(),
                steps@ == steps_of(tick_order().take(place as int), self.held()),
            decreases 12 - place,
        {
            let action = table[place];
            if self.is_pressed(action) {
                steps.push(action.step());
            }
            proof {
                let order = tick_order();
                lemma_steps_of_push(order.take(place as int), action, self.held());
                assert(order.take(place as int).push(action) =~= order.take(place + 1));
            }
            place += 1;
        }
        assert(tick_order().take(12) =~= tick_order());
        steps
    }
}

impl Default for CameraController {
    /// A controller with no action held.
    fn default() -> (controller: CameraController)
        ensures
            controller.held() == Set::<Action>::empty(),
    {
        CameraController::new()
    }
}

} // verus!
