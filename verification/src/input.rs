use vstd::prelude::*;
use std::collections::HashMap;

verus! {

broadcast use vstd::std_specs::hash::group_hash_axioms;

/// Whether each button (or key) was last reported pressed; a button never reported is
/// released. Buttons are known by a number that the caller gives each of them.
pub struct ButtonStates {
    states: HashMap<u64, bool>,
}

impl ButtonStates {
    pub closed spec fn spec_states(&self) -> Map<u64, bool> {
        self.states@
    }

    /// Whether `button` is pressed in `states`.
    pub open spec fn spec_pressed(states: Map<u64, bool>, button: u64) -> bool {
        states.contains_key(button) && states[button]
    }

    pub fn new() -> (r: ButtonStates)
        ensures
            r.spec_states() == Map::<u64, bool>::empty(),
    {
        ButtonStates { states: HashMap::new() }
    }

    /// Records that `button` was pressed or released.
    pub fn set(&mut self, button: u64, pressed: bool)
        ensures
            final(self).spec_states() == old(self).spec_states().insert(button, pressed),
    {
        self.states.insert(button, pressed);
    }

    /// Whether `button` was last reported pressed.
    pub fn is_pressed(&self, button: u64) -> (r: bool)
        ensures
            r == Self::spec_pressed(self.spec_states(), button),
    {
        match self.states.get(&button) {
            Some(pressed) => *pressed,
            None => false,
        }
    }
}

/// An input event, as the window reports it.
#[derive(Clone, Copy, Debug, PartialEq, Eq, Structural)]
pub enum InputEvent {
    Key { key: u64, pressed: bool },
    MouseButton { button: u64, pressed: bool },
    /// A move of the cursor or the wheel, or any other event that changes no button.
    Other,
}

/// The state of the keyboard and mouse buttons.
pub struct InputManager {
    keys: ButtonStates,
    mouse_buttons: ButtonStates,
}

impl InputManager {
    pub closed spec fn spec_keys(&self) -> Map<u64, bool> {
        self.keys.spec_states()
    }

    pub closed spec fn spec_mouse_buttons(&self) -> Map<u64, bool> {
        self.mouse_buttons.spec_states()
    }

    /// No button pressed.
    pub fn new() -> (r: InputManager)
        ensures
            r.spec_keys() == Map::<u64, bool>::empty(),
            r.spec_mouse_buttons() == Map::<u64, bool>::empty(),
    {
        InputManager { keys: ButtonStates::new(), mouse_buttons: ButtonStates::new() }
    }

    /// Takes an event into account.
    pub fn consume_event(&mut self, event: &InputEvent)
        ensures
            match *event {
                InputEvent::Key { key, pressed } => final(self).spec_keys() == old(self).spec_keys().insert(key, pressed)
                    && final(self).spec_mouse_buttons() == old(self).spec_mouse_buttons(),
                InputEvent::MouseButton { button, pressed } => final(self).spec_mouse_buttons()
                    == old(self).spec_mouse_buttons().insert(button, pressed) && final(self).spec_keys()
                    == old(self).spec_keys(),
                InputEvent::Other => final(self).spec_keys() == old(self).spec_keys()
                    && final(self).spec_mouse_buttons() == old(self).spec_mouse_buttons(),
            },
    {
        match event {
            InputEvent::Key { key, pressed } => self.keys.set(*key, *pressed),
            InputEvent::MouseButton { button, pressed } => self.mouse_buttons.set(*button, *pressed),
            InputEvent::Other => {},
        }
    }

    pub fn is_key_pressed(&self, key: u64) -> (r: bool)
        ensures
            r == ButtonStates::spec_pressed(self.spec_keys(), key),
    {
        self.keys.is_pressed(key)
    }

    pub fn is_mouse_button_pressed(&self, button: u64) -> (r: bool)
        ensures
            r == ButtonStates::spec_pressed(self.spec_mouse_buttons(), button),
    {
        self.mouse_buttons.is_pressed(button)
    }
}

/// The last report about a button decides whether it is pressed, and reports about other
/// buttons do not change it.
pub proof fn lemma_last_report_wins(states: Map<u64, bool>, button: u64, pressed: bool, other: u64)
    ensures
        ButtonStates::spec_pressed(states.insert(button, pressed), button) == pressed,
        other != button ==> ButtonStates::spec_pressed(states.insert(button, pressed), other)
            == ButtonStates::spec_pressed(states, other),
{
}

} // verus!
