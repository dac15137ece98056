//! The keys that are held down.

use vstd::prelude::*;

verus! {

/// Whether a key went down or came up.
#[derive(Clone, Copy, Debug, PartialEq, Eq, Hash, Structural)]
pub enum ElementState {
    Pressed,
    Released,
}

/// The keys that the game tells apart.
#[derive(Clone, Copy, Debug, PartialEq, Eq, Hash, Structural)]
pub enum VirtualKeyCode {
    W,
    A,
    S,
    D,
    Up,
    Left,
    Down,
    Right,
    Space,
    Other,
}

/// One flag for each thing that the player can ask for. A flag is set while
/// one of its keys is held down.
#[derive(Clone, Copy, Debug, PartialEq, Eq)]
pub struct InputHandler {
    pub up: bool,
    pub down: bool,
    pub left: bool,
    pub right: bool,
    pub attack1: bool,
}

/// What a key asks for.
#[derive(Clone, Copy, Debug, PartialEq, Eq, Hash, Structural)]
pub enum Action {
    Up,
    Down,
    Left,
    Right,
    Attack,
}

/// What a key asks for, if it is one that the game answers to: `W`, `A`,
/// `S`, `D` and the arrows steer, the space bar attacks.
pub open spec fn action_of(key: Option<VirtualKeyCode>) -> Option<Action> {
    match key {
        Some(VirtualKeyCode::W) | Some(VirtualKeyCode::Up) => Some(Action::Up),
        Some(VirtualKeyCode::A) | Some(VirtualKeyCode::Left) => Some(Action::Left),
        Some(VirtualKeyCode::S) | Some(VirtualKeyCode::Down) => Some(Action::Down),
        Some(VirtualKeyCode::D) | Some(VirtualKeyCode::Right) => Some(Action::Right),
        Some(VirtualKeyCode::Space) => Some(Action::Attack),
        _ => None,
    }
}

impl InputHandler {
    /// The flags while no key is held.
    pub open spec fn default_flags() -> InputHandler {
        InputHandler { up: false, down: false, left: false, right: false, attack1: false }
    }

    /// The flags after a key event: the flag of the key's action is set if
    /// the key went down and cleared if it came up; a key without an action
    /// changes nothing.
    pub open spec fn received(self, state: ElementState, key: Option<VirtualKeyCode>) -> InputHandler {
        let held = state is Pressed;
        match action_of(key) {
            Some(Action::Up) => InputHandler { up: held, ..self },
            Some(Action::Down) => InputHandler { down: held, ..self },
            Some(Action::Left) => InputHandler { left: held, ..self },
            Some(Action::Right) => InputHandler { right: held, ..self },
            Some(Action::Attack) => InputHandler { attack1: held, ..self },
            None => self,
        }
    }

    /// Takes in a key event, and tells whether the key is one that the game
    /// answers to.
    pub fn receive_keyboard_input(
        &mut self,
        state: ElementState,
        virtual_keycode: Option<VirtualKeyCode>,
    ) -> (handled: bool)
        ensures
            *final(self) == old(self).received(state, virtual_keycode),
            handled == action_of(virtual_keycode) is Some,
    {
        let held = match state {
            ElementState::Pressed => true,
            ElementState::Released => false,
        };
        match virtual_keycode {
            Some(VirtualKeyCode::W) | Some(VirtualKeyCode::Up) => {
                self.up = held;
                true
            },
            Some(VirtualKeyCode::A) | Some(VirtualKeyCode::Left) => {
                self.left = held;
                true
            },
            Some(VirtualKeyCode::S) | Some(VirtualKeyCode::Down) => {
                self.down = held;
                true
            },
            Some(VirtualKeyCode::D) | Some(VirtualKeyCode::Right) => {
                self.right = held;
                true
            },
            Some(VirtualKeyCode::Space) => {
                self.attack1 = held;
                true
            },
            Some(_) => false,
            None => false,
        }
    }
}

impl Default for InputHandler {
    /// No key is held.
    fn default() -> (input: InputHandler)
        ensures
            input == InputHandler::default_flags(),
    {
        InputHandler { up: false, down: false, left: false, right: false, attack1: false }
    }
}

} // verus!
