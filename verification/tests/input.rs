use iso_engine::resources::{ElementState, InputHandler, VirtualKeyCode};

#[test]
fn no_key_is_held_at_first() {
    let input = InputHandler::default();
    assert_eq!(input, InputHandler { up: false, down: false, left: false, right: false, attack1: false });
}

#[test]
fn letters_and_arrows_steer() {
    for (keys, pick) in [
        ([VirtualKeyCode::W, VirtualKeyCode::Up], 0usize),
        ([VirtualKeyCode::S, VirtualKeyCode::Down], 1),
        ([VirtualKeyCode::A, VirtualKeyCode::Left], 2),
        ([VirtualKeyCode::D, VirtualKeyCode::Right], 3),
    ] {
        for key in keys {
            let mut input = InputHandler::default();
            assert!(input.receive_keyboard_input(ElementState::Pressed, Some(key)));
            let flags = [input.up, input.down, input.left, input.right];
            for (i, flag) in flags.iter().enumerate() {
                assert_eq!(*flag, i == pick);
            }
            assert!(!input.attack1);
            assert!(input.receive_keyboard_input(ElementState::Released, Some(key)));
            assert_eq!(input, InputHandler::default());
        }
    }
}

#[test]
fn space_attacks() {
    let mut input = InputHandler::default();
    assert!(input.receive_keyboard_input(ElementState::Pressed, Some(VirtualKeyCode::Space)));
    assert!(input.attack1);
    assert!(input.receive_keyboard_input(ElementState::Released, Some(VirtualKeyCode::Space)));
    assert!(!input.attack1);
}

#[test]
fn other_keys_change_nothing() {
    let mut input = InputHandler { up: true, down: false, left: true, right: false, attack1: true };
    let before = input;
    assert!(!input.receive_keyboard_input(ElementState::Pressed, Some(VirtualKeyCode::Other)));
    assert!(!input.receive_keyboard_input(ElementState::Released, Some(VirtualKeyCode::Other)));
    assert!(!input.receive_keyboard_input(ElementState::Pressed, None));
    assert_eq!(input, before);
}

#[test]
fn flags_are_held_until_released() {
    let mut input = InputHandler::default();
    input.receive_keyboard_input(ElementState::Pressed, Some(VirtualKeyCode::W));
    input.receive_keyboard_input(ElementState::Pressed, Some(VirtualKeyCode::D));
    input.receive_keyboard_input(ElementState::Pressed, Some(VirtualKeyCode::W));
    assert!(input.up && input.right);
    input.receive_keyboard_input(ElementState::Released, Some(VirtualKeyCode::Up));
    assert!(!input.up && input.right);
}
