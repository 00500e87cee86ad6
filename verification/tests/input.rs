use asaogea::input::{ButtonStates, InputEvent, InputManager};
use asaogea::options::{Options, RenderingOption, WindowOptions};

#[test]
fn buttons_start_released() {
    let states = ButtonStates::new();
    assert!(!states.is_pressed(0));
    let input = InputManager::new();
    assert!(!input.is_key_pressed(65));
    assert!(!input.is_mouse_button_pressed(0));
}

#[test]
fn the_last_report_decides() {
    let mut states = ButtonStates::new();
    states.set(3, true);
    assert!(states.is_pressed(3));
    states.set(4, true);
    states.set(3, false);
    assert!(!states.is_pressed(3));
    assert!(states.is_pressed(4));
}

#[test]
fn events_update_keys_and_mouse_buttons_apart() {
    let mut input = InputManager::new();
    input.consume_event(&InputEvent::Key { key: 65, pressed: true });
    input.consume_event(&InputEvent::MouseButton { button: 1, pressed: true });
    assert!(input.is_key_pressed(65));
    assert!(!input.is_mouse_button_pressed(65));
    assert!(input.is_mouse_button_pressed(1));
    assert!(!input.is_key_pressed(1));
    input.consume_event(&InputEvent::Other);
    assert!(input.is_key_pressed(65));
    input.consume_event(&InputEvent::Key { key: 65, pressed: false });
    assert!(!input.is_key_pressed(65));
    assert!(input.is_mouse_button_pressed(1));
}

#[test]
fn default_options() {
    let options = Options::default();
    assert!(options.rendering.validation_layers);
    assert_eq!(options.rendering.image_count, 2);
    assert_eq!(options.main_window.name, "Asaogea");
    assert_eq!(RenderingOption::default().image_count, 2);
    assert_eq!(WindowOptions::default().name, "Asaogea");
}
