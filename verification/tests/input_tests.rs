use oxide_engine::input::{InputKey, InputManager, MouseButtonInput};

fn ch(s: &str) -> InputKey {
    InputKey::Character(s.to_string())
}

#[test]
fn key_press_is_recorded_lowercase() {
    let mut m = InputManager::new();
    m.process_key_press(ch("A"));
    assert!(m.key_down.contains(&ch("a")));
    assert!(m.key_pressed.contains(&ch("a")));
    assert!(!m.key_down.contains(&ch("A")));
}

#[test]
fn other_keys_are_kept_as_they_are() {
    let mut m = InputManager::new();
    m.process_key_press(InputKey::Other("Escape".to_string()));
    assert!(m.key_down.contains(&InputKey::Other("Escape".to_string())));
    assert!(!m.key_down.contains(&InputKey::Other("escape".to_string())));
    assert!(!m.key_down.contains(&ch("Escape")));
}

#[test]
fn held_key_counts_as_pressed_once() {
    let mut m = InputManager::new();
    m.process_key_press(ch("w"));
    m.clear_temp();
    m.process_key_press(ch("w"));
    assert!(m.key_down.contains(&ch("w")));
    assert!(!m.key_pressed.contains(&ch("w")));
}

#[test]
fn release_frees_key_and_marks_released() {
    let mut m = InputManager::new();
    m.process_key_press(ch("w"));
    m.process_key_release(ch("W"));
    assert!(!m.key_down.contains(&ch("w")));
    assert!(m.key_released.contains(&ch("w")));
    assert!(m.key_pressed.contains(&ch("w")));
    m.clear_temp();
    assert!(!m.key_released.contains(&ch("w")));
    assert!(!m.key_pressed.contains(&ch("w")));
}

#[test]
fn buttons_follow_the_same_rules() {
    let mut m = InputManager::default();
    m.process_button_press(MouseButtonInput::Left);
    m.process_button_press(MouseButtonInput::Other(7));
    assert!(m.button_down.contains(&MouseButtonInput::Left));
    assert!(m.button_pressed.contains(&MouseButtonInput::Other(7)));
    m.clear_temp();
    m.process_button_press(MouseButtonInput::Left);
    assert!(!m.button_pressed.contains(&MouseButtonInput::Left));
    m.process_button_release(MouseButtonInput::Left);
    assert!(!m.button_down.contains(&MouseButtonInput::Left));
    assert!(m.button_released.contains(&MouseButtonInput::Left));
    assert!(m.button_down.contains(&MouseButtonInput::Other(7)));
    assert!(!m.key_down.contains(&ch("left")));
}

#[test]
fn recorded_keys_are_taken_as_given() {
    let mut m = InputManager::new();
    m.record_key_down(ch("Q"));
    assert!(m.key_down.contains(&ch("Q")));
    assert!(!m.key_down.contains(&ch("q")));
    assert!(m.key_pressed.contains(&ch("Q")));
    m.record_key_down(ch("Q"));
    m.record_key_up(ch("Q"));
    assert!(!m.key_down.contains(&ch("Q")));
    assert!(m.key_released.contains(&ch("Q")));
}
