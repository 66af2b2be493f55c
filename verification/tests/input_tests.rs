use desperate_dig::input::{key_binding, command_for, Command, Key, KeyAction};
use desperate_dig::scene::{Axis, Direction};

#[test]
fn a_press_and_a_release_queue_a_command() {
    assert_eq!(command_for(Key::Up, KeyAction::Press), Some(Command { key: Key::Up, pressed: true }));
    assert_eq!(
        command_for(Key::Up, KeyAction::Release),
        Some(Command { key: Key::Up, pressed: false })
    );
    assert_eq!(
        command_for(Key::Other, KeyAction::Press),
        Some(Command { key: Key::Other, pressed: true })
    );
}

#[test]
fn a_repeat_queues_nothing() {
    let keys = [Key::Escape, Key::Left, Key::Right, Key::Up, Key::Down, Key::Other];
    for key in keys {
        assert_eq!(command_for(key, KeyAction::Repeat), None);
    }
}

#[test]
fn the_arrow_keys_are_bound_to_the_four_intents() {
    assert_eq!(key_binding(Key::Left), Some((Axis::Horizontal, Direction::Negative)));
    assert_eq!(key_binding(Key::Right), Some((Axis::Horizontal, Direction::Positive)));
    assert_eq!(key_binding(Key::Up), Some((Axis::Vertical, Direction::Negative)));
    assert_eq!(key_binding(Key::Down), Some((Axis::Vertical, Direction::Positive)));
    assert_eq!(key_binding(Key::Escape), None);
    assert_eq!(key_binding(Key::Other), None);
}
