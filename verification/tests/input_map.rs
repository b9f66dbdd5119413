//! The fixed binding tables: keyboard, controller buttons, analog axes.

use px8_frontend::PX8Key;
use px8_frontend::input::Axis;
use px8_frontend::input::Button;
use px8_frontend::input::Keycode;
use px8_frontend::input::map_axis;
use px8_frontend::input::map_button;
use px8_frontend::input::map_keycode;

#[test]
fn keyboard_player0_bindings() {
    assert_eq!(map_keycode(Keycode::Right), (Some(PX8Key::Right), 0));
    assert_eq!(map_keycode(Keycode::Left), (Some(PX8Key::Left), 0));
    assert_eq!(map_keycode(Keycode::Up), (Some(PX8Key::Up), 0));
    assert_eq!(map_keycode(Keycode::Down), (Some(PX8Key::Down), 0));
    assert_eq!(map_keycode(Keycode::Z), (Some(PX8Key::O), 0));
    assert_eq!(map_keycode(Keycode::C), (Some(PX8Key::O), 0));
    assert_eq!(map_keycode(Keycode::N), (Some(PX8Key::O), 0));
    assert_eq!(map_keycode(Keycode::X), (Some(PX8Key::X), 0));
    assert_eq!(map_keycode(Keycode::V), (Some(PX8Key::X), 0));
    assert_eq!(map_keycode(Keycode::M), (Some(PX8Key::X), 0));
    assert_eq!(map_keycode(Keycode::P), (Some(PX8Key::Pause), 0));
    assert_eq!(map_keycode(Keycode::KpEnter), (Some(PX8Key::Enter), 0));
}

#[test]
fn keyboard_player1_bindings() {
    assert_eq!(map_keycode(Keycode::F), (Some(PX8Key::Right), 1));
    assert_eq!(map_keycode(Keycode::S), (Some(PX8Key::Left), 1));
    assert_eq!(map_keycode(Keycode::E), (Some(PX8Key::Up), 1));
    assert_eq!(map_keycode(Keycode::D), (Some(PX8Key::Down), 1));
    assert_eq!(map_keycode(Keycode::LShift), (Some(PX8Key::O), 1));
    assert_eq!(map_keycode(Keycode::Tab), (Some(PX8Key::O), 1));
    assert_eq!(map_keycode(Keycode::A), (Some(PX8Key::X), 1));
    assert_eq!(map_keycode(Keycode::Q), (Some(PX8Key::X), 1));
}

#[test]
fn keyboard_unbound_keys() {
    assert_eq!(map_keycode(Keycode::Escape), (None, 0));
    assert_eq!(map_keycode(Keycode::F2), (None, 0));
    assert_eq!(map_keycode(Keycode::Other), (None, 0));
}

#[test]
fn keyboard_map_is_stable() {
    let first = map_keycode(Keycode::Z);
    for _ in 0..10 {
        assert_eq!(map_keycode(Keycode::Z), first);
    }
}

#[test]
fn controller_button_bindings() {
    assert_eq!(map_button(Button::DPadRight), Some(PX8Key::Right));
    assert_eq!(map_button(Button::DPadLeft), Some(PX8Key::Left));
    assert_eq!(map_button(Button::DPadUp), Some(PX8Key::Up));
    assert_eq!(map_button(Button::DPadDown), Some(PX8Key::Down));
    assert_eq!(map_button(Button::A), Some(PX8Key::O));
    assert_eq!(map_button(Button::B), Some(PX8Key::X));
    assert_eq!(map_button(Button::Other), None);
}

#[test]
fn axis_horizontal_bands() {
    assert_eq!(map_axis(Axis::LeftX, -32768), Some((PX8Key::Left, true)));
    assert_eq!(map_axis(Axis::LeftX, -16384), Some((PX8Key::Left, true)));
    assert_eq!(map_axis(Axis::LeftX, -16383), Some((PX8Key::Left, false)));
    assert_eq!(map_axis(Axis::LeftX, -1), Some((PX8Key::Left, false)));
    assert_eq!(map_axis(Axis::LeftX, 0), Some((PX8Key::Right, false)));
    assert_eq!(map_axis(Axis::LeftX, 16383), Some((PX8Key::Right, false)));
    assert_eq!(map_axis(Axis::LeftX, 16384), Some((PX8Key::Right, true)));
    assert_eq!(map_axis(Axis::LeftX, 32767), Some((PX8Key::Right, true)));
}

#[test]
fn axis_vertical_bands() {
    assert_eq!(map_axis(Axis::LeftY, -32768), Some((PX8Key::Up, true)));
    assert_eq!(map_axis(Axis::LeftY, -16384), Some((PX8Key::Up, true)));
    assert_eq!(map_axis(Axis::LeftY, -1), Some((PX8Key::Up, false)));
    assert_eq!(map_axis(Axis::LeftY, 0), Some((PX8Key::Down, false)));
    assert_eq!(map_axis(Axis::LeftY, 16383), Some((PX8Key::Down, false)));
    assert_eq!(map_axis(Axis::LeftY, 32767), Some((PX8Key::Down, true)));
    assert_eq!(map_axis(Axis::Other, 1000), None);
}

#[test]
fn axis_map_is_stable() {
    for v in [-32768i16, -16384, -5, 0, 128, 16384, 30000, 32767] {
        let first = map_axis(Axis::LeftX, v);
        assert_eq!(map_axis(Axis::LeftX, v), first);
        let left = matches!(first, Some((PX8Key::Left, _)));
        let right = matches!(first, Some((PX8Key::Right, _)));
        assert!(!(left && right));
        assert_eq!(left, v < 0);
        assert_eq!(right, v >= 0);
    }
}

#[test]
fn key_labels() {
    assert_eq!(PX8Key::Right.label(), "RIGHT");
    assert_eq!(PX8Key::Pause.label(), "Pause");
    assert_eq!(PX8Key::Enter.label(), "Enter");
    assert_eq!(PX8Key::O.label(), "O");
}
