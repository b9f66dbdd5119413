//! From platform input to the console key space.
//!
//! Plain enumerations name the physical keys, controller buttons and axes
//! that the front-end binds; anything else arrives as `Other`. The three
//! `map_*` functions are the whole fixed binding table: pure, with their
//! results pinned to spec functions, so two calls on the same input always
//! agree.

use crate::PX8Key;
use vstd::prelude::*;

verus! {

/// The physical keys the front-end binds; any other key is `Other`.
#[derive(Clone, Copy, PartialEq, Eq, Structural, Debug)]
pub enum Keycode {
    Right,
    Left,
    Up,
    Down,
    Z,
    C,
    N,
    X,
    V,
    M,
    F,
    S,
    E,
    D,
    LShift,
    Tab,
    A,
    Q,
    P,
    KpEnter,
    Escape,
    F2,
    F3,
    F4,
    F5,
    F6,
    Other,
}

/// Game-controller digital buttons the front-end binds.
#[derive(Clone, Copy, PartialEq, Eq, Structural, Debug)]
pub enum Button {
    DPadRight,
    DPadLeft,
    DPadUp,
    DPadDown,
    A,
    B,
    Other,
}

/// Game-controller analog axes the front-end binds.
#[derive(Clone, Copy, PartialEq, Eq, Structural, Debug)]
pub enum Axis {
    LeftX,
    LeftY,
    Other,
}

/// The fixed keyboard binding table. Player 0: arrows, Z/C/N for O, X/V/M
/// for X, P for pause, keypad enter. Player 1: F/S/E/D directions, left
/// shift or tab for O, A or Q for X.
pub open spec fn spec_map_keycode(key: Keycode) -> (Option<PX8Key>, u8) {
    match key {
        Keycode::Right => (Some(PX8Key::Right), 0),
        Keycode::Left => (Some(PX8Key::Left), 0),
        Keycode::Up => (Some(PX8Key::Up), 0),
        Keycode::Down => (Some(PX8Key::Down), 0),
        Keycode::Z => (Some(PX8Key::O), 0),
        Keycode::C => (Some(PX8Key::O), 0),
        Keycode::N => (Some(PX8Key::O), 0),
        Keycode::X => (Some(PX8Key::X), 0),
        Keycode::V => (Some(PX8Key::X), 0),
        Keycode::M => (Some(PX8Key::X), 0),
        Keycode::F => (Some(PX8Key::Right), 1),
        Keycode::S => (Some(PX8Key::Left), 1),
        Keycode::E => (Some(PX8Key::Up), 1),
        Keycode::D => (Some(PX8Key::Down), 1),
        Keycode::LShift => (Some(PX8Key::O), 1),
        Keycode::Tab => (Some(PX8Key::O), 1),
        Keycode::A => (Some(PX8Key::X), 1),
        Keycode::Q => (Some(PX8Key::X), 1),
        Keycode::P => (Some(PX8Key::Pause), 0),
        Keycode::KpEnter => (Some(PX8Key::Enter), 0),
        _ => (None, 0),
    }
}

pub fn map_keycode(key: Keycode) -> (r: (Option<PX8Key>, u8))
    ensures
        r == spec_map_keycode(key),
        r.1 < 2,
{
    match key {
        Keycode::Right => (Some(PX8Key::Right), 0),
        Keycode::Left => (Some(PX8Key::Left), 0),
        Keycode::Up => (Some(PX8Key::Up), 0),
        Keycode::Down => (Some(PX8Key::Down), 0),
        Keycode::Z => (Some(PX8Key::O), 0),
        Keycode::C => (Some(PX8Key::O), 0),
        Keycode::N => (Some(PX8Key::O), 0),
        Keycode::X => (Some(PX8Key::X), 0),
        Keycode::V => (Some(PX8Key::X), 0),
        Keycode::M => (Some(PX8Key::X), 0),
        Keycode::F => (Some(PX8Key::Right), 1),
        Keycode::S => (Some(PX8Key::Left), 1),
        Keycode::E => (Some(PX8Key::Up), 1),
        Keycode::D => (Some(PX8Key::Down), 1),
        Keycode::LShift => (Some(PX8Key::O), 1),
        Keycode::Tab => (Some(PX8Key::O), 1),
        Keycode::A => (Some(PX8Key::X), 1),
        Keycode::Q => (Some(PX8Key::X), 1),
        Keycode::P => (Some(PX8Key::Pause), 0),
        Keycode::KpEnter => (Some(PX8Key::Enter), 0),
        _ => (None, 0),
    }
}

/// Digital controller buttons map to player 0: the directional pad to the
/// directions, A to O, B to X.
pub open spec fn spec_map_button(button: Button) -> Option<PX8Key> {
    match button {
        Button::DPadRight => Some(PX8Key::Right),
        Button::DPadLeft => Some(PX8Key::Left),
        Button::DPadUp => Some(PX8Key::Up),
        Button::DPadDown => Some(PX8Key::Down),
        Button::A => Some(PX8Key::O),
        Button::B => Some(PX8Key::X),
        Button::Other => None,
    }
}

pub fn map_button(button: Button) -> (r: Option<PX8Key>)
    ensures
        r == spec_map_button(button),
{
    match button {
        Button::DPadRight => Some(PX8Key::Right),
        Button::DPadLeft => Some(PX8Key::Left),
        Button::DPadUp => Some(PX8Key::Up),
        Button::DPadDown => Some(PX8Key::Down),
        Button::A => Some(PX8Key::O),
        Button::B => Some(PX8Key::X),
        Button::Other => None,
    }
}

/// Quantization of a signed 16-bit analog axis to a digital key and a
/// strong-press flag: the outer bands (magnitude at least 16384) are strong
/// presses, the inner bands soft presses; negative values are left/up,
/// non-negative are right/down.
pub open spec fn spec_map_axis(axis: Axis, value: i16) -> Option<(PX8Key, bool)> {
    match axis {
        Axis::LeftX => if value <= -16384 {
            Some((PX8Key::Left, true))
        } else if value <= -1 {
            Some((PX8Key::Left, false))
        } else if value <= 16383 {
            Some((PX8Key::Right, false))
        } else {
            Some((PX8Key::Right, true))
        },
        Axis::LeftY => if value <= -16384 {
            Some((PX8Key::Up, true))
        } else if value <= -1 {
            Some((PX8Key::Up, false))
        } else if value <= 16383 {
            Some((PX8Key::Down, false))
        } else {
            Some((PX8Key::Down, true))
        },
        Axis::Other => None,
    }
}

pub fn map_axis(axis: Axis, value: i16) -> (r: Option<(PX8Key, bool)>)
    ensures
        r == spec_map_axis(axis, value),
{
    match axis {
        Axis::LeftX => if value <= -16384 {
            Some((PX8Key::Left, true))
        } else if value <= -1 {
            Some((PX8Key::Left, false))
        } else if value <= 16383 {
            Some((PX8Key::Right, false))
        } else {
            Some((PX8Key::Right, true))
        },
        Axis::LeftY => if value <= -16384 {
            Some((PX8Key::Up, true))
        } else if value <= -1 {
            Some((PX8Key::Up, false))
        } else if value <= 16383 {
            Some((PX8Key::Down, false))
        } else {
            Some((PX8Key::Down, true))
        },
        Axis::Other => None,
    }
}

/// The horizontal axis bands: the whole lower band is a strong left press,
/// the whole upper band a strong right press, and no value ever maps to left
/// and right at once (left exactly when negative, right exactly when not).
pub proof fn lemma_map_axis_bands(v: i16)
    ensures
        -32768 <= v <= -16384 ==> spec_map_axis(Axis::LeftX, v) == Some((PX8Key::Left, true)),
        16384 <= v <= 32767 ==> spec_map_axis(Axis::LeftX, v) == Some((PX8Key::Right, true)),
        (spec_map_axis(Axis::LeftX, v) matches Some(kv) && kv.0 == PX8Key::Left) <==> v < 0,
        (spec_map_axis(Axis::LeftX, v) matches Some(kv) && kv.0 == PX8Key::Right) <==> v >= 0,
{
}

} // verus!
