//! Host front-end core of a fantasy-console runtime.
//!
//! The front-end owns a fixed-rate frame clock, normalizes platform input
//! events into a canonical eight-key console key space, keeps the
//! authoritative two-player key state that the embedded console engine reads,
//! and decides, frame by frame, which engine and renderer operations to run.
//! Everything that touches the operating system (window, events, sleeping,
//! the engine itself) stays outside; this crate holds the decision logic.

use vstd::prelude::*;

pub mod clock;
pub mod fps;
pub mod input;
pub mod players;
pub mod router;
pub mod stamp;

verus! {

/// The canonical console key space: four directions, two action buttons,
/// pause and enter.
#[derive(Clone, Copy, PartialEq, Eq, Hash, Debug, Structural)]
pub enum PX8Key {
    Right,
    Left,
    Up,
    Down,
    O,
    X,
    Pause,
    Enter,
}

impl PX8Key {
    /// Upper-case label of the key, as shown in diagnostics.
    pub fn label(&self) -> (r: &'static str)
        ensures
            r@ == self.spec_label(),
    {
        proof {
            reveal_strlit("RIGHT");
            reveal_strlit("LEFT");
            reveal_strlit("UP");
            reveal_strlit("DOWN");
            reveal_strlit("O");
            reveal_strlit("X");
            reveal_strlit("Pause");
            reveal_strlit("Enter");
        }
        match *self {
            PX8Key::Right => "RIGHT",
            PX8Key::Left => "LEFT",
            PX8Key::Up => "UP",
            PX8Key::Down => "DOWN",
            PX8Key::O => "O",
            PX8Key::X => "X",
            PX8Key::Pause => "Pause",
            PX8Key::Enter => "Enter",
        }
    }

    pub open spec fn spec_label(self) -> Seq<char> {
        match self {
            PX8Key::Right => "RIGHT"@,
            PX8Key::Left => "LEFT"@,
            PX8Key::Up => "UP"@,
            PX8Key::Down => "DOWN"@,
            PX8Key::O => "O"@,
            PX8Key::X => "X"@,
            PX8Key::Pause => "Pause"@,
            PX8Key::Enter => "Enter"@,
        }
    }
}

/// Errors surfaced while bringing the platform front-end up.
#[derive(Clone, Debug)]
pub enum FrontendError {
    Sdl(String),
    Renderer(String),
    Other(String),
}

pub type FrontendResult<T> = Result<T, FrontendError>;

impl From<String> for FrontendError {
    fn from(e: String) -> (r: FrontendError) {
        FrontendError::Other(e)
    }
}

impl vstd::std_specs::convert::FromSpecImpl<String> for FrontendError {
    open spec fn obeys_from_spec() -> bool {
        true
    }

    open spec fn from_spec(t: String) -> FrontendError {
        FrontendError::Other(t)
    }
}

} // verus!
