//! Per-frame orchestration: event routing, hotkeys, lifecycle decisions.
//!
//! The platform loop outside this crate reads the clock, drains the window
//! events and talks to the engine and the renderer; every decision in
//! between is made here. One frame runs: `begin_frame`, mouse write-back,
//! `route_event` for each drained event, `frame_decision` on the engine
//! state, `update_time`, then the blit and a sleep of `times.limit(now)`.

use crate::clock::FRAME_DURATION_NS;
use crate::clock::FrameTimes;
use crate::fps::FpsCounter;
use crate::input::Axis;
use crate::input::Button;
use crate::input::Keycode;
use crate::input::map_axis;
use crate::input::map_button;
use crate::input::map_keycode;
use crate::input::spec_map_axis;
use crate::input::spec_map_button;
use crate::input::spec_map_keycode;
use crate::players::Players;
use crate::stamp::DateStamp;
use crate::stamp::local_now;
use crate::stamp::record_name;
use crate::stamp::record_name_seq;
use crate::stamp::screenshot_name;
use crate::stamp::screenshot_name_seq;
use crate::stamp::stamp_seq;
use crate::stamp::stamp_string;
use vstd::prelude::*;

verus! {

/// A platform event, as plain values.
#[derive(Clone, Copy, PartialEq, Eq, Structural, Debug)]
pub enum Event {
    Quit,
    KeyDown { keycode: Keycode, repeat: bool },
    KeyUp { keycode: Keycode },
    WindowSizeChanged,
    ControllerButtonDown { button: Button },
    ControllerButtonUp { button: Button },
    ControllerAxisMotion { axis: Axis, value: i16 },
    Other,
}

/// An engine or renderer operation the loop must run for an event.
#[derive(Clone, PartialEq, Eq, Debug)]
pub enum Action {
    UpdateDimensions,
    ToggleInfoOverlay,
    Screenshot(String),
    StartRecord(String),
    StopRecord(u32),
    SaveCartridge(String),
    SwitchCode,
}

/// The mathematical value of an `Action`: names as character sequences.
pub enum ActionV {
    UpdateDimensions,
    ToggleInfoOverlay,
    Screenshot(Seq<char>),
    StartRecord(Seq<char>),
    StopRecord(u32),
    SaveCartridge(Seq<char>),
    SwitchCode,
}

impl View for Action {
    type V = ActionV;

    open spec fn view(&self) -> ActionV {
        match self {
            Action::UpdateDimensions => ActionV::UpdateDimensions,
            Action::ToggleInfoOverlay => ActionV::ToggleInfoOverlay,
            Action::Screenshot(s) => ActionV::Screenshot(s@),
            Action::StartRecord(s) => ActionV::StartRecord(s@),
            Action::StopRecord(f) => ActionV::StopRecord(*f),
            Action::SaveCartridge(s) => ActionV::SaveCartridge(s@),
            Action::SwitchCode => ActionV::SwitchCode,
        }
    }
}

pub open spec fn opt_action_view(a: Option<Action>) -> Option<ActionV> {
    match a {
        Some(x) => Some(x@),
        None => None,
    }
}

/// What one drained event asks of the loop.
pub struct EventOutcome {
    pub quit: bool,
    pub action: Option<Action>,
    pub pause: bool,
}

/// The engine lifecycle discriminator the front-end observes.
#[derive(Clone, Copy, PartialEq, Eq, Structural, Debug)]
pub enum EngineState {
    RUN,
    PAUSE,
}

/// The engine work owed in one frame.
#[derive(Clone, Copy, PartialEq, Eq, Structural, Debug)]
pub enum FrameOp {
    Quit,
    Pause { enter: bool, up: bool, down: bool },
    Run { record: bool },
}

/// How an event changes the players' key state, given the session time in
/// milliseconds used as the press timestamp.
pub open spec fn spec_route_players(p: Players, ev: Event, elapsed: u64) -> Players {
    match ev {
        Event::KeyDown { keycode, repeat } => match spec_map_keycode(keycode) {
            (Some(key), player) => p.spec_key_down(player as int, key, repeat, elapsed),
            (None, _) => p,
        },
        Event::KeyUp { keycode } => match spec_map_keycode(keycode) {
            (Some(key), player) => p.spec_key_up(player as int, key),
            (None, _) => p,
        },
        Event::ControllerButtonDown { button } => match spec_map_button(button) {
            Some(key) => p.spec_key_down(0, key, false, elapsed),
            None => p,
        },
        Event::ControllerButtonUp { button } => match spec_map_button(button) {
            Some(key) => p.spec_key_up(0, key),
            None => p,
        },
        Event::ControllerAxisMotion { axis, value } => match spec_map_axis(axis, value) {
            Some((key, strong)) => if axis == Axis::LeftX && value == 128 {
                p.spec_hor_up(0)
            } else if axis == Axis::LeftY && value == -129 {
                p.spec_ver_up(0)
            } else if strong {
                p.spec_key_down(0, key, false, elapsed)
            } else {
                p.spec_key_up(0, key)
            },
            None => p,
        },
        _ => p,
    }
}

/// Whether an event ends the loop: a quit request, or the escape key.
pub open spec fn spec_quit(ev: Event) -> bool {
    match ev {
        Event::Quit => true,
        Event::KeyDown { keycode, .. } => keycode == Keycode::Escape,
        _ => false,
    }
}

/// Whether the event leaves the pause key of player 0 held, which asks the
/// engine to pause. Checked on every key press except escape.
pub open spec fn spec_pause_requested(p: Players, ev: Event, elapsed: u64) -> bool {
    match ev {
        Event::KeyDown { keycode, .. } => keycode != Keycode::Escape && spec_route_players(
            p,
            ev,
            elapsed,
        ).p0.pause.pressed,
        _ => false,
    }
}

/// The hotkey or window action an event asks for: overlay toggle on F2,
/// screenshot on F3, record start/stop on F4, editor save on F5, editor
/// hot-reload on F6, renderer rescale on a window resize.
pub open spec fn spec_action(
    ev: Event,
    editor: bool,
    is_recording: bool,
    scale_factor: u32,
    stamp: DateStamp,
) -> Option<ActionV> {
    match ev {
        Event::WindowSizeChanged => Some(ActionV::UpdateDimensions),
        Event::KeyDown { keycode, .. } => if keycode == Keycode::F2 {
            Some(ActionV::ToggleInfoOverlay)
        } else if keycode == Keycode::F3 {
            Some(ActionV::Screenshot(screenshot_name_seq(stamp)))
        } else if keycode == Keycode::F4 {
            if !is_recording {
                Some(ActionV::StartRecord(record_name_seq(stamp)))
            } else {
                Some(ActionV::StopRecord(scale_factor))
            }
        } else if keycode == Keycode::F5 && editor {
            Some(ActionV::SaveCartridge(stamp_seq(stamp)))
        } else if keycode == Keycode::F6 && editor {
            Some(ActionV::SwitchCode)
        } else {
            None
        },
        _ => None,
    }
}

/// Everything `route_event` promises of one drained event, with `p0` the
/// players' state before and `p1` after.
pub open spec fn spec_outcome_ok(
    m: MainLoop,
    p0: Players,
    p1: Players,
    ev: Event,
    is_recording: bool,
    r: EventOutcome,
    stamp: DateStamp,
) -> bool {
    &&& p1 == spec_route_players(p0, ev, m.elapsed_ms)
    &&& r.quit == spec_quit(ev)
    &&& r.pause == spec_pause_requested(p0, ev, m.elapsed_ms)
    &&& opt_action_view(r.action) == spec_action(
        ev,
        m.editor,
        is_recording,
        m.scale_factor,
        stamp,
    )
}

/// The loop-owned state: the frame clock, the frame-rate counter and the
/// session clock, plus the loop's fixed parameters.
pub struct MainLoop {
    pub times: FrameTimes,
    pub fps_counter: FpsCounter,
    pub start_time: u64,
    pub elapsed_ms: u64,
    pub editor: bool,
    pub scale_factor: u32,
}

impl MainLoop {
    pub fn new(now: u64, editor: bool, scale_factor: u32) -> (r: MainLoop)
        requires
            now + FRAME_DURATION_NS <= u64::MAX,
        ensures
            r.times.frame_duration == FRAME_DURATION_NS,
            r.times.last_time == now,
            r.times.target_time == now + FRAME_DURATION_NS,
            r.fps_counter.fps == 0,
            r.fps_counter.frame_count == 0,
            r.fps_counter.window_start == now,
            r.start_time == now,
            r.elapsed_ms == 0,
            r.editor == editor,
            r.scale_factor == scale_factor,
    {
        MainLoop {
            times: FrameTimes::new(FRAME_DURATION_NS, now),
            fps_counter: FpsCounter::new(now),
            start_time: now,
            elapsed_ms: 0,
            editor,
            scale_factor,
        }
    }

    /// Start a frame at instant `now`: measure the delta, advance the
    /// nominal schedule and count the frame. Returns the delta in
    /// nanoseconds and the frame rate to publish to the engine.
    pub fn begin_frame(&mut self, now: u64) -> (r: (u64, u32))
        requires
            now >= old(self).times.last_time,
            old(self).times.target_time + old(self).times.frame_duration <= u64::MAX,
            old(self).fps_counter.frame_count < u32::MAX,
        ensures
            final(self).times == old(self).times.spec_update(now),
            final(self).fps_counter == old(self).fps_counter.spec_update(now),
            final(self).start_time == old(self).start_time,
            final(self).elapsed_ms == old(self).elapsed_ms,
            final(self).editor == old(self).editor,
            final(self).scale_factor == old(self).scale_factor,
            r.0 == now - old(self).times.last_time,
            r.1 == final(self).fps_counter.fps,
    {
        let delta = self.times.update(now);
        self.fps_counter.update(now);
        let fps = self.fps_counter.get_fps();
        (delta, fps)
    }

    /// Advance the session clock to instant `now` and run the players'
    /// auto-repeat at the new session time.
    pub fn update_time(&mut self, players: &mut Players, now: u64)
        requires
            now >= old(self).start_time,
        ensures
            final(self).elapsed_ms == (now - old(self).start_time) / 1000000,
            *final(self) == (MainLoop { elapsed_ms: final(self).elapsed_ms, ..*old(self) }),
            *final(players) == old(players).spec_update(final(self).elapsed_ms),
            old(players).wf() ==> final(players).wf(),
    {
        let elapsed_ms = (now - self.start_time) / 1000000;
        self.elapsed_ms = elapsed_ms;
        players.update(elapsed_ms);
    }

    /// Route one drained event, with `stamp` the wall-clock time any file
    /// name is derived from: update the players' key state, and report the
    /// quit flag, the hotkey action owed and whether a pause is requested.
    pub fn route_event(
        &self,
        players: &mut Players,
        ev: &Event,
        is_recording: bool,
        stamp: &DateStamp,
    ) -> (r: EventOutcome)
        requires
            stamp.wf(),
        ensures
            spec_outcome_ok(*self, *old(players), *final(players), *ev, is_recording, r, *stamp),
            old(players).wf() ==> final(players).wf(),
    {
        match *ev {
            Event::Quit => EventOutcome { quit: true, action: None, pause: false },
            Event::KeyDown { keycode, repeat } => {
                if let Keycode::Escape = keycode {
                    return EventOutcome { quit: true, action: None, pause: false };
                }
                let (mapped, player) = map_keycode(keycode);
                if let Some(key) = mapped {
                    players.key_down(player, key, repeat, self.elapsed_ms);
                }
                let action = match keycode {
                    Keycode::F2 => Some(Action::ToggleInfoOverlay),
                    Keycode::F3 => Some(Action::Screenshot(screenshot_name(stamp))),
                    Keycode::F4 => {
                        if !is_recording {
                            Some(Action::StartRecord(record_name(stamp)))
                        } else {
                            Some(Action::StopRecord(self.scale_factor))
                        }
                    },
                    Keycode::F5 => {
                        if self.editor {
                            Some(Action::SaveCartridge(stamp_string(stamp)))
                        } else {
                            None
                        }
                    },
                    Keycode::F6 => {
                        if self.editor {
                            Some(Action::SwitchCode)
                        } else {
                            None
                        }
                    },
                    _ => None,
                };
                let pause = players.get_value_quick(0, 7) == 1;
                EventOutcome { quit: false, action, pause }
            },
            Event::KeyUp { keycode } => {
                let (mapped, player) = map_keycode(keycode);
                if let Some(key) = mapped {
                    players.key_up(player, key);
                }
                EventOutcome { quit: false, action: None, pause: false }
            },
            Event::WindowSizeChanged => EventOutcome {
                quit: false,
                action: Some(Action::UpdateDimensions),
                pause: false,
            },
            Event::ControllerButtonDown { button } => {
                if let Some(key) = map_button(button) {
                    players.key_down(0, key, false, self.elapsed_ms);
                }
                EventOutcome { quit: false, action: None, pause: false }
            },
            Event::ControllerButtonUp { button } => {
                if let Some(key) = map_button(button) {
                    players.key_up(0, key);
                }
                EventOutcome { quit: false, action: None, pause: false }
            },
            Event::ControllerAxisMotion { axis, value } => {
                if let Some((key, strong)) = map_axis(axis, value) {
                    if axis == Axis::LeftX && value == 128 {
                        players.key_direc_hor_up(0);
                    } else if axis == Axis::LeftY && value == -129 {
                        players.key_direc_ver_up(0);
                    } else if strong {
                        players.key_down(0, key, false, self.elapsed_ms);
                    } else {
                        players.key_up(0, key);
                    }
                }
                EventOutcome { quit: false, action: None, pause: false }
            },
            Event::Other => EventOutcome { quit: false, action: None, pause: false },
        }
    }

    /// `route_event` at the wall-clock time of the call: what holds of the
    /// outcome holds for some well-formed stamp, read from the local clock.
    pub fn route_event_now(&self, players: &mut Players, ev: &Event, is_recording: bool) -> (r:
        EventOutcome)
        ensures
            exists|stamp: DateStamp|
                stamp.wf() && #[trigger] spec_outcome_ok(
                    *self,
                    *old(players),
                    *final(players),
                    *ev,
                    is_recording,
                    r,
                    stamp,
                ),
            old(players).wf() ==> final(players).wf(),
    {
        let stamp = local_now();
        let r = self.route_event(players, ev, is_recording, &stamp);
        proof {
            assert(spec_outcome_ok(*self, *old(players), *players, *ev, is_recording, r, stamp));
        }
        r
    }
}

/// The decision at the engine-tick point of the frame: quit when a running
/// engine reports its end; hand a paused engine the pause-menu keys of
/// player 0 (enter, up, down); otherwise run the frame, recording it when a
/// recording is on.
pub open spec fn spec_frame_decision(
    p: Players,
    state: EngineState,
    is_end: bool,
    is_recording: bool,
) -> FrameOp {
    match state {
        EngineState::PAUSE => FrameOp::Pause {
            enter: p.p0.enter.pressed,
            up: p.p0.up.pressed,
            down: p.p0.down.pressed,
        },
        EngineState::RUN => if is_end {
            FrameOp::Quit
        } else {
            FrameOp::Run { record: is_recording }
        },
    }
}

pub fn frame_decision(players: &Players, state: EngineState, is_end: bool, is_recording: bool) -> (r:
    FrameOp)
    ensures
        r == spec_frame_decision(*players, state, is_end, is_recording),
{
    match state {
        EngineState::PAUSE => {
            let up = players.get_value_quick(0, 2) == 1;
            let down = players.get_value_quick(0, 3) == 1;
            let enter = players.get_value_quick(0, 6) == 1;
            FrameOp::Pause { enter, up, down }
        },
        EngineState::RUN => {
            if is_end {
                FrameOp::Quit
            } else {
                FrameOp::Run { record: is_recording }
            }
        },
    }
}

/// Mouse coordinates are rescaled from window space to console space:
/// `raw * screen_dim / win_dim`, in integer arithmetic.
pub fn rescale_mouse(raw: i32, screen_dim: u32, win_dim: u32) -> (r: i32)
    requires
        win_dim > 0,
        0 <= raw <= win_dim,
        screen_dim <= i32::MAX,
    ensures
        r == raw * screen_dim / (win_dim as int),
{
    proof {
        assert(0 <= raw * screen_dim <= win_dim * screen_dim) by (nonlinear_arith)
            requires
                0 <= raw <= win_dim,
                0 <= screen_dim,
        ;
        assert(win_dim * screen_dim <= i64::MAX) by (nonlinear_arith)
            requires
                0 <= win_dim <= u32::MAX,
                0 <= screen_dim <= i32::MAX,
        ;
    }
    let wide = (raw as i64) * (screen_dim as i64);
    let q = wide / (win_dim as i64);
    proof {
        assert(0 <= q <= screen_dim) by (nonlinear_arith)
            requires
                q == raw * screen_dim / (win_dim as int),
                0 <= raw * screen_dim <= win_dim * screen_dim,
                win_dim > 0,
                0 <= screen_dim,
        ;
    }
    q as i32
}

} // verus!
