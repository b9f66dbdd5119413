//! Event routing, hotkeys and the frame lifecycle, with the engine stubbed.

use px8_frontend::FrontendError;
use px8_frontend::input::Axis;
use px8_frontend::input::Keycode;
use px8_frontend::players::Players;
use px8_frontend::router::Action;
use px8_frontend::router::EngineState;
use px8_frontend::router::Event;
use px8_frontend::router::FrameOp;
use px8_frontend::router::MainLoop;
use px8_frontend::router::frame_decision;
use px8_frontend::router::rescale_mouse;
use px8_frontend::stamp::DateStamp;

fn stamp() -> DateStamp {
    DateStamp { year: 2024, month: 1, day: 2, hour: 3, minute: 4, second: 5 }
}

#[test]
fn keyboard_press_reaches_slot_o() {
    let mut m = MainLoop::new(0, false, 4);
    let mut players = Players::new();
    // One second of session time has passed when the key arrives.
    m.update_time(&mut players, 1_000_000_000);
    assert_eq!(m.elapsed_ms, 1000);
    let ev = Event::KeyDown { keycode: Keycode::Z, repeat: false };
    let out = m.route_event(&mut players, &ev, false, &stamp());
    assert_eq!(players.get_value_quick(0, 4), 1);
    assert_eq!(players.p0.o.t_pressed, 1000);
    assert!(!out.quit);
    assert!(!out.pause);
    assert_eq!(out.action, None);
}

#[test]
fn pause_key_requests_pause_exactly_once() {
    let m = MainLoop::new(0, false, 4);
    let mut players = Players::new();
    let ev = Event::KeyDown { keycode: Keycode::P, repeat: false };
    let mut pause_calls = 0u32;
    let mut engine_state = EngineState::RUN;
    let out = m.route_event(&mut players, &ev, false, &stamp());
    if out.pause {
        // The loop asks the engine to pause; the stub switches its state.
        pause_calls += 1;
        engine_state = EngineState::PAUSE;
    }
    assert_eq!(pause_calls, 1);
    assert_eq!(engine_state, EngineState::PAUSE);
    // The next frame runs the pause branch.
    let op = frame_decision(&players, engine_state, false, false);
    assert!(matches!(op, FrameOp::Pause { .. }));
}

#[test]
fn analog_right_hold_then_center_snap() {
    let m = MainLoop::new(0, false, 4);
    let mut players = Players::new();
    let hold = Event::ControllerAxisMotion { axis: Axis::LeftX, value: 30000 };
    m.route_event(&mut players, &hold, false, &stamp());
    assert_eq!(players.get_value_quick(0, 1), 1);
    let snap = Event::ControllerAxisMotion { axis: Axis::LeftX, value: 128 };
    m.route_event(&mut players, &snap, false, &stamp());
    assert_eq!(players.get_value_quick(0, 0), 0);
    assert_eq!(players.get_value_quick(0, 1), 0);
}

#[test]
fn vertical_center_snap() {
    let m = MainLoop::new(0, false, 4);
    let mut players = Players::new();
    let hold = Event::ControllerAxisMotion { axis: Axis::LeftY, value: -20000 };
    m.route_event(&mut players, &hold, false, &stamp());
    assert_eq!(players.get_value_quick(0, 2), 1);
    let snap = Event::ControllerAxisMotion { axis: Axis::LeftY, value: -129 };
    m.route_event(&mut players, &snap, false, &stamp());
    assert_eq!(players.get_value_quick(0, 2), 0);
    assert_eq!(players.get_value_quick(0, 3), 0);
}

#[test]
fn soft_axis_band_releases() {
    let m = MainLoop::new(0, false, 4);
    let mut players = Players::new();
    let hold = Event::ControllerAxisMotion { axis: Axis::LeftX, value: 20000 };
    m.route_event(&mut players, &hold, false, &stamp());
    assert_eq!(players.get_value_quick(0, 1), 1);
    // A soft (inner-band) reading releases the key.
    let soft = Event::ControllerAxisMotion { axis: Axis::LeftX, value: 4000 };
    m.route_event(&mut players, &soft, false, &stamp());
    assert_eq!(players.get_value_quick(0, 1), 0);
}

#[test]
fn escape_quits_the_loop() {
    let m = MainLoop::new(0, false, 4);
    let mut players = Players::new();
    let ev = Event::KeyDown { keycode: Keycode::Escape, repeat: false };
    let out = m.route_event(&mut players, &ev, false, &stamp());
    assert!(out.quit);
    assert_eq!(out.action, None);
    let out = m.route_event(&mut players, &Event::Quit, false, &stamp());
    assert!(out.quit);
    // A loop harness breaks on the quit flag: no further frames run.
    let mut frames = 0u32;
    for _ in 0..10 {
        frames += 1;
        if out.quit {
            break;
        }
    }
    assert_eq!(frames, 1);
}

#[test]
fn f3_screenshot_at_known_wall_clock() {
    let m = MainLoop::new(0, false, 4);
    let mut players = Players::new();
    let ev = Event::KeyDown { keycode: Keycode::F3, repeat: false };
    let mut screenshots: Vec<String> = Vec::new();
    let out = m.route_event(&mut players, &ev, false, &stamp());
    match out.action {
        Some(Action::Screenshot(name)) => screenshots.push(name),
        other => panic!("expected a screenshot action, got {:?}", other),
    }
    assert_eq!(screenshots, vec!["screenshot-2024-01-02-03-04-05.png".to_string()]);
}

#[test]
fn f4_toggles_recording() {
    let m = MainLoop::new(0, false, 7);
    let mut players = Players::new();
    let ev = Event::KeyDown { keycode: Keycode::F4, repeat: false };
    let out = m.route_event(&mut players, &ev, false, &stamp());
    assert_eq!(out.action, Some(Action::StartRecord("record-2024-01-02-03-04-05.gif".to_string())));
    let out = m.route_event(&mut players, &ev, true, &stamp());
    assert_eq!(out.action, Some(Action::StopRecord(7)));
}

#[test]
fn editor_hotkeys_need_editor_mode() {
    let mut players = Players::new();
    let f5 = Event::KeyDown { keycode: Keycode::F5, repeat: false };
    let f6 = Event::KeyDown { keycode: Keycode::F6, repeat: false };
    let plain = MainLoop::new(0, false, 4);
    assert_eq!(plain.route_event(&mut players, &f5, false, &stamp()).action, None);
    assert_eq!(plain.route_event(&mut players, &f6, false, &stamp()).action, None);
    let editor = MainLoop::new(0, true, 4);
    assert_eq!(
        editor.route_event(&mut players, &f5, false, &stamp()).action,
        Some(Action::SaveCartridge("2024-01-02-03-04-05".to_string()))
    );
    assert_eq!(editor.route_event(&mut players, &f6, false, &stamp()).action, Some(Action::SwitchCode));
}

#[test]
fn f2_toggles_overlay_and_resize_rescales() {
    let m = MainLoop::new(0, false, 4);
    let mut players = Players::new();
    let f2 = Event::KeyDown { keycode: Keycode::F2, repeat: false };
    assert_eq!(m.route_event(&mut players, &f2, false, &stamp()).action, Some(Action::ToggleInfoOverlay));
    let resize = Event::WindowSizeChanged;
    assert_eq!(m.route_event(&mut players, &resize, false, &stamp()).action, Some(Action::UpdateDimensions));
}

#[test]
fn frame_decision_branches() {
    let mut players = Players::new();
    assert_eq!(frame_decision(&players, EngineState::RUN, true, false), FrameOp::Quit);
    assert_eq!(
        frame_decision(&players, EngineState::RUN, false, true),
        FrameOp::Run { record: true }
    );
    players.key_down(0, px8_frontend::PX8Key::Up, false, 0);
    players.key_down(0, px8_frontend::PX8Key::Enter, false, 0);
    assert_eq!(
        frame_decision(&players, EngineState::PAUSE, false, false),
        FrameOp::Pause { enter: true, up: true, down: false }
    );
}

#[test]
fn route_event_now_reads_the_real_clock() {
    // Exercises the trusted wall-clock read: the screenshot name must carry a
    // stamp from the clock, not an echo of anything the caller passed.
    let m = MainLoop::new(0, false, 4);
    let mut players = Players::new();
    let ev = Event::KeyDown { keycode: Keycode::F3, repeat: false };
    let out = m.route_event_now(&mut players, &ev, false);
    match out.action {
        Some(Action::Screenshot(name)) => {
            assert!(name.starts_with("screenshot-"));
            assert!(name.ends_with(".png"));
            // "screenshot-" + "YYYY-MM-DD-HH-MM-SS" + ".png"
            assert_eq!(name.len(), 11 + 19 + 4);
        },
        other => panic!("expected a screenshot action, got {:?}", other),
    }
}

#[test]
fn sixty_ticks_of_the_loop_body_pace_one_second() {
    // A mock clock that never advances: every frame is instantaneous.
    let mut m = MainLoop::new(0, false, 4);
    let mut players = Players::new();
    let mut sleep_requests = 0u32;
    let mut total_sleep: u64 = 0;
    for _ in 0..60 {
        m.begin_frame(0);
        let op = frame_decision(&players, EngineState::RUN, false, false);
        assert_eq!(op, FrameOp::Run { record: false });
        m.update_time(&mut players, 0);
        total_sleep += m.times.limit(0);
        sleep_requests += 1;
    }
    assert_eq!(sleep_requests, 60);
    assert!(total_sleep >= 1_000_000_000);
}

#[test]
fn mouse_rescaling() {
    assert_eq!(rescale_mouse(256, 128, 512), 64);
    assert_eq!(rescale_mouse(0, 128, 512), 0);
    assert_eq!(rescale_mouse(512, 128, 512), 128);
    assert_eq!(rescale_mouse(100, 128, 384), 33);
}

#[test]
fn frontend_error_from_string() {
    let e = FrontendError::from("boom".to_string());
    assert!(matches!(e, FrontendError::Other(ref s) if s == "boom"));
    let e = FrontendError::Sdl("init".to_string());
    assert!(matches!(e, FrontendError::Sdl(_)));
    let e = FrontendError::Renderer("window".to_string());
    assert!(matches!(e, FrontendError::Renderer(_)));
}
