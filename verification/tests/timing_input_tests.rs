use hyperterm_video::fps::{FpsCounter, FrameTimer};
use hyperterm_video::input::{InputAction, InputEvent, InputHandler, KeyPress};
use std::sync::atomic::Ordering;

#[test]
fn fps_window_keeps_recent_frames() {
    let mut c = FpsCounter::new(3);
    assert!(c.sample_span().is_none());
    c.tick();
    assert!(c.sample_span().is_none());
    for _ in 0..5 {
        c.tick();
    }
    let (n, first, last) = c.sample_span().unwrap();
    assert_eq!(n, 2);
    assert!(first <= last);
}

#[test]
fn fps_zero_window_keeps_nothing() {
    let mut c = FpsCounter::new(0);
    c.tick();
    c.tick();
    assert!(c.sample_span().is_none());
}

#[test]
fn frame_wait_is_rest_of_target() {
    assert_eq!(FrameTimer::sleep_for(Some(16_666), 1_000), Some(16_665_000));
    assert_eq!(FrameTimer::sleep_for(Some(16_666), 16_666_000), None);
    assert_eq!(FrameTimer::sleep_for(Some(16_666), 20_000_000), None);
    assert_eq!(FrameTimer::sleep_for(None, 0), None);
}

#[test]
fn fps_limit_sets_target() {
    let mut t = FrameTimer::new();
    assert!(t.pending_wait().is_none());
    t.set_fps_limit(60);
    if let Some(w) = t.pending_wait() {
        assert!(w > 0 && w <= 16_666_000);
    }
    t.set_fps_limit(1);
    t.mark_frame();
    let w = t.pending_wait().unwrap();
    assert!(w > 900_000_000 && w <= 1_000_000_000);
    t.set_fps_limit(0);
    assert!(t.pending_wait().is_none());
    let _ = t.frame_time();
}

#[test]
fn keys_map_to_commands() {
    assert!(matches!(InputHandler::handle_key(KeyPress::Char(' ')), Some(InputEvent::Pause)));
    assert!(matches!(InputHandler::handle_key(KeyPress::Char('Q')), Some(InputEvent::Quit)));
    assert!(matches!(InputHandler::handle_key(KeyPress::Left), Some(InputEvent::SeekBackward)));
    assert!(matches!(InputHandler::handle_key(KeyPress::Right), Some(InputEvent::SeekForward)));
    assert!(matches!(InputHandler::handle_key(KeyPress::Up), Some(InputEvent::VolumeUp)));
    assert!(matches!(InputHandler::handle_key(KeyPress::Down), Some(InputEvent::VolumeDown)));
    assert!(matches!(InputHandler::handle_key(KeyPress::Char('f')), Some(InputEvent::ToggleFps)));
    assert!(matches!(InputHandler::handle_key(KeyPress::Char('C')), Some(InputEvent::CycleColorMode)));
    assert!(matches!(InputHandler::handle_key(KeyPress::Char('r')), Some(InputEvent::CycleRenderMode)));
    assert!(matches!(InputHandler::handle_key(KeyPress::Char('M')), Some(InputEvent::OpenMenu)));
    assert!(InputHandler::handle_key(KeyPress::Char('x')).is_none());
    assert!(InputHandler::handle_key(KeyPress::Enter).is_none());
}

#[test]
fn pause_flag_is_shared() {
    let h = InputHandler::new();
    assert!(!h.is_paused());
    let flag = h.pause_flag();
    flag.store(true, Ordering::Relaxed);
    assert!(h.is_paused());
}

#[test]
fn commands_become_thread_actions() {
    assert!(matches!(InputHandler::action_for(InputEvent::Pause), InputAction::SetPaused(true)));
    assert!(matches!(InputHandler::action_for(InputEvent::Resume), InputAction::SetPaused(false)));
    assert!(matches!(InputHandler::action_for(InputEvent::Quit), InputAction::Stop));
    assert!(matches!(InputHandler::action_for(InputEvent::VolumeUp), InputAction::Forward(InputEvent::VolumeUp)));
    assert!(matches!(InputHandler::action_for(InputEvent::OpenMenu), InputAction::Forward(InputEvent::OpenMenu)));
}
