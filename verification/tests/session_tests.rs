use termcam::session::{step, watcher_resolve, Action, Event, SessionState, WatcherState};

#[test]
fn running_poll_clear_draws_a_frame() {
    let (s, a) = step(SessionState::Running, Event::Poll { cancelled: false });
    assert_eq!(s, SessionState::Running);
    assert_eq!(a, Action::DrawFrame);
}

#[test]
fn running_poll_cancelled_restores() {
    let (s, a) = step(SessionState::Running, Event::Poll { cancelled: true });
    assert_eq!(s, SessionState::Restored);
    assert_eq!(a, Action::Restore);
}

#[test]
fn frame_failure_restores() {
    let (s, a) = step(SessionState::Running, Event::FrameFailed);
    assert_eq!(s, SessionState::Restored);
    assert_eq!(a, Action::Restore);
}

#[test]
fn finished_session_never_acts_again() {
    for e in [
        Event::Poll { cancelled: false },
        Event::Poll { cancelled: true },
        Event::FrameFailed,
    ] {
        let (s, a) = step(SessionState::Restored, e);
        assert_eq!(s, SessionState::Restored);
        assert_eq!(a, Action::Idle);
    }
}

#[test]
fn cancellation_mid_run_restores_exactly_once() {
    // Two clean iterations, then the flag is seen set; the run draws two
    // whole frames, restores the terminal once, and does nothing after.
    let events = vec![
        Event::Poll { cancelled: false },
        Event::Poll { cancelled: false },
        Event::Poll { cancelled: true },
        Event::Poll { cancelled: false },
        Event::FrameFailed,
    ];
    let mut state = SessionState::Running;
    let mut actions = Vec::new();
    for e in events {
        let (s, a) = step(state, e);
        state = s;
        actions.push(a);
    }
    let restores = actions.iter().filter(|a| matches!(a, Action::Restore)).count();
    let frames = actions.iter().filter(|a| matches!(a, Action::DrawFrame)).count();
    assert_eq!(restores, 1);
    assert_eq!(frames, 2);
    assert_eq!(state, SessionState::Restored);
    assert_eq!(actions[3], Action::Idle);
    assert_eq!(actions[4], Action::Idle);
}

#[test]
fn watcher_signals_on_successful_read() {
    let (w, flag) = watcher_resolve(true);
    assert_eq!(w, WatcherState::Signaled);
    assert!(flag);
}

#[test]
fn watcher_stops_silently_on_read_error() {
    let (w, flag) = watcher_resolve(false);
    assert_eq!(w, WatcherState::Stopped);
    assert!(!flag);
}
