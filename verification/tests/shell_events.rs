use refix::shell::{update, Action, AppEvent, AppState};
use refix::shortcuts::ShortcutEvent;

fn state(enabled: bool, openai_connected: bool) -> AppState {
    AppState { enabled, openai_connected }
}

#[test]
fn startup_state_is_disabled() {
    assert_eq!(AppState::initial(true), state(false, true));
    assert_eq!(AppState::initial(false), state(false, false));
}

#[test]
fn enable_and_disable_only_move_the_flag() {
    let mut s = state(false, true);
    assert_eq!(update(&mut s, AppEvent::Enable), Action::Idle);
    assert_eq!(s, state(true, true));
    assert_eq!(update(&mut s, AppEvent::Disable), Action::Idle);
    assert_eq!(s, state(false, true));
}

#[test]
fn quit_requests_termination() {
    let mut s = state(true, true);
    assert_eq!(update(&mut s, AppEvent::Quit), Action::Exit);
}

#[test]
fn tick_with_pending_event_dispatches() {
    let mut s = state(true, true);
    let a = update(&mut s, AppEvent::Tick(Some(ShortcutEvent::ImproveText)));
    assert_eq!(a, Action::Dispatch);
    assert_eq!(update(&mut s, AppEvent::Tick(None)), Action::Idle);
}

#[test]
fn disabled_state_drains_triggers() {
    let mut s = state(false, true);
    for _ in 0..5 {
        let a = update(&mut s, AppEvent::Tick(Some(ShortcutEvent::ImproveText)));
        assert_eq!(a, Action::Dispatch);
        assert_eq!(update(&mut s, AppEvent::ShortcutTriggered), Action::Idle);
        assert_eq!(s, state(false, true));
    }
    // Re-enabling does not replay the drained events: nothing happens
    // until a fresh trigger arrives.
    assert_eq!(update(&mut s, AppEvent::Enable), Action::Idle);
    assert_eq!(update(&mut s, AppEvent::Tick(None)), Action::Idle);
    assert_eq!(update(&mut s, AppEvent::ShortcutTriggered), Action::Capture);
}

#[test]
fn blank_capture_short_circuits() {
    let mut s = state(true, true);
    let a = update(&mut s, AppEvent::Captured(Ok(String::from(""))));
    assert_eq!(a, Action::Idle);
    let a = update(&mut s, AppEvent::Captured(Ok(String::from("   "))));
    assert_eq!(a, Action::Idle);
    assert_eq!(s, state(true, true));
}

#[test]
fn usable_capture_flows_to_the_client() {
    let mut s = state(true, true);
    let a = update(&mut s, AppEvent::Captured(Ok(String::from("good day"))));
    assert_eq!(a, Action::Improve(String::from("good day")));
}

#[test]
fn capture_without_client_goes_nowhere() {
    let mut s = state(true, false);
    let a = update(&mut s, AppEvent::Captured(Ok(String::from("good day"))));
    assert_eq!(a, Action::Idle);
}

#[test]
fn capture_error_is_swallowed() {
    let mut s = state(true, true);
    let a = update(&mut s, AppEvent::Captured(Err(String::from("no text selected"))));
    assert_eq!(a, Action::Idle);
}

#[test]
fn improved_text_is_pasted() {
    let mut s = state(true, true);
    let a = update(&mut s, AppEvent::TextImproved(Ok(String::from("Good day."))));
    assert_eq!(a, Action::Paste(String::from("Good day.")));
    let a = update(&mut s, AppEvent::TextImproved(Err(String::from("timeout"))));
    assert_eq!(a, Action::Idle);
}
