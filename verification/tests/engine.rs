use autoclicker::button::MouseButton;
use autoclicker::engine::{
    click_tick, ClickConfig, EngineState, EventAction, HotkeyEvent, InputAction,
};

fn cfg(interval_ms: u64, button: MouseButton, repeat: u32) -> ClickConfig {
    ClickConfig { interval_ms, button, repeat }
}

#[test]
fn first_toggle_flips_on() {
    let mut s = EngineState::new();
    assert!(!s.active);
    assert!(!s.quit);
    let act = s.step(Some(HotkeyEvent::Toggle), 0);
    assert_eq!(act, EventAction::StateChanged(true));
    assert!(s.active);
}

#[test]
fn toggle_inside_window_is_discarded() {
    // Two toggle events at t=0 and t=150: only the first flips the state,
    // the second falls inside the 300 ms debounce window.
    let mut s = EngineState::new();
    let first = s.step(Some(HotkeyEvent::Toggle), 0);
    assert_eq!(first, EventAction::StateChanged(true));
    let second = s.step(Some(HotkeyEvent::Toggle), 150);
    assert_eq!(second, EventAction::Silent);
    assert!(s.active);
}

#[test]
fn toggle_just_inside_window_is_discarded() {
    // A 299 ms gap is still inside the 300 ms debounce window, and a
    // discarded toggle does not reset the debounce clock.
    let mut s = EngineState::new();
    s.step(Some(HotkeyEvent::Toggle), 0);
    assert_eq!(s.step(Some(HotkeyEvent::Toggle), 299), EventAction::Silent);
    assert!(s.active);
    assert_eq!(s.step(Some(HotkeyEvent::Toggle), 300), EventAction::StateChanged(false));
}

#[test]
fn toggle_at_window_edge_is_accepted() {
    let mut s = EngineState::new();
    s.step(Some(HotkeyEvent::Toggle), 0);
    let act = s.step(Some(HotkeyEvent::Toggle), 300);
    assert_eq!(act, EventAction::StateChanged(false));
    assert!(!s.active);
}

#[test]
fn accepted_toggles_alternate() {
    // Accepted (spaced) toggles negate the state once each: off, on, off, on.
    let mut s = EngineState::new();
    let mut expected = false;
    for k in 0..6u64 {
        s.step(Some(HotkeyEvent::Toggle), k * 1000);
        expected = !expected;
        assert_eq!(s.active, expected);
    }
}

#[test]
fn empty_poll_changes_nothing() {
    let mut s = EngineState::new();
    let act = s.step(None, 500);
    assert_eq!(act, EventAction::Silent);
    assert!(!s.active);
    assert!(!s.quit);
}

#[test]
fn quit_is_terminal() {
    let mut s = EngineState::new();
    s.step(Some(HotkeyEvent::Toggle), 0);
    let act = s.step(Some(HotkeyEvent::Quit), 100);
    assert_eq!(act, EventAction::Shutdown);
    assert!(s.quit);
    // After quit no toggle is processed, however far apart.
    let later = s.step(Some(HotkeyEvent::Toggle), 10_000);
    assert_eq!(later, EventAction::Silent);
    assert!(s.active);
    assert!(s.quit);
}

#[test]
fn quit_is_not_debounced() {
    // The debounce window guards only the toggle binding: a quit right
    // after an accepted toggle still fires.
    let mut s = EngineState::new();
    s.step(Some(HotkeyEvent::Toggle), 0);
    let act = s.step(Some(HotkeyEvent::Quit), 10);
    assert_eq!(act, EventAction::Shutdown);
}

#[test]
fn burst_has_repeat_plus_one_pairs() {
    // repeat = r gives exactly r + 1 press/release pairs.
    for r in 0..5u32 {
        let plan = click_tick(true, &cfg(50, MouseButton::Left, r));
        assert_eq!(plan.actions.len(), 2 * (r as usize + 1));
        for (i, a) in plan.actions.iter().enumerate() {
            if i % 2 == 0 {
                assert_eq!(*a, InputAction::Press(MouseButton::Left));
            } else {
                assert_eq!(*a, InputAction::Release(MouseButton::Left));
            }
        }
    }
}

#[test]
fn burst_uses_configured_button() {
    let plan = click_tick(true, &cfg(75, MouseButton::Right, 0));
    assert_eq!(
        plan.actions,
        vec![
            InputAction::Press(MouseButton::Right),
            InputAction::Release(MouseButton::Right),
        ]
    );
    assert_eq!(plan.sleep_ms, 75);
}

#[test]
fn idle_tick_does_nothing() {
    // While the activation state is false no injection occurs, only the
    // fixed 100 ms poll sleep.
    let plan = click_tick(false, &cfg(50, MouseButton::Left, 3));
    assert!(plan.actions.is_empty());
    assert_eq!(plan.sleep_ms, 100);
}

#[test]
fn activation_scenario() {
    // interval=50ms, button=primary, repeat=1: toggle accepted at t=0,
    // two press/release pairs per tick until a toggle at t=300 flips off,
    // after which no further presses occur.
    let config = cfg(50, MouseButton::Left, 1);
    let mut s = EngineState::new();
    assert_eq!(s.step(Some(HotkeyEvent::Toggle), 0), EventAction::StateChanged(true));

    let tick0 = click_tick(s.active, &config);
    assert_eq!(tick0.actions.len(), 4);
    assert_eq!(tick0.sleep_ms, 50);
    let tick1 = click_tick(s.active, &config);
    assert_eq!(tick1.actions.len(), 4);

    assert_eq!(s.step(Some(HotkeyEvent::Toggle), 300), EventAction::StateChanged(false));
    let tick2 = click_tick(s.active, &config);
    assert!(tick2.actions.is_empty());
    assert_eq!(tick2.sleep_ms, 100);
}
