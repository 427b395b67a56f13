use tray_controller::Action;
use tray_controller::Effect;
use tray_controller::Event;
use tray_controller::MouseButton;
use tray_controller::MouseButtonState;
use tray_controller::Visibility;
use tray_controller::WindowState;
use tray_controller::decide;
use tray_controller::step;
use tray_controller::toggle_window_visibility;

fn menu(id: &str) -> Event {
    Event::Menu { id: id.to_string() }
}

fn click(button: MouseButton, state: MouseButtonState) -> Event {
    Event::TrayClick { button, state }
}

fn visible() -> WindowState {
    WindowState::Present { visibility: Visibility::Visible }
}

fn hidden() -> WindowState {
    WindowState::Present { visibility: Visibility::Hidden }
}

#[test]
fn decide_menu_toggle() {
    assert_eq!(decide(&menu("toggle")), Effect::ToggleVisibility);
}

#[test]
fn decide_menu_quit() {
    assert_eq!(decide(&menu("quit")), Effect::Quit);
}

#[test]
fn decide_menu_unknown_id() {
    assert_eq!(decide(&menu("settings")), Effect::NoOp);
    assert_eq!(decide(&menu("")), Effect::NoOp);
    assert_eq!(decide(&menu("Toggle")), Effect::NoOp);
}

#[test]
fn decide_left_click_release() {
    assert_eq!(
        decide(&click(MouseButton::Left, MouseButtonState::Up)),
        Effect::ToggleVisibility
    );
}

#[test]
fn decide_left_click_press_ignored() {
    assert_eq!(decide(&click(MouseButton::Left, MouseButtonState::Down)), Effect::NoOp);
}

#[test]
fn decide_other_clicks_ignored() {
    assert_eq!(decide(&click(MouseButton::Right, MouseButtonState::Up)), Effect::NoOp);
    assert_eq!(decide(&click(MouseButton::Right, MouseButtonState::Down)), Effect::NoOp);
    assert_eq!(decide(&click(MouseButton::Middle, MouseButtonState::Up)), Effect::NoOp);
    assert_eq!(decide(&click(MouseButton::Middle, MouseButtonState::Down)), Effect::NoOp);
}

#[test]
fn toggle_hides_a_visible_window() {
    assert_eq!(toggle_window_visibility(visible()), (hidden(), Action::HideWindow));
}

#[test]
fn toggle_shows_and_focuses_a_hidden_window() {
    assert_eq!(toggle_window_visibility(hidden()), (visible(), Action::ShowAndFocusWindow));
}

#[test]
fn toggle_without_window_does_nothing() {
    assert_eq!(
        toggle_window_visibility(WindowState::Absent),
        (WindowState::Absent, Action::DoNothing)
    );
}

#[test]
fn toggle_events_alternate_visibility() {
    let mut state = visible();
    let expected = [hidden(), visible(), hidden(), visible(), hidden(), visible()];
    for (i, want) in expected.iter().enumerate() {
        let event = if i % 2 == 0 {
            menu("toggle")
        } else {
            click(MouseButton::Left, MouseButtonState::Up)
        };
        let (next, action) = step(state, &event);
        assert_eq!(next, *want);
        match action {
            Action::HideWindow => assert_eq!(state, visible()),
            Action::ShowAndFocusWindow => assert_eq!(state, hidden()),
            other => panic!("unexpected action {:?}", other),
        }
        state = next;
    }
}

#[test]
fn focus_requested_only_when_showing() {
    let toggle = menu("toggle");
    assert_eq!(step(hidden(), &toggle).1, Action::ShowAndFocusWindow);
    assert_eq!(step(visible(), &toggle).1, Action::HideWindow);
    assert_eq!(step(WindowState::Absent, &toggle).1, Action::DoNothing);
}

#[test]
fn quit_terminates_in_every_window_state() {
    for state in [visible(), hidden(), WindowState::Absent] {
        let (next, action) = step(state, &menu("quit"));
        assert_eq!(action, Action::Exit { code: 0 });
        assert_eq!(next, state);
    }
}

#[test]
fn unknown_menu_id_changes_nothing() {
    for state in [visible(), hidden(), WindowState::Absent] {
        let (next, action) = step(state, &menu("about"));
        assert_eq!(action, Action::DoNothing);
        assert_eq!(next, state);
    }
}

#[test]
fn left_button_press_changes_nothing() {
    for state in [visible(), hidden(), WindowState::Absent] {
        let (next, action) = step(state, &click(MouseButton::Left, MouseButtonState::Down));
        assert_eq!(action, Action::DoNothing);
        assert_eq!(next, state);
    }
}

#[test]
fn absent_window_ignores_toggle_events() {
    for event in [menu("toggle"), click(MouseButton::Left, MouseButtonState::Up)] {
        let (next, action) = step(WindowState::Absent, &event);
        assert_eq!(action, Action::DoNothing);
        assert_eq!(next, WindowState::Absent);
    }
}
