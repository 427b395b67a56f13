//! The tray controller's state machine: how each event moves the main
//! window between visible and hidden, and which action the host framework
//! is asked to perform.

use vstd::prelude::*;

use crate::events::Effect;
use crate::events::Event;
use crate::events::spec_effect;
use crate::events::decide;
use crate::window::Visibility;
use crate::window::spec_flip;

verus! {

/// The main window as the controller observes it: absent from the window
/// registry, or present with a visibility. The window's lifecycle is owned
/// by the surrounding application; the controller only reads and flips the
/// visibility of a present window.
#[derive(Clone, Copy, Debug, PartialEq, Eq, Structural)]
pub enum WindowState {
    Absent,
    Present { visibility: Visibility },
}

/// What the host framework is asked to do after a step: hide the window,
/// show it and then request input focus once, terminate the process with
/// the given status code, or nothing at all.
#[derive(Clone, Copy, Debug, PartialEq, Eq, Structural)]
pub enum Action {
    HideWindow,
    ShowAndFocusWindow,
    Exit { code: i32 },
    DoNothing,
}

/// The toggle-visibility effect: hide a visible window; show a hidden one
/// and request focus for it; leave an absent window alone.
pub open spec fn spec_toggle_window(w: WindowState) -> (WindowState, Action) {
    match w {
        WindowState::Absent => (WindowState::Absent, Action::DoNothing),
        WindowState::Present { visibility } => match visibility {
            Visibility::Visible => (
                WindowState::Present { visibility: Visibility::Hidden },
                Action::HideWindow,
            ),
            Visibility::Hidden => (
                WindowState::Present { visibility: Visibility::Visible },
                Action::ShowAndFocusWindow,
            ),
        },
    }
}

/// Apply the toggle-visibility effect to the observed window state.
pub fn toggle_window_visibility(w: WindowState) -> (r: (WindowState, Action))
    ensures
        r == spec_toggle_window(w),
{
    match w {
        WindowState::Absent => (WindowState::Absent, Action::DoNothing),
        WindowState::Present { visibility: Visibility::Visible } => (
            WindowState::Present { visibility: Visibility::Hidden },
            Action::HideWindow,
        ),
        WindowState::Present { visibility: Visibility::Hidden } => (
            WindowState::Present { visibility: Visibility::Visible },
            Action::ShowAndFocusWindow,
        ),
    }
}

/// One step of the controller: the window state after the event, and the
/// action the host framework is asked to perform.
pub open spec fn spec_step(w: WindowState, e: Event) -> (WindowState, Action) {
    match spec_effect(e) {
        Effect::ToggleVisibility => spec_toggle_window(w),
        Effect::Quit => (w, Action::Exit { code: 0 }),
        Effect::NoOp => (w, Action::DoNothing),
    }
}

/// React to one event: decide its effect, apply it to the observed window
/// state, and return the new state with the action to perform.
pub fn step(w: WindowState, event: &Event) -> (r: (WindowState, Action))
    ensures
        r == spec_step(w, *event),
{
    match decide(event) {
        Effect::ToggleVisibility => toggle_window_visibility(w),
        Effect::Quit => (w, Action::Exit { code: 0 }),
        Effect::NoOp => (w, Action::DoNothing),
    }
}

/// The window state after a whole sequence of events, applied in order.
pub open spec fn spec_run(w: WindowState, events: Seq<Event>) -> WindowState
    decreases events.len(),
{
    if events.len() == 0 {
        w
    } else {
        spec_run(spec_step(w, events[0]).0, events.drop_first())
    }
}

} // verus!
