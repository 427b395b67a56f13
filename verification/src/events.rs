//! The inputs the tray controller reacts to, and the effect it picks for
//! each of them.

use vstd::prelude::*;

verus! {

/// The mouse button reported with a tray icon click.
#[derive(Clone, Copy, Debug, PartialEq, Eq, Structural)]
pub enum MouseButton {
    Left,
    Right,
    Middle,
}

/// Whether the reported button was pressed or released.
#[derive(Clone, Copy, Debug, PartialEq, Eq, Structural)]
pub enum MouseButtonState {
    Up,
    Down,
}

/// An input event delivered to the tray controller: a menu item selected
/// by its identifier, or a click on the tray icon itself.
#[derive(Clone, Debug, PartialEq, Eq)]
pub enum Event {
    Menu { id: String },
    TrayClick { button: MouseButton, state: MouseButtonState },
}

/// The effect the controller chooses for an event: toggle the main
/// window's visibility, terminate the process, or do nothing.
#[derive(Clone, Copy, Debug, PartialEq, Eq, Structural)]
pub enum Effect {
    ToggleVisibility,
    Quit,
    NoOp,
}

/// Which effect an event calls for.
///
/// The menu item "toggle" and a left-button release on the tray icon both
/// toggle the window; the menu item "quit" terminates the process; every
/// other menu identifier, and every other click, is ignored.
pub open spec fn spec_effect(e: Event) -> Effect {
    match e {
        Event::Menu { id } => if id@ == "toggle"@ {
            Effect::ToggleVisibility
        } else if id@ == "quit"@ {
            Effect::Quit
        } else {
            Effect::NoOp
        },
        Event::TrayClick { button, state } => if button is Left && state is Up {
            Effect::ToggleVisibility
        } else {
            Effect::NoOp
        },
    }
}

/// Map an event to the effect it calls for.
pub fn decide(event: &Event) -> (r: Effect)
    ensures
        r == spec_effect(*event),
{
    match event {
        Event::Menu { id } => {
            let toggle_id: String = "toggle".to_owned();
            if *id == toggle_id {
                Effect::ToggleVisibility
            } else {
                let quit_id: String = "quit".to_owned();
                if *id == quit_id {
                    Effect::Quit
                } else {
                    Effect::NoOp
                }
            }
        },
        Event::TrayClick { button, state } => {
            match (*button, *state) {
                (MouseButton::Left, MouseButtonState::Up) => Effect::ToggleVisibility,
                _ => Effect::NoOp,
            }
        },
    }
}

} // verus!
