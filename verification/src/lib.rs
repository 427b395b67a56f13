//! Tray controller logic: a small state machine that decides how a system
//! tray icon's menu and click events act on the application's main window.
//!
//! The controller reacts to three inputs (menu item "toggle", menu item
//! "quit", and a left-click release on the tray icon) with one of two
//! effects: toggle the main window's visibility, or terminate the process.
//! The decision logic lives here, as pure functions over plain values; the
//! host UI framework's registration and window plumbing stays outside.

mod controller;
mod events;
mod laws;
mod window;

pub use laws::lemma_button_down_ignored;
pub use laws::lemma_focus_exactly_on_show;
pub use laws::lemma_quit_always_terminates;
pub use laws::lemma_toggle_without_window_ignored;
pub use laws::lemma_unknown_menu_id_ignored;
pub use laws::lemma_visibility_alternates;

pub use controller::Action;
pub use controller::WindowState;
pub use controller::spec_run;
pub use controller::spec_step;
pub use controller::spec_toggle_window;
pub use controller::step;
pub use controller::toggle_window_visibility;
pub use events::Effect;
pub use events::Event;
pub use events::MouseButton;
pub use events::MouseButtonState;
pub use events::decide;
pub use events::spec_effect;
pub use window::Visibility;
pub use window::spec_flip;
