//! What holds of the controller: proved here, once and for all inputs.

use vstd::prelude::*;

use crate::controller::Action;
use crate::controller::WindowState;
use crate::controller::spec_run;
use crate::controller::spec_step;
use crate::events::Event;
use crate::events::MouseButton;
use crate::events::MouseButtonState;
use crate::events::spec_effect;
use crate::window::Visibility;
use crate::window::spec_flip;

verus! {

/// Running a sequence of toggle events from a present window flips its
/// visibility once per event.
proof fn lemma_run_of_toggles(v: Visibility, events: Seq<Event>)
    requires
        forall|i: int|
            0 <= i < events.len() ==> spec_effect(#[trigger] events[i]) is ToggleVisibility,
    ensures
        spec_run(WindowState::Present { visibility: v }, events) == (WindowState::Present {
            visibility: if events.len() % 2 == 0 {
                v
            } else {
                spec_flip(v)
            },
        }),
    decreases events.len(),
{
    if events.len() > 0 {
        let rest = events.drop_first();
        assert forall|i: int|
            0 <= i < rest.len() implies spec_effect(#[trigger] rest[i]) is ToggleVisibility by {
            assert(rest[i] == events[i + 1]);
        }
        assert(spec_step(WindowState::Present { visibility: v }, events[0]).0
            == (WindowState::Present { visibility: spec_flip(v) }));
        lemma_run_of_toggles(spec_flip(v), rest);
        assert(spec_flip(spec_flip(v)) == v);
    }
}

/// For every sequence of toggle events starting from a visible window, the
/// visibility alternates strictly: after an even number of events the
/// window is visible, after an odd number it is hidden.
pub proof fn lemma_visibility_alternates(events: Seq<Event>)
    requires
        forall|i: int|
            0 <= i < events.len() ==> spec_effect(#[trigger] events[i]) is ToggleVisibility,
    ensures
        forall|n: int|
            0 <= n <= events.len() ==> spec_run(
                WindowState::Present { visibility: Visibility::Visible },
                #[trigger] events.take(n),
            ) == (WindowState::Present {
                visibility: if n % 2 == 0 {
                    Visibility::Visible
                } else {
                    Visibility::Hidden
                },
            }),
{
    assert forall|n: int|
        0 <= n <= events.len() implies spec_run(
        WindowState::Present { visibility: Visibility::Visible },
        #[trigger] events.take(n),
    ) == (WindowState::Present {
        visibility: if n % 2 == 0 {
            Visibility::Visible
        } else {
            Visibility::Hidden
        },
    }) by {
        let prefix = events.take(n);
        assert forall|i: int|
            0 <= i < prefix.len() implies spec_effect(#[trigger] prefix[i]) is ToggleVisibility by {
            assert(prefix[i] == events[i]);
        }
        lemma_run_of_toggles(Visibility::Visible, prefix);
    }
}

/// A step requests input focus exactly when it shows a hidden window: the
/// focus request is issued once, as part of that step's action, and the
/// window is visible afterwards. No other step issues one.
pub proof fn lemma_focus_exactly_on_show(w: WindowState, e: Event)
    ensures
        spec_step(w, e).1 is ShowAndFocusWindow <==> spec_effect(e) is ToggleVisibility && w
            == (WindowState::Present { visibility: Visibility::Hidden }),
        spec_step(w, e).1 is ShowAndFocusWindow ==> spec_step(w, e).0 == (WindowState::Present {
            visibility: Visibility::Visible,
        }),
{
}

/// A menu event with id "quit" terminates the process with status code 0,
/// whatever the window state; the observed window state is untouched.
pub proof fn lemma_quit_always_terminates(w: WindowState, e: Event)
    requires
        e matches Event::Menu { id } && id@ == "quit"@,
    ensures
        spec_step(w, e).1 == (Action::Exit { code: 0 }),
        spec_step(w, e).0 == w,
{
    reveal_strlit("quit");
    reveal_strlit("toggle");
    assert("quit"@.len() == 4);
    assert("toggle"@.len() == 6);
}

/// A menu event with an id other than "toggle" and "quit" changes nothing
/// and terminates nothing.
pub proof fn lemma_unknown_menu_id_ignored(w: WindowState, e: Event)
    requires
        e matches Event::Menu { id } && id@ != "toggle"@ && id@ != "quit"@,
    ensures
        spec_step(w, e) == (w, Action::DoNothing),
{
}

/// A tray click with the left button pressed, not released, has no effect:
/// only the release triggers the toggle.
pub proof fn lemma_button_down_ignored(w: WindowState, e: Event)
    requires
        e == (Event::TrayClick { button: MouseButton::Left, state: MouseButtonState::Down }),
    ensures
        spec_step(w, e) == (w, Action::DoNothing),
{
}

/// When the main window is absent, a toggle event changes nothing and
/// raises no error.
pub proof fn lemma_toggle_without_window_ignored(e: Event)
    requires
        spec_effect(e) is ToggleVisibility,
    ensures
        spec_step(WindowState::Absent, e) == (WindowState::Absent, Action::DoNothing),
{
}

} // verus!
