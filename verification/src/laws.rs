//! Laws of the controller, stated over the spec functions [`step`] and
//! [`decide`] and proved once and for all.

use vstd::prelude::*;

use crate::lifecycle::DirectiveView;
use crate::lifecycle::EventView;
use crate::lifecycle::StateView;
use crate::lifecycle::StatusView;
use crate::lifecycle::TrayView;
use crate::lifecycle::WindowEventKind;
use crate::lifecycle::decide;
use crate::lifecycle::step;

verus! {

/// The state after a whole sequence of events, dispatched first to last.
pub open spec fn steps(s: StateView, events: Seq<EventView>) -> StateView
    decreases events.len(),
{
    if events.len() == 0 {
        s
    } else {
        steps(step(s, events[0]), events.skip(1))
    }
}

/// A close request on the main window, as a spec-level event.
pub open spec fn close_main_event() -> EventView {
    EventView::Window { label: "main"@, kind: WindowEventKind::CloseRequested }
}

/// Whether an event is a close request on the main window.
pub open spec fn is_main_close_request(e: EventView) -> bool {
    e matches EventView::Window { label, kind } && label == "main"@ && kind is CloseRequested
}

/// Law: no event ever removes the main window from the tracked state — in
/// particular, the controller never destroys the window.
pub proof fn window_never_destroyed(s: StateView, events: Seq<EventView>)
    requires
        s.window is Some,
    ensures
        steps(s, events).window is Some,
    decreases events.len(),
{
    if events.len() > 0 {
        window_never_destroyed(step(s, events[0]), events.skip(1));
    }
}

/// Law: however many close requests arrive at the main window, the window is
/// still there and the process still runs; only "quit" terminates it (see
/// [`only_quit_exits`]).
pub proof fn close_requests_never_destroy(s: StateView, events: Seq<EventView>)
    requires
        s.window is Some,
        s.status is Running,
        forall|i: int| 0 <= i < events.len() ==> is_main_close_request(#[trigger] events[i]),
    ensures
        steps(s, events).window is Some,
        steps(s, events).status is Running,
    decreases events.len(),
{
    if events.len() > 0 {
        let tail = events.skip(1);
        assert forall|i: int| 0 <= i < tail.len() implies is_main_close_request(
            #[trigger] tail[i],
        ) by {
            assert(tail[i] == events[i + 1]);
        }
        close_requests_never_destroy(step(s, events[0]), tail);
    }
}

/// Law: while the process runs, a close request on the main window is always
/// intercepted — the platform is told to suppress the destructive default and
/// hide the window instead, whatever the rest of the state.
pub proof fn close_always_intercepted(s: StateView)
    requires
        s.status is Running,
    ensures
        decide(s, close_main_event()) == DirectiveView::HideInsteadOfClose,
{
}

/// The two menu item ids are distinct character sequences.
proof fn show_quit_distinct()
    ensures
        "show"@ != "quit"@,
{
    reveal_strlit("show");
    reveal_strlit("quit");
    assert("show"@[0] == 's');
    assert("quit"@[0] == 'q');
    assert("show"@ != "quit"@);
}

/// Law: an event that ends a running process is a menu event with id "quit",
/// and the exit code is 0.
pub proof fn only_quit_exits(s: StateView, e: EventView)
    requires
        s.status is Running,
        !(step(s, e).status is Running),
    ensures
        e matches EventView::Menu { id } && id == "quit"@,
        step(s, e).status == StatusView::Exited(0),
{
}

/// Law: a close request on the main window leaves the window hidden, and a
/// following "show" menu event or primary tray click leaves it visible and
/// focused.
pub proof fn hidden_after_close_then_visible_after_show(s: StateView, e: EventView)
    requires
        s.status is Running,
        s.window is Some,
        e matches EventView::Menu { id } ==> id == "show"@,
        e matches EventView::Tray { interaction } ==> interaction is PrimaryClick,
        e is Menu || e is Tray,
    ensures
        step(s, close_main_event()).window matches Some(w) && w.visibility is Hidden,
        step(step(s, close_main_event()), e).window matches Some(w) && w.visibility is Visible
            && w.focused,
{
}

/// Law: updating the tooltip with any text sets the tray icon's tooltip to
/// exactly that text when the tray icon exists, and changes nothing at all
/// when it does not; in neither case is an error raised.
pub proof fn tooltip_follows_update(s: StateView, text: Seq<char>)
    requires
        s.status is Running,
    ensures
        s.tray is Some ==> step(s, EventView::UpdateTooltip { text }) == (StateView {
            tray: Some(TrayView { tooltip: text }),
            ..s
        }),
        s.tray is None ==> step(s, EventView::UpdateTooltip { text }) == s,
{
}

/// Law: the "quit" menu event terminates the process with exit code 0,
/// whatever the window's visibility state, and asks the platform for exactly
/// that termination.
pub proof fn quit_exits_zero(s: StateView)
    requires
        s.status is Running,
    ensures
        step(s, EventView::Menu { id: "quit"@ }).status == StatusView::Exited(0),
        decide(s, EventView::Menu { id: "quit"@ }) == DirectiveView::ExitProcess(0),
{
    show_quit_distinct();
}

/// Law: a menu event whose id is neither "show" nor "quit" changes nothing
/// and asks the platform for nothing.
pub proof fn unknown_menu_id_is_noop(s: StateView, id: Seq<char>)
    requires
        id != "show"@,
        id != "quit"@,
    ensures
        step(s, EventView::Menu { id }) == s,
        decide(s, EventView::Menu { id }) == DirectiveView::Ignore,
{
}

} // verus!
