//! The tray/window lifecycle controller.
//!
//! The controller tracks the application's single main window (its visibility
//! and focus), the tray icon (its tooltip), and whether the process is still
//! running. Platform events are handed to the handlers below; each handler
//! updates the tracked state and returns the [`Directive`] that the platform
//! layer must carry out. The whole behaviour is pinned by the two spec
//! functions [`step`] (how the state changes) and [`decide`] (which directive
//! comes back).

use vstd::prelude::*;

use crate::text::str_eq;

verus! {

/// Visibility of the main window.
#[derive(Clone, Copy, PartialEq, Eq, Structural, Debug)]
pub enum Visibility {
    Visible,
    Hidden,
}

/// Tracked state of the main window.
#[derive(Clone, Copy, PartialEq, Eq, Structural, Debug)]
pub struct WindowState {
    pub visibility: Visibility,
    /// Whether the window holds input focus; a hidden window never does.
    pub focused: bool,
}

/// Tracked state of the tray icon: its externally settable tooltip. The
/// attached menu is immutable after construction and is described by
/// [`crate::startup::TrayConfig`].
pub struct TrayState {
    pub tooltip: String,
}

/// Spec-level value of a [`TrayState`].
pub struct TrayView {
    pub tooltip: Seq<char>,
}

impl View for TrayState {
    type V = TrayView;

    open spec fn view(&self) -> TrayView {
        TrayView { tooltip: self.tooltip@ }
    }
}

/// Whether the process is still running, or has been terminated with an exit
/// code by the "quit" menu item.
#[derive(Clone, Copy, PartialEq, Eq, Structural, Debug)]
pub enum ProcessStatus {
    Running,
    Exited(i32),
}

/// Spec-level value of a [`ProcessStatus`], with the exit code as a
/// mathematical integer.
pub enum StatusView {
    Running,
    Exited(int),
}

/// The controller's whole tracked state. `window` is `None` when the main
/// window cannot be resolved (a degraded state in which show requests are
/// silently dropped); `tray` is `None` when the tray icon is missing (tooltip
/// updates are then silent no-ops).
pub struct AppState {
    pub window: Option<WindowState>,
    pub tray: Option<TrayState>,
    pub status: ProcessStatus,
}

/// Spec-level value of an [`AppState`].
#[verifier::ext_equal]
pub struct StateView {
    pub window: Option<WindowState>,
    pub tray: Option<TrayView>,
    pub status: StatusView,
}

impl View for AppState {
    type V = StateView;

    open spec fn view(&self) -> StateView {
        StateView {
            window: self.window,
            tray: match self.tray {
                Option::Some(t) => Option::Some(t@),
                Option::None => Option::None,
            },
            status: match self.status {
                ProcessStatus::Running => StatusView::Running,
                ProcessStatus::Exited(code) => StatusView::Exited(code as int),
            },
        }
    }
}

/// Kind of a window lifecycle event. Only a close request is acted on; every
/// other kind is left to the platform's default behaviour.
#[derive(Clone, Copy, PartialEq, Eq, Structural, Debug)]
pub enum WindowEventKind {
    CloseRequested,
    Other,
}

/// Kind of a direct interaction with the tray icon. Only a primary click is
/// acted on; every other interaction is ignored.
#[derive(Clone, Copy, PartialEq, Eq, Structural, Debug)]
pub enum TrayInteraction {
    PrimaryClick,
    Other,
}

/// Spec-level event: everything that can reach the controller after startup.
pub enum EventView {
    Window { label: Seq<char>, kind: WindowEventKind },
    Menu { id: Seq<char> },
    Tray { interaction: TrayInteraction },
    UpdateTooltip { text: Seq<char> },
}

/// What the platform layer must do in response to an event. Every platform
/// call a directive asks for is best-effort: a failure there is swallowed and
/// never surfaced.
pub enum Directive {
    /// Suppress the window's destructive default close, then hide the window.
    HideInsteadOfClose,
    /// Show the main window, then give it input focus — in that order, so the
    /// platform registers the window as mapped before focus is requested.
    ShowAndFocus,
    /// Terminate the process immediately with the given exit code.
    ExitProcess(i32),
    /// Overwrite the tray icon's tooltip with the given text.
    SetTooltip(String),
    /// Do nothing; the platform's default behaviour proceeds.
    Ignore,
}

/// Spec-level value of a [`Directive`].
pub enum DirectiveView {
    HideInsteadOfClose,
    ShowAndFocus,
    ExitProcess(int),
    SetTooltip(Seq<char>),
    Ignore,
}

impl View for Directive {
    type V = DirectiveView;

    open spec fn view(&self) -> DirectiveView {
        match self {
            Directive::HideInsteadOfClose => DirectiveView::HideInsteadOfClose,
            Directive::ShowAndFocus => DirectiveView::ShowAndFocus,
            Directive::ExitProcess(code) => DirectiveView::ExitProcess(*code as int),
            Directive::SetTooltip(text) => DirectiveView::SetTooltip(text@),
            Directive::Ignore => DirectiveView::Ignore,
        }
    }
}

/// The state after a request to show the main window: visible and focused
/// when the window resolves, unchanged when it does not.
pub open spec fn show_main(s: StateView) -> StateView {
    if s.window is Some {
        StateView {
            window: Option::Some(WindowState { visibility: Visibility::Visible, focused: true }),
            ..s
        }
    } else {
        s
    }
}

/// The directive for a request to show the main window: show-then-focus when
/// the window resolves, silently dropped when it does not.
pub open spec fn show_directive(s: StateView) -> DirectiveView {
    if s.window is Some {
        DirectiveView::ShowAndFocus
    } else {
        DirectiveView::Ignore
    }
}

/// The transition function of the controller: the tracked state after `e`
/// arrives in state `s`. Once the process has exited no event is dispatched
/// any more, so the state is frozen.
pub open spec fn step(s: StateView, e: EventView) -> StateView {
    if !(s.status is Running) {
        s
    } else {
        match e {
            EventView::Window { label, kind } => {
                if label == "main"@ && kind is CloseRequested {
                    if s.window is Some {
                        StateView {
                            window: Option::Some(
                                WindowState { visibility: Visibility::Hidden, focused: false },
                            ),
                            ..s
                        }
                    } else {
                        s
                    }
                } else {
                    s
                }
            },
            EventView::Menu { id } => {
                if id == "show"@ {
                    show_main(s)
                } else if id == "quit"@ {
                    StateView { status: StatusView::Exited(0), ..s }
                } else {
                    s
                }
            },
            EventView::Tray { interaction } => {
                if interaction is PrimaryClick {
                    show_main(s)
                } else {
                    s
                }
            },
            EventView::UpdateTooltip { text } => {
                if s.tray is Some {
                    StateView { tray: Option::Some(TrayView { tooltip: text }), ..s }
                } else {
                    s
                }
            },
        }
    }
}

/// The decision function of the controller: the directive handed back when
/// `e` arrives in state `s`.
pub open spec fn decide(s: StateView, e: EventView) -> DirectiveView {
    if !(s.status is Running) {
        DirectiveView::Ignore
    } else {
        match e {
            EventView::Window { label, kind } => {
                if label == "main"@ && kind is CloseRequested {
                    DirectiveView::HideInsteadOfClose
                } else {
                    DirectiveView::Ignore
                }
            },
            EventView::Menu { id } => {
                if id == "show"@ {
                    show_directive(s)
                } else if id == "quit"@ {
                    DirectiveView::ExitProcess(0)
                } else {
                    DirectiveView::Ignore
                }
            },
            EventView::Tray { interaction } => {
                if interaction is PrimaryClick {
                    show_directive(s)
                } else {
                    DirectiveView::Ignore
                }
            },
            EventView::UpdateTooltip { text } => {
                if s.tray is Some {
                    DirectiveView::SetTooltip(text)
                } else {
                    DirectiveView::Ignore
                }
            },
        }
    }
}

impl AppState {
    /// Shared show/focus request of the "show" menu item and the tray click:
    /// best-effort, silently dropped when the main window cannot be resolved.
    fn show_and_focus(&mut self) -> (d: Directive)
        requires
            old(self).status is Running,
        ensures
            final(self)@ == show_main(old(self)@),
            d@ == show_directive(old(self)@),
    {
        match &mut self.window {
            Option::Some(w) => {
                w.visibility = Visibility::Visible;
                w.focused = true;
                Directive::ShowAndFocus
            },
            Option::None => Directive::Ignore,
        }
    }

    /// Window-lifecycle handler: a close request on the window labeled "main"
    /// is intercepted — the destructive default is suppressed and the window
    /// is hidden instead. Any other window, and any other event kind, is left
    /// to the platform's default behaviour.
    pub fn on_window_event(&mut self, label: &str, kind: WindowEventKind) -> (d: Directive)
        ensures
            final(self)@ == step(old(self)@, EventView::Window { label: label@, kind }),
            d@ == decide(old(self)@, EventView::Window { label: label@, kind }),
    {
        match self.status {
            ProcessStatus::Running => {},
            ProcessStatus::Exited(_) => {
                return Directive::Ignore;
            },
        }
        let close_requested = match kind {
            WindowEventKind::CloseRequested => true,
            WindowEventKind::Other => false,
        };
        if str_eq(label, "main") && close_requested {
            match &mut self.window {
                Option::Some(w) => {
                    w.visibility = Visibility::Hidden;
                    w.focused = false;
                },
                Option::None => {},
            }
            Directive::HideInsteadOfClose
        } else {
            Directive::Ignore
        }
    }

    /// Menu-event handler: "show" requests the main window visible and
    /// focused, "quit" terminates the process with exit code 0, and any other
    /// id is a no-op (forward compatibility for future items).
    pub fn on_menu_event(&mut self, id: &str) -> (d: Directive)
        ensures
            final(self)@ == step(old(self)@, EventView::Menu { id: id@ }),
            d@ == decide(old(self)@, EventView::Menu { id: id@ }),
    {
        match self.status {
            ProcessStatus::Running => {},
            ProcessStatus::Exited(_) => {
                return Directive::Ignore;
            },
        }
        if str_eq(id, "show") {
            self.show_and_focus()
        } else if str_eq(id, "quit") {
            self.status = ProcessStatus::Exited(0);
            Directive::ExitProcess(0)
        } else {
            Directive::Ignore
        }
    }

    /// Tray-icon handler: a primary click requests the main window visible
    /// and focused; every other interaction kind is ignored.
    pub fn on_tray_event(&mut self, interaction: TrayInteraction) -> (d: Directive)
        ensures
            final(self)@ == step(old(self)@, EventView::Tray { interaction }),
            d@ == decide(old(self)@, EventView::Tray { interaction }),
    {
        match self.status {
            ProcessStatus::Running => {},
            ProcessStatus::Exited(_) => {
                return Directive::Ignore;
            },
        }
        match interaction {
            TrayInteraction::PrimaryClick => self.show_and_focus(),
            TrayInteraction::Other => Directive::Ignore,
        }
    }

    /// The externally invocable command: overwrite the tray icon's tooltip.
    /// When the tray icon is missing the call is a silent no-op; no error is
    /// ever surfaced to the caller.
    pub fn update_tray_tooltip(&mut self, tooltip: String) -> (d: Directive)
        ensures
            final(self)@ == step(old(self)@, EventView::UpdateTooltip { text: tooltip@ }),
            d@ == decide(old(self)@, EventView::UpdateTooltip { text: tooltip@ }),
    {
        match self.status {
            ProcessStatus::Running => {},
            ProcessStatus::Exited(_) => {
                return Directive::Ignore;
            },
        }
        match &mut self.tray {
            Option::Some(t) => {
                let echoed = tooltip.clone();
                t.tooltip = tooltip;
                Directive::SetTooltip(echoed)
            },
            Option::None => Directive::Ignore,
        }
    }
}

} // verus!
