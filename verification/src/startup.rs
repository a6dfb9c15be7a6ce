//! Startup of the controller.
//!
//! At startup the platform layer must (1) check that the host application has
//! a default window icon — a fatal, unrecoverable error otherwise —, (2)
//! build the tray menu, and (3) build the tray icon with its dispatch tables.
//! [`plan_startup`] makes the decision and describes, as plain data, exactly
//! what must be built; [`initial_state`] is the tracked state once that
//! construction has succeeded. Construction failures reported by the platform
//! toolkit are fatal as well and are named by [`StartupError`].

use vstd::prelude::*;

use crate::lifecycle::AppState;
use crate::lifecycle::ProcessStatus;
use crate::lifecycle::StateView;
use crate::lifecycle::StatusView;
use crate::lifecycle::TrayState;
use crate::lifecycle::TrayView;
use crate::lifecycle::Visibility;
use crate::lifecycle::WindowState;
use crate::menu::Menu;
use crate::menu::MenuEntryView;
use crate::menu::build_tray_menu;
use crate::menu::spec_tray_menu;

verus! {

/// Stable identifier of the tray icon; part of the protocol between this
/// controller and the rest of the application.
pub fn tray_icon_id() -> (r: &'static str)
    ensures
        r@ == "main-tray"@,
{
    "main-tray"
}

/// Stable label of the application's main window.
pub fn main_window_label() -> (r: &'static str)
    ensures
        r@ == "main"@,
{
    "main"
}

/// Stable id of the menu item that shows the main window.
pub fn show_menu_id() -> (r: &'static str)
    ensures
        r@ == "show"@,
{
    "show"
}

/// Stable id of the menu item that terminates the process.
pub fn quit_menu_id() -> (r: &'static str)
    ensures
        r@ == "quit"@,
{
    "quit"
}

/// Display name of the application, used in the "show" item's label and as
/// the tray icon's initial tooltip.
pub fn app_display_name() -> (r: &'static str)
    ensures
        r@ == "Chatmosphere"@,
{
    "Chatmosphere"
}

/// A fatal startup error: the application does not launch. There is no
/// recovery path because a tray-based application cannot function without its
/// tray.
#[derive(Clone, Copy, PartialEq, Eq, Structural, Debug)]
pub enum StartupError {
    /// The host application has no default window icon configured.
    MissingDefaultIcon,
    /// The platform toolkit failed to construct the menu or one of its items.
    MenuBuildFailed,
    /// The platform toolkit failed to construct the tray icon.
    TrayBuildFailed,
}

impl StartupError {
    /// The diagnostic shown when this error aborts the launch.
    pub fn message(&self) -> (m: String)
        ensures
            m@ == match *self {
                StartupError::MissingDefaultIcon => "app icon must be set in tauri.conf.json"@,
                StartupError::MenuBuildFailed => "failed to build the tray menu"@,
                StartupError::TrayBuildFailed => "failed to build the tray icon"@,
            },
    {
        match self {
            StartupError::MissingDefaultIcon => {
                String::from_str("app icon must be set in tauri.conf.json")
            },
            StartupError::MenuBuildFailed => String::from_str("failed to build the tray menu"),
            StartupError::TrayBuildFailed => String::from_str("failed to build the tray icon"),
        }
    }
}

/// Everything the platform layer must construct for the tray icon, as plain
/// data: the stable icon id, the initial tooltip, and the attached menu. The
/// icon image itself is the application's default icon, which the platform
/// layer resolves and which is required to exist.
pub struct TrayConfig {
    pub id: String,
    pub tooltip: String,
    pub menu: Menu,
}

/// Spec-level value of a [`TrayConfig`].
#[verifier::ext_equal]
pub struct TrayConfigView {
    pub id: Seq<char>,
    pub tooltip: Seq<char>,
    pub menu: Seq<MenuEntryView>,
}

impl View for TrayConfig {
    type V = TrayConfigView;

    open spec fn view(&self) -> TrayConfigView {
        TrayConfigView { id: self.id@, tooltip: self.tooltip@, menu: self.menu@ }
    }
}

/// The tray configuration for an application displayed under `app_name`:
/// icon id "main-tray", the display name as tooltip, and the fixed two-item
/// menu.
pub open spec fn spec_tray_config(app_name: Seq<char>) -> TrayConfigView {
    TrayConfigView { id: "main-tray"@, tooltip: app_name, menu: spec_tray_menu(app_name) }
}

/// The startup decision: with a default window icon available, the tray
/// configuration to build; without one, the fatal error that aborts the
/// launch before any window is shown.
pub fn plan_startup(app_name: &str, icon_available: bool) -> (r: Result<TrayConfig, StartupError>)
    ensures
        icon_available ==> (r matches Ok(c) && c@ == spec_tray_config(app_name@)),
        !icon_available ==> (r matches Err(e) && e == StartupError::MissingDefaultIcon),
{
    if !icon_available {
        return Result::Err(StartupError::MissingDefaultIcon);
    }
    let config = TrayConfig {
        id: String::from_str("main-tray"),
        tooltip: String::from_str(app_name),
        menu: build_tray_menu(app_name),
    };
    proof {
        assert(config@ =~= spec_tray_config(app_name@));
    }
    Result::Ok(config)
}

/// The tracked state right after a successful startup: the main window
/// exists, visible and focused; the tray icon exists and carries `tooltip`;
/// the process is running.
pub open spec fn spec_initial_state(tooltip: Seq<char>) -> StateView {
    StateView {
        window: Option::Some(WindowState { visibility: Visibility::Visible, focused: true }),
        tray: Option::Some(TrayView { tooltip }),
        status: StatusView::Running,
    }
}

/// The controller state entered once startup construction has succeeded.
pub fn initial_state(tooltip: &str) -> (s: AppState)
    ensures
        s@ == spec_initial_state(tooltip@),
{
    let s = AppState {
        window: Option::Some(WindowState { visibility: Visibility::Visible, focused: true }),
        tray: Option::Some(TrayState { tooltip: String::from_str(tooltip) }),
        status: ProcessStatus::Running,
    };
    proof {
        assert(s@ =~= spec_initial_state(tooltip@));
    }
    s
}

} // verus!
