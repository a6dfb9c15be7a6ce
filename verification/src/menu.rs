//! The tray menu: a fixed two-item menu ("Show", "Quit") described as plain
//! data. The platform layer reads this description and builds the real menu
//! objects from it; the description itself is immutable after construction.

use vstd::prelude::*;

verus! {

/// One selectable menu item, identified by a stable id and carrying the label
/// shown to the user.
pub struct MenuItem {
    pub id: String,
    pub label: String,
}

/// Spec-level value of a [`MenuItem`]: its id and label as character
/// sequences.
pub struct MenuItemView {
    pub id: Seq<char>,
    pub label: Seq<char>,
}

impl View for MenuItem {
    type V = MenuItemView;

    open spec fn view(&self) -> MenuItemView {
        MenuItemView { id: self.id@, label: self.label@ }
    }
}

/// One entry of a menu: a selectable item or a visual separator.
pub enum MenuEntry {
    Item(MenuItem),
    Separator,
}

/// Spec-level value of a [`MenuEntry`].
pub enum MenuEntryView {
    Item(MenuItemView),
    Separator,
}

impl View for MenuEntry {
    type V = MenuEntryView;

    open spec fn view(&self) -> MenuEntryView {
        match self {
            MenuEntry::Item(item) => MenuEntryView::Item(item@),
            MenuEntry::Separator => MenuEntryView::Separator,
        }
    }
}

/// An ordered menu, immutable once built.
pub struct Menu {
    pub entries: Vec<MenuEntry>,
}

impl View for Menu {
    type V = Seq<MenuEntryView>;

    open spec fn view(&self) -> Seq<MenuEntryView> {
        self.entries@.map_values(|e: MenuEntry| e@)
    }
}

/// The tray menu that the controller attaches to its icon, for an application
/// displayed under `app_name`: a "show" item labeled "Show <app_name>", a
/// separator, and a "quit" item labeled "Quit", in that order.
pub open spec fn spec_tray_menu(app_name: Seq<char>) -> Seq<MenuEntryView> {
    seq![
        MenuEntryView::Item(MenuItemView { id: "show"@, label: "Show "@ + app_name }),
        MenuEntryView::Separator,
        MenuEntryView::Item(MenuItemView { id: "quit"@, label: "Quit"@ }),
    ]
}

/// Builds the description of the tray menu for an application displayed under
/// `app_name`: exactly the three entries of [`spec_tray_menu`], in order.
pub fn build_tray_menu(app_name: &str) -> (m: Menu)
    ensures
        m@ == spec_tray_menu(app_name@),
{
    let show_label = String::from_str("Show ").concat(app_name);
    let show_item = MenuItem { id: String::from_str("show"), label: show_label };
    let quit_item = MenuItem { id: String::from_str("quit"), label: String::from_str("Quit") };
    let mut entries: Vec<MenuEntry> = Vec::new();
    entries.push(MenuEntry::Item(show_item));
    entries.push(MenuEntry::Separator);
    entries.push(MenuEntry::Item(quit_item));
    let m = Menu { entries };
    proof {
        assert(m@ =~= spec_tray_menu(app_name@));
    }
    m
}

} // verus!
