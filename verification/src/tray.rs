use vstd::prelude::*;

use crate::overlay::OverlayItemType;
use crate::text::same_text;

verus! {

/// Id of the menu line that tells the overlay's state.
pub const MENU_STATUS_ID: &'static str = "menu-status";

/// Id of the menu item that shows or hides the overlay.
pub const MENU_TOGGLE_ID: &'static str = "menu-toggle-overlay";

/// Id of the menu item that selects the first item type.
pub const MENU_TYPE1_ID: &'static str = "menu-type1";

/// Id of the menu item that selects the second item type.
pub const MENU_TYPE2_ID: &'static str = "menu-type2";

/// Id of the menu item that quits the application.
pub const MENU_QUIT_ID: &'static str = "menu-quit";

/// One line of the tray menu.
#[derive(Debug, PartialEq, Eq)]
pub enum TrayEntry {
    /// A plain item.
    Item { id: &'static str, text: String, enabled: bool },
    /// An item with a check mark.
    CheckItem { id: &'static str, text: String, checked: bool },
    /// A separating line.
    Separator,
}

/// A line of the tray menu, with its texts as character sequences.
pub enum TrayEntryView {
    Item { id: Seq<char>, text: Seq<char>, enabled: bool },
    CheckItem { id: Seq<char>, text: Seq<char>, checked: bool },
    Separator,
}

impl View for TrayEntry {
    type V = TrayEntryView;

    open spec fn view(&self) -> TrayEntryView {
        match self {
            TrayEntry::Item { id, text, enabled } => TrayEntryView::Item {
                id: id@,
                text: text@,
                enabled: *enabled,
            },
            TrayEntry::CheckItem { id, text, checked } => TrayEntryView::CheckItem {
                id: id@,
                text: text@,
                checked: *checked,
            },
            TrayEntry::Separator => TrayEntryView::Separator,
        }
    }
}

/// "Overlay: Visible (<label>)" or "Overlay: Hidden (<label>)".
pub open spec fn status_text(overlay_visible: bool, t: OverlayItemType) -> Seq<char> {
    "Overlay: "@ + (if overlay_visible {
        "Visible"@
    } else {
        "Hidden"@
    }) + " ("@ + t.label_text() + ")"@
}

/// The toggle item offers what it would do: hide a visible overlay, show a
/// hidden one.
pub open spec fn toggle_text(overlay_visible: bool) -> Seq<char> {
    if overlay_visible {
        "Hide Overlay"@
    } else {
        "Show Overlay"@
    }
}

/// The tray menu for a state: a disabled status line, the toggle item, one
/// check item per item type with the current one checked, and the quit
/// item, in groups apart by separators.
pub open spec fn tray_menu_spec(overlay_visible: bool, t: OverlayItemType) -> Seq<TrayEntryView> {
    seq![
        TrayEntryView::Item {
            id: MENU_STATUS_ID@,
            text: status_text(overlay_visible, t),
            enabled: false,
        },
        TrayEntryView::Separator,
        TrayEntryView::Item { id: MENU_TOGGLE_ID@, text: toggle_text(overlay_visible), enabled: true },
        TrayEntryView::Separator,
        TrayEntryView::CheckItem {
            id: MENU_TYPE1_ID@,
            text: "Type1"@,
            checked: t == OverlayItemType::Type1,
        },
        TrayEntryView::CheckItem {
            id: MENU_TYPE2_ID@,
            text: "Type2"@,
            checked: t == OverlayItemType::Type2,
        },
        TrayEntryView::Separator,
        TrayEntryView::Item { id: MENU_QUIT_ID@, text: "Quit"@, enabled: true },
    ]
}

/// Text of the tray's status line.
pub fn overlay_status_text(overlay_visible: bool, t: OverlayItemType) -> (r: String)
    ensures
        r@ == status_text(overlay_visible, t),
{
    let state = if overlay_visible {
        "Visible"
    } else {
        "Hidden"
    };
    String::from_str("Overlay: ").concat(state).concat(" (").concat(t.label()).concat(")")
}

/// Text of the toggle item.
pub fn toggle_item_text(overlay_visible: bool) -> (r: &'static str)
    ensures
        r@ == toggle_text(overlay_visible),
{
    if overlay_visible {
        "Hide Overlay"
    } else {
        "Show Overlay"
    }
}

/// The tray menu for whether the overlay is visible and the current item type.
pub fn tray_menu(overlay_visible: bool, t: OverlayItemType) -> (r: Vec<TrayEntry>)
    ensures
        r@.len() == tray_menu_spec(overlay_visible, t).len(),
        forall|i: int| 0 <= i < r@.len() ==> #[trigger] r@[i]@ == tray_menu_spec(overlay_visible, t)[i],
        r@.len() == 8,
        r@[0] matches TrayEntry::Item { enabled, .. } && !enabled,
        r@[2] matches TrayEntry::Item { enabled, .. } && enabled,
        r@[7] matches TrayEntry::Item { id, text, enabled } && enabled && id@ == "menu-quit"@
            && text@ == "Quit"@,
{
    let mut r: Vec<TrayEntry> = Vec::new();
    r.push(
        TrayEntry::Item {
            id: MENU_STATUS_ID,
            text: overlay_status_text(overlay_visible, t),
            enabled: false,
        },
    );
    r.push(TrayEntry::Separator);
    r.push(
        TrayEntry::Item {
            id: MENU_TOGGLE_ID,
            text: String::from_str(toggle_item_text(overlay_visible)),
            enabled: true,
        },
    );
    r.push(TrayEntry::Separator);
    let type1_checked = match t {
        OverlayItemType::Type1 => true,
        OverlayItemType::Type2 => false,
    };
    r.push(TrayEntry::CheckItem { id: MENU_TYPE1_ID, text: String::from_str("Type1"), checked: type1_checked });
    r.push(TrayEntry::CheckItem { id: MENU_TYPE2_ID, text: String::from_str("Type2"), checked: !type1_checked });
    r.push(TrayEntry::Separator);
    r.push(TrayEntry::Item { id: MENU_QUIT_ID, text: String::from_str("Quit"), enabled: true });
    r
}

/// What a click on a tray menu item asks for.
#[derive(Debug, Clone, Copy, PartialEq, Eq, Structural)]
pub enum MenuCommand {
    ToggleOverlay,
    SetType1,
    SetType2,
    Quit,
}

/// The command of the menu item with this id, if any.
pub open spec fn menu_command_spec(id: Seq<char>) -> Option<MenuCommand> {
    if id == MENU_TOGGLE_ID@ {
        Some(MenuCommand::ToggleOverlay)
    } else if id == MENU_TYPE1_ID@ {
        Some(MenuCommand::SetType1)
    } else if id == MENU_TYPE2_ID@ {
        Some(MenuCommand::SetType2)
    } else if id == MENU_QUIT_ID@ {
        Some(MenuCommand::Quit)
    } else {
        None
    }
}

/// The command of a clicked menu item; ids of no command give `None`.
pub fn menu_command(id: &str) -> (r: Option<MenuCommand>)
    ensures
        r == menu_command_spec(id@),
{
    if same_text(id, MENU_TOGGLE_ID) {
        Some(MenuCommand::ToggleOverlay)
    } else if same_text(id, MENU_TYPE1_ID) {
        Some(MenuCommand::SetType1)
    } else if same_text(id, MENU_TYPE2_ID) {
        Some(MenuCommand::SetType2)
    } else if same_text(id, MENU_QUIT_ID) {
        Some(MenuCommand::Quit)
    } else {
        None
    }
}

/// The tray menu tells the state: its status line names the visibility and
/// the item type, its toggle item offers the opposite of the visibility, and
/// of the two item-type entries exactly the current one is checked.
pub proof fn lemma_tray_menu_reflects_state(overlay_visible: bool, t: OverlayItemType)
    ensures
        ({
            let m = tray_menu_spec(overlay_visible, t);
            &&& m[0] matches TrayEntryView::Item { text, enabled, .. } && text == "Overlay: "@ + (
            if overlay_visible {
                "Visible"@
            } else {
                "Hidden"@
            }) + " ("@ + t.label_text() + ")"@ && !enabled
            &&& m[2] matches TrayEntryView::Item { text, .. } && (text == "Hide Overlay"@
                <==> overlay_visible)
            &&& m[4] matches TrayEntryView::CheckItem { checked: c1, .. }
            &&& m[5] matches TrayEntryView::CheckItem { checked: c2, .. }
            &&& (c1 != c2)
            &&& (c1 <==> t == OverlayItemType::Type1)
        }),
{
    reveal_strlit("Hide Overlay");
    reveal_strlit("Show Overlay");
    assert("Hide Overlay"@[0] != "Show Overlay"@[0]);
    let m = tray_menu_spec(overlay_visible, t);
    assert(m[0] == TrayEntryView::Item {
        id: MENU_STATUS_ID@,
        text: status_text(overlay_visible, t),
        enabled: false,
    });
    assert(m[2] == TrayEntryView::Item {
        id: MENU_TOGGLE_ID@,
        text: toggle_text(overlay_visible),
        enabled: true,
    });
}

/// Clicking an item of the tray menu asks for what the item says: the
/// toggle item toggles, each item-type entry selects its type, the quit item
/// quits, and the status line asks for nothing.
pub proof fn lemma_menu_items_dispatch(overlay_visible: bool, t: OverlayItemType)
    ensures
        ({
            let m = tray_menu_spec(overlay_visible, t);
            &&& m[0] matches TrayEntryView::Item { id, .. } && menu_command_spec(id) == None::<
                MenuCommand,
            >
            &&& m[2] matches TrayEntryView::Item { id, .. } && menu_command_spec(id) == Some(
                MenuCommand::ToggleOverlay,
            )
            &&& m[4] matches TrayEntryView::CheckItem { id, .. } && menu_command_spec(id) == Some(
                MenuCommand::SetType1,
            )
            &&& m[5] matches TrayEntryView::CheckItem { id, .. } && menu_command_spec(id) == Some(
                MenuCommand::SetType2,
            )
            &&& m[7] matches TrayEntryView::Item { id, .. } && menu_command_spec(id) == Some(
                MenuCommand::Quit,
            )
        }),
{
    reveal_strlit("menu-status");
    reveal_strlit("menu-toggle-overlay");
    reveal_strlit("menu-type1");
    reveal_strlit("menu-type2");
    reveal_strlit("menu-quit");
    assert(MENU_STATUS_ID@[5] != MENU_TOGGLE_ID@[5]);
    assert(MENU_STATUS_ID@[5] != MENU_TYPE1_ID@[5]);
    assert(MENU_STATUS_ID@[5] != MENU_TYPE2_ID@[5]);
    assert(MENU_STATUS_ID@[5] != MENU_QUIT_ID@[5]);
    assert(MENU_TYPE1_ID@[6] != MENU_TOGGLE_ID@[6]);
    assert(MENU_TYPE2_ID@[6] != MENU_TOGGLE_ID@[6]);
    assert(MENU_TYPE1_ID@[9] != MENU_TYPE2_ID@[9]);
    assert(MENU_QUIT_ID@[5] != MENU_TOGGLE_ID@[5]);
    assert(MENU_QUIT_ID@[5] != MENU_TYPE1_ID@[5]);
    assert(MENU_QUIT_ID@[5] != MENU_TYPE2_ID@[5]);
}

/// The tray menu has eight lines whatever the state: the status line, which
/// is the only disabled line; the toggle item, always enabled and offering
/// "Hide Overlay" when the overlay is visible and "Show Overlay" when it is
/// not; the two item-type entries, labelled "Type1" and "Type2"; and the
/// quit item, always enabled and labelled "Quit"; with separators at lines
/// 1, 3 and 6.
pub proof fn lemma_tray_menu_layout(overlay_visible: bool, t: OverlayItemType)
    ensures
        ({
            let m = tray_menu_spec(overlay_visible, t);
            &&& m.len() == 8
            &&& m[0] matches TrayEntryView::Item { id, enabled, .. } && id == "menu-status"@
                && !enabled
            &&& m[1] is Separator
            &&& m[2] matches TrayEntryView::Item { id, text, enabled } && id
                == "menu-toggle-overlay"@ && enabled && text == (if overlay_visible {
                "Hide Overlay"@
            } else {
                "Show Overlay"@
            })
            &&& m[3] is Separator
            &&& m[4] matches TrayEntryView::CheckItem { id, text, .. } && id == "menu-type1"@
                && text == "Type1"@
            &&& m[5] matches TrayEntryView::CheckItem { id, text, .. } && id == "menu-type2"@
                && text == "Type2"@
            &&& m[6] is Separator
            &&& m[7] matches TrayEntryView::Item { id, text, enabled } && id == "menu-quit"@
                && text == "Quit"@ && enabled
            &&& forall|i: int|
                1 <= i < m.len() ==> !(#[trigger] m[i] matches TrayEntryView::Item {
                    enabled,
                    ..
                } && !enabled)
        }),
{
    let m = tray_menu_spec(overlay_visible, t);
    assert forall|i: int| 1 <= i < m.len() implies !(#[trigger] m[i] matches TrayEntryView::Item {
        enabled,
        ..
    } && !enabled) by {
        if i == 2 || i == 7 {
        }
    }
}

/// Only the four clickable ids ask for anything: "menu-toggle-overlay"
/// toggles, "menu-type1" and "menu-type2" select their type, "menu-quit"
/// quits, and every other id, the status line's among them, asks for nothing.
pub proof fn lemma_menu_command_ids(id: Seq<char>)
    ensures
        menu_command_spec(id) == Some(MenuCommand::ToggleOverlay) <==> id == "menu-toggle-overlay"@,
        menu_command_spec(id) == Some(MenuCommand::SetType1) <==> id == "menu-type1"@,
        menu_command_spec(id) == Some(MenuCommand::SetType2) <==> id == "menu-type2"@,
        menu_command_spec(id) == Some(MenuCommand::Quit) <==> id == "menu-quit"@,
        menu_command_spec(id) is None <==> (id != "menu-toggle-overlay"@ && id != "menu-type1"@
            && id != "menu-type2"@ && id != "menu-quit"@),
{
    reveal_strlit("menu-toggle-overlay");
    reveal_strlit("menu-type1");
    reveal_strlit("menu-type2");
    reveal_strlit("menu-quit");
    assert(MENU_TYPE1_ID@[6] != MENU_TOGGLE_ID@[6]);
    assert(MENU_TYPE2_ID@[6] != MENU_TOGGLE_ID@[6]);
    assert(MENU_TYPE1_ID@[9] != MENU_TYPE2_ID@[9]);
    assert(MENU_QUIT_ID@[5] != MENU_TOGGLE_ID@[5]);
    assert(MENU_QUIT_ID@[5] != MENU_TYPE1_ID@[5]);
    assert(MENU_QUIT_ID@[5] != MENU_TYPE2_ID@[5]);
}

} // verus!
