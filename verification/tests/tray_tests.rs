use miserarenaiyo::overlay::OverlayItemType;
use miserarenaiyo::tray::{
    menu_command, overlay_status_text, toggle_item_text, tray_menu, MenuCommand, TrayEntry,
    MENU_QUIT_ID, MENU_STATUS_ID, MENU_TOGGLE_ID, MENU_TYPE1_ID, MENU_TYPE2_ID,
};

#[test]
fn status_texts() {
    assert_eq!(overlay_status_text(true, OverlayItemType::Type1), "Overlay: Visible (Type1)");
    assert_eq!(overlay_status_text(false, OverlayItemType::Type2), "Overlay: Hidden (Type2)");
}

#[test]
fn toggle_texts() {
    assert_eq!(toggle_item_text(true), "Hide Overlay");
    assert_eq!(toggle_item_text(false), "Show Overlay");
}

#[test]
fn tray_menu_for_visible_type1() {
    let menu = tray_menu(true, OverlayItemType::Type1);
    assert_eq!(
        menu,
        vec![
            TrayEntry::Item {
                id: "menu-status",
                text: "Overlay: Visible (Type1)".to_string(),
                enabled: false
            },
            TrayEntry::Separator,
            TrayEntry::Item { id: "menu-toggle-overlay", text: "Hide Overlay".to_string(), enabled: true },
            TrayEntry::Separator,
            TrayEntry::CheckItem { id: "menu-type1", text: "Type1".to_string(), checked: true },
            TrayEntry::CheckItem { id: "menu-type2", text: "Type2".to_string(), checked: false },
            TrayEntry::Separator,
            TrayEntry::Item { id: "menu-quit", text: "Quit".to_string(), enabled: true },
        ]
    );
}

#[test]
fn tray_menu_for_hidden_type2() {
    let menu = tray_menu(false, OverlayItemType::Type2);
    assert_eq!(menu.len(), 8);
    assert_eq!(
        menu[0],
        TrayEntry::Item { id: "menu-status", text: "Overlay: Hidden (Type2)".to_string(), enabled: false }
    );
    assert_eq!(
        menu[2],
        TrayEntry::Item { id: "menu-toggle-overlay", text: "Show Overlay".to_string(), enabled: true }
    );
    assert_eq!(
        menu[4],
        TrayEntry::CheckItem { id: "menu-type1", text: "Type1".to_string(), checked: false }
    );
    assert_eq!(
        menu[5],
        TrayEntry::CheckItem { id: "menu-type2", text: "Type2".to_string(), checked: true }
    );
}

#[test]
fn menu_ids() {
    assert_eq!(MENU_STATUS_ID, "menu-status");
    assert_eq!(MENU_TOGGLE_ID, "menu-toggle-overlay");
    assert_eq!(MENU_TYPE1_ID, "menu-type1");
    assert_eq!(MENU_TYPE2_ID, "menu-type2");
    assert_eq!(MENU_QUIT_ID, "menu-quit");
}

#[test]
fn menu_commands() {
    assert_eq!(menu_command("menu-toggle-overlay"), Some(MenuCommand::ToggleOverlay));
    assert_eq!(menu_command("menu-type1"), Some(MenuCommand::SetType1));
    assert_eq!(menu_command("menu-type2"), Some(MenuCommand::SetType2));
    assert_eq!(menu_command("menu-quit"), Some(MenuCommand::Quit));
    assert_eq!(menu_command("menu-status"), None);
    assert_eq!(menu_command(""), None);
    assert_eq!(menu_command("menu-type3"), None);
}

#[test]
fn every_menu_item_dispatches_to_its_command() {
    let menu = tray_menu(true, OverlayItemType::Type2);
    let ids: Vec<Option<MenuCommand>> = menu
        .iter()
        .filter_map(|e| match e {
            TrayEntry::Item { id, .. } | TrayEntry::CheckItem { id, .. } => Some(menu_command(id)),
            TrayEntry::Separator => None,
        })
        .collect();
    assert_eq!(
        ids,
        vec![
            None,
            Some(MenuCommand::ToggleOverlay),
            Some(MenuCommand::SetType1),
            Some(MenuCommand::SetType2),
            Some(MenuCommand::Quit),
        ]
    );
}
