use miserarenaiyo::overlay::{OverlayItemType, OVERLAY_LABEL, OVERLAY_TYPE_CHANGED_EVENT, TRAY_ID};
use miserarenaiyo::text::same_text;

#[test]
fn sizes_of_item_types() {
    assert_eq!(OverlayItemType::Type1.size(), (240, 240));
    assert_eq!(OverlayItemType::Type2.size(), (320, 180));
}

#[test]
fn labels_of_item_types() {
    assert_eq!(OverlayItemType::Type1.label(), "Type1");
    assert_eq!(OverlayItemType::Type2.label(), "Type2");
}

#[test]
fn names_of_windows_tray_and_event() {
    assert_eq!(OVERLAY_LABEL, "overlay");
    assert_eq!(TRAY_ID, "miserarenaiyo");
    assert_eq!(OVERLAY_TYPE_CHANGED_EVENT, "overlay-item-type-changed");
}

#[test]
fn same_text_compares_characters() {
    assert!(same_text("overlay", "overlay"));
    assert!(same_text("", ""));
    assert!(!same_text("overlay", "overlays"));
    assert!(!same_text("overlay", "Overlay"));
    assert!(!same_text("main", "mail"));
    assert!(same_text("é-ü", "é-ü"));
}
