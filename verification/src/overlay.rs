use vstd::prelude::*;

verus! {

/// Label of the overlay window.
pub const OVERLAY_LABEL: &'static str = "overlay";

/// Label of the application's main window, which stays hidden.
pub const MAIN_WINDOW_LABEL: &'static str = "main";

/// Title of the overlay window.
pub const OVERLAY_TITLE: &'static str = "Miserarenaiyo Overlay";

/// Id of the tray icon whose menu the application keeps up to date.
pub const TRAY_ID: &'static str = "miserarenaiyo";

/// Name of the event emitted, with the new item type, when the item type changes.
pub const OVERLAY_TYPE_CHANGED_EVENT: &'static str = "overlay-item-type-changed";

/// The kind of item the overlay shows; each kind has its own window size.
#[derive(Debug, Clone, Copy, PartialEq, Eq, Structural)]
pub enum OverlayItemType {
    Type1,
    Type2,
}

impl OverlayItemType {
    /// Logical width and height, in pixels, of the overlay window for this item type.
    pub open spec fn logical_size(self) -> (u32, u32) {
        match self {
            OverlayItemType::Type1 => (240, 240),
            OverlayItemType::Type2 => (320, 180),
        }
    }

    /// The text by which menus name this item type.
    pub open spec fn label_text(self) -> Seq<char> {
        match self {
            OverlayItemType::Type1 => "Type1"@,
            OverlayItemType::Type2 => "Type2"@,
        }
    }

    /// Logical size of the overlay window, `(width, height)`.
    pub fn size(self) -> (r: (u32, u32))
        ensures
            r == self.logical_size(),
            self == OverlayItemType::Type1 ==> r == (240u32, 240u32),
            self == OverlayItemType::Type2 ==> r == (320u32, 180u32),
    {
        match self {
            OverlayItemType::Type1 => (240, 240),
            OverlayItemType::Type2 => (320, 180),
        }
    }

    /// Name of the item type as shown to the user.
    pub fn label(self) -> (r: &'static str)
        ensures
            r@ == self.label_text(),
            self == OverlayItemType::Type1 ==> r@ == "Type1"@,
            self == OverlayItemType::Type2 ==> r@ == "Type2"@,
    {
        match self {
            OverlayItemType::Type1 => "Type1",
            OverlayItemType::Type2 => "Type2",
        }
    }
}

/// The first item type is a 240 by 240 square named "Type1"; the second a
/// 320 by 180 landscape named "Type2". The two differ in size and in name.
pub proof fn lemma_item_types(t: OverlayItemType)
    ensures
        t == OverlayItemType::Type1 ==> t.logical_size() == (240u32, 240u32) && t.label_text()
            == "Type1"@,
        t == OverlayItemType::Type2 ==> t.logical_size() == (320u32, 180u32) && t.label_text()
            == "Type2"@,
        OverlayItemType::Type1.logical_size() != OverlayItemType::Type2.logical_size(),
        OverlayItemType::Type1.label_text() != OverlayItemType::Type2.label_text(),
{
    reveal_strlit("Type1");
    reveal_strlit("Type2");
    assert("Type1"@[4] != "Type2"@[4]);
}

/// The names of the windows, the tray icon and the event.
pub proof fn lemma_names()
    ensures
        OVERLAY_LABEL@ == "overlay"@,
        MAIN_WINDOW_LABEL@ == "main"@,
        OVERLAY_TITLE@ == "Miserarenaiyo Overlay"@,
        TRAY_ID@ == "miserarenaiyo"@,
        OVERLAY_TYPE_CHANGED_EVENT@ == "overlay-item-type-changed"@,
{
}

} // verus!
