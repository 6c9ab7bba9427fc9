use vstd::prelude::*;

use crate::overlay::{OverlayItemType, OVERLAY_LABEL, OVERLAY_TITLE};
use crate::text::same_text;

verus! {

/// What the application saw of the overlay window just before a command.
#[derive(Debug, Clone, Copy, PartialEq, Eq, Structural)]
pub enum WindowStatus {
    /// No overlay window exists.
    Absent,
    /// The window exists and is not visible, or its visibility could not be read.
    Hidden,
    /// The window exists and is visible.
    Shown,
}

impl WindowStatus {
    /// The status for a lookup of the overlay window: `None` when there is no
    /// window, otherwise what its visibility query returned (`None` when the
    /// query failed).
    pub open spec fn of_lookup(observed: Option<Option<bool>>) -> WindowStatus {
        match observed {
            None => WindowStatus::Absent,
            Some(Some(true)) => WindowStatus::Shown,
            Some(_) => WindowStatus::Hidden,
        }
    }

    /// Classifies a lookup of the overlay window.
    pub fn from_lookup(observed: Option<Option<bool>>) -> (r: WindowStatus)
        ensures
            r == WindowStatus::of_lookup(observed),
            r == WindowStatus::Absent <==> observed is None,
            r == WindowStatus::Shown <==> observed == Some(Some(true)),
            r == WindowStatus::Hidden <==> (observed == Some(Some(false)) || observed == Some(
                None::<bool>,
            )),
    {
        match observed {
            None => WindowStatus::Absent,
            Some(Some(true)) => WindowStatus::Shown,
            Some(_) => WindowStatus::Hidden,
        }
    }

    /// Whether an overlay window exists.
    pub fn is_present(self) -> (r: bool)
        ensures
            r == (self != WindowStatus::Absent),
    {
        match self {
            WindowStatus::Absent => false,
            _ => true,
        }
    }
}

/// Whether the overlay is visible, given a lookup of its window: a missing
/// window or a failed visibility query counts as not visible.
pub fn overlay_is_visible(observed: Option<Option<bool>>) -> (r: bool)
    ensures
        r == (observed == Some(Some(true))),
        r == (WindowStatus::of_lookup(observed) == WindowStatus::Shown),
{
    match WindowStatus::from_lookup(observed) {
        WindowStatus::Shown => true,
        _ => false,
    }
}

/// Settings with which the overlay window is built.
#[derive(Debug, Clone, Copy, PartialEq, Eq)]
pub struct OverlayWindowConfig {
    pub label: &'static str,
    pub title: &'static str,
    pub width: u32,
    pub height: u32,
    pub resizable: bool,
    pub decorations: bool,
    pub transparent: bool,
    pub shadow: bool,
    pub always_on_top: bool,
    pub skip_taskbar: bool,
    pub focused: bool,
    pub visible: bool,
    pub visible_on_all_workspaces: bool,
}

/// The settings of a new overlay window for an item type: an undecorated,
/// transparent, always-on-top window of the item type's size, built hidden
/// and without focus.
pub open spec fn overlay_window_config_spec(t: OverlayItemType) -> OverlayWindowConfig {
    OverlayWindowConfig {
        label: OVERLAY_LABEL,
        title: OVERLAY_TITLE,
        width: t.logical_size().0,
        height: t.logical_size().1,
        resizable: true,
        decorations: false,
        transparent: true,
        shadow: false,
        always_on_top: true,
        skip_taskbar: true,
        focused: false,
        visible: false,
        visible_on_all_workspaces: true,
    }
}

/// Settings of a new overlay window for an item type.
pub fn overlay_window_config(t: OverlayItemType) -> (r: OverlayWindowConfig)
    ensures
        r == overlay_window_config_spec(t),
{
    let (width, height) = overlay_dimensions(t);
    OverlayWindowConfig {
        label: OVERLAY_LABEL,
        title: OVERLAY_TITLE,
        width,
        height,
        resizable: true,
        decorations: false,
        transparent: true,
        shadow: false,
        always_on_top: true,
        skip_taskbar: true,
        focused: false,
        visible: false,
        visible_on_all_workspaces: true,
    }
}

/// Logical size of the overlay window for an item type.
pub fn overlay_dimensions(t: OverlayItemType) -> (r: (u32, u32))
    ensures
        r == t.logical_size(),
{
    t.size()
}

/// One step that the application performs on the windows, the tray or the
/// frontend.
#[derive(Debug, Clone, Copy, PartialEq, Eq)]
pub enum OverlayAction {
    /// Hide the main window.
    HideMainWindow,
    /// Register the global Cmd+B shortcut.
    RegisterShortcut,
    /// Build the overlay window with these settings.
    BuildWindow(OverlayWindowConfig),
    /// Set the overlay window's logical size.
    SetSize { width: u32, height: u32 },
    /// Centre a window of this logical size on the cursor, where the cursor
    /// position can be read.
    MoveToCursor { width: u32, height: u32 },
    /// Show the overlay window.
    Show,
    /// Hide the overlay window.
    Hide,
    /// Tell the frontend the item type that is now current.
    EmitItemType(OverlayItemType),
    /// Rebuild the tray menu from the current state.
    RefreshTray,
}

/// The action that gives the overlay window the size of an item type.
pub open spec fn resize_action(t: OverlayItemType) -> OverlayAction {
    OverlayAction::SetSize { width: t.logical_size().0, height: t.logical_size().1 }
}

/// Resize, move under the cursor, then show.
pub open spec fn position_plan(t: OverlayItemType) -> Seq<OverlayAction> {
    seq![
        resize_action(t),
        OverlayAction::MoveToCursor { width: t.logical_size().0, height: t.logical_size().1 },
        OverlayAction::Show,
    ]
}

/// Nothing when the window exists; otherwise build it hidden, then position
/// and show it.
pub open spec fn create_plan(window: WindowStatus, t: OverlayItemType) -> Seq<OverlayAction> {
    if window == WindowStatus::Absent {
        seq![OverlayAction::BuildWindow(overlay_window_config_spec(t))] + position_plan(t)
    } else {
        seq![]
    }
}

/// Plan of the show command.
pub open spec fn show_plan(window: WindowStatus, t: OverlayItemType) -> Seq<OverlayAction> {
    if window == WindowStatus::Absent {
        create_plan(window, t).push(OverlayAction::RefreshTray)
    } else {
        position_plan(t).push(OverlayAction::RefreshTray)
    }
}

/// Plan of the hide command.
pub open spec fn hide_plan(window: WindowStatus) -> Seq<OverlayAction> {
    if window == WindowStatus::Absent {
        seq![OverlayAction::RefreshTray]
    } else {
        seq![OverlayAction::Hide, OverlayAction::RefreshTray]
    }
}

/// Plan of the toggle command.
pub open spec fn toggle_plan(window: WindowStatus, t: OverlayItemType) -> Seq<OverlayAction> {
    match window {
        WindowStatus::Shown => seq![OverlayAction::Hide, OverlayAction::RefreshTray],
        WindowStatus::Hidden => position_plan(t).push(OverlayAction::RefreshTray),
        WindowStatus::Absent => create_plan(window, t).push(OverlayAction::RefreshTray),
    }
}

/// Plan of the command that makes `t` the current item type.
pub open spec fn set_type_plan(window: WindowStatus, t: OverlayItemType) -> Seq<OverlayAction> {
    if window == WindowStatus::Absent {
        seq![OverlayAction::EmitItemType(t), OverlayAction::RefreshTray]
    } else {
        seq![resize_action(t), OverlayAction::EmitItemType(t), OverlayAction::RefreshTray]
    }
}

/// Plan of the application's start.
pub open spec fn setup_plan(
    main_window_present: bool,
    overlay: WindowStatus,
    t: OverlayItemType,
) -> Seq<OverlayAction> {
    let head = if main_window_present {
        seq![OverlayAction::HideMainWindow, OverlayAction::RegisterShortcut]
    } else {
        seq![OverlayAction::RegisterShortcut]
    };
    (head + create_plan(overlay, t)).push(OverlayAction::RefreshTray)
}

/// The action that gives the overlay window the size of an item type.
pub fn sync_overlay_window_size(t: OverlayItemType) -> (r: OverlayAction)
    ensures
        r == resize_action(t),
{
    let (width, height) = overlay_dimensions(t);
    OverlayAction::SetSize { width, height }
}

/// Resizes the overlay window, centres it on the cursor and shows it.
pub fn position_overlay_window(t: OverlayItemType) -> (plan: Vec<OverlayAction>)
    ensures
        plan@ == position_plan(t),
{
    let (width, height) = overlay_dimensions(t);
    let mut plan: Vec<OverlayAction> = Vec::new();
    plan.push(sync_overlay_window_size(t));
    plan.push(OverlayAction::MoveToCursor { width, height });
    plan.push(OverlayAction::Show);
    assert(plan@ =~= position_plan(t));
    plan
}

/// Builds and shows the overlay window unless it exists already.
pub fn create_overlay_window(window: WindowStatus, t: OverlayItemType) -> (plan: Vec<OverlayAction>)
    ensures
        plan@ == create_plan(window, t),
{
    let mut plan: Vec<OverlayAction> = Vec::new();
    if window.is_present() {
        assert(plan@ =~= create_plan(window, t));
        return plan;
    }
    plan.push(OverlayAction::BuildWindow(overlay_window_config(t)));
    let mut rest = position_overlay_window(t);
    plan.append(&mut rest);
    assert(plan@ =~= create_plan(window, t));
    plan
}

/// Hides the overlay window if there is one, then refreshes the tray.
pub fn hide_overlay(window: WindowStatus) -> (plan: Vec<OverlayAction>)
    ensures
        plan@ == hide_plan(window),
{
    let mut plan: Vec<OverlayAction> = Vec::new();
    if window.is_present() {
        plan.push(OverlayAction::Hide);
    }
    plan.push(OverlayAction::RefreshTray);
    assert(plan@ =~= hide_plan(window));
    plan
}

/// Whether a request to close a window is turned into hiding it: only the
/// overlay window is kept alive this way.
pub fn intercept_close_request(window_label: &str) -> (r: bool)
    ensures
        r == (window_label@ == OVERLAY_LABEL@),
{
    same_text(window_label, OVERLAY_LABEL)
}

/// Whether reopening the application shows the overlay: only when no window
/// is visible.
pub fn show_on_reopen(has_visible_windows: bool) -> (r: bool)
    ensures
        r == !has_visible_windows,
{
    !has_visible_windows
}

/// The actions of a plan that are attempted when its actions are performed
/// in order and the one at `failed` fails (`None`: none fails): every action
/// up to and including the failing one, none after it.
pub open spec fn performed(plan: Seq<OverlayAction>, failed: Option<int>) -> Seq<OverlayAction> {
    match failed {
        Some(k) => if 0 <= k < plan.len() {
            plan.take(k + 1)
        } else {
            plan
        },
        None => plan,
    }
}

/// The actions that successive calls of [`next_action`] hand out from
/// `index` on, when the action at `failed` (if any) fails and every other
/// one succeeds.
pub open spec fn handed_out(plan: Seq<OverlayAction>, index: int, failed: Option<int>) -> Seq<
    OverlayAction,
>
    decreases plan.len() - index,
{
    if 0 <= index < plan.len() {
        if failed == Some(index) {
            seq![plan[index]]
        } else {
            seq![plan[index]] + handed_out(plan, index + 1, failed)
        }
    } else {
        seq![]
    }
}

/// The next action to perform: the one at `index`, provided the previous one
/// succeeded; `None` once the plan is done or a step has failed.
pub fn next_action(plan: &Vec<OverlayAction>, index: usize, last_ok: bool) -> (r: Option<
    OverlayAction,
>)
    ensures
        r == (if last_ok && index < plan@.len() {
            Some(plan@[index as int])
        } else {
            None::<OverlayAction>
        }),
{
    if last_ok && index < plan.len() {
        Some(plan[index])
    } else {
        None
    }
}

/// The state the application keeps between commands.
pub struct AppState {
    pub overlay_item_type: OverlayItemType,
}

impl AppState {
    /// The state at start: the first item type.
    pub fn new() -> (s: AppState)
        ensures
            s.overlay_item_type == OverlayItemType::Type1,
    {
        AppState { overlay_item_type: OverlayItemType::Type1 }
    }

    /// The current item type.
    pub fn current_overlay_item_type(&self) -> (r: OverlayItemType)
        ensures
            r == self.overlay_item_type,
    {
        self.overlay_item_type
    }

    /// Shows the overlay with the current item type, building the window if
    /// needed, then refreshes the tray.
    pub fn show_overlay(&self, window: WindowStatus) -> (plan: Vec<OverlayAction>)
        ensures
            plan@ == show_plan(window, self.overlay_item_type),
    {
        let t = self.current_overlay_item_type();
        let mut plan = if window.is_present() {
            position_overlay_window(t)
        } else {
            create_overlay_window(window, t)
        };
        plan.push(OverlayAction::RefreshTray);
        plan
    }

    /// Hides a visible overlay, or shows a hidden or missing one, then
    /// refreshes the tray.
    pub fn toggle_overlay(&self, window: WindowStatus) -> (plan: Vec<OverlayAction>)
        ensures
            plan@ == toggle_plan(window, self.overlay_item_type),
    {
        let t = self.current_overlay_item_type();
        let mut plan = match window {
            WindowStatus::Shown => {
                let mut p: Vec<OverlayAction> = Vec::new();
                p.push(OverlayAction::Hide);
                p
            },
            WindowStatus::Hidden => position_overlay_window(t),
            WindowStatus::Absent => create_overlay_window(window, t),
        };
        plan.push(OverlayAction::RefreshTray);
        proof {
            if window == WindowStatus::Shown {
                assert(plan@ =~= toggle_plan(window, t));
            }
        }
        plan
    }

    /// Makes `t` the current item type: resizes the overlay window if there
    /// is one, tells the frontend, and refreshes the tray.
    pub fn set_overlay_item_type(&mut self, window: WindowStatus, t: OverlayItemType) -> (plan: Vec<
        OverlayAction,
    >)
        ensures
            final(self).overlay_item_type == t,
            plan@ == set_type_plan(window, t),
    {
        self.overlay_item_type = t;
        let mut plan: Vec<OverlayAction> = Vec::new();
        if window.is_present() {
            plan.push(sync_overlay_window_size(t));
        }
        plan.push(OverlayAction::EmitItemType(t));
        plan.push(OverlayAction::RefreshTray);
        assert(plan@ =~= set_type_plan(window, t));
        plan
    }

    /// Makes the first item type current.
    pub fn set_type1(&mut self, window: WindowStatus) -> (plan: Vec<OverlayAction>)
        ensures
            final(self).overlay_item_type == OverlayItemType::Type1,
            plan@ == set_type_plan(window, OverlayItemType::Type1),
    {
        self.set_overlay_item_type(window, OverlayItemType::Type1)
    }

    /// Makes the second item type current.
    pub fn set_type2(&mut self, window: WindowStatus) -> (plan: Vec<OverlayAction>)
        ensures
            final(self).overlay_item_type == OverlayItemType::Type2,
            plan@ == set_type_plan(window, OverlayItemType::Type2),
    {
        self.set_overlay_item_type(window, OverlayItemType::Type2)
    }

    /// Start of the application: hide the main window if there is one,
    /// register the shortcut, build and show the overlay, refresh the tray.
    pub fn setup(&self, main_window_present: bool, overlay: WindowStatus) -> (plan: Vec<
        OverlayAction,
    >)
        ensures
            plan@ == setup_plan(main_window_present, overlay, self.overlay_item_type),
    {
        let mut plan: Vec<OverlayAction> = Vec::new();
        if main_window_present {
            plan.push(OverlayAction::HideMainWindow);
        }
        plan.push(OverlayAction::RegisterShortcut);
        let mut created = create_overlay_window(overlay, self.current_overlay_item_type());
        plan.append(&mut created);
        plan.push(OverlayAction::RefreshTray);
        assert(plan@ =~= setup_plan(main_window_present, overlay, self.overlay_item_type));
        plan
    }
}

} // verus!
