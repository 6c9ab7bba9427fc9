use vstd::prelude::*;

use crate::controller::{
    overlay_window_config_spec, create_plan, handed_out, hide_plan, performed, position_plan, set_type_plan, setup_plan,
    show_plan, toggle_plan, OverlayAction, WindowStatus,
};
use crate::overlay::{OverlayItemType, OVERLAY_LABEL, OVERLAY_TITLE};

verus! {

/// The overlay window as the actions see it: whether it exists, whether it
/// is visible, and its logical size.
pub struct WindowModel {
    pub exists: bool,
    pub visible: bool,
    pub width: u32,
    pub height: u32,
}

/// What a lookup of the modelled window reports.
pub open spec fn status_of(w: WindowModel) -> WindowStatus {
    if !w.exists {
        WindowStatus::Absent
    } else if w.visible {
        WindowStatus::Shown
    } else {
        WindowStatus::Hidden
    }
}

/// The effect of one action on the overlay window. Building gives a window
/// with the configured visibility and size where none exists; resizing,
/// showing and hiding act on an existing window; the other actions leave it
/// as it is.
pub open spec fn apply_action(w: WindowModel, a: OverlayAction) -> WindowModel {
    match a {
        OverlayAction::BuildWindow(c) => if w.exists {
            w
        } else {
            WindowModel { exists: true, visible: c.visible, width: c.width, height: c.height }
        },
        OverlayAction::SetSize { width, height } => if w.exists {
            WindowModel { width, height, ..w }
        } else {
            w
        },
        OverlayAction::Show => if w.exists {
            WindowModel { visible: true, ..w }
        } else {
            w
        },
        OverlayAction::Hide => if w.exists {
            WindowModel { visible: false, ..w }
        } else {
            w
        },
        _ => w,
    }
}

/// The effect of a plan, its actions performed in order.
pub open spec fn apply_plan(w: WindowModel, plan: Seq<OverlayAction>) -> WindowModel
    decreases plan.len(),
{
    if plan.len() == 0 {
        w
    } else {
        apply_plan(apply_action(w, plan[0]), plan.drop_first())
    }
}

/// A visible window of the item type's size.
pub open spec fn shown_with(t: OverlayItemType) -> WindowModel {
    WindowModel {
        exists: true,
        visible: true,
        width: t.logical_size().0,
        height: t.logical_size().1,
    }
}

/// Performing two plans one after the other is performing their concatenation.
pub proof fn lemma_apply_concat(w: WindowModel, a: Seq<OverlayAction>, b: Seq<OverlayAction>)
    ensures
        apply_plan(w, a + b) == apply_plan(apply_plan(w, a), b),
    decreases a.len(),
{
    if a.len() == 0 {
        assert(a + b =~= b);
    } else {
        assert((a + b).drop_first() =~= a.drop_first() + b);
        lemma_apply_concat(apply_action(w, a[0]), a.drop_first(), b);
    }
}

/// A plan of one action has the effect of that action.
pub proof fn lemma_apply_single(w: WindowModel, a: OverlayAction)
    ensures
        apply_plan(w, seq![a]) == apply_action(w, a),
{
    assert(seq![a].drop_first() =~= Seq::<OverlayAction>::empty());
    reveal_with_fuel(apply_plan, 2);
}

/// Appending an action performs it after the plan.
pub proof fn lemma_apply_push(w: WindowModel, p: Seq<OverlayAction>, a: OverlayAction)
    ensures
        apply_plan(w, p.push(a)) == apply_action(apply_plan(w, p), a),
{
    assert(p.push(a) =~= p + seq![a]);
    lemma_apply_concat(w, p, seq![a]);
    lemma_apply_single(apply_plan(w, p), a);
}

/// Positioning shows an existing window with the item type's size.
proof fn lemma_position(w: WindowModel, t: OverlayItemType)
    requires
        w.exists,
    ensures
        apply_plan(w, position_plan(t)) == shown_with(t),
{
    let p = position_plan(t);
    assert(p =~= seq![p[0]].push(p[1]).push(p[2]));
    lemma_apply_single(w, p[0]);
    lemma_apply_push(w, seq![p[0]], p[1]);
    lemma_apply_push(w, seq![p[0]].push(p[1]), p[2]);
}

/// Creating gives a missing window, shown with the item type's size, and
/// leaves an existing one as it is.
proof fn lemma_create(w: WindowModel, t: OverlayItemType)
    ensures
        w.exists ==> apply_plan(w, create_plan(status_of(w), t)) == w,
        !w.exists ==> apply_plan(w, create_plan(status_of(w), t)) == shown_with(t),
{
    if !w.exists {
        let b = create_plan(status_of(w), t)[0];
        lemma_apply_concat(w, seq![b], position_plan(t));
        lemma_apply_single(w, b);
        lemma_position(apply_action(w, b), t);
    }
}

/// Showing the overlay leaves it visible, with the current item type's size,
/// whether or not its window existed.
pub proof fn lemma_show_overlay_shows(w: WindowModel, t: OverlayItemType)
    ensures
        apply_plan(w, show_plan(status_of(w), t)) == shown_with(t),
{
    if w.exists {
        lemma_apply_push(w, position_plan(t), OverlayAction::RefreshTray);
        lemma_position(w, t);
    } else {
        lemma_apply_push(w, create_plan(status_of(w), t), OverlayAction::RefreshTray);
        lemma_create(w, t);
    }
}

/// Hiding the overlay leaves an existing window not visible and otherwise
/// unchanged; it builds no window.
pub proof fn lemma_hide_overlay_hides(w: WindowModel)
    ensures
        w.exists ==> apply_plan(w, hide_plan(status_of(w))) == (WindowModel {
            visible: false,
            ..w
        }),
        !w.exists ==> apply_plan(w, hide_plan(status_of(w))) == w,
{
    if w.exists {
        let p = hide_plan(status_of(w));
        assert(p =~= seq![p[0]].push(p[1]));
        lemma_apply_push(w, seq![p[0]], p[1]);
        lemma_apply_single(w, p[0]);
    } else {
        lemma_apply_single(w, OverlayAction::RefreshTray);
    }
}

/// Toggling hides a visible overlay, keeping its size, and shows a hidden or
/// missing one with the current item type's size.
pub proof fn lemma_toggle_overlay_flips(w: WindowModel, t: OverlayItemType)
    ensures
        status_of(w) == WindowStatus::Shown ==> apply_plan(w, toggle_plan(status_of(w), t)) == (
        WindowModel { visible: false, ..w }),
        status_of(w) != WindowStatus::Shown ==> apply_plan(w, toggle_plan(status_of(w), t))
            == shown_with(t),
{
    match status_of(w) {
        WindowStatus::Shown => {
            lemma_hide_overlay_hides(w);
            assert(toggle_plan(status_of(w), t) == hide_plan(status_of(w)));
        },
        WindowStatus::Hidden => {
            lemma_apply_push(w, position_plan(t), OverlayAction::RefreshTray);
            lemma_position(w, t);
        },
        WindowStatus::Absent => {
            lemma_apply_push(w, create_plan(status_of(w), t), OverlayAction::RefreshTray);
            lemma_create(w, t);
        },
    }
}

/// Toggling twice gives an existing overlay its visibility back.
pub proof fn lemma_toggle_twice_restores_visibility(w: WindowModel, t: OverlayItemType)
    requires
        w.exists,
    ensures
        ({
            let once = apply_plan(w, toggle_plan(status_of(w), t));
            let twice = apply_plan(once, toggle_plan(status_of(once), t));
            twice.exists && twice.visible == w.visible
        }),
{
    let once = apply_plan(w, toggle_plan(status_of(w), t));
    lemma_toggle_overlay_flips(w, t);
    lemma_toggle_overlay_flips(once, t);
}

/// Changing the item type gives an existing overlay the new type's size and
/// leaves its existence and visibility as they were.
pub proof fn lemma_set_type_resizes(w: WindowModel, t: OverlayItemType)
    ensures
        ({
            let r = apply_plan(w, set_type_plan(status_of(w), t));
            &&& r.exists == w.exists
            &&& r.visible == w.visible
            &&& w.exists ==> (r.width, r.height) == t.logical_size()
            &&& !w.exists ==> r == w
        }),
        set_type_plan(status_of(w), t).contains(OverlayAction::EmitItemType(t)),
{
    let p = set_type_plan(status_of(w), t);
    if w.exists {
        assert(p =~= seq![p[0]].push(p[1]).push(p[2]));
        lemma_apply_single(w, p[0]);
        lemma_apply_push(w, seq![p[0]], p[1]);
        lemma_apply_push(w, seq![p[0]].push(p[1]), p[2]);
        assert(p[1] == OverlayAction::EmitItemType(t));
    } else {
        assert(p =~= seq![p[0]].push(p[1]));
        lemma_apply_single(w, p[0]);
        lemma_apply_push(w, seq![p[0]], p[1]);
        assert(p[0] == OverlayAction::EmitItemType(t));
    }
}

/// At start, a missing overlay is built and shown with the current item
/// type's size; an existing one is left as it is.
pub proof fn lemma_setup_shows_overlay(main_window_present: bool, w: WindowModel, t: OverlayItemType)
    ensures
        !w.exists ==> apply_plan(w, setup_plan(main_window_present, status_of(w), t))
            == shown_with(t),
        w.exists ==> apply_plan(w, setup_plan(main_window_present, status_of(w), t)) == w,
{
    let head = if main_window_present {
        seq![OverlayAction::HideMainWindow, OverlayAction::RegisterShortcut]
    } else {
        seq![OverlayAction::RegisterShortcut]
    };
    let c = create_plan(status_of(w), t);
    lemma_apply_push(w, head + c, OverlayAction::RefreshTray);
    lemma_apply_concat(w, head, c);
    if main_window_present {
        assert(head =~= seq![head[0]].push(head[1]));
        lemma_apply_single(w, head[0]);
        lemma_apply_push(w, seq![head[0]], head[1]);
    } else {
        lemma_apply_single(w, head[0]);
    }
    lemma_create(w, t);
}

/// Every command ends by refreshing the tray, so the tray menu is rebuilt
/// from the state that the command leaves.
pub proof fn lemma_commands_refresh_tray(
    window: WindowStatus,
    t: OverlayItemType,
    main_window_present: bool,
)
    ensures
        show_plan(window, t).last() == OverlayAction::RefreshTray,
        hide_plan(window).last() == OverlayAction::RefreshTray,
        toggle_plan(window, t).last() == OverlayAction::RefreshTray,
        set_type_plan(window, t).last() == OverlayAction::RefreshTray,
        setup_plan(main_window_present, window, t).last() == OverlayAction::RefreshTray,
{
}

/// Driving a plan with `next_action` attempts exactly the actions up to and
/// including the first that fails, in the plan's order, and none after it.
pub proof fn lemma_next_action_stops_at_failure(
    plan: Seq<OverlayAction>,
    index: int,
    failed: Option<int>,
)
    requires
        0 <= index <= plan.len(),
        failed matches Some(k) ==> index <= k,
    ensures
        handed_out(plan, index, failed) == performed(plan, failed).skip(index),
    decreases plan.len() - index,
{
    if index < plan.len() {
        if failed == Some(index) {
            assert(performed(plan, failed).skip(index) =~= seq![plan[index]]);
        } else {
            lemma_next_action_stops_at_failure(plan, index + 1, failed);
            let p = performed(plan, failed);
            assert(p.len() > index);
            assert(p.skip(index) =~= seq![plan[index]] + p.skip(index + 1));
        }
    } else {
        assert(performed(plan, failed).skip(index) =~= Seq::<OverlayAction>::empty());
    }
}

/// The tray refresh is the last action of a plan and no earlier one.
pub open spec fn refreshes_only_at_end(plan: Seq<OverlayAction>) -> bool {
    &&& plan.len() > 0
    &&& plan.last() == OverlayAction::RefreshTray
    &&& forall|i: int| 0 <= i < plan.len() - 1 ==> plan[i] != OverlayAction::RefreshTray
}

/// When a step before the tray refresh fails, the tray is not refreshed.
proof fn lemma_no_refresh_after_failure(plan: Seq<OverlayAction>, k: int)
    requires
        refreshes_only_at_end(plan),
        0 <= k < plan.len() - 1,
    ensures
        !performed(plan, Some(k)).contains(OverlayAction::RefreshTray),
{
    let p = performed(plan, Some(k));
    assert forall|i: int| 0 <= i < p.len() implies p[i] != OverlayAction::RefreshTray by {
        assert(p[i] == plan[i]);
    }
}

/// A command stops at its first failing step: when any step before the last
/// one fails, the tray is not refreshed, and when resizing the window for a
/// new item type fails, the frontend is not told of the new type either.
pub proof fn lemma_commands_stop_at_failure(
    window: WindowStatus,
    t: OverlayItemType,
    main_window_present: bool,
    k: int,
)
    ensures
        0 <= k < show_plan(window, t).len() - 1 ==> !performed(show_plan(window, t), Some(k)).contains(
            OverlayAction::RefreshTray,
        ),
        0 <= k < hide_plan(window).len() - 1 ==> !performed(hide_plan(window), Some(k)).contains(
            OverlayAction::RefreshTray,
        ),
        0 <= k < toggle_plan(window, t).len() - 1 ==> !performed(
            toggle_plan(window, t),
            Some(k),
        ).contains(OverlayAction::RefreshTray),
        0 <= k < set_type_plan(window, t).len() - 1 ==> !performed(
            set_type_plan(window, t),
            Some(k),
        ).contains(OverlayAction::RefreshTray),
        0 <= k < setup_plan(main_window_present, window, t).len() - 1 ==> !performed(
            setup_plan(main_window_present, window, t),
            Some(k),
        ).contains(OverlayAction::RefreshTray),
        window != WindowStatus::Absent ==> !performed(set_type_plan(window, t), Some(0)).contains(
            OverlayAction::EmitItemType(t),
        ),
{
    let c = create_plan(window, t);
    assert forall|i: int| 0 <= i < c.len() implies c[i] != OverlayAction::RefreshTray by {}
    let pp = position_plan(t);
    assert forall|i: int| 0 <= i < pp.len() implies pp[i] != OverlayAction::RefreshTray by {}
    let head = if main_window_present {
        seq![OverlayAction::HideMainWindow, OverlayAction::RegisterShortcut]
    } else {
        seq![OverlayAction::RegisterShortcut]
    };
    let hc = head + c;
    assert forall|i: int| 0 <= i < hc.len() implies hc[i] != OverlayAction::RefreshTray by {
        if i >= head.len() {
            assert(hc[i] == c[i - head.len()]);
        }
    }
    assert(refreshes_only_at_end(show_plan(window, t)));
    assert(refreshes_only_at_end(hide_plan(window)));
    assert(refreshes_only_at_end(toggle_plan(window, t)));
    assert(refreshes_only_at_end(set_type_plan(window, t)));
    assert(refreshes_only_at_end(setup_plan(main_window_present, window, t)));
    if 0 <= k < show_plan(window, t).len() - 1 {
        lemma_no_refresh_after_failure(show_plan(window, t), k);
    }
    if 0 <= k < hide_plan(window).len() - 1 {
        lemma_no_refresh_after_failure(hide_plan(window), k);
    }
    if 0 <= k < toggle_plan(window, t).len() - 1 {
        lemma_no_refresh_after_failure(toggle_plan(window, t), k);
    }
    if 0 <= k < set_type_plan(window, t).len() - 1 {
        lemma_no_refresh_after_failure(set_type_plan(window, t), k);
    }
    if 0 <= k < setup_plan(main_window_present, window, t).len() - 1 {
        lemma_no_refresh_after_failure(setup_plan(main_window_present, window, t), k);
    }
    if window != WindowStatus::Absent {
        let p = performed(set_type_plan(window, t), Some(0));
        assert(p =~= seq![crate::controller::resize_action(t)]);
        assert(!p.contains(OverlayAction::EmitItemType(t))) by {
            assert(p[0] != OverlayAction::EmitItemType(t));
        }
    }
}

/// The overlay window is built hidden and without focus, resizable,
/// without decorations or shadow, transparent, above other windows, on all
/// workspaces, out of the taskbar, under the overlay label and title, and
/// at the item type's size.
pub proof fn lemma_overlay_window_config(t: OverlayItemType)
    ensures
        ({
            let c = overlay_window_config_spec(t);
            &&& c.label == OVERLAY_LABEL && c.title == OVERLAY_TITLE
            &&& (c.width, c.height) == t.logical_size()
            &&& !c.visible && !c.focused
            &&& c.resizable && !c.decorations && c.transparent && !c.shadow
            &&& c.always_on_top && c.skip_taskbar && c.visible_on_all_workspaces
        }),
{
}

/// Whether a plan's resizing and cursor placement all use the item type's
/// size, and any window it builds is configured for that item type.
pub open spec fn sized_for(plan: Seq<OverlayAction>, t: OverlayItemType) -> bool {
    forall|i: int|
        0 <= i < plan.len() ==> match #[trigger] plan[i] {
            OverlayAction::SetSize { width, height } => (width, height) == t.logical_size(),
            OverlayAction::MoveToCursor { width, height } => (width, height) == t.logical_size(),
            OverlayAction::BuildWindow(c) => c == overlay_window_config_spec(t),
            _ => true,
        }
}

/// Every command sizes, places and builds the overlay for the item type it
/// is given, and only the item-type command tells the frontend, with the
/// new type.
pub proof fn lemma_commands_use_item_type_size(
    window: WindowStatus,
    t: OverlayItemType,
    main_window_present: bool,
)
    ensures
        sized_for(show_plan(window, t), t),
        sized_for(hide_plan(window), t),
        sized_for(toggle_plan(window, t), t),
        sized_for(set_type_plan(window, t), t),
        sized_for(setup_plan(main_window_present, window, t), t),
        forall|u: OverlayItemType|
            set_type_plan(window, t).contains(OverlayAction::EmitItemType(u)) ==> u == t,
        forall|u: OverlayItemType|
            !(#[trigger] show_plan(window, t).contains(OverlayAction::EmitItemType(u))),
        forall|u: OverlayItemType|
            !(#[trigger] toggle_plan(window, t).contains(OverlayAction::EmitItemType(u))),
        forall|u: OverlayItemType| !(#[trigger] hide_plan(window).contains(OverlayAction::EmitItemType(u))),
{
    let c = create_plan(window, t);
    let pp = position_plan(t);
    assert(sized_for(pp, t));
    assert(sized_for(c, t)) by {
        if window == WindowStatus::Absent {
            assert forall|i: int| 0 <= i < c.len() implies match #[trigger] c[i] {
                OverlayAction::SetSize { width, height } => (width, height) == t.logical_size(),
                OverlayAction::MoveToCursor { width, height } => (width, height) == t.logical_size(),
                OverlayAction::BuildWindow(b) => b == overlay_window_config_spec(t),
                _ => true,
            } by {
                if i > 0 {
                    assert(c[i] == pp[i - 1]);
                }
            }
        }
    }
    let head = if main_window_present {
        seq![OverlayAction::HideMainWindow, OverlayAction::RegisterShortcut]
    } else {
        seq![OverlayAction::RegisterShortcut]
    };
    let hc = head + c;
    assert(sized_for(hc, t)) by {
        assert forall|i: int| 0 <= i < hc.len() implies match #[trigger] hc[i] {
            OverlayAction::SetSize { width, height } => (width, height) == t.logical_size(),
            OverlayAction::MoveToCursor { width, height } => (width, height) == t.logical_size(),
            OverlayAction::BuildWindow(b) => b == overlay_window_config_spec(t),
            _ => true,
        } by {
            if i >= head.len() {
                assert(hc[i] == c[i - head.len()]);
            }
        }
    }
    assert(sized_for(c.push(OverlayAction::RefreshTray), t)) by {
        let q = c.push(OverlayAction::RefreshTray);
        assert forall|i: int| 0 <= i < q.len() implies match #[trigger] q[i] {
            OverlayAction::SetSize { width, height } => (width, height) == t.logical_size(),
            OverlayAction::MoveToCursor { width, height } => (width, height) == t.logical_size(),
            OverlayAction::BuildWindow(b) => b == overlay_window_config_spec(t),
            _ => true,
        } by {
            if i < c.len() {
                assert(q[i] == c[i]);
            }
        }
    }
    assert(sized_for(pp.push(OverlayAction::RefreshTray), t)) by {
        let q = pp.push(OverlayAction::RefreshTray);
        assert forall|i: int| 0 <= i < q.len() implies match #[trigger] q[i] {
            OverlayAction::SetSize { width, height } => (width, height) == t.logical_size(),
            OverlayAction::MoveToCursor { width, height } => (width, height) == t.logical_size(),
            OverlayAction::BuildWindow(b) => b == overlay_window_config_spec(t),
            _ => true,
        } by {
            if i < pp.len() {
                assert(q[i] == pp[i]);
            }
        }
    }
    assert(sized_for(hc.push(OverlayAction::RefreshTray), t)) by {
        let q = hc.push(OverlayAction::RefreshTray);
        assert forall|i: int| 0 <= i < q.len() implies match #[trigger] q[i] {
            OverlayAction::SetSize { width, height } => (width, height) == t.logical_size(),
            OverlayAction::MoveToCursor { width, height } => (width, height) == t.logical_size(),
            OverlayAction::BuildWindow(b) => b == overlay_window_config_spec(t),
            _ => true,
        } by {
            if i < hc.len() {
                assert(q[i] == hc[i]);
            }
        }
    }
    assert(sized_for(set_type_plan(window, t), t));
    assert(sized_for(hide_plan(window), t));
    assert forall|u: OverlayItemType|
        !(#[trigger] show_plan(window, t).contains(OverlayAction::EmitItemType(u))) by {
        let p = show_plan(window, t);
        assert forall|i: int| 0 <= i < p.len() implies p[i] != OverlayAction::EmitItemType(u) by {
            if window == WindowStatus::Absent {
                if i < c.len() {
                    assert(p[i] == c[i]);
                    if i > 0 {
                        assert(c[i] == pp[i - 1]);
                    }
                }
            } else if i < pp.len() {
                assert(p[i] == pp[i]);
            }
        }
    }
    assert forall|u: OverlayItemType|
        !(#[trigger] toggle_plan(window, t).contains(OverlayAction::EmitItemType(u))) by {
        let p = toggle_plan(window, t);
        assert forall|i: int| 0 <= i < p.len() implies p[i] != OverlayAction::EmitItemType(u) by {
            if window == WindowStatus::Absent {
                if i < c.len() {
                    assert(p[i] == c[i]);
                    if i > 0 {
                        assert(c[i] == pp[i - 1]);
                    }
                }
            } else if window == WindowStatus::Hidden && i < pp.len() {
                assert(p[i] == pp[i]);
            }
        }
    }
    assert forall|u: OverlayItemType|
        set_type_plan(window, t).contains(OverlayAction::EmitItemType(u)) implies u == t by {
        let p = set_type_plan(window, t);
        let i = choose|i: int| 0 <= i < p.len() && p[i] == OverlayAction::EmitItemType(u);
    }
    assert forall|u: OverlayItemType|
        !(#[trigger] hide_plan(window).contains(OverlayAction::EmitItemType(u))) by {
        let p = hide_plan(window);
        assert forall|i: int| 0 <= i < p.len() implies p[i] != OverlayAction::EmitItemType(u) by {}
    }
}

/// At start the main window is hidden exactly when it is there, and that
/// comes first; the shortcut is registered before the overlay is built.
pub proof fn lemma_setup_order(main_window_present: bool, window: WindowStatus, t: OverlayItemType)
    ensures
        ({
            let p = setup_plan(main_window_present, window, t);
            &&& main_window_present ==> p[0] == OverlayAction::HideMainWindow
            &&& p.contains(OverlayAction::HideMainWindow) <==> main_window_present
            &&& p[if main_window_present { 1int } else { 0int }] == OverlayAction::RegisterShortcut
            &&& window == WindowStatus::Absent ==> p[if main_window_present {
                2int
            } else {
                1int
            }] == OverlayAction::BuildWindow(overlay_window_config_spec(t))
        }),
{
    let p = setup_plan(main_window_present, window, t);
    let c = create_plan(window, t);
    let pp = position_plan(t);
    if !main_window_present {
        assert forall|i: int| 0 <= i < p.len() implies p[i] != OverlayAction::HideMainWindow by {
            if 1 <= i < 1 + c.len() {
                assert(p[i] == c[i - 1]);
                if i > 1 {
                    assert(c[i - 1] == pp[i - 2]);
                }
            }
        }
    }
}

} // verus!
