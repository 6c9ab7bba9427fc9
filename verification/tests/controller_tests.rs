use miserarenaiyo::controller::{
    create_overlay_window, hide_overlay, intercept_close_request, overlay_dimensions,
    overlay_is_visible, overlay_window_config, position_overlay_window, show_on_reopen,
    sync_overlay_window_size, AppState, OverlayAction, OverlayWindowConfig, WindowStatus,
};
use miserarenaiyo::overlay::OverlayItemType;

fn config(width: u32, height: u32) -> OverlayWindowConfig {
    OverlayWindowConfig {
        label: "overlay",
        title: "Miserarenaiyo Overlay",
        width,
        height,
        resizable: true,
        decorations: false,
        transparent: true,
        shadow: false,
        always_on_top: true,
        skip_taskbar: true,
        focused: false,
        visible: false,
        visible_on_all_workspaces: true,
    }
}

/// The window as the actions leave it: (exists, visible, width, height).
fn run(mut w: (bool, bool, u32, u32), plan: &[OverlayAction]) -> (bool, bool, u32, u32) {
    for a in plan {
        match *a {
            OverlayAction::BuildWindow(c) => {
                if !w.0 {
                    w = (true, c.visible, c.width, c.height);
                }
            }
            OverlayAction::SetSize { width, height } => {
                if w.0 {
                    w.2 = width;
                    w.3 = height;
                }
            }
            OverlayAction::Show => {
                if w.0 {
                    w.1 = true;
                }
            }
            OverlayAction::Hide => {
                if w.0 {
                    w.1 = false;
                }
            }
            _ => {}
        }
    }
    w
}

fn status(w: (bool, bool, u32, u32)) -> WindowStatus {
    if !w.0 {
        WindowStatus::Absent
    } else if w.1 {
        WindowStatus::Shown
    } else {
        WindowStatus::Hidden
    }
}

#[test]
fn window_status_from_lookup() {
    assert_eq!(WindowStatus::from_lookup(None), WindowStatus::Absent);
    assert_eq!(WindowStatus::from_lookup(Some(Some(true))), WindowStatus::Shown);
    assert_eq!(WindowStatus::from_lookup(Some(Some(false))), WindowStatus::Hidden);
    assert_eq!(WindowStatus::from_lookup(Some(None)), WindowStatus::Hidden);
    assert!(!WindowStatus::Absent.is_present());
    assert!(WindowStatus::Hidden.is_present());
    assert!(WindowStatus::Shown.is_present());
}

#[test]
fn visibility_of_overlay() {
    assert!(!overlay_is_visible(None));
    assert!(!overlay_is_visible(Some(None)));
    assert!(!overlay_is_visible(Some(Some(false))));
    assert!(overlay_is_visible(Some(Some(true))));
}

#[test]
fn dimensions_and_config() {
    assert_eq!(overlay_dimensions(OverlayItemType::Type2), (320, 180));
    assert_eq!(overlay_window_config(OverlayItemType::Type1), config(240, 240));
    assert_eq!(overlay_window_config(OverlayItemType::Type2), config(320, 180));
    assert_eq!(
        sync_overlay_window_size(OverlayItemType::Type2),
        OverlayAction::SetSize { width: 320, height: 180 }
    );
}

#[test]
fn position_plan_resizes_moves_and_shows() {
    assert_eq!(
        position_overlay_window(OverlayItemType::Type2),
        vec![
            OverlayAction::SetSize { width: 320, height: 180 },
            OverlayAction::MoveToCursor { width: 320, height: 180 },
            OverlayAction::Show,
        ]
    );
}

#[test]
fn create_plan_only_when_absent() {
    assert!(create_overlay_window(WindowStatus::Hidden, OverlayItemType::Type1).is_empty());
    assert!(create_overlay_window(WindowStatus::Shown, OverlayItemType::Type1).is_empty());
    assert_eq!(
        create_overlay_window(WindowStatus::Absent, OverlayItemType::Type1),
        vec![
            OverlayAction::BuildWindow(config(240, 240)),
            OverlayAction::SetSize { width: 240, height: 240 },
            OverlayAction::MoveToCursor { width: 240, height: 240 },
            OverlayAction::Show,
        ]
    );
}

#[test]
fn new_state_starts_with_first_type() {
    let state = AppState::new();
    assert_eq!(state.current_overlay_item_type(), OverlayItemType::Type1);
}

#[test]
fn show_overlay_plans() {
    let state = AppState::new();
    assert_eq!(
        state.show_overlay(WindowStatus::Hidden),
        vec![
            OverlayAction::SetSize { width: 240, height: 240 },
            OverlayAction::MoveToCursor { width: 240, height: 240 },
            OverlayAction::Show,
            OverlayAction::RefreshTray,
        ]
    );
    assert_eq!(
        state.show_overlay(WindowStatus::Absent),
        vec![
            OverlayAction::BuildWindow(config(240, 240)),
            OverlayAction::SetSize { width: 240, height: 240 },
            OverlayAction::MoveToCursor { width: 240, height: 240 },
            OverlayAction::Show,
            OverlayAction::RefreshTray,
        ]
    );
}

#[test]
fn show_overlay_leaves_it_visible() {
    let mut state = AppState::new();
    let _ = state.set_type2(WindowStatus::Absent);
    for w in [(false, false, 0, 0), (false, true, 7, 7), (true, false, 240, 240), (true, true, 1, 2)] {
        let after = run(w, &state.show_overlay(status(w)));
        assert_eq!(after, (true, true, 320, 180));
    }
}

#[test]
fn hide_overlay_plans() {
    assert_eq!(hide_overlay(WindowStatus::Absent), vec![OverlayAction::RefreshTray]);
    assert_eq!(
        hide_overlay(WindowStatus::Shown),
        vec![OverlayAction::Hide, OverlayAction::RefreshTray]
    );
    assert_eq!(run((true, true, 240, 240), &hide_overlay(WindowStatus::Shown)), (true, false, 240, 240));
}

#[test]
fn toggle_overlay_plans() {
    let state = AppState::new();
    assert_eq!(
        state.toggle_overlay(WindowStatus::Shown),
        vec![OverlayAction::Hide, OverlayAction::RefreshTray]
    );
    assert_eq!(
        state.toggle_overlay(WindowStatus::Hidden),
        vec![
            OverlayAction::SetSize { width: 240, height: 240 },
            OverlayAction::MoveToCursor { width: 240, height: 240 },
            OverlayAction::Show,
            OverlayAction::RefreshTray,
        ]
    );
    assert_eq!(state.toggle_overlay(WindowStatus::Absent).len(), 5);
}

#[test]
fn toggle_twice_restores_visibility() {
    let state = AppState::new();
    for w in [(true, true, 240, 240), (true, false, 240, 240)] {
        let once = run(w, &state.toggle_overlay(status(w)));
        assert_eq!(once.1, !w.1);
        let twice = run(once, &state.toggle_overlay(status(once)));
        assert_eq!(twice.1, w.1);
    }
}

#[test]
fn set_type_writes_state_and_plans() {
    let mut state = AppState::new();
    let plan = state.set_overlay_item_type(WindowStatus::Shown, OverlayItemType::Type2);
    assert_eq!(state.current_overlay_item_type(), OverlayItemType::Type2);
    assert_eq!(
        plan,
        vec![
            OverlayAction::SetSize { width: 320, height: 180 },
            OverlayAction::EmitItemType(OverlayItemType::Type2),
            OverlayAction::RefreshTray,
        ]
    );
    assert_eq!(run((true, true, 240, 240), &plan), (true, true, 320, 180));
    let plan = state.set_type1(WindowStatus::Absent);
    assert_eq!(state.current_overlay_item_type(), OverlayItemType::Type1);
    assert_eq!(
        plan,
        vec![OverlayAction::EmitItemType(OverlayItemType::Type1), OverlayAction::RefreshTray]
    );
    let _ = state.set_type2(WindowStatus::Hidden);
    assert_eq!(state.current_overlay_item_type(), OverlayItemType::Type2);
}

#[test]
fn setup_plans() {
    let state = AppState::new();
    assert_eq!(
        state.setup(true, WindowStatus::Absent),
        vec![
            OverlayAction::HideMainWindow,
            OverlayAction::RegisterShortcut,
            OverlayAction::BuildWindow(config(240, 240)),
            OverlayAction::SetSize { width: 240, height: 240 },
            OverlayAction::MoveToCursor { width: 240, height: 240 },
            OverlayAction::Show,
            OverlayAction::RefreshTray,
        ]
    );
    assert_eq!(
        state.setup(false, WindowStatus::Hidden),
        vec![OverlayAction::RegisterShortcut, OverlayAction::RefreshTray]
    );
    assert_eq!(run((false, false, 0, 0), &state.setup(false, WindowStatus::Absent)), (true, true, 240, 240));
}

#[test]
fn every_command_ends_with_tray_refresh() {
    let mut state = AppState::new();
    for w in [WindowStatus::Absent, WindowStatus::Hidden, WindowStatus::Shown] {
        assert_eq!(state.show_overlay(w).last(), Some(&OverlayAction::RefreshTray));
        assert_eq!(hide_overlay(w).last(), Some(&OverlayAction::RefreshTray));
        assert_eq!(state.toggle_overlay(w).last(), Some(&OverlayAction::RefreshTray));
        assert_eq!(state.set_type2(w).last(), Some(&OverlayAction::RefreshTray));
        assert_eq!(state.setup(true, w).last(), Some(&OverlayAction::RefreshTray));
    }
}

#[test]
fn close_requests_and_reopen() {
    assert!(intercept_close_request("overlay"));
    assert!(!intercept_close_request("main"));
    assert!(!intercept_close_request("overlay2"));
    assert!(show_on_reopen(false));
    assert!(!show_on_reopen(true));
}
