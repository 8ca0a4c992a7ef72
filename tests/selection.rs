use bevy_prank::selection::{
    cursor_window, focused_window, select_active, sync_active, CameraInfo, RenderTarget, WindowInfo, WindowRef,
};

fn on_window(entity: u64, window: u64, is_active: bool) -> CameraInfo {
    CameraInfo { entity, is_active, target: RenderTarget::Window(WindowRef::Entity(window)) }
}

#[test]
fn two_active_cameras_pick_the_focused_window_not_the_first() {
    let windows = vec![
        WindowInfo { entity: 1, focused: false },
        WindowInfo { entity: 2, focused: true },
    ];
    let cameras = vec![on_window(100, 1, true), on_window(200, 2, true)];
    assert_eq!(focused_window(&windows, None), Some(2));
    assert_eq!(select_active(&cameras, None, 2), Some(200));
    assert_eq!(sync_active(None, &windows, None, &cameras), Some(Some(200)));
}

#[test]
fn first_qualifying_camera_wins_on_a_shared_window() {
    let cameras = vec![on_window(7, 3, false), on_window(8, 3, true), on_window(9, 3, true)];
    assert_eq!(select_active(&cameras, None, 3), Some(8));
}

#[test]
fn primary_reference_resolves_to_the_primary_window() {
    let cameras = vec![CameraInfo {
        entity: 5,
        is_active: true,
        target: RenderTarget::Window(WindowRef::Primary),
    }];
    assert_eq!(select_active(&cameras, Some(1), 1), Some(5));
    assert_eq!(select_active(&cameras, None, 1), None);
    assert_eq!(select_active(&cameras, Some(1), 2), None);
}

#[test]
fn offscreen_camera_is_never_selected() {
    let cameras = vec![CameraInfo { entity: 5, is_active: true, target: RenderTarget::Offscreen }];
    assert_eq!(select_active(&cameras, Some(1), 1), None);
    assert_eq!(RenderTarget::Offscreen.window(Some(1)), None);
}

#[test]
fn render_target_window_resolution() {
    assert_eq!(RenderTarget::Window(WindowRef::Primary).window(Some(4)), Some(4));
    assert_eq!(RenderTarget::Window(WindowRef::Entity(9)).window(Some(4)), Some(9));
    assert_eq!(RenderTarget::Window(WindowRef::Entity(9)).window(None), Some(9));
}

#[test]
fn focused_window_prefers_other_windows_then_primary() {
    let primary = WindowInfo { entity: 1, focused: true };
    let others = vec![WindowInfo { entity: 2, focused: false }, WindowInfo { entity: 3, focused: true }];
    assert_eq!(focused_window(&others, Some(primary)), Some(3));
    let unfocused = vec![WindowInfo { entity: 2, focused: false }];
    assert_eq!(focused_window(&unfocused, Some(primary)), Some(1));
    assert_eq!(focused_window(&unfocused, Some(WindowInfo { entity: 1, focused: false })), None);
    assert_eq!(focused_window(&vec![], None), None);
}

#[test]
fn sync_active_reports_only_changes() {
    let windows = vec![WindowInfo { entity: 2, focused: true }];
    let cameras = vec![on_window(20, 2, true)];
    assert_eq!(sync_active(Some(20), &windows, None, &cameras), None);
    assert_eq!(sync_active(Some(30), &windows, None, &cameras), Some(Some(20)));
}

#[test]
fn sync_active_keeps_the_camera_without_a_focused_window() {
    let windows = vec![WindowInfo { entity: 2, focused: false }];
    let cameras = vec![on_window(20, 2, true)];
    assert_eq!(sync_active(Some(20), &windows, None, &cameras), None);
    assert_eq!(sync_active(None, &windows, None, &cameras), None);
}

#[test]
fn sync_active_clears_when_no_camera_qualifies() {
    let windows = vec![WindowInfo { entity: 2, focused: true }];
    let cameras = vec![on_window(20, 3, true)];
    assert_eq!(sync_active(Some(20), &windows, None, &cameras), Some(None));
    assert_eq!(sync_active(None, &windows, None, &cameras), None);
}

#[test]
fn cursor_window_uses_own_window_else_primary() {
    let others = vec![2u64, 3];
    let own = RenderTarget::Window(WindowRef::Entity(3));
    assert_eq!(cursor_window(own, Some(1), &others), Some(3));
    let missing = RenderTarget::Window(WindowRef::Entity(8));
    assert_eq!(cursor_window(missing, Some(1), &others), Some(1));
    assert_eq!(cursor_window(missing, None, &others), None);
    let primary = RenderTarget::Window(WindowRef::Primary);
    assert_eq!(cursor_window(primary, Some(1), &others), Some(1));
    assert_eq!(cursor_window(RenderTarget::Offscreen, Some(1), &others), None);
}
