use winit_wayland::window::LastConfigure;
use winit_wayland::window::{
    ime_cursor_rectangle, is_stateless, state_change_requires_resize, truncate_title, Configure,
    CursorError, CursorGrabMode, DecorateStep, DecorationClick, DecorationMode, FrameAction,
    FrameBorders, FrameCallbackState, FrameClickStep, GrabPlan, GrabState, ImePurpose,
    LogicalPosition, LogicalSize, ResizeDirection, ResizeEdge, SizeRequest, Theme, WindowState,
    MAX_TITLE_BYTES, MIN_WINDOW_HEIGHT, MIN_WINDOW_WIDTH, STATE_ACTIVATED, STATE_FULLSCREEN,
    STATE_MAXIMIZED, STATE_RESIZING, STATE_SUSPENDED, STATE_TILED,
};

fn size(width: u32, height: u32) -> LogicalSize {
    LogicalSize { width, height }
}

fn sized(width: u32, height: u32, state: u32) -> Configure {
    Configure {
        new_width: Some(width),
        new_height: Some(height),
        suggested_bounds: None,
        decoration_mode: DecorationMode::Server,
        state,
    }
}

fn unsized_cfg(bounds: Option<(u32, u32)>, state: u32) -> Configure {
    Configure {
        new_width: None,
        new_height: None,
        suggested_bounds: bounds,
        decoration_mode: DecorationMode::Client,
        state,
    }
}

#[test]
fn new_window_waits_for_its_first_configure() {
    let window = WindowState::new(size(800, 600), Some(Theme::Dark));
    assert_eq!(window.inner_size(), size(800, 600));
    assert!(window.initial_size_pending);
    assert!(!window.is_configured());
    assert!(window.resizable());
    assert!(!window.has_focus());
    assert_eq!(window.theme(), Some(Theme::Dark));
    assert_eq!(window.title(), "");
    assert_eq!(window.frame_callback_state(), FrameCallbackState::Idle);
    assert_eq!(window.cursor_grab_mode, GrabState::new());
    assert_eq!(window.min_inner_size, size(MIN_WINDOW_WIDTH, MIN_WINDOW_HEIGHT));
    assert_eq!(window.ime_purpose(), ImePurpose::Normal);
    assert!(!window.ime_allowed());
}

#[test]
fn stateless_means_not_maximized_fullscreen_or_tiled() {
    assert!(is_stateless(0));
    assert!(is_stateless(STATE_ACTIVATED | STATE_RESIZING | STATE_SUSPENDED));
    assert!(!is_stateless(STATE_MAXIMIZED));
    assert!(!is_stateless(STATE_FULLSCREEN));
    assert!(!is_stateless(STATE_TILED));
    assert!(is_stateless(0x10), "one tiled edge is not tiled");
}

#[test]
fn focus_and_suspension_changes_need_no_resize() {
    assert!(state_change_requires_resize(None, 0));
    assert!(!state_change_requires_resize(Some(0), STATE_ACTIVATED));
    assert!(!state_change_requires_resize(Some(STATE_ACTIVATED), STATE_SUSPENDED));
    assert!(state_change_requires_resize(Some(0), STATE_MAXIMIZED));
}

#[test]
fn compositor_size_is_taken_and_repeating_it_resizes_once() {
    let mut window = WindowState::new(size(800, 600), None);
    assert!(window.configure(&sized(1024, 768, 0), size(800, 600), None));
    assert_eq!(window.inner_size(), size(1024, 768));
    assert_eq!(window.stateless_size, size(1024, 768));
    assert!(window.is_configured());
    assert!(!window.configure(&sized(1024, 768, 0), size(800, 600), None));
    assert!(!window.configure(&sized(1024, 768, STATE_ACTIVATED), size(800, 600), None));
}

#[test]
fn frame_borders_come_off_the_compositor_size() {
    let mut window = WindowState::new(size(800, 600), None);
    let borders = Some(FrameBorders { width: 2, height: 30 });
    window.configure(&sized(1024, 768, 0), size(800, 600), borders);
    assert_eq!(window.inner_size(), size(1022, 738));
    window.configure(&sized(1, 10, 0), size(800, 600), borders);
    assert_eq!(window.inner_size(), size(1, 1));
}

#[test]
fn without_a_size_the_window_keeps_its_own_within_bounds() {
    let mut window = WindowState::new(size(800, 600), None);
    assert!(window.configure(&unsized_cfg(Some((500, 0)), 0), size(800, 600), None));
    assert_eq!(window.inner_size(), size(500, 600));
    let mut window = WindowState::new(size(800, 600), None);
    window.configure(&unsized_cfg(None, 0), size(640, 480), None);
    assert_eq!(window.inner_size(), size(640, 480));
}

#[test]
fn maximized_size_is_not_remembered_as_the_floating_size() {
    let mut window = WindowState::new(size(800, 600), None);
    window.configure(&sized(800, 600, 0), size(800, 600), None);
    window.configure(&sized(1920, 1080, STATE_MAXIMIZED), size(800, 600), None);
    assert_eq!(window.inner_size(), size(1920, 1080));
    assert_eq!(window.stateless_size, size(800, 600));
    // Restored without a size: back to the floating size.
    assert!(window.configure(&unsized_cfg(None, 0), size(800, 600), None));
    assert_eq!(window.inner_size(), size(800, 600));
}

#[test]
fn requested_size_waits_while_maximized() {
    let mut window = WindowState::new(size(800, 600), None);
    assert_eq!(window.request_inner_size(size(300, 200)), SizeRequest::Resized);
    assert_eq!(window.inner_size(), size(300, 200));
    window.configure(&sized(1920, 1080, STATE_MAXIMIZED), size(800, 600), None);
    assert_eq!(
        window.request_inner_size(size(640, 480)),
        SizeRequest::Deferred { width: 640, height: 480 }
    );
    assert_eq!(window.inner_size(), size(1920, 1080));
    assert_eq!(window.stateless_size, size(640, 480));
}

#[test]
fn min_size_is_at_least_the_window_minimum_plus_borders() {
    let mut window = WindowState::new(size(800, 600), None);
    assert_eq!(window.set_min_inner_size(Some(size(0, 0)), None), size(2, 1));
    assert_eq!(window.set_min_inner_size(None, Some(FrameBorders { width: 2, height: 30 })), size(4, 31));
    assert_eq!(window.set_min_inner_size(Some(size(100, 50)), None), size(100, 50));
    assert_eq!(window.set_max_inner_size(Some(size(900, 700)), Some(FrameBorders { width: 2, height: 30 })), Some(size(902, 730)));
    assert_eq!(window.set_max_inner_size(None, None), None);
}

#[test]
fn a_fixed_window_pins_both_hints_to_its_size() {
    let mut window = WindowState::new(size(800, 600), None);
    window.set_max_inner_size(Some(size(1000, 1000)), None);
    assert_eq!(window.set_resizable(true, None), None);
    assert_eq!(window.set_resizable(false, None), Some((size(800, 600), Some(size(800, 600)))));
    assert!(!window.resizable());
    // Becoming resizable again sends the stored hints once more.
    assert_eq!(window.set_resizable(true, None), Some((size(800, 600), Some(size(800, 600)))));
}

#[test]
fn reload_sends_the_stored_hints_through_their_setters() {
    let mut window = WindowState::new(size(800, 600), None);
    window.set_min_inner_size(Some(size(100, 100)), None);
    let borders = Some(FrameBorders { width: 2, height: 30 });
    assert_eq!(window.reload_min_max_hints(borders), (size(102, 130), None));
}

#[test]
fn outer_size_adds_the_frame() {
    let window = WindowState::new(size(800, 600), None);
    assert_eq!(window.outer_size(Some(FrameBorders { width: 2, height: 30 })), size(802, 630));
    assert_eq!(window.outer_size(None), size(800, 600));
}

#[test]
fn frame_callbacks_are_throttled() {
    let mut window = WindowState::new(size(10, 10), None);
    assert!(window.request_frame_callback());
    assert!(!window.request_frame_callback());
    assert_eq!(window.frame_callback_state(), FrameCallbackState::Requested);
    window.frame_callback_received();
    assert_eq!(window.frame_callback_state(), FrameCallbackState::Received);
    assert!(window.request_frame_callback());
    window.frame_callback_reset();
    assert_eq!(window.frame_callback_state(), FrameCallbackState::Idle);
    assert_eq!(FrameCallbackState::default(), FrameCallbackState::Idle);
}

#[test]
fn client_frame_is_created_once() {
    let mut window = WindowState::new(size(10, 10), None);
    assert_eq!(window.frame_action(DecorationMode::Client, false, true), FrameAction::Create);
    assert_eq!(window.frame_action(DecorationMode::Client, true, true), FrameAction::Keep);
    assert_eq!(window.frame_action(DecorationMode::Client, false, false), FrameAction::Keep);
    assert_eq!(window.frame_action(DecorationMode::Server, true, true), FrameAction::Drop);
    window.frame_creation_failed();
    assert_eq!(window.frame_action(DecorationMode::Client, false, true), FrameAction::Keep);
}

#[test]
fn decorations_follow_the_mode_and_the_frame() {
    let mut window = WindowState::new(size(10, 10), None);
    assert!(window.is_decorated(Some(true)));
    window.configure(&unsized_cfg(None, 0), size(10, 10), None);
    assert!(window.is_decorated(Some(false)));
    assert!(!window.is_decorated(Some(true)));
    assert!(window.is_decorated(None));
}

#[test]
fn undecorating_a_server_decorated_window_asks_for_client_mode() {
    let mut window = WindowState::new(size(10, 10), None);
    window.configure(&sized(10, 10, 0), size(10, 10), None);
    assert_eq!(window.set_decorate(true, false), None);
    assert_eq!(
        window.set_decorate(false, false),
        Some(DecorateStep { request_mode: Some(DecorationMode::Client), frame_hidden: true })
    );
    assert_eq!(
        window.set_decorate(true, false),
        Some(DecorateStep { request_mode: Some(DecorationMode::Server), frame_hidden: false })
    );
}

#[test]
fn grabs_need_pointer_constraints() {
    let mut window = WindowState::new(size(10, 10), None);
    assert_eq!(
        window.set_cursor_grab(CursorGrabMode::Confined, false, 1),
        Err(CursorError::NotSupported)
    );
    assert_eq!(window.cursor_grab_mode.user_grab_mode, CursorGrabMode::Free);
    assert_eq!(window.check_cursor_position(false), Err(CursorError::NotSupported));
}

#[test]
fn lock_then_free_releases_the_lock() {
    let mut window = WindowState::new(size(10, 10), None);
    assert_eq!(
        window.set_cursor_grab(CursorGrabMode::Locked, true, 1),
        Ok(GrabPlan { release: None, apply: Some(CursorGrabMode::Locked) })
    );
    assert_eq!(window.check_cursor_position(true), Ok(()));
    assert_eq!(
        window.set_cursor_grab(CursorGrabMode::Free, true, 1),
        Ok(GrabPlan { release: Some(CursorGrabMode::Locked), apply: None })
    );
    assert_eq!(window.check_cursor_position(true), Err(CursorError::NotLocked));
}

#[test]
fn grab_without_a_pointer_waits_for_one() {
    let mut window = WindowState::new(size(10, 10), None);
    assert_eq!(
        window.set_cursor_grab(CursorGrabMode::Confined, true, 0),
        Ok(GrabPlan { release: None, apply: None })
    );
    assert_eq!(window.cursor_grab_mode.user_grab_mode, CursorGrabMode::Confined);
    assert_eq!(window.cursor_grab_mode.current_grab_mode, CursorGrabMode::Free);
    // A pointer enters: the user's grab is applied.
    assert_eq!(
        window.set_cursor_grab_inner(CursorGrabMode::Confined, true, 1),
        Ok(GrabPlan { release: None, apply: Some(CursorGrabMode::Confined) })
    );
    assert_eq!(window.cursor_grab_mode.current_grab_mode, CursorGrabMode::Confined);
}

#[test]
fn seats_focus_until_the_last_one_leaves() {
    let mut window = WindowState::new(size(10, 10), None);
    window.add_seat_focus(1);
    window.add_seat_focus(2);
    window.remove_seat_focus(1);
    assert!(window.has_focus());
    window.remove_seat_focus(2);
    assert!(!window.has_focus());
}

#[test]
fn long_titles_are_cut_at_a_character_boundary() {
    assert_eq!(MAX_TITLE_BYTES, 1024);
    let short = "hello".to_string();
    assert_eq!(truncate_title(short.clone()), short);
    let ascii = "a".repeat(1100);
    assert_eq!(truncate_title(ascii).len(), 1024);
    let wide = format!("a{}", "é".repeat(600));
    let kept = truncate_title(wide.clone());
    assert_eq!(kept.len(), 1023);
    assert!(wide.starts_with(&kept));
    let mut window = WindowState::new(size(10, 10), None);
    window.set_title("x".repeat(2000));
    assert_eq!(window.title().len(), 1024);
}

#[test]
fn a_click_to_move_waits_for_the_pointer_to_move() {
    let mut window = WindowState::new(size(10, 10), None);
    assert_eq!(window.frame_click(Some(DecorationClick::Move), 77), Some(FrameClickStep::Move));
    assert_eq!(window.has_pending_move, Some(77));
    assert_eq!(window.frame_point_moved(true), Some(77));
    assert_eq!(window.has_pending_move, None);
    window.frame_move_requested(5);
    assert_eq!(window.frame_point_moved(false), None);
    assert_eq!(window.has_pending_move, None);
}

#[test]
fn frame_clicks_map_to_window_steps() {
    let mut window = WindowState::new(size(10, 10), None);
    assert_eq!(window.frame_click(None, 1), None);
    assert_eq!(window.frame_click(Some(DecorationClick::Close), 1), Some(FrameClickStep::Close));
    assert_eq!(window.frame_click(Some(DecorationClick::Resize(None)), 1), None);
    assert_eq!(
        window.frame_click(Some(DecorationClick::Resize(Some(ResizeEdge::TopLeft))), 1),
        Some(FrameClickStep::Resize(ResizeEdge::TopLeft))
    );
    assert_eq!(
        window.frame_click(Some(DecorationClick::ShowMenu(4, 5)), 1),
        Some(FrameClickStep::ShowMenu(4, 5))
    );
    assert_eq!(window.frame_click(Some(DecorationClick::Other), 1), Some(FrameClickStep::Nothing));
    assert_eq!(window.has_pending_move, None);
}

#[test]
fn resize_directions_name_their_edges() {
    assert_eq!(ResizeEdge::from(ResizeDirection::North), ResizeEdge::Top);
    assert_eq!(ResizeEdge::from(ResizeDirection::SouthEast), ResizeEdge::BottomRight);
    assert_eq!(ResizeEdge::from(ResizeDirection::West), ResizeEdge::Left);
    assert_eq!(ResizeEdge::from(ResizeDirection::NorthEast), ResizeEdge::TopRight);
}

#[test]
fn transparency_decides_the_opaque_region() {
    let mut window = WindowState::new(size(10, 10), None);
    assert_eq!(window.opaque_region(), Some((0, 0, i32::MAX, i32::MAX)));
    window.set_transparent(true);
    assert_eq!(window.opaque_region(), None);
}

#[test]
fn ime_requests_reach_the_text_inputs() {
    let mut window = WindowState::new(size(10, 10), None);
    assert!(!window.set_ime_allowed(true, 0));
    assert!(window.ime_allowed());
    assert!(window.set_ime_allowed(false, 2));
    window.set_ime_purpose(ImePurpose::Password);
    assert_eq!(window.ime_purpose(), ImePurpose::Password);
    assert_eq!(
        ime_cursor_rectangle(LogicalPosition { x: 3, y: 4 }, size(5, 6)),
        (3, 4, 5, 6)
    );
    assert_eq!(
        ime_cursor_rectangle(LogicalPosition { x: u32::MAX, y: 0 }, size(0, 0)),
        (-1, 0, 0, 0)
    );
}

#[test]
fn toggling_decorations_with_a_frame_forces_a_resize() {
    let mut window = WindowState::new(size(800, 600), None);
    window.request_inner_size(size(300, 200));
    assert_eq!(window.stateless_size, size(800, 600));
    window.last_configure = Some(LastConfigure { decoration_mode: DecorationMode::Client, state: 0 });
    window.set_decorate(false, true);
    assert_eq!(window.inner_size(), size(300, 200));
    assert_eq!(window.stateless_size, size(300, 200), "the forced resize updates the floating size");
}
