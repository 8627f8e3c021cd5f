use winit_wayland::ids::WindowId;
use winit_wayland::keyboard::{
    keyboard_entered_window, keyboard_left_window, popup_enter_events, popup_leave_events, take_popup_focus, FocusEvent, KeyboardFocus,
    KeyboardSession, KeyboardState, ModifiersState, RepeatInfo,
};
use winit_wayland::popup::PopupId;
use winit_wayland::window::{LogicalSize, WindowState};

type WindowQueue = Vec<(WindowId, FocusEvent)>;
type PopupQueue = Vec<(PopupId, FocusEvent)>;

#[test]
fn window_focus_queues_in_the_window_sink() {
    let (mut windows, mut popups): (WindowQueue, PopupQueue) = (Vec::new(), Vec::new());
    let went_to_popup =
        KeyboardFocus::Window(WindowId(7)).push(FocusEvent::Focused(true), &mut windows, &mut popups);
    assert!(!went_to_popup);
    assert!(popups.is_empty());
    assert!(matches!(windows.as_slice(), [(WindowId(7), FocusEvent::Focused(true))]));
}

#[test]
fn popup_focus_queues_as_a_popup_event() {
    let (mut windows, mut popups): (WindowQueue, PopupQueue) = (Vec::new(), Vec::new());
    let modifiers = FocusEvent::ModifiersChanged(ModifiersState::shift());
    let went_to_popup = KeyboardFocus::Popup(PopupId(3)).push(modifiers, &mut windows, &mut popups);
    assert!(went_to_popup, "flagged, since the Wayland source only checks the window sink");
    assert!(windows.is_empty());
    assert_eq!(popups, vec![(PopupId(3), modifiers)]);
}

#[test]
fn leave_takes_only_a_popups_focus() {
    let mut focus = Some(KeyboardFocus::Popup(PopupId(3)));
    assert_eq!(take_popup_focus(&mut focus), Some(PopupId(3)));
    assert_eq!(focus, None);

    let mut focus = Some(KeyboardFocus::Window(WindowId(7)));
    assert_eq!(take_popup_focus(&mut focus), None);
    assert_eq!(focus, Some(KeyboardFocus::Window(WindowId(7))), "the window path clears it");

    let mut focus = None;
    assert_eq!(take_popup_focus(&mut focus), None);
}

#[test]
fn popup_enter_focuses_then_sends_held_modifiers() {
    let id = PopupId(3);
    assert_eq!(popup_enter_events(id, None), vec![(id, FocusEvent::Focused(true))]);
    assert_eq!(popup_enter_events(id, Some(ModifiersState::control())), vec![
        (id, FocusEvent::Focused(true)),
        (id, FocusEvent::ModifiersChanged(ModifiersState::control())),
    ]);
}

#[test]
fn popup_leave_clears_modifiers_then_focus() {
    let id = PopupId(3);
    assert_eq!(popup_leave_events(id).to_vec(), vec![
        (id, FocusEvent::ModifiersChanged(ModifiersState::empty())),
        (id, FocusEvent::Focused(false)),
    ]);
}

#[test]
fn modifier_bits_match_the_keyboard_flags() {
    assert_eq!(ModifiersState::shift(), ModifiersState(0b100));
    assert_eq!(ModifiersState::control(), ModifiersState(0b100 << 3));
    assert_eq!(ModifiersState::alt(), ModifiersState(0b100 << 6));
    assert_eq!(ModifiersState::super_key(), ModifiersState(0b100 << 9));
    assert_eq!(ModifiersState::empty(), ModifiersState(0));
}

#[test]
fn default_repeat_is_twenty_five_keys_a_second_after_200ms() {
    assert_eq!(RepeatInfo::default(), RepeatInfo::Repeat { gap_us: 40_000, delay_ms: 200 });
    let state = KeyboardState::new();
    assert_eq!(state.repeat_info, RepeatInfo::default());
    assert_eq!(state.current_repeat, None);
}

#[test]
fn modifiers_without_focus_wait_for_the_next_window() {
    let mut session = KeyboardSession::new();
    assert_eq!(session.modifiers_changed(ModifiersState::alt()), None);
    assert!(session.modifiers_pending);
    let events = session.enter_window(WindowId(1), true);
    assert_eq!(events, vec![
        (WindowId(1), FocusEvent::Focused(true)),
        (WindowId(1), FocusEvent::ModifiersChanged(ModifiersState::alt())),
    ]);
    assert!(!session.modifiers_pending);
    assert_eq!(session.focus, Some(KeyboardFocus::Window(WindowId(1))));
}

#[test]
fn modifiers_without_focus_wait_for_the_next_popup() {
    let mut session = KeyboardSession::new();
    session.modifiers_changed(ModifiersState::shift());
    assert_eq!(session.enter_popup(PopupId(5)), vec![
        (PopupId(5), FocusEvent::Focused(true)),
        (PopupId(5), FocusEvent::ModifiersChanged(ModifiersState::shift())),
    ]);
    // Once handed out they are not sent again.
    session.leave();
    assert_eq!(session.enter_popup(PopupId(5)), vec![(PopupId(5), FocusEvent::Focused(true))]);
}

#[test]
fn second_seat_entering_does_not_refocus() {
    let mut session = KeyboardSession::new();
    assert_eq!(session.enter_window(WindowId(2), false), vec![]);
}

#[test]
fn modifiers_with_focus_go_to_the_focused_surface() {
    let mut session = KeyboardSession::new();
    session.enter_window(WindowId(4), true);
    assert_eq!(
        session.modifiers_changed(ModifiersState::control()),
        Some((KeyboardFocus::Window(WindowId(4)), FocusEvent::ModifiersChanged(ModifiersState::control())))
    );
    assert!(!session.modifiers_pending);
}

#[test]
fn leaving_a_popup_reports_its_leave() {
    let mut session = KeyboardSession::new();
    session.enter_popup(PopupId(9));
    let events = session.leave().expect("a popup had focus");
    assert_eq!(events.to_vec(), popup_leave_events(PopupId(9)).to_vec());
    assert_eq!(session.focus, None);
}

#[test]
fn leaving_a_window_goes_on_with_the_window_path() {
    let mut session = KeyboardSession::new();
    session.enter_window(WindowId(3), true);
    assert!(session.leave().is_none());
    assert_eq!(session.focus, Some(KeyboardFocus::Window(WindowId(3))));
    assert_eq!(session.leave_window(WindowId(3), false), vec![
        (WindowId(3), FocusEvent::ModifiersChanged(ModifiersState::empty())),
        (WindowId(3), FocusEvent::Focused(false)),
    ]);
    assert_eq!(session.focus, None);
}

#[test]
fn leaving_a_window_another_seat_focuses_reports_nothing() {
    let mut session = KeyboardSession::new();
    session.enter_window(WindowId(3), true);
    assert_eq!(session.leave_window(WindowId(3), true), vec![]);
    assert_eq!(session.focus, None);
}

#[test]
fn press_starts_repeat_and_release_stops_it() {
    let mut session = KeyboardSession::new();
    session.enter_window(WindowId(1), true);
    let press = session.key(30, true, true);
    assert_eq!(press.keycode, 38);
    assert_eq!(press.deliver_to, Some(KeyboardFocus::Window(WindowId(1))));
    assert!(press.cancel_timer);
    assert_eq!(press.start_timer_ms, Some(200));
    assert_eq!(session.keyboard.current_repeat, Some(38));

    let tick = session.repeat_fired();
    assert_eq!(tick.key, Some(38));
    assert_eq!(tick.next_gap_us, Some(40_000));

    let release = session.key(30, false, true);
    assert!(release.cancel_timer);
    assert_eq!(release.start_timer_ms, None);
    assert_eq!(session.keyboard.current_repeat, None);
    assert_eq!(session.repeat_fired().key, None);
}

#[test]
fn releasing_another_key_keeps_the_repeat() {
    let mut session = KeyboardSession::new();
    session.key(30, true, true);
    let release = session.key(31, false, true);
    assert!(!release.cancel_timer);
    assert_eq!(session.keyboard.current_repeat, Some(38));
}

#[test]
fn keys_that_do_not_repeat_start_no_timer() {
    let mut session = KeyboardSession::new();
    let press = session.key(42, true, false);
    assert!(!press.cancel_timer);
    assert_eq!(press.start_timer_ms, None);
    assert_eq!(session.keyboard.current_repeat, None);
}

#[test]
fn repeat_rate_becomes_a_gap_in_microseconds() {
    let mut session = KeyboardSession::new();
    assert!(!session.repeat_info_changed(33, 600));
    assert_eq!(session.keyboard.repeat_info, RepeatInfo::Repeat { gap_us: 30_303, delay_ms: 600 });
}

#[test]
fn zero_rate_disables_repeat_and_stops_the_timer() {
    let mut session = KeyboardSession::new();
    session.key(30, true, true);
    assert!(session.repeat_info_changed(0, 500));
    assert_eq!(session.keyboard.repeat_info, RepeatInfo::Disable);
    assert_eq!(session.keyboard.current_repeat, None);
    let press = session.key(30, true, true);
    assert_eq!(press.start_timer_ms, None);
}

#[test]
fn focus_change_drops_the_repeat() {
    let mut session = KeyboardSession::new();
    session.key(30, true, true);
    session.enter_popup(PopupId(1));
    assert_eq!(session.keyboard.current_repeat, None);
}

#[test]
fn a_window_loses_focus_only_when_its_last_seat_leaves() {
    let mut window = WindowState::new(LogicalSize { width: 10, height: 10 }, None);
    let mut first = KeyboardSession::new();
    let mut second = KeyboardSession::new();
    assert_eq!(keyboard_entered_window(&mut first, &mut window, WindowId(1), 10), vec![(
        WindowId(1),
        FocusEvent::Focused(true)
    )]);
    assert_eq!(keyboard_entered_window(&mut second, &mut window, WindowId(1), 20), vec![]);
    assert!(window.has_focus());
    assert_eq!(keyboard_left_window(&mut first, &mut window, WindowId(1), 10), vec![]);
    assert!(window.has_focus());
    assert_eq!(keyboard_left_window(&mut second, &mut window, WindowId(1), 20), vec![
        (WindowId(1), FocusEvent::ModifiersChanged(ModifiersState::empty())),
        (WindowId(1), FocusEvent::Focused(false)),
    ]);
    assert!(!window.has_focus());
    assert_eq!(second.focus, None);
}
