use winit_wayland::embed::{initial_embed_geometry, EmbedRegistry};
use winit_wayland::extensions::{
    blur_step, controller_step, is_exclusive_mode, step_sends, take_voice_mode_events,
    tooltip_anchor, voice_registration, BlurStep, ControllerStep, EmbeddedSurfaceData,
    EmbeddedSurfaceEvent, ExclusiveModeEvent, ExclusiveModeState, ImportedData, OrbState,
    SpecialActionEvent, SpecialActionState, TooltipAnchor, VoiceModeEvent, VoiceModeState,
    VoiceRegistration,
};
use winit_wayland::toplevel_icon::{icon_update, write_argb8888, IconUpdate};

#[test]
fn orb_states_read_from_the_wire() {
    assert_eq!(OrbState::from(0), OrbState::Hidden);
    assert_eq!(OrbState::from(1), OrbState::Floating);
    assert_eq!(OrbState::from(2), OrbState::Attached);
    assert_eq!(OrbState::from(3), OrbState::Frozen);
    assert_eq!(OrbState::from(4), OrbState::Transitioning);
    assert_eq!(OrbState::from(5), OrbState::Hidden);
}

#[test]
fn voice_events_are_handed_out_in_order_once() {
    let mut state = VoiceModeState::new(true);
    state.push_event(VoiceModeEvent::Start { orb_state: OrbState::Floating });
    state.push_event(VoiceModeEvent::WillStop { serial: 9 });
    state.push_event(VoiceModeEvent::Stop);
    assert_eq!(state.take_events(), vec![
        VoiceModeEvent::Start { orb_state: OrbState::Floating },
        VoiceModeEvent::WillStop { serial: 9 },
        VoiceModeEvent::Stop,
    ]);
    assert!(state.take_events().is_empty());
    assert!(state.is_default);
}

#[test]
fn an_unregistered_window_has_no_voice_events() {
    let mut none: Option<VoiceModeState> = None;
    assert!(take_voice_mode_events(&mut none).is_empty());
    let mut some = Some(VoiceModeState::new(false));
    some.as_mut().unwrap().push_event(VoiceModeEvent::OrbAttached { x: 1, y: 2, width: 3, height: 4 });
    assert_eq!(take_voice_mode_events(&mut some), vec![VoiceModeEvent::OrbAttached {
        x: 1,
        y: 2,
        width: 3,
        height: 4
    }]);
    assert!(some.unwrap().events.is_empty());
}

#[test]
fn exclusive_mode_follows_the_compositor() {
    let mut state = ExclusiveModeState::default();
    assert!(!state.is_enabled() && !state.has_failed() && state.affected_count() == 0);
    state.apply(ExclusiveModeEvent::Enabled { count: 3 });
    assert!(state.is_enabled());
    assert_eq!(state.affected_count(), 3);
    state.apply(ExclusiveModeEvent::Failed);
    assert!(state.has_failed());
    assert!(state.is_enabled(), "a failure keeps the mode");
    assert_eq!(state.affected_count(), 3);
    state.apply(ExclusiveModeEvent::Disabled { count: 2 });
    assert!(!state.is_enabled() && !state.has_failed());
    assert_eq!(state.affected_count(), 2);
    assert!(!is_exclusive_mode(None));
    assert!(!is_exclusive_mode(Some(state)));
    assert!(is_exclusive_mode(Some(ExclusiveModeState { enabled: true, affected_count: 0, failed: false })));
}

#[test]
fn special_actions_queue_in_order() {
    let mut state = SpecialActionState::default();
    state.push_event(SpecialActionEvent::HoldStart);
    state.push_event(SpecialActionEvent::HoldEnd);
    state.push_event(SpecialActionEvent::Activate);
    assert_eq!(state.take_events(), vec![
        SpecialActionEvent::HoldStart,
        SpecialActionEvent::HoldEnd,
        SpecialActionEvent::Activate,
    ]);
    assert!(state.take_events().is_empty());
}

#[test]
fn a_closed_embed_is_no_longer_valid() {
    let mut data = EmbeddedSurfaceData::new();
    assert!(data.is_valid());
    data.record(EmbeddedSurfaceEvent::Configure { width: 10, height: 20 });
    data.record(EmbeddedSurfaceEvent::Entered);
    assert!(data.is_valid());
    data.record(EmbeddedSurfaceEvent::Closed);
    assert!(!data.is_valid());
    data.record(EmbeddedSurfaceEvent::Frame);
    assert!(!data.is_valid());
    assert_eq!(data.take_events(), vec![
        EmbeddedSurfaceEvent::Configure { width: 10, height: 20 },
        EmbeddedSurfaceEvent::Entered,
        EmbeddedSurfaceEvent::Closed,
        EmbeddedSurfaceEvent::Frame,
    ]);
    assert!(data.events.is_empty());
}

#[test]
fn imports_stay_valid_until_withdrawn() {
    let mut data = ImportedData::new();
    assert!(data.is_valid());
    data.destroyed();
    assert!(!data.is_valid());
    assert_eq!(data, ImportedData { valid: false });
}

#[test]
fn tooltip_anchor_values_name_corners() {
    assert_eq!(tooltip_anchor(0), TooltipAnchor::TopLeft);
    assert_eq!(tooltip_anchor(1), TooltipAnchor::TopRight);
    assert_eq!(tooltip_anchor(2), TooltipAnchor::BottomLeft);
    assert_eq!(tooltip_anchor(3), TooltipAnchor::BottomRight);
    assert_eq!(tooltip_anchor(4), TooltipAnchor::TopLeft);
}

#[test]
fn controllers_are_made_once_and_only_with_a_manager() {
    assert_eq!(controller_step(true, false), ControllerStep::Reuse);
    assert_eq!(controller_step(true, true), ControllerStep::Reuse);
    assert_eq!(controller_step(false, true), ControllerStep::Create);
    assert_eq!(controller_step(false, false), ControllerStep::Unavailable);
    assert!(step_sends(ControllerStep::Reuse));
    assert!(step_sends(ControllerStep::Create));
    assert!(!step_sends(ControllerStep::Unavailable));
}

#[test]
fn voice_registration_is_kept_once_made() {
    assert_eq!(voice_registration(true, false), VoiceRegistration::AlreadyRegistered);
    assert_eq!(voice_registration(false, true), VoiceRegistration::Register);
    assert_eq!(voice_registration(false, false), VoiceRegistration::Unavailable);
}

#[test]
fn blur_is_made_and_released_on_change_only() {
    assert_eq!(blur_step(true, false, true), BlurStep::Create);
    assert_eq!(blur_step(true, false, false), BlurStep::Unavailable);
    assert_eq!(blur_step(true, true, true), BlurStep::Nothing);
    assert_eq!(blur_step(false, true, false), BlurStep::Release);
    assert_eq!(blur_step(false, false, true), BlurStep::Nothing);
}

#[test]
fn embeds_get_fresh_ids() {
    let mut registry: EmbedRegistry<&str> = EmbedRegistry::new();
    let first = registry.insert("a");
    let second = registry.insert("b");
    assert_eq!((first, second), (1, 2));
    assert_eq!(registry.get(1), Some(&"a"));
    assert!(registry.remove(1));
    assert!(!registry.remove(1));
    assert_eq!(registry.get(1), None);
    assert_eq!(registry.insert("c"), 3, "removed ids are not handed out again");
    assert_eq!(registry.get(2), Some(&"b"));
}

#[test]
fn embed_geometry_needs_a_positive_size() {
    assert_eq!(initial_embed_geometry(1, 2, 30, 40), Some((1, 2, 30, 40)));
    assert_eq!(initial_embed_geometry(1, 2, 0, 40), None);
    assert_eq!(initial_embed_geometry(1, 2, 30, -1), None);
}

#[test]
fn only_non_empty_square_icons_are_set() {
    assert_eq!(icon_update(None), IconUpdate::Clear);
    assert_eq!(icon_update(Some((16, 32))), IconUpdate::Rejected);
    assert_eq!(icon_update(Some((0, 0))), IconUpdate::Rejected);
    assert_eq!(icon_update(Some((32, 32))), IconUpdate::Install { side: 32, stride: 128 });
}

#[test]
fn icon_pixels_swap_red_and_blue() {
    let rgba = [1u8, 2, 3, 4, 5, 6, 7, 8];
    let mut canvas = [0u8; 8];
    write_argb8888(&mut canvas, &rgba);
    assert_eq!(canvas, [3, 2, 1, 4, 7, 6, 5, 8]);

    let mut longer = [9u8; 12];
    write_argb8888(&mut longer, &rgba);
    assert_eq!(longer, [3, 2, 1, 4, 7, 6, 5, 8, 9, 9, 9, 9]);

    let mut short = [9u8; 8];
    write_argb8888(&mut short, &rgba[..6]);
    assert_eq!(short, [3, 2, 1, 4, 9, 9, 9, 9]);
}
