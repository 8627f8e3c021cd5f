use winit_wayland::ids::WindowId;
use winit_wayland::popup::{PopupAnchor, PopupGravity, PopupId, PopupIdCounter, PopupSettings};

#[test]
fn anchor_codes_read_back() {
    let all = [
        (1, PopupAnchor::Top),
        (2, PopupAnchor::Bottom),
        (3, PopupAnchor::Left),
        (4, PopupAnchor::Right),
        (5, PopupAnchor::TopLeft),
        (6, PopupAnchor::BottomLeft),
        (7, PopupAnchor::TopRight),
        (8, PopupAnchor::BottomRight),
    ];
    for (code, anchor) in all {
        assert_eq!(PopupAnchor::from(code), anchor);
    }
    assert_eq!(PopupAnchor::from(0), PopupAnchor::Center);
    assert_eq!(PopupAnchor::from(9), PopupAnchor::Center);
    assert_eq!(PopupAnchor::from(u32::MAX), PopupAnchor::Center);
    assert_eq!(PopupAnchor::default(), PopupAnchor::Center);
}

#[test]
fn gravity_codes_read_back() {
    let all = [
        (1, PopupGravity::Top),
        (2, PopupGravity::Bottom),
        (3, PopupGravity::Left),
        (4, PopupGravity::Right),
        (5, PopupGravity::TopLeft),
        (6, PopupGravity::BottomLeft),
        (7, PopupGravity::TopRight),
        (8, PopupGravity::BottomRight),
    ];
    for (code, gravity) in all {
        assert_eq!(PopupGravity::from(code), gravity);
    }
    assert_eq!(PopupGravity::from(0), PopupGravity::Center);
    assert_eq!(PopupGravity::from(42), PopupGravity::Center);
    assert_eq!(PopupGravity::default(), PopupGravity::Center);
}

#[test]
fn default_settings_are_a_plain_centred_popup() {
    let settings = PopupSettings::default();
    assert_eq!(settings.parent_id, WindowId(0));
    assert_eq!(settings.size, (200, 200));
    assert_eq!(settings.anchor_rect, (0, 0, 1, 1));
    assert_eq!(settings.anchor, PopupAnchor::Center);
    assert_eq!(settings.gravity, PopupGravity::Center);
    assert_eq!(settings.offset, (0, 0));
    assert_eq!(settings.constraint_adjustment, 0);
    assert!(!settings.grab && !settings.blur && !settings.shadow);
    assert_eq!(settings.corner_radius, None);
    assert_eq!(settings.window_geometry, None);
    assert_eq!(settings.tooltip_offset, None);
    assert_eq!(settings.tooltip_anchor, None);
    assert_eq!(settings.tooltip_delay_ms, None);
    let copy = settings.clone();
    assert_eq!(copy.size, settings.size);
}

#[test]
fn popup_ids_start_at_one_and_increase() {
    let mut counter = PopupIdCounter::new();
    let first = PopupId::new(&mut counter);
    let second = PopupId::new(&mut counter);
    let third = PopupId::new(&mut counter);
    assert_eq!(first, PopupId(1));
    assert_eq!(second, PopupId(2));
    assert_eq!(third, PopupId(3));
    assert!(first.0 < second.0 && second.0 < third.0);
    assert_eq!(PopupId::from(17), PopupId(17));
}
