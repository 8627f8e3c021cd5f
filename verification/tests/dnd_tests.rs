use winit_wayland::dnd::{
    begin_outgoing_drag, dnd_action_bits, dnd_icon_pixels, drop_data, DropData, icon_pixels_fit, latest_serial, plan_start_drag,
    DndOfferData, DndSessionState, DndSourceData, PayloadLookup, SharedDndOfferState,
    StartDragError, DND_ICON_RADIUS, DND_ICON_SIZE,
};
use winit_wayland::ids::WindowId;

fn strings(raw: &[&str]) -> Vec<String> {
    raw.iter().map(|s| s.to_string()).collect()
}

#[test]
fn offer_and_source_data_start_empty() {
    assert!(DndOfferData::default().mime_types.is_empty());
    let source = DndSourceData::default();
    assert!(source.mime_types.is_empty() && source.data.is_empty());
}

#[test]
fn payload_is_found_by_the_first_matching_mime_type() {
    let source = DndSourceData {
        mime_types: strings(&["text/plain", "text/uri-list", "text/plain"]),
        data: vec![b"hello".to_vec(), b"file:///x".to_vec()],
    };
    assert_eq!(source.payload_for(&"text/plain".to_string()), PayloadLookup::Found(0));
    assert_eq!(source.payload_for(&"text/uri-list".to_string()), PayloadLookup::Found(1));
    assert_eq!(source.payload_for(&"image/png".to_string()), PayloadLookup::UnknownMime);

    let short = DndSourceData { mime_types: strings(&["a", "b"]), data: vec![vec![1]] };
    assert_eq!(short.payload_for(&"b".to_string()), PayloadLookup::MissingData(1));
}

#[test]
fn action_bits_keep_copy_move_and_ask() {
    assert_eq!(dnd_action_bits(0), 0);
    assert_eq!(dnd_action_bits(1), 1);
    assert_eq!(dnd_action_bits(5), 5);
    assert_eq!(dnd_action_bits(0xFF), 7);
    assert_eq!(dnd_action_bits(8), 0);
}

#[test]
fn latest_serial_is_the_first_non_zero() {
    assert_eq!(latest_serial(&vec![0, 0, 7, 9]), Some(7));
    assert_eq!(latest_serial(&vec![0, 0]), None);
    assert_eq!(latest_serial(&vec![]), None);
}

#[test]
fn starting_a_drag_checks_manager_device_serial_and_seat_in_order() {
    assert_eq!(plan_start_drag(false, false, &vec![], false), Err(StartDragError::NoManager));
    assert_eq!(plan_start_drag(true, false, &vec![5], true), Err(StartDragError::NoDataDevice));
    assert_eq!(plan_start_drag(true, true, &vec![0, 0], true), Err(StartDragError::NoSerial));
    assert_eq!(plan_start_drag(true, true, &vec![0, 12], false), Err(StartDragError::NoSeat));
    assert_eq!(plan_start_drag(true, true, &vec![0, 12, 3], true), Ok(12));
}

#[test]
fn offer_survives_the_leave_that_follows_a_drop() {
    let mut shared: SharedDndOfferState<u32> = SharedDndOfferState::new();
    let mut session: DndSessionState<()> = DndSessionState::new();
    session.data_offer(&mut shared, 41);
    session.offer_mime_type("text/plain".to_string());
    assert_eq!(session.enter(WindowId(2)), strings(&["text/plain"]));
    assert_eq!(session.drop_on(), Some(WindowId(2)));
    assert_eq!(session.drop_window, Some(WindowId(2)));
    assert_eq!(session.leave(&mut shared), Some(WindowId(2)));
    assert_eq!(shared.current_offer, Some(41));
    assert_eq!(session.offer_mime_types, strings(&["text/plain"]));
    shared.record_received("text/plain".to_string(), b"hi".to_vec());
    assert_eq!(shared.pending_data, vec![("text/plain".to_string(), b"hi".to_vec())]);
    assert_eq!(shared.take_offer_to_finish(), Some(41));
    assert_eq!(shared.current_offer, None);
}

#[test]
fn leave_without_a_drop_clears_the_offer() {
    let mut shared: SharedDndOfferState<u32> = SharedDndOfferState::new();
    let mut session: DndSessionState<()> = DndSessionState::new();
    session.data_offer(&mut shared, 7);
    session.offer_mime_type("text/plain".to_string());
    session.enter(WindowId(1));
    assert_eq!(session.leave(&mut shared), Some(WindowId(1)));
    assert_eq!(shared.current_offer, None);
    assert!(session.offer_mime_types.is_empty());
    assert_eq!(session.focused_window, None);
}

#[test]
fn a_new_offer_resets_the_drop() {
    let mut shared: SharedDndOfferState<u32> = SharedDndOfferState::new();
    let mut session: DndSessionState<()> = DndSessionState::new();
    session.data_offer(&mut shared, 1);
    session.enter(WindowId(1));
    session.drop_on();
    session.data_offer(&mut shared, 2);
    assert!(!session.drop_received);
    assert_eq!(session.drop_window, None);
    assert_eq!(shared.current_offer, Some(2));
}

#[test]
fn source_events_go_to_the_starting_window_first() {
    let mut shared: SharedDndOfferState<u32> = SharedDndOfferState::new();
    let mut session: DndSessionState<()> = DndSessionState::new();
    assert_eq!(session.source_target(&shared, Some(WindowId(9))), Some(WindowId(9)));
    session.enter(WindowId(4));
    assert_eq!(session.source_target(&shared, Some(WindowId(9))), Some(WindowId(4)));
    shared.source_window = Some(WindowId(3));
    assert_eq!(session.source_target(&shared, Some(WindowId(9))), Some(WindowId(3)));
}

#[test]
fn cancelling_clears_both_ends() {
    let mut shared: SharedDndOfferState<u32> = SharedDndOfferState::new();
    let mut session: DndSessionState<u8> = DndSessionState::new();
    session.icon_surface = Some(1);
    shared.source_window = Some(WindowId(3));
    shared.self_source = Some(vec![("text/plain".to_string(), b"x".to_vec())]);
    session.data_offer(&mut shared, 5);
    session.drop_on();
    session.source_cancelled(&mut shared);
    assert_eq!(session.icon_surface, None);
    assert!(!session.drop_received);
    assert_eq!(shared.current_offer, None);
    assert_eq!(shared.self_source, None);
    assert_eq!(shared.source_window, None);
}

#[test]
fn finishing_keeps_the_offer_for_the_destination() {
    let mut shared: SharedDndOfferState<u32> = SharedDndOfferState::new();
    let mut session: DndSessionState<u8> = DndSessionState::new();
    session.icon_surface = Some(1);
    shared.source_window = Some(WindowId(3));
    session.data_offer(&mut shared, 5);
    session.source_finished(&mut shared);
    assert_eq!(session.icon_surface, None);
    assert_eq!(shared.current_offer, Some(5));
    assert_eq!(shared.source_window, None);
}

fn pixel(pixels: &[u8], x: usize, y: usize) -> [u8; 4] {
    let at = (y * 48 + x) * 4;
    [pixels[at], pixels[at + 1], pixels[at + 2], pixels[at + 3]]
}

#[test]
fn default_icon_is_a_rounded_translucent_white_square() {
    assert_eq!((DND_ICON_SIZE, DND_ICON_RADIUS), (48, 8));
    let pixels = dnd_icon_pixels();
    assert_eq!(pixels.len(), 48 * 48 * 4);
    let white = [0xFF, 0xFF, 0xFF, 0xB0];
    let clear = [0, 0, 0, 0];
    assert_eq!(pixel(&pixels, 24, 24), white);
    assert_eq!(pixel(&pixels, 8, 0), white);
    assert_eq!(pixel(&pixels, 0, 0), clear);
    assert_eq!(pixel(&pixels, 2, 2), clear);
    assert_eq!(pixel(&pixels, 3, 3), white);
    assert_eq!(pixel(&pixels, 47, 47), clear);
    assert_eq!(pixel(&pixels, 44, 44), white);
    assert_eq!(pixel(&pixels, 45, 45), clear);
}

#[test]
fn caller_icon_must_have_four_bytes_a_pixel() {
    assert!(icon_pixels_fit(2, 2, 16));
    assert!(!icon_pixels_fit(2, 2, 15));
    assert!(icon_pixels_fit(0, 5, 0));
}

#[test]
fn a_drop_of_our_own_drag_is_read_from_its_payload() {
    let mut shared: SharedDndOfferState<u32> = SharedDndOfferState::new();
    let plain = "text/plain".to_string();
    assert_eq!(drop_data(&shared, &plain), DropData::NoOffer);
    shared.current_offer = Some(1);
    assert_eq!(drop_data(&shared, &plain), DropData::Pipe);
    begin_outgoing_drag(&mut shared, WindowId(4), vec![
        ("text/uri-list".to_string(), b"file:///a".to_vec()),
        ("text/plain".to_string(), b"first".to_vec()),
        ("text/plain".to_string(), b"second".to_vec()),
    ]);
    assert_eq!(shared.source_window, Some(WindowId(4)));
    assert_eq!(shared.current_offer, Some(1));
    assert_eq!(drop_data(&shared, &plain), DropData::Own(b"first".to_vec()));
    assert_eq!(drop_data(&shared, &"image/png".to_string()), DropData::Pipe);
    shared.current_offer = None;
    assert_eq!(drop_data(&shared, &plain), DropData::NoOffer);
}
