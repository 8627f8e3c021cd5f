//! Drag-and-drop through the data-device protocol.
//!
//! The session bookkeeping for both ends of a drag lives here: which window
//! an incoming drag is over, when its offer may be dropped, which window the
//! events of an outgoing drag belong to, and what payload a `send` request
//! is answered with. The protocol objects are carried along opaquely.

use vstd::prelude::*;

use crate::ids::WindowId;

verus! {

/// User-data attached to each data offer.
#[derive(Debug, Clone)]
pub struct DndOfferData {
    /// MIME types offered by the drag source.
    pub mime_types: Vec<String>,
}

impl Default for DndOfferData {
    fn default() -> (data: Self)
        ensures
            data.mime_types@.len() == 0,
    {
        DndOfferData { mime_types: Vec::new() }
    }
}

/// User-data attached to each data source.
///
/// Contains the pre-serialized drag payload so the `send` handler can write
/// data to the compositor without needing access to external state.
#[derive(Debug, Clone)]
pub struct DndSourceData {
    /// MIME types offered by this source.
    pub mime_types: Vec<String>,
    /// Pre-serialized data for each MIME type (parallel to `mime_types`).
    pub data: Vec<Vec<u8>>,
}

impl Default for DndSourceData {
    fn default() -> (data: Self)
        ensures
            data.mime_types@.len() == 0,
            data.data@.len() == 0,
    {
        DndSourceData { mime_types: Vec::new(), data: Vec::new() }
    }
}

/// How a source answers a request for one MIME type.
#[derive(Debug, Clone, Copy, PartialEq, Eq, Structural)]
pub enum PayloadLookup {
    /// The payload for the type is `data[index]`.
    Found(usize),
    /// The type is offered at `index`, but no payload was given for it.
    MissingData(usize),
    /// The type is not one this source offers.
    UnknownMime,
}

impl DndSourceData {
    /// Where the payload for `mime_type` is: the first matching MIME type's
    /// data, if the data vector reaches that far.
    pub fn payload_for(&self, mime_type: &String) -> (lookup: PayloadLookup)
        ensures
            match lookup {
                PayloadLookup::Found(i) => {
                    &&& i < self.mime_types@.len()
                    &&& i < self.data@.len()
                    &&& self.mime_types@[i as int]@ == mime_type@
                    &&& forall|j: int| 0 <= j < i ==> (#[trigger] self.mime_types@[j])@ != mime_type@
                },
                PayloadLookup::MissingData(i) => {
                    &&& i < self.mime_types@.len()
                    &&& i >= self.data@.len()
                    &&& self.mime_types@[i as int]@ == mime_type@
                    &&& forall|j: int| 0 <= j < i ==> (#[trigger] self.mime_types@[j])@ != mime_type@
                },
                PayloadLookup::UnknownMime => forall|j: int|
                    0 <= j < self.mime_types@.len() ==> (#[trigger] self.mime_types@[j])@
                        != mime_type@,
            },
    {
        let mut i: usize = 0;
        while i < self.mime_types.len()
            invariant
                i <= self.mime_types@.len(),
                forall|j: int| 0 <= j < i ==> (#[trigger] self.mime_types@[j])@ != mime_type@,
            decreases self.mime_types@.len() - i,
        {
            if self.mime_types[i] == *mime_type {
                if i < self.data.len() {
                    return PayloadLookup::Found(i);
                } else {
                    return PayloadLookup::MissingData(i);
                }
            }
            i = i + 1;
        }
        PayloadLookup::UnknownMime
    }
}

/// The data-device action bits (copy 1, move 2, ask 4) that a bit field
/// selects; other bits are ignored.
pub fn dnd_action_bits(actions: u32) -> (bits: u32)
    ensures
        bits == actions & 7,
{
    let mut bits: u32 = 0;
    if actions & 1 != 0 {
        bits = bits + 1;
    }
    if actions & 2 != 0 {
        bits = bits + 2;
    }
    if actions & 4 != 0 {
        bits = bits + 4;
    }
    assert(bits == actions & 7) by (bit_vector)
        requires
            bits == (if actions & 1 != 0 { 1u32 } else { 0u32 }) + (if actions & 2 != 0 {
                2u32
            } else {
                0u32
            }) + (if actions & 4 != 0 { 4u32 } else { 0u32 }),
    ;
    bits
}

/// The latest serial worth answering with: the first non-zero one.
pub fn latest_serial(serials: &Vec<u32>) -> (serial: Option<u32>)
    ensures
        match serial {
            Some(s) => exists|i: int|
                0 <= i < serials@.len() && serials@[i] == s && s != 0 && forall|j: int|
                    0 <= j < i ==> #[trigger] serials@[j] == 0,
            None => forall|j: int| 0 <= j < serials@.len() ==> #[trigger] serials@[j] == 0,
        },
{
    let mut i: usize = 0;
    while i < serials.len()
        invariant
            i <= serials@.len(),
            forall|j: int| 0 <= j < i ==> #[trigger] serials@[j] == 0,
        decreases serials@.len() - i,
    {
        if serials[i] != 0 {
            return Some(serials[i]);
        }
        i = i + 1;
    }
    None
}

/// Why a drag could not be started.
#[derive(Debug, Clone, Copy, PartialEq, Eq, Structural)]
pub enum StartDragError {
    /// The compositor has no data-device manager.
    NoManager,
    /// No seat has a data device.
    NoDataDevice,
    /// No pointer has pressed a button on the window.
    NoSerial,
    /// No pointer is over the window.
    NoSeat,
}

/// Decides whether a drag can start, and with which serial: it needs the
/// data-device manager, a data device, a pointer button serial that is not
/// zero, and a seat, checked in that order.
pub fn plan_start_drag(
    has_manager: bool,
    has_data_device: bool,
    button_serials: &Vec<u32>,
    has_seat: bool,
) -> (plan: Result<u32, StartDragError>)
    ensures
        !has_manager ==> plan == Err::<u32, StartDragError>(StartDragError::NoManager),
        has_manager && !has_data_device ==> plan == Err::<u32, StartDragError>(
            StartDragError::NoDataDevice,
        ),
        has_manager && has_data_device && first_serial_is_none(button_serials@) ==> plan == Err::<
            u32,
            StartDragError,
        >(StartDragError::NoSerial),
        has_manager && has_data_device && !first_serial_is_none(button_serials@) && !has_seat
            ==> plan == Err::<u32, StartDragError>(StartDragError::NoSeat),
        plan matches Ok(serial) ==> has_manager && has_data_device && has_seat && serial != 0
            && exists|i: int|
            0 <= i < button_serials@.len() && button_serials@[i] == serial && forall|j: int|
                0 <= j < i ==> #[trigger] button_serials@[j] == 0,
        has_manager && has_data_device && has_seat && !first_serial_is_none(button_serials@)
            ==> plan is Ok,
{
    if !has_manager {
        return Err(StartDragError::NoManager);
    }
    if !has_data_device {
        return Err(StartDragError::NoDataDevice);
    }
    let serial = match latest_serial(button_serials) {
        Some(s) => s,
        None => {
            return Err(StartDragError::NoSerial);
        },
    };
    if !has_seat {
        return Err(StartDragError::NoSeat);
    }
    Ok(serial)
}

/// No serial in `serials` is non-zero.
pub open spec fn first_serial_is_none(serials: Seq<u32>) -> bool {
    forall|j: int| 0 <= j < serials.len() ==> #[trigger] serials[j] == 0
}

/// Shared state for the current drag offer, used both by the event
/// handlers and by the windows that answer the drag.
///
/// `O` is the offer object the caller holds.
pub struct SharedDndOfferState<O> {
    /// The current drag offer, if any.
    pub current_offer: Option<O>,
    /// Data received from a request, waiting to be handed to the window.
    pub pending_data: Vec<(String, Vec<u8>)>,
    /// Payload of an outgoing drag this client started (MIME type and bytes),
    /// while it is active ([`begin_outgoing_drag`]). A drop onto one of our
    /// own windows reads it directly instead of through a pipe
    /// ([`drop_data`]): the source's `send` runs on the same thread, so a
    /// blocking read would never see the data.
    pub self_source: Option<Vec<(String, Vec<u8>)>>,
    /// The window that started the current outgoing drag. Source-side events
    /// are delivered there.
    pub source_window: Option<WindowId>,
}

impl<O> SharedDndOfferState<O> {
    /// No offer, nothing pending, no outgoing drag.
    pub fn new() -> (state: Self)
        ensures
            state.current_offer is None,
            state.pending_data@.len() == 0,
            state.self_source is None,
            state.source_window is None,
    {
        SharedDndOfferState {
            current_offer: None,
            pending_data: Vec::new(),
            self_source: None,
            source_window: None,
        }
    }

    /// The destination finished with the drop: the offer is taken out, for
    /// the caller to finish and drop.
    pub fn take_offer_to_finish(&mut self) -> (offer: Option<O>)
        ensures
            offer == old(self).current_offer,
            final(self).current_offer is None,
            final(self).pending_data == old(self).pending_data,
            final(self).self_source == old(self).self_source,
            final(self).source_window == old(self).source_window,
    {
        self.current_offer.take()
    }

    /// Data for `mime_type` arrived; it waits for the event loop to hand it on.
    pub fn record_received(&mut self, mime_type: String, data: Vec<u8>)
        ensures
            final(self).pending_data@ == old(self).pending_data@.push((mime_type, data)),
            final(self).current_offer == old(self).current_offer,
            final(self).self_source == old(self).self_source,
            final(self).source_window == old(self).source_window,
    {
        self.pending_data.push((mime_type, data));
    }
}

/// Where the data of a drop in one MIME type comes from.
#[derive(Debug, Clone, PartialEq, Eq)]
pub enum DropData {
    /// There is no offer to ask.
    NoOffer,
    /// The drag is our own: its payload for the type, read directly.
    Own(Vec<u8>),
    /// Ask the offer through a pipe.
    Pipe,
}

/// Whether `payload[i]` is the first entry of `payload` for `mime`.
pub open spec fn first_entry_for(payload: Seq<(String, Vec<u8>)>, mime: Seq<char>, i: int) -> bool {
    &&& 0 <= i < payload.len()
    &&& payload[i].0@ == mime
    &&& forall|j: int| 0 <= j < i ==> (#[trigger] payload[j]).0@ != mime
}

/// Where the data of a drop in `mime_type` comes from: nowhere without an
/// offer; the stored payload of our own outgoing drag, its first entry for
/// the type, when there is one; otherwise the offer, through a pipe.
pub fn drop_data<O>(shared: &SharedDndOfferState<O>, mime_type: &String) -> (answer: DropData)
    ensures
        shared.current_offer is None <==> answer == DropData::NoOffer,
        answer matches DropData::Own(data) ==> {
            &&& shared.current_offer is Some
            &&& shared.self_source matches Some(p) && exists|i: int|
                first_entry_for(p@, mime_type@, i) && data@ == p@[i].1@
        },
        answer == DropData::Pipe ==> {
            &&& shared.current_offer is Some
            &&& match shared.self_source {
                Some(p) => forall|j: int| 0 <= j < p@.len() ==> (#[trigger] p@[j]).0@ != mime_type@,
                None => true,
            }
        },
{
    if shared.current_offer.is_none() {
        return DropData::NoOffer;
    }
    match &shared.self_source {
        None => DropData::Pipe,
        Some(payload) => {
            let mut i: usize = 0;
            while i < payload.len()
                invariant
                    i <= payload@.len(),
                    shared.current_offer is Some,
                    shared.self_source == Some(*payload),
                    forall|j: int| 0 <= j < i ==> (#[trigger] payload@[j]).0@ != mime_type@,
                decreases payload@.len() - i,
            {
                if payload[i].0 == *mime_type {
                    let data = payload[i].1.clone();
                    proof {
                        assert forall|k: int| 0 <= k < data@.len() implies data@[k] == payload@[i as int].1@[k] by {
                            assert(cloned::<u8>(payload@[i as int].1[k], data[k]));
                        }
                        assert(data@ =~= payload@[i as int].1@);
                        let q = shared.self_source.unwrap();
                        assert(q == *payload);
                        assert(first_entry_for(q@, mime_type@, i as int) && data@ == q@[i as int].1@);
                    }
                    return DropData::Own(data);
                }
                i = i + 1;
            }
            DropData::Pipe
        },
    }
}

/// Start an outgoing drag from `window`, keeping its payload so that a drop
/// on one of our own windows can read it directly. Nothing else changes.
pub fn begin_outgoing_drag<O>(
    shared: &mut SharedDndOfferState<O>,
    window: WindowId,
    payload: Vec<(String, Vec<u8>)>,
)
    ensures
        final(shared).self_source == Some(payload),
        final(shared).source_window == Some(window),
        final(shared).current_offer == old(shared).current_offer,
        final(shared).pending_data == old(shared).pending_data,
{
    shared.self_source = Some(payload);
    shared.source_window = Some(window);
}

/// Session state for the drags this client takes part in.
///
/// `I` is the icon surface of an outgoing drag, held while the drag lasts.
pub struct DndSessionState<I> {
    /// MIME types of the current offer.
    pub offer_mime_types: Vec<String>,
    /// The window currently under the drag cursor.
    pub focused_window: Option<WindowId>,
    /// The icon surface for the drag visual, if created.
    pub icon_surface: Option<I>,
    /// A drop arrived: the leave that follows must not clear the offer, which
    /// the window still needs to finish the drop.
    pub drop_received: bool,
    /// The window the drop landed on, captured at drop time, where the data
    /// requested afterwards is delivered.
    pub drop_window: Option<WindowId>,
}

impl<I> DndSessionState<I> {
    /// No drag in progress.
    pub fn new() -> (session: Self)
        ensures
            session.offer_mime_types@.len() == 0,
            session.focused_window is None,
            session.icon_surface is None,
            !session.drop_received,
            session.drop_window is None,
    {
        DndSessionState {
            offer_mime_types: Vec::new(),
            focused_window: None,
            icon_surface: None,
            drop_received: false,
            drop_window: None,
        }
    }

    /// A new data offer appeared: the start of a new incoming drag. The offer
    /// replaces the previous one and the per-drag destination state is reset.
    pub fn data_offer<O>(&mut self, shared: &mut SharedDndOfferState<O>, offer: O)
        ensures
            !final(self).drop_received,
            final(self).drop_window is None,
            final(self).offer_mime_types@.len() == 0,
            final(self).focused_window == old(self).focused_window,
            final(self).icon_surface == old(self).icon_surface,
            final(shared).current_offer == Some(offer),
            final(shared).pending_data == old(shared).pending_data,
            final(shared).self_source == old(shared).self_source,
            final(shared).source_window == old(shared).source_window,
    {
        self.drop_received = false;
        self.drop_window = None;
        shared.current_offer = Some(offer);
        self.offer_mime_types.clear();
    }

    /// The offer names one more MIME type.
    pub fn offer_mime_type(&mut self, mime_type: String)
        ensures
            final(self).offer_mime_types@ == old(self).offer_mime_types@.push(mime_type),
            final(self).focused_window == old(self).focused_window,
            final(self).icon_surface == old(self).icon_surface,
            final(self).drop_received == old(self).drop_received,
            final(self).drop_window == old(self).drop_window,
    {
        self.offer_mime_types.push(mime_type);
    }

    /// The drag entered `window`. Returns the MIME types the enter event
    /// reports to it.
    pub fn enter(&mut self, window: WindowId) -> (mime_types: Vec<String>)
        ensures
            final(self).focused_window == Some(window),
            mime_types@ == old(self).offer_mime_types@,
            final(self).offer_mime_types == old(self).offer_mime_types,
            final(self).icon_surface == old(self).icon_surface,
            final(self).drop_received == old(self).drop_received,
            final(self).drop_window == old(self).drop_window,
    {
        self.focused_window = Some(window);
        let mime_types = self.offer_mime_types.clone();
        proof {
            assert forall|i: int| 0 <= i < mime_types@.len() implies mime_types@[i]
                == self.offer_mime_types@[i] by {
                assert(cloned::<String>(self.offer_mime_types[i], mime_types[i]));
            }
            assert(mime_types@ =~= self.offer_mime_types@);
        }
        mime_types
    }

    /// The drag left the window it was over. Returns that window, to be told.
    /// Unless a drop arrived, the offer goes with it; after a drop it stays, as
    /// the window still has to finish the drop.
    pub fn leave<O>(&mut self, shared: &mut SharedDndOfferState<O>) -> (left: Option<WindowId>)
        ensures
            left_drag(*old(self), *old(shared), *final(self), *final(shared), left),
    {
        let left = self.focused_window.take();
        // Only clear the offer on leave if no drop was received.
        if !self.drop_received {
            shared.current_offer = None;
            self.offer_mime_types.clear();
        }
        left
    }

    /// The drag was dropped on the window it is over. Returns that window, to
    /// be told; it is also where the data requested afterwards goes.
    pub fn drop_on(&mut self) -> (target: Option<WindowId>)
        ensures
            dropped(*old(self), *final(self), target),
    {
        self.drop_received = true;
        self.drop_window = self.focused_window;
        self.focused_window
    }

    /// The window events of an outgoing drag go to: the window that started
    /// it, else the window under the cursor, else `fallback`.
    pub fn source_target<O>(&self, shared: &SharedDndOfferState<O>, fallback: Option<WindowId>) -> (target: Option<WindowId>)
        ensures
            target == match shared.source_window {
                Some(w) => Some(w),
                None => match self.focused_window {
                    Some(w) => Some(w),
                    None => fallback,
                },
            },
    {
        match shared.source_window {
            Some(w) => Some(w),
            None => match self.focused_window {
                Some(w) => Some(w),
                None => fallback,
            },
        }
    }

    /// The outgoing drag was cancelled: the drag state of both ends is
    /// cleared, including the offer kept for finishing and our own payload.
    pub fn source_cancelled<O>(&mut self, shared: &mut SharedDndOfferState<O>)
        ensures
            final(self).icon_surface is None,
            !final(self).drop_received,
            final(self).drop_window is None,
            final(self).offer_mime_types@.len() == 0,
            final(self).focused_window == old(self).focused_window,
            final(shared).current_offer is None,
            final(shared).self_source is None,
            final(shared).source_window is None,
            final(shared).pending_data == old(shared).pending_data,
    {
        self.icon_surface = None;
        self.drop_received = false;
        self.drop_window = None;
        shared.current_offer = None;
        shared.self_source = None;
        shared.source_window = None;
        self.offer_mime_types.clear();
    }

    /// The outgoing drag finished: its source state is cleared. The offer, if
    /// any, stays for the destination to finish.
    pub fn source_finished<O>(&mut self, shared: &mut SharedDndOfferState<O>)
        ensures
            final(self).icon_surface is None,
            !final(self).drop_received,
            final(self).drop_window is None,
            final(self).offer_mime_types == old(self).offer_mime_types,
            final(self).focused_window == old(self).focused_window,
            final(shared).current_offer == old(shared).current_offer,
            final(shared).self_source is None,
            final(shared).source_window is None,
            final(shared).pending_data == old(shared).pending_data,
    {
        self.icon_surface = None;
        self.drop_received = false;
        self.drop_window = None;
        shared.self_source = None;
        shared.source_window = None;
    }
}

/// What a drop does to the session: it lands on the window under the
/// cursor, which is returned and kept as where the data goes.
pub open spec fn dropped<I>(
    before: DndSessionState<I>,
    after: DndSessionState<I>,
    target: Option<WindowId>,
) -> bool {
    &&& target == before.focused_window
    &&& after.drop_received
    &&& after.drop_window == before.focused_window
    &&& after.focused_window == before.focused_window
    &&& after.offer_mime_types == before.offer_mime_types
    &&& after.icon_surface == before.icon_surface
}

/// What the drag leaving its window does: that window is returned and the
/// session no longer has one. Unless a drop arrived, the offer and its MIME
/// types go; after a drop both stay.
pub open spec fn left_drag<I, O>(
    before: DndSessionState<I>,
    shared_before: SharedDndOfferState<O>,
    after: DndSessionState<I>,
    shared_after: SharedDndOfferState<O>,
    left: Option<WindowId>,
) -> bool {
    &&& left == before.focused_window
    &&& after.focused_window is None
    &&& after.drop_received == before.drop_received
    &&& after.drop_window == before.drop_window
    &&& after.icon_surface == before.icon_surface
    &&& before.drop_received ==> {
        &&& shared_after.current_offer == shared_before.current_offer
        &&& after.offer_mime_types == before.offer_mime_types
    }
    &&& !before.drop_received ==> {
        &&& shared_after.current_offer is None
        &&& after.offer_mime_types@.len() == 0
    }
    &&& shared_after.pending_data == shared_before.pending_data
    &&& shared_after.self_source == shared_before.self_source
    &&& shared_after.source_window == shared_before.source_window
}

/// A drop keeps the offer, and what it offers, through the leave that
/// follows it, so the window the drop landed on can still ask for the data
/// and finish the drop; that window stays where the data goes.
pub proof fn lemma_drop_keeps_offer_through_leave<I, O>(
    start: DndSessionState<I>,
    on_drop: DndSessionState<I>,
    after_leave: DndSessionState<I>,
    shared: SharedDndOfferState<O>,
    shared_after: SharedDndOfferState<O>,
    target: Option<WindowId>,
    left: Option<WindowId>,
)
    requires
        dropped(start, on_drop, target),
        left_drag(on_drop, shared, after_leave, shared_after, left),
    ensures
        shared_after.current_offer == shared.current_offer,
        after_leave.offer_mime_types == start.offer_mime_types,
        left == target,
        after_leave.drop_window == target,
{
}

/// Without a drop, a drag that leaves takes its offer along.
pub proof fn lemma_leave_without_drop_clears_offer<I, O>(
    before: DndSessionState<I>,
    after: DndSessionState<I>,
    shared: SharedDndOfferState<O>,
    shared_after: SharedDndOfferState<O>,
    left: Option<WindowId>,
)
    requires
        !before.drop_received,
        left_drag(before, shared, after, shared_after, left),
    ensures
        shared_after.current_offer is None,
        after.offer_mime_types@.len() == 0,
{
}

/// Side length of the default drag icon, in pixels.
pub const DND_ICON_SIZE: i32 = 48;

/// Corner radius of the default drag icon, in pixels.
pub const DND_ICON_RADIUS: i32 = 8;

/// The point a pixel of the default icon is measured from: the centre of its
/// corner's rounding circle for a pixel in a corner square, else the pixel itself.
pub open spec fn icon_corner_center(x: int, y: int) -> (int, int) {
    let (w, h, r) = (48int, 48int, 8int);
    if x < r && y < r {
        (r, r)
    } else if y < r && x >= w - r {
        (w - r - 1, r)
    } else if x < r && y >= h - r {
        (r, h - r - 1)
    } else if x >= w - r && y >= h - r {
        (w - r - 1, h - r - 1)
    } else {
        (x, y)
    }
}

/// Whether pixel `(x, y)` of the default icon lies inside its rounded rectangle.
pub open spec fn icon_pixel_inside(x: int, y: int) -> bool {
    let (cx, cy) = icon_corner_center(x, y);
    (x - cx) * (x - cx) + (y - cy) * (y - cy) <= 64
}

/// Byte `i` of the default icon's ARGB buffer (little-endian, so B, G, R, A):
/// semi-transparent white inside the rounded rectangle, transparent outside.
pub open spec fn icon_byte(i: int) -> u8 {
    let pixel = i / 4;
    let (x, y) = (pixel % 48, pixel / 48);
    if icon_pixel_inside(x, y) {
        if i % 4 == 3 {
            0xB0u8
        } else {
            0xFFu8
        }
    } else {
        0u8
    }
}

proof fn lemma_icon_index(x: int, y: int, c: int)
    requires
        0 <= x < 48,
        0 <= y < 48,
        0 <= c < 4,
    ensures
        ((y * 48 + x) * 4 + c) / 4 == y * 48 + x,
        ((y * 48 + x) * 4 + c) % 4 == c,
        (y * 48 + x) % 48 == x,
        (y * 48 + x) / 48 == y,
        0 <= (y * 48 + x) * 4 + c < 48 * 48 * 4,
{
    assert(((y * 48 + x) * 4 + c) / 4 == y * 48 + x) by (nonlinear_arith)
        requires
            0 <= x < 48,
            0 <= y < 48,
            0 <= c < 4,
    ;
    assert(((y * 48 + x) * 4 + c) % 4 == c) by (nonlinear_arith)
        requires
            0 <= x < 48,
            0 <= y < 48,
            0 <= c < 4,
    ;
    assert((y * 48 + x) % 48 == x) by (nonlinear_arith)
        requires
            0 <= x < 48,
            0 <= y < 48,
    ;
    assert((y * 48 + x) / 48 == y) by (nonlinear_arith)
        requires
            0 <= x < 48,
            0 <= y < 48,
    ;
    assert(0 <= (y * 48 + x) * 4 + c < 48 * 48 * 4) by (nonlinear_arith)
        requires
            0 <= x < 48,
            0 <= y < 48,
            0 <= c < 4,
    ;
}

/// Whether pixel `(x, y)` lies inside the default icon's rounded rectangle.
fn icon_inside(x: i32, y: i32) -> (inside: bool)
    requires
        0 <= x < 48,
        0 <= y < 48,
    ensures
        inside == icon_pixel_inside(x as int, y as int),
{
    let (w, h, radius) = (DND_ICON_SIZE, DND_ICON_SIZE, DND_ICON_RADIUS);
    let (cx, cy) = if x < radius && y < radius {
        (radius, radius)
    } else if y < radius && x >= w - radius {
        (w - radius - 1, radius)
    } else if x < radius && y >= h - radius {
        (radius, h - radius - 1)
    } else if x >= w - radius && y >= h - radius {
        (w - radius - 1, h - radius - 1)
    } else {
        // Inside, not in a corner.
        (x, y)
    };
    let dx = x - cx;
    let dy = y - cy;
    assert(-48 < dx < 48 && -48 < dy < 48);
    assert(0 <= dx * dx <= 2304 && 0 <= dy * dy <= 2304) by (nonlinear_arith)
        requires
            -48 < dx < 48,
            -48 < dy < 48,
    ;
    dx * dx + dy * dy <= radius * radius
}

/// The pixels of the default drag icon, a 48×48 semi-transparent white
/// rounded rectangle in ARGB8888 (stride 48 × 4 bytes).
pub fn dnd_icon_pixels() -> (pixels: Vec<u8>)
    ensures
        pixels@.len() == 48 * 48 * 4,
        forall|i: int| 0 <= i < pixels@.len() ==> #[trigger] pixels@[i] == icon_byte(i),
{
    let (w, h) = (DND_ICON_SIZE, DND_ICON_SIZE);
    let mut pixels: Vec<u8> = Vec::new();
    let mut y: i32 = 0;
    while y < h
        invariant
            0 <= y <= 48,
            h == 48,
            w == 48,
            pixels@.len() == y * 48 * 4,
            forall|i: int| 0 <= i < pixels@.len() ==> #[trigger] pixels@[i] == icon_byte(i),
        decreases 48 - y,
    {
        let mut x: i32 = 0;
        while x < w
            invariant
                0 <= x <= 48,
                0 <= y < 48,
                h == 48,
                w == 48,
                pixels@.len() == (y * 48 + x) * 4,
                forall|i: int| 0 <= i < pixels@.len() ==> #[trigger] pixels@[i] == icon_byte(i),
            decreases 48 - x,
        {
            let inside = icon_inside(x, y);
            let ghost base = (y * 48 + x) * 4;
            proof {
                lemma_icon_index(x as int, y as int, 0);
                lemma_icon_index(x as int, y as int, 1);
                lemma_icon_index(x as int, y as int, 2);
                lemma_icon_index(x as int, y as int, 3);
            }
            if inside {
                // ARGB: semi-transparent white.
                pixels.push(0xFF);
                pixels.push(0xFF);
                pixels.push(0xFF);
                pixels.push(0xB0);
            } else {
                pixels.push(0);
                pixels.push(0);
                pixels.push(0);
                pixels.push(0);
            }
            assert forall|i: int| 0 <= i < pixels@.len() implies #[trigger] pixels@[i] == icon_byte(i) by {
                if i >= base {
                    let c = i - base;
                    assert(0 <= c < 4);
                    assert(i == (y * 48 + x) * 4 + c);
                }
            }
            x = x + 1;
            assert(pixels@.len() == (y * 48 + x) * 4) by (nonlinear_arith)
                requires
                    pixels@.len() == base + 4,
                    base == (y * 48 + (x - 1)) * 4,
            ;
        }
        y = y + 1;
        assert(pixels@.len() == y * 48 * 4) by (nonlinear_arith)
            requires
                pixels@.len() == ((y - 1) * 48 + 48) * 4,
        ;
    }
    pixels
}

/// Whether caller-provided icon pixels have the size their dimensions ask
/// for: exactly `width * height * 4` bytes.
pub fn icon_pixels_fit(width: u32, height: u32, len: usize) -> (fits: bool)
    requires
        width * height * 4 <= u32::MAX,
    ensures
        fits == (len == width * height * 4),
{
    assert(width * height <= u32::MAX) by (nonlinear_arith)
        requires
            width * height * 4 <= u32::MAX,
    ;
    let expected = (width * height * 4) as usize;
    len == expected
}

} // verus!
