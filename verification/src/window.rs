//! The state of a toplevel window and the decisions taken on it: sizes under
//! configure events and user requests, size hints, decorations, cursor
//! grabs, focus by seat, frame callbacks and the title.
//!
//! The decorations frame is an outside object; what its logic reads of it is
//! the amount of room it adds around the surface ([`FrameBorders`]). Both
//! frames in use take off exactly what they add, clamping a dimension that
//! would vanish.

use vstd::prelude::*;
use vstd::string::StringSliceAdditionalSpecFns;
use vstd::utf8::{encode_utf8, is_char_boundary};
use std::collections::HashSet;
use ahash::RandomState;

verus! {

broadcast use vstd::std_specs::hash::group_hash_axioms;

/// A size in logical pixels.
#[derive(Debug, Clone, Copy, PartialEq, Eq, Structural)]
pub struct LogicalSize {
    pub width: u32,
    pub height: u32,
}

/// A position in logical pixels.
#[derive(Debug, Clone, Copy, PartialEq, Eq, Structural)]
pub struct LogicalPosition {
    pub x: u32,
    pub y: u32,
}

/// Minimum window inner width.
pub const MIN_WINDOW_WIDTH: u32 = 2;

/// Minimum window inner height.
pub const MIN_WINDOW_HEIGHT: u32 = 1;

/// The room a decorations frame adds around the surface, in logical pixels.
#[derive(Debug, Clone, Copy, PartialEq, Eq, Structural)]
pub struct FrameBorders {
    pub width: u32,
    pub height: u32,
}

/// Who draws the window decorations.
#[derive(Debug, Clone, Copy, PartialEq, Eq, Structural)]
pub enum DecorationMode {
    Client,
    Server,
}

/// Window-state bit: maximized.
pub const STATE_MAXIMIZED: u32 = 1;
/// Window-state bit: fullscreen.
pub const STATE_FULLSCREEN: u32 = 2;
/// Window-state bit: being resized.
pub const STATE_RESIZING: u32 = 4;
/// Window-state bit: activated.
pub const STATE_ACTIVATED: u32 = 8;
/// Window-state bits: tiled on all four edges.
pub const STATE_TILED: u32 = 0xF0;
/// Window-state bit: suspended.
pub const STATE_SUSPENDED: u32 = 0x100;

/// A configure event from the compositor, as the window logic reads it.
pub struct Configure {
    /// The new width, when the compositor names one.
    pub new_width: Option<u32>,
    /// The new height, when the compositor names one.
    pub new_height: Option<u32>,
    /// The bounds the compositor suggests for the window, if any.
    pub suggested_bounds: Option<(u32, u32)>,
    /// Who draws the decorations.
    pub decoration_mode: DecorationMode,
    /// The window-state bits.
    pub state: u32,
}

/// What the window remembers of the last configure.
#[derive(Debug, Clone, Copy, PartialEq, Eq, Structural)]
pub struct LastConfigure {
    pub decoration_mode: DecorationMode,
    pub state: u32,
}

/// A window is stateless when it is neither maximized, fullscreen, nor tiled.
pub open spec fn spec_is_stateless(state: u32) -> bool {
    !(state & STATE_MAXIMIZED != 0 || state & STATE_FULLSCREEN != 0 || state & STATE_TILED
        == STATE_TILED)
}

/// Whether the window is neither maximized, fullscreen, nor tiled.
pub fn is_stateless(state: u32) -> (stateless: bool)
    ensures
        stateless == spec_is_stateless(state),
{
    !(state & STATE_MAXIMIZED != 0 || state & STATE_FULLSCREEN != 0 || state & STATE_TILED
        == STATE_TILED)
}

/// Whether going from the `old` window state to `new` needs a resize: always
/// for the first configure, then whenever a state other than activated or
/// suspended changed.
pub open spec fn spec_state_change_requires_resize(old: Option<u32>, new: u32) -> bool {
    match old {
        None => true,
        Some(o) => (o ^ new) & !(STATE_ACTIVATED | STATE_SUSPENDED) != 0,
    }
}

/// Whether the window-state change from `old` to `new` needs a resize.
pub fn state_change_requires_resize(old: Option<u32>, new: u32) -> (resize: bool)
    ensures
        resize == spec_state_change_requires_resize(old, new),
{
    match old {
        None => true,
        Some(o) => (o ^ new) & !(STATE_ACTIVATED | STATE_SUSPENDED) != 0,
    }
}

/// One dimension with the frame's borders taken off, as the frame does it:
/// never below 1.
pub open spec fn framed_dim(value: u32, border: u32) -> u32 {
    if value > border {
        (value - border) as u32
    } else {
        1
    }
}

/// A suggested bound with the frame's borders taken off; `None` once nothing
/// is left of it.
pub open spec fn framed_bound(value: u32, border: u32) -> Option<u32> {
    if value > border {
        Some((value - border) as u32)
    } else {
        None
    }
}

/// The bounds of the inner size under `suggested` bounds: a zero bound is no
/// bound, and with a frame each bound loses the frame's borders.
pub open spec fn inner_size_bounds(suggested: Option<(u32, u32)>, borders: Option<FrameBorders>) -> (
    Option<u32>,
    Option<u32>,
) {
    match suggested {
        None => (None, None),
        Some((w, h)) => {
            let bw = if w == 0 {
                None
            } else {
                Some(w)
            };
            let bh = if h == 0 {
                None
            } else {
                Some(h)
            };
            match borders {
                None => (bw, bh),
                Some(b) => (
                    if w == 0 {
                        None
                    } else {
                        framed_bound(w, b.width)
                    },
                    if h == 0 {
                        None
                    } else {
                        framed_bound(h, b.height)
                    },
                ),
            }
        },
    }
}

/// `value` held to `bound`, if there is one.
pub open spec fn bounded(value: u32, bound: Option<u32>) -> u32 {
    match bound {
        Some(b) => if value < b {
            value
        } else {
            b
        },
        None => value,
    }
}

/// The state of a frame callback.
#[derive(Debug, Clone, Copy, PartialEq, Eq, Structural)]
pub enum FrameCallbackState {
    /// No frame callback was requested.
    Idle,
    /// The frame callback was requested, but not yet arrived, the redraw events are throttled.
    Requested,
    /// The callback was marked as done, and user could receive redraw requested
    Received,
}

impl Default for FrameCallbackState {
    fn default() -> (state: Self)
        ensures
            state == FrameCallbackState::Idle,
    {
        FrameCallbackState::Idle
    }
}

/// A frame callback request from `state`: the callback is then in flight,
/// and the surface is asked for one unless one already was.
pub open spec fn frame_request(state: FrameCallbackState) -> (FrameCallbackState, bool) {
    (FrameCallbackState::Requested, state != FrameCallbackState::Requested)
}

/// Redraws are throttled: of two frame callback requests with no callback
/// in between, only the first asks the surface for one.
pub proof fn lemma_frame_requests_throttle(state: FrameCallbackState)
    ensures
        !frame_request(frame_request(state).0).1,
        frame_request(state).1 <==> state != FrameCallbackState::Requested,
{
}

/// The cursor grabbing modes.
#[derive(Debug, Clone, Copy, PartialEq, Eq, Structural)]
pub enum CursorGrabMode {
    /// The cursor moves freely.
    Free,
    /// The cursor is confined to the window.
    Confined,
    /// The cursor is locked in place.
    Locked,
}

/// The state of the cursor grabs.
#[derive(Debug, Clone, Copy, PartialEq, Eq, Structural)]
pub struct GrabState {
    /// The grab mode requested by the user.
    pub user_grab_mode: CursorGrabMode,
    /// The current grab mode.
    pub current_grab_mode: CursorGrabMode,
}

impl GrabState {
    /// Nothing requested, nothing grabbed.
    pub fn new() -> (state: Self)
        ensures
            state.user_grab_mode == CursorGrabMode::Free,
            state.current_grab_mode == CursorGrabMode::Free,
    {
        GrabState { user_grab_mode: CursorGrabMode::Free, current_grab_mode: CursorGrabMode::Free }
    }
}

/// The IME purposes.
#[derive(Debug, Clone, Copy, PartialEq, Eq, Structural)]
pub enum ImePurpose {
    Normal,
    Password,
    Terminal,
}

/// The decoration themes.
#[derive(Debug, Clone, Copy, PartialEq, Eq, Structural)]
pub enum Theme {
    Light,
    Dark,
}

/// What the last configure asks of the decorations frame.
#[derive(Debug, Clone, Copy, PartialEq, Eq, Structural)]
pub enum FrameAction {
    /// Create a client-side frame.
    Create,
    /// Drop the frame, the server decorates.
    Drop,
    /// Leave the frame as it is.
    Keep,
}

/// The outcome of asking for a new inner size.
#[derive(Debug, Clone, Copy, PartialEq, Eq, Structural)]
pub enum SizeRequest {
    /// The window is floating and took the size now.
    Resized,
    /// The window is maximized, fullscreen or tiled: the size is kept for when
    /// it is restored, and the compositor is asked to animate towards it.
    Deferred { width: i32, height: i32 },
}

/// What changing whether the window is decorated asks for.
#[derive(Debug, Clone, Copy, PartialEq, Eq, Structural)]
pub struct DecorateStep {
    /// Ask the compositor for this decoration mode.
    pub request_mode: Option<DecorationMode>,
    /// Hide (`true`) or show the frame, if there is one, and resize it.
    pub frame_hidden: bool,
}

/// A cursor grab the pointers are to be put in.
#[derive(Debug, Clone, Copy, PartialEq, Eq, Structural)]
pub struct GrabPlan {
    /// Release the grab the pointers are in now (unconfine or unlock them).
    pub release: Option<CursorGrabMode>,
    /// Put the pointers in this grab (confine or lock them).
    pub apply: Option<CursorGrabMode>,
}

/// Why a cursor grab or cursor position request is refused.
#[derive(Debug, Clone, Copy, PartialEq, Eq, Structural)]
pub enum CursorError {
    /// The compositor does not support pointer constraints.
    NotSupported,
    /// The cursor position can be set only for a locked cursor.
    NotLocked,
}

/// The edges a window can be resized from.
#[derive(Debug, Clone, Copy, PartialEq, Eq, Structural)]
pub enum ResizeEdge {
    /// No edge.
    NoEdge,
    Top,
    Bottom,
    Left,
    TopLeft,
    BottomLeft,
    Right,
    TopRight,
    BottomRight,
}

/// The directions a user can resize a window in.
#[derive(Debug, Clone, Copy, PartialEq, Eq, Structural)]
pub enum ResizeDirection {
    East,
    North,
    NorthEast,
    NorthWest,
    South,
    SouthEast,
    SouthWest,
    West,
}

/// The edge a resize in `direction` is dragged from.
pub open spec fn edge_of(direction: ResizeDirection) -> ResizeEdge {
    match direction {
        ResizeDirection::North => ResizeEdge::Top,
        ResizeDirection::West => ResizeEdge::Left,
        ResizeDirection::NorthWest => ResizeEdge::TopLeft,
        ResizeDirection::NorthEast => ResizeEdge::TopRight,
        ResizeDirection::East => ResizeEdge::Right,
        ResizeDirection::SouthWest => ResizeEdge::BottomLeft,
        ResizeDirection::SouthEast => ResizeEdge::BottomRight,
        ResizeDirection::South => ResizeEdge::Bottom,
    }
}

impl From<ResizeDirection> for ResizeEdge {
    fn from(direction: ResizeDirection) -> (edge: Self)
        ensures
            edge == edge_of(direction),
    {
        match direction {
            ResizeDirection::North => ResizeEdge::Top,
            ResizeDirection::West => ResizeEdge::Left,
            ResizeDirection::NorthWest => ResizeEdge::TopLeft,
            ResizeDirection::NorthEast => ResizeEdge::TopRight,
            ResizeDirection::East => ResizeEdge::Right,
            ResizeDirection::SouthWest => ResizeEdge::BottomLeft,
            ResizeDirection::SouthEast => ResizeEdge::BottomRight,
            ResizeDirection::South => ResizeEdge::Bottom,
        }
    }
}

impl vstd::std_specs::convert::FromSpecImpl<ResizeDirection> for ResizeEdge {
    open spec fn obeys_from_spec() -> bool {
        true
    }

    open spec fn from_spec(v: ResizeDirection) -> ResizeEdge {
        edge_of(v)
    }
}

/// What the decorations frame made of a click on it.
#[derive(Debug, Clone, Copy, PartialEq, Eq, Structural)]
pub enum DecorationClick {
    Minimize,
    Maximize,
    UnMaximize,
    Close,
    Move,
    /// Resize from an edge; `None` for an edge the window cannot name.
    Resize(Option<ResizeEdge>),
    /// Show the window menu at this point of the surface.
    ShowMenu(i32, i32),
    /// Anything else the frame may report; it asks for nothing.
    Other,
}

/// What the window does for a click on its decorations.
#[derive(Debug, Clone, Copy, PartialEq, Eq, Structural)]
pub enum FrameClickStep {
    Minimize,
    Maximize,
    UnMaximize,
    /// Queue a close request for the window.
    Close,
    /// Remember the click's serial: the move starts when the pointer moves.
    Move,
    /// Start a compositor resize from this edge with the click's serial.
    Resize(ResizeEdge),
    /// Show the window menu at this point with the click's serial.
    ShowMenu(i32, i32),
    /// Nothing to do.
    Nothing,
}

/// The step for a click the frame reported, if any; `None` also for a
/// resize from an edge the window cannot name.
pub open spec fn frame_click_step(click: Option<DecorationClick>) -> Option<FrameClickStep> {
    match click {
        None => None,
        Some(DecorationClick::Minimize) => Some(FrameClickStep::Minimize),
        Some(DecorationClick::Maximize) => Some(FrameClickStep::Maximize),
        Some(DecorationClick::UnMaximize) => Some(FrameClickStep::UnMaximize),
        Some(DecorationClick::Close) => Some(FrameClickStep::Close),
        Some(DecorationClick::Move) => Some(FrameClickStep::Move),
        Some(DecorationClick::Resize(None)) => None,
        Some(DecorationClick::Resize(Some(edge))) => Some(FrameClickStep::Resize(edge)),
        Some(DecorationClick::ShowMenu(x, y)) => Some(FrameClickStep::ShowMenu(x, y)),
        Some(DecorationClick::Other) => Some(FrameClickStep::Nothing),
    }
}

/// ahash's hasher state, the hasher of the set of focusing seats.
#[verifier::external_type_specification]
#[verifier::external_body]
pub struct ExRandomState(RandomState);

/// Adds a seat to a set hashed by ahash (`HashSet::insert`). std documents
/// that the value is added and that the call reports whether it was absent;
/// the hasher does not change which values the set holds.
#[verifier::external_body]
fn seat_set_insert(set: &mut HashSet<u32, RandomState>, seat: u32) -> (added: bool)
    ensures
        final(set)@ == old(set)@.insert(seat),
        added == !old(set)@.contains(seat),
{
    set.insert(seat)
}

/// Removes a seat from a set hashed by ahash (`HashSet::remove`). std
/// documents that the value is removed and that the call reports whether it
/// was present; the hasher does not change which values the set holds.
#[verifier::external_body]
fn seat_set_remove(set: &mut HashSet<u32, RandomState>, seat: u32) -> (removed: bool)
    ensures
        final(set)@ == old(set)@.remove(seat),
        removed == old(set)@.contains(seat),
{
    set.remove(&seat)
}

/// The state of the window which is being updated by the event loop.
pub struct WindowState {
    /// The inner size of the window, as in without client side decorations.
    pub size: LogicalSize,
    /// The size of the window when no states were applied to it: what it
    /// falls back to when the compositor names no size.
    pub stateless_size: LogicalSize,
    /// The initial size the user gave still waits for the first configure.
    pub initial_size_pending: bool,
    /// Min size hint sent to the compositor (frame borders included).
    pub min_inner_size: LogicalSize,
    /// Max size hint sent to the compositor (frame borders included).
    pub max_inner_size: Option<LogicalSize>,
    /// The last received configure.
    pub last_configure: Option<LastConfigure>,
    /// Whether the frame is resizable.
    pub resizable: bool,
    /// Whether we should decorate the frame.
    pub decorate: bool,
    /// Whether the client side decorations failed to be created, so they are
    /// not tried on each configure.
    pub csd_fails: bool,
    /// Whether the window is transparent.
    pub transparent: bool,
    /// Whether the cursor is visible.
    pub cursor_visible: bool,
    /// The current cursor grabbing mode.
    pub cursor_grab_mode: GrabState,
    /// Whether the IME input is allowed for that window.
    pub ime_allowed: bool,
    /// The current IME purpose.
    pub ime_purpose: ImePurpose,
    /// Theme variant.
    pub theme: Option<Theme>,
    /// The current window title.
    pub title: String,
    /// Seats that have keyboard focus on that window, by seat id.
    pub seat_focus: HashSet<u32, RandomState>,
    /// The state of the frame callback.
    pub frame_callback_state: FrameCallbackState,
    /// The serial of the click on the decorations that asks for a move, if
    /// one is pending.
    pub has_pending_move: Option<u32>,
}

/// `s` after its inner size became `size`; the stateless size follows while
/// the last configure left the window stateless.
pub open spec fn resized(s: WindowState, size: LogicalSize) -> WindowState {
    WindowState {
        size,
        stateless_size: match s.last_configure {
            Some(c) => if spec_is_stateless(c.state) {
                size
            } else {
                s.stateless_size
            },
            None => s.stateless_size,
        },
        ..s
    }
}

/// The size a configure asks for before bounds, and whether the bounds apply:
/// the compositor's size (less the frame's borders) when it names both
/// dimensions, else the stateless size for a stateless window, else the
/// current size.
pub open spec fn chosen_size(s: WindowState, cfg: Configure, borders: Option<FrameBorders>) -> (
    LogicalSize,
    bool,
) {
    match (cfg.new_width, cfg.new_height) {
        (Some(w), Some(h)) => match borders {
            Some(b) => (
                LogicalSize { width: framed_dim(w, b.width), height: framed_dim(h, b.height) },
                false,
            ),
            None => (LogicalSize { width: w, height: h }, false),
        },
        _ => if spec_is_stateless(cfg.state) {
            (s.stateless_size, true)
        } else {
            (s.size, true)
        },
    }
}

/// The window after the initial size was applied, if it still waited.
pub open spec fn with_initial_size(s: WindowState, initial: LogicalSize) -> WindowState {
    if s.initial_size_pending {
        WindowState { size: initial, stateless_size: initial, initial_size_pending: false, ..s }
    } else {
        s
    }
}

/// What a configure does to the window and whether it resizes it.
pub open spec fn configure_step(
    s0: WindowState,
    cfg: Configure,
    initial: LogicalSize,
    borders: Option<FrameBorders>,
) -> (WindowState, bool) {
    let s1 = with_initial_size(s0, initial);
    let (chosen, constrain) = chosen_size(s1, cfg, borders);
    let bounds = inner_size_bounds(cfg.suggested_bounds, borders);
    let new_size = if constrain {
        LogicalSize { width: bounded(chosen.width, bounds.0), height: bounded(chosen.height, bounds.1) }
    } else {
        chosen
    };
    let old_state = match s1.last_configure {
        Some(c) => Some(c.state),
        None => None,
    };
    let requires_resize = spec_state_change_requires_resize(old_state, cfg.state);
    let s2 = WindowState {
        last_configure: Some(LastConfigure { decoration_mode: cfg.decoration_mode, state: cfg.state }),
        ..s1
    };
    if requires_resize || new_size != s1.size {
        (resized(s2, new_size), true)
    } else {
        (s2, false)
    }
}

/// `size` grown by the frame's borders, if there is a frame.
pub open spec fn with_borders(size: LogicalSize, borders: Option<FrameBorders>) -> LogicalSize {
    match borders {
        Some(b) => LogicalSize {
            width: (size.width + b.width) as u32,
            height: (size.height + b.height) as u32,
        },
        None => size,
    }
}

/// Growing `size` by the borders stays within `u32`.
pub open spec fn borders_fit(size: LogicalSize, borders: Option<FrameBorders>) -> bool {
    match borders {
        Some(b) => size.width + b.width <= u32::MAX && size.height + b.height <= u32::MAX,
        None => true,
    }
}

/// The min size hint for a requested minimum: the window minimum when none
/// is given, never below it in either dimension.
pub open spec fn clamped_min_size(size: Option<LogicalSize>) -> LogicalSize {
    match size {
        Some(s) => LogicalSize {
            width: if s.width < MIN_WINDOW_WIDTH {
                MIN_WINDOW_WIDTH
            } else {
                s.width
            },
            height: if s.height < MIN_WINDOW_HEIGHT {
                MIN_WINDOW_HEIGHT
            } else {
                s.height
            },
        },
        None => LogicalSize { width: MIN_WINDOW_WIDTH, height: MIN_WINDOW_HEIGHT },
    }
}

/// The bounds of the inner size under the suggested bounds.
fn configure_bounds(suggested: Option<(u32, u32)>, borders: Option<FrameBorders>) -> (bounds: (
    Option<u32>,
    Option<u32>,
))
    ensures
        bounds == inner_size_bounds(suggested, borders),
{
    match suggested {
        None => (None, None),
        Some((w, h)) => match borders {
            None => (
                if w == 0 {
                    None
                } else {
                    Some(w)
                },
                if h == 0 {
                    None
                } else {
                    Some(h)
                },
            ),
            Some(b) => (
                if w == 0 || w <= b.width {
                    None
                } else {
                    Some(w - b.width)
                },
                if h == 0 || h <= b.height {
                    None
                } else {
                    Some(h - b.height)
                },
            ),
        },
    }
}

/// `size` grown by the frame's borders.
fn add_borders(size: LogicalSize, borders: Option<FrameBorders>) -> (grown: LogicalSize)
    requires
        borders_fit(size, borders),
    ensures
        grown == with_borders(size, borders),
{
    match borders {
        Some(b) => LogicalSize { width: size.width + b.width, height: size.height + b.height },
        None => size,
    }
}

impl WindowState {
    /// A window that has not been configured yet, waiting to take
    /// `initial_size` (the user's size at scale 1) on the first configure.
    pub fn new(initial_size: LogicalSize, theme: Option<Theme>) -> (state: Self)
        ensures
            state.size == initial_size,
            state.stateless_size == initial_size,
            state.initial_size_pending,
            state.min_inner_size == (LogicalSize { width: MIN_WINDOW_WIDTH, height: MIN_WINDOW_HEIGHT }),
            state.max_inner_size is None,
            state.last_configure is None,
            state.resizable,
            state.decorate,
            !state.csd_fails,
            !state.transparent,
            state.cursor_visible,
            state.cursor_grab_mode == (GrabState {
                user_grab_mode: CursorGrabMode::Free,
                current_grab_mode: CursorGrabMode::Free,
            }),
            !state.ime_allowed,
            state.ime_purpose == ImePurpose::Normal,
            state.theme == theme,
            state.title@ == Seq::<char>::empty(),
            state.seat_focus@ == Set::<u32>::empty(),
            state.frame_callback_state == FrameCallbackState::Idle,
            state.has_pending_move is None,
    {
        WindowState {
            size: initial_size,
            stateless_size: initial_size,
            initial_size_pending: true,
            min_inner_size: LogicalSize { width: MIN_WINDOW_WIDTH, height: MIN_WINDOW_HEIGHT },
            max_inner_size: None,
            last_configure: None,
            resizable: true,
            decorate: true,
            csd_fails: false,
            transparent: false,
            cursor_visible: true,
            cursor_grab_mode: GrabState::new(),
            ime_allowed: false,
            ime_purpose: ImePurpose::Normal,
            theme,
            title: String::new(),
            seat_focus: HashSet::default(),
            frame_callback_state: FrameCallbackState::Idle,
            has_pending_move: None,
        }
    }

    /// Get the current state of the frame callback.
    pub fn frame_callback_state(&self) -> (state: FrameCallbackState)
        ensures
            state == self.frame_callback_state,
    {
        self.frame_callback_state
    }

    /// The frame callback was received, but not yet sent to the user.
    pub fn frame_callback_received(&mut self)
        ensures
            *final(self) == (WindowState {
                frame_callback_state: FrameCallbackState::Received,
                ..*old(self)
            }),
    {
        self.frame_callback_state = FrameCallbackState::Received;
    }

    /// Reset the frame callbacks state.
    pub fn frame_callback_reset(&mut self)
        ensures
            *final(self) == (WindowState { frame_callback_state: FrameCallbackState::Idle, ..*old(self) }),
    {
        self.frame_callback_state = FrameCallbackState::Idle;
    }

    /// Request a frame callback if we don't have one for this window in
    /// flight. Returns whether the caller asks the surface for one.
    pub fn request_frame_callback(&mut self) -> (request: bool)
        ensures
            (final(self).frame_callback_state, request) == frame_request(
                old(self).frame_callback_state,
            ),
            *final(self) == (WindowState {
                frame_callback_state: FrameCallbackState::Requested,
                ..*old(self)
            }),
    {
        match self.frame_callback_state {
            FrameCallbackState::Idle | FrameCallbackState::Received => {
                self.frame_callback_state = FrameCallbackState::Requested;
                true
            },
            FrameCallbackState::Requested => false,
        }
    }

    /// What a configure in `mode` asks of the decorations frame: a client-side
    /// frame is created once, when there is none yet, a subcompositor to build
    /// it with, and no earlier attempt failed; server-side decorations drop it.
    pub fn frame_action(&self, mode: DecorationMode, has_frame: bool, has_subcompositor: bool) -> (action: FrameAction)
        ensures
            action == if has_subcompositor && mode == DecorationMode::Client && !has_frame
                && !self.csd_fails {
                FrameAction::Create
            } else if mode == DecorationMode::Server {
                FrameAction::Drop
            } else {
                FrameAction::Keep
            },
    {
        let client = match mode {
            DecorationMode::Client => true,
            DecorationMode::Server => false,
        };
        if has_subcompositor && client && !has_frame && !self.csd_fails {
            FrameAction::Create
        } else if !client {
            FrameAction::Drop
        } else {
            FrameAction::Keep
        }
    }

    /// Creating the client side decorations failed: they are not tried again.
    pub fn frame_creation_failed(&mut self)
        ensures
            *final(self) == (WindowState { csd_fails: true, ..*old(self) }),
    {
        self.csd_fails = true;
    }

    /// The inner size a configure asks for: the chosen size, held to the
    /// configure's bounds when the compositor let the window pick.
    fn configured_size(&self, cfg: &Configure, borders: Option<FrameBorders>) -> (size: LogicalSize)
        ensures
            ({
                let (chosen, constrain) = chosen_size(*self, *cfg, borders);
                let bounds = inner_size_bounds(cfg.suggested_bounds, borders);
                size == if constrain {
                    LogicalSize {
                        width: bounded(chosen.width, bounds.0),
                        height: bounded(chosen.height, bounds.1),
                    }
                } else {
                    chosen
                }
            }),
    {
        let stateless = is_stateless(cfg.state);
        let (mut new_size, constrain) = match (cfg.new_width, cfg.new_height) {
            (Some(width), Some(height)) => match borders {
                Some(b) => {
                    let w = if width > b.width {
                        width - b.width
                    } else {
                        1
                    };
                    let h = if height > b.height {
                        height - b.height
                    } else {
                        1
                    };
                    (LogicalSize { width: w, height: h }, false)
                },
                None => (LogicalSize { width, height }, false),
            },
            _ => if stateless {
                (self.stateless_size, true)
            } else {
                (self.size, true)
            },
        };
        // Apply configure bounds only when compositor let the user decide what size to pick.
        if constrain {
            let (bound_w, bound_h) = configure_bounds(cfg.suggested_bounds, borders);
            if let Some(bw) = bound_w {
                if bw < new_size.width {
                    new_size.width = bw;
                }
            }
            if let Some(bh) = bound_h {
                if bh < new_size.height {
                    new_size.height = bh;
                }
            }
        }
        new_size
    }

    /// Apply a configure. `initial_size` is the user's initial size at the
    /// current scale, taken if the window waits for its first configure, and
    /// `borders` the frame's borders if there is a frame. Returns whether the
    /// window was resized, in which case the caller resizes the frame and
    /// surface geometry to the new inner size.
    pub fn configure(&mut self, cfg: &Configure, initial_size: LogicalSize, borders: Option<FrameBorders>) -> (resized: bool)
        ensures
            (*final(self), resized) == configure_step(*old(self), *cfg, initial_size, borders),
    {
        // The scaling should be delivered before the first configure, thus
        // the initial size is applied now, at the current scale.
        if self.initial_size_pending {
            self.size = initial_size;
            self.stateless_size = initial_size;
            self.initial_size_pending = false;
        }
        let new_size = self.configured_size(cfg, borders);
        let old_state = match self.last_configure {
            Some(c) => Some(c.state),
            None => None,
        };
        let state_change_requires_resize = state_change_requires_resize(old_state, cfg.state);
        // Set the configure before doing a resize, since it is queried during it.
        self.last_configure = Some(LastConfigure { decoration_mode: cfg.decoration_mode, state: cfg.state });
        if state_change_requires_resize || new_size != self.size {
            self.resize(new_size);
            true
        } else {
            false
        }
    }

    /// Resize the window to the new inner size.
    fn resize(&mut self, inner_size: LogicalSize)
        ensures
            *final(self) == resized(*old(self), inner_size),
    {
        self.size = inner_size;
        // Update the stateless size.
        match self.last_configure {
            Some(c) => {
                if is_stateless(c.state) {
                    self.stateless_size = inner_size;
                }
            },
            None => {},
        }
    }
}

/// The longest a title may be, in bytes, so that it does not blow up the
/// protocol messages.
pub const MAX_TITLE_BYTES: usize = 1024;

/// Where a title of UTF-8 `bytes` is cut: nowhere if it fits, else at the
/// last character boundary at or below the limit.
pub open spec fn title_cut(bytes: Seq<u8>) -> int {
    if bytes.len() <= MAX_TITLE_BYTES {
        bytes.len() as int
    } else {
        choose|k: int|
            0 <= k <= MAX_TITLE_BYTES && is_char_boundary(bytes, k) && forall|j: int|
                k < j <= MAX_TITLE_BYTES ==> !is_char_boundary(bytes, j)
    }
}

/// The title as it is kept and sent: truncated to at most 1024 bytes,
/// without splitting a character.
pub fn truncate_title(title: String) -> (kept: String)
    ensures
        encode_utf8(kept@) == encode_utf8(title@).subrange(0, title_cut(encode_utf8(title@))),
        encode_utf8(kept@).len() <= MAX_TITLE_BYTES,
        encode_utf8(title@).len() <= MAX_TITLE_BYTES ==> kept@ == title@,
{
    broadcast use vstd::utf8::encode_utf8_valid_utf8, vstd::utf8::is_char_boundary_start_end_of_seq, vstd::utf8::decode_utf8_encode_utf8, vstd::utf8::encode_utf8_decode_utf8;

    let text = title.as_str();
    let ghost bytes = text.spec_bytes();
    assert(bytes == encode_utf8(title@));
    let byte_len = text.as_bytes().len();
    if byte_len <= MAX_TITLE_BYTES {
        assert(bytes.subrange(0, bytes.len() as int) =~= bytes);
        return title;
    }
    let mut new_len: usize = MAX_TITLE_BYTES;
    assert(vstd::utf8::valid_utf8(bytes));
    while !text.is_char_boundary(new_len)
        invariant
            new_len <= MAX_TITLE_BYTES,
            bytes == text.spec_bytes(),
            vstd::utf8::valid_utf8(bytes),
            bytes.len() > MAX_TITLE_BYTES,
            forall|j: int| new_len < j <= MAX_TITLE_BYTES ==> !is_char_boundary(bytes, j),
        decreases new_len,
    {
        assert(is_char_boundary(bytes, 0));
        new_len = new_len - 1;
    }
    assert(title_cut(bytes) == new_len as int) by {
        let k = title_cut(bytes);
        assert(0 <= new_len <= MAX_TITLE_BYTES && is_char_boundary(bytes, new_len as int) && forall|j: int|
            new_len < j <= MAX_TITLE_BYTES ==> !is_char_boundary(bytes, j));
        if k < new_len {
        } else if k > new_len {
        }
    }
    let (head, _) = text.split_at(new_len);
    let kept = head.to_owned();
    assert(encode_utf8(kept@) == head.spec_bytes());
    kept
}

impl WindowState {
    /// Set the resizable state on the window. `borders` are the frame's.
    ///
    /// Returns `None` when the state did not change, else the min and max
    /// size hints to send: the stored hints again when the window becomes
    /// resizable, the current size for both when it stops being so.
    pub fn set_resizable(&mut self, resizable: bool, borders: Option<FrameBorders>) -> (hints: Option<
        (LogicalSize, Option<LogicalSize>),
    >)
        requires
            resizable ==> borders_fit(clamped_min_size(Some(old(self).min_inner_size)), borders),
            resizable ==> match old(self).max_inner_size {
                Some(m) => borders_fit(m, borders),
                None => true,
            },
            !resizable ==> borders_fit(clamped_min_size(Some(old(self).size)), borders),
            !resizable ==> borders_fit(old(self).size, borders),
        ensures
            old(self).resizable == resizable ==> hints is None && *final(self) == *old(self),
            old(self).resizable != resizable ==> {
                let min = if resizable {
                    with_borders(clamped_min_size(Some(old(self).min_inner_size)), borders)
                } else {
                    with_borders(clamped_min_size(Some(old(self).size)), borders)
                };
                let max = if resizable {
                    match old(self).max_inner_size {
                        Some(m) => Some(with_borders(m, borders)),
                        None => None,
                    }
                } else {
                    Some(with_borders(old(self).size, borders))
                };
                &&& hints == Some((min, max))
                &&& *final(self) == (WindowState {
                    resizable,
                    min_inner_size: min,
                    max_inner_size: max,
                    ..*old(self)
                })
            },
    {
        if self.resizable == resizable {
            return None;
        }
        self.resizable = resizable;
        if resizable {
            // Restore min/max sizes of the window.
            let (min, max) = self.reload_min_max_hints(borders);
            Some((min, max))
        } else {
            let size = self.size;
            let min = self.set_min_inner_size(Some(size), borders);
            let max = self.set_max_inner_size(Some(size), borders);
            Some((min, max))
        }
    }

    /// Set the minimum inner window size. Returns the hint to send: the
    /// requested size (or the window minimum), at least the window minimum in
    /// each dimension, with the frame's borders added.
    pub fn set_min_inner_size(&mut self, size: Option<LogicalSize>, borders: Option<FrameBorders>) -> (hint: LogicalSize)
        requires
            borders_fit(clamped_min_size(size), borders),
        ensures
            hint == with_borders(clamped_min_size(size), borders),
            *final(self) == (WindowState { min_inner_size: hint, ..*old(self) }),
    {
        // Ensure that the window has the right minimum size.
        let mut size = match size {
            Some(s) => s,
            None => LogicalSize { width: MIN_WINDOW_WIDTH, height: MIN_WINDOW_HEIGHT },
        };
        if size.width < MIN_WINDOW_WIDTH {
            size.width = MIN_WINDOW_WIDTH;
        }
        if size.height < MIN_WINDOW_HEIGHT {
            size.height = MIN_WINDOW_HEIGHT;
        }
        // Add the borders.
        let size = add_borders(size, borders);
        self.min_inner_size = size;
        size
    }

    /// Set the maximum inner window size. Returns the hint to send: the
    /// requested size with the frame's borders added, or none.
    pub fn set_max_inner_size(&mut self, size: Option<LogicalSize>, borders: Option<FrameBorders>) -> (hint: Option<LogicalSize>)
        requires
            match size {
                Some(s) => borders_fit(s, borders),
                None => true,
            },
        ensures
            hint == match size {
                Some(s) => Some(with_borders(s, borders)),
                None => None,
            },
            *final(self) == (WindowState { max_inner_size: hint, ..*old(self) }),
    {
        let size = match size {
            Some(s) => Some(add_borders(s, borders)),
            None => None,
        };
        self.max_inner_size = size;
        size
    }

    /// Reload the hints for minimum and maximum sizes: the stored hints are
    /// set again, each passing through its setter. Returns the hints to send.
    pub fn reload_min_max_hints(&mut self, borders: Option<FrameBorders>) -> (hints: (LogicalSize, Option<LogicalSize>))
        requires
            borders_fit(clamped_min_size(Some(old(self).min_inner_size)), borders),
            match old(self).max_inner_size {
                Some(m) => borders_fit(m, borders),
                None => true,
            },
        ensures
            hints.0 == with_borders(clamped_min_size(Some(old(self).min_inner_size)), borders),
            hints.1 == match old(self).max_inner_size {
                Some(m) => Some(with_borders(m, borders)),
                None => None,
            },
            *final(self) == (WindowState {
                min_inner_size: hints.0,
                max_inner_size: hints.1,
                ..*old(self)
            }),
    {
        let min = self.min_inner_size;
        let max = self.max_inner_size;
        let min_hint = self.set_min_inner_size(Some(min), borders);
        let max_hint = self.set_max_inner_size(max, borders);
        (min_hint, max_hint)
    }

    /// Get the stored resizable state.
    pub fn resizable(&self) -> (resizable: bool)
        ensures
            resizable == self.resizable,
    {
        self.resizable
    }

    /// Whether the window is focused by any seat.
    pub fn has_focus(&self) -> (focused: bool)
        ensures
            focused == !self.seat_focus@.is_empty(),
    {
        !self.seat_focus.is_empty()
    }

    /// Add seat focus for the window.
    pub fn add_seat_focus(&mut self, seat: u32)
        ensures
            final(self).seat_focus@ == old(self).seat_focus@.insert(seat),
            *final(self) == (WindowState { seat_focus: final(self).seat_focus, ..*old(self) }),
    {
        seat_set_insert(&mut self.seat_focus, seat);
    }

    /// Remove seat focus from the window.
    pub fn remove_seat_focus(&mut self, seat: u32)
        ensures
            final(self).seat_focus@ == old(self).seat_focus@.remove(seat),
            *final(self) == (WindowState { seat_focus: final(self).seat_focus, ..*old(self) }),
    {
        seat_set_remove(&mut self.seat_focus, seat);
    }

    /// Get the size of the window.
    pub fn inner_size(&self) -> (size: LogicalSize)
        ensures
            size == self.size,
    {
        self.size
    }

    /// Whether the window received initial configure event from the compositor.
    pub fn is_configured(&self) -> (configured: bool)
        ensures
            configured == (self.last_configure is Some),
    {
        self.last_configure.is_some()
    }

    /// Whether the window shows decorations. `frame_hidden` tells whether the
    /// frame is hidden, if there is a frame. Client-side decorations show
    /// unless their frame is hidden; otherwise the server decorates.
    pub fn is_decorated(&self, frame_hidden: Option<bool>) -> (decorated: bool)
        ensures
            decorated == match (self.last_configure, frame_hidden) {
                (Some(c), Some(hidden)) => if c.decoration_mode == DecorationMode::Client {
                    !hidden
                } else {
                    true
                },
                _ => true,
            },
    {
        let csd = match self.last_configure {
            Some(c) => match c.decoration_mode {
                DecorationMode::Client => true,
                DecorationMode::Server => false,
            },
            None => false,
        };
        match frame_hidden {
            Some(hidden) => if csd {
                !hidden
            } else {
                true
            },
            None => true,
        }
    }

    /// Get the outer size of the window: the inner size with the frame's borders.
    pub fn outer_size(&self, borders: Option<FrameBorders>) -> (size: LogicalSize)
        requires
            borders_fit(self.size, borders),
        ensures
            size == with_borders(self.size, borders),
    {
        add_borders(self.size, borders)
    }

    /// Try to resize the window when the user can do so: a floating window
    /// (or one not configured yet) takes `size` now, otherwise it becomes the
    /// size to restore to and the compositor is asked to animate towards it.
    pub fn request_inner_size(&mut self, size: LogicalSize) -> (outcome: SizeRequest)
        ensures
            match old(self).last_configure {
                Some(c) if !spec_is_stateless(c.state) => {
                    &&& outcome == (SizeRequest::Deferred {
                        width: size.width as i32,
                        height: size.height as i32,
                    })
                    &&& *final(self) == (WindowState { stateless_size: size, ..*old(self) })
                },
                _ => {
                    &&& outcome == SizeRequest::Resized
                    &&& *final(self) == resized(*old(self), size)
                },
            },
    {
        let stateless = match self.last_configure {
            Some(c) => is_stateless(c.state),
            None => true,
        };
        if stateless {
            self.resize(size);
            SizeRequest::Resized
        } else {
            self.stateless_size = size;
            SizeRequest::Deferred { width: size.width as i32, height: size.height as i32 }
        }
    }

    /// Set the CSD theme.
    pub fn set_theme(&mut self, theme: Option<Theme>)
        ensures
            *final(self) == (WindowState { theme, ..*old(self) }),
    {
        self.theme = theme;
    }

    /// The current theme for CSD decorations.
    pub fn theme(&self) -> (theme: Option<Theme>)
        ensures
            theme == self.theme,
    {
        self.theme
    }

    /// Whether show or hide client side decorations. `has_frame` tells
    /// whether the window has a decorations frame. Returns `None` when the
    /// setting did not change, else what the compositor is asked for and
    /// whether the frame, if any, is hidden. A frame forces a resize to the
    /// current inner size, which the caller carries out on the frame and the
    /// surface.
    pub fn set_decorate(&mut self, decorate: bool, has_frame: bool) -> (step: Option<DecorateStep>)
        ensures
            old(self).decorate == decorate ==> step is None && *final(self) == *old(self),
            old(self).decorate != decorate ==> {
                let toggled = WindowState { decorate, ..*old(self) };
                &&& *final(self) == if has_frame {
                    resized(toggled, old(self).size)
                } else {
                    toggled
                }
                &&& step == Some(DecorateStep {
                    request_mode: if decorate {
                        Some(DecorationMode::Server)
                    } else {
                        match old(self).last_configure {
                            Some(c) => if c.decoration_mode == DecorationMode::Server {
                                Some(DecorationMode::Client)
                            } else {
                                None
                            },
                            None => None,
                        }
                    },
                    frame_hidden: !decorate,
                })
            },
    {
        if decorate == self.decorate {
            return None;
        }
        self.decorate = decorate;
        let last_server = match self.last_configure {
            Some(c) => match c.decoration_mode {
                DecorationMode::Server => true,
                DecorationMode::Client => false,
            },
            None => false,
        };
        let request_mode = if last_server && !decorate {
            // To disable decorations we should request client and hide the frame.
            Some(DecorationMode::Client)
        } else if decorate {
            Some(DecorationMode::Server)
        } else {
            None
        };
        if has_frame {
            // Force the resize.
            let size = self.size;
            self.resize(size);
        }
        Some(DecorateStep { request_mode, frame_hidden: !decorate })
    }

    /// Set the cursor grabbing state on the top-level. `has_constraints`
    /// tells whether the compositor supports pointer constraints and
    /// `pointers` how many pointers are over the window. Returns what the
    /// pointers are to be put through.
    pub fn set_cursor_grab(&mut self, mode: CursorGrabMode, has_constraints: bool, pointers: usize) -> (plan: Result<GrabPlan, CursorError>)
        ensures
            old(self).cursor_grab_mode.user_grab_mode == mode ==> {
                &&& plan == Ok::<GrabPlan, CursorError>(GrabPlan { release: None, apply: None })
                &&& *final(self) == *old(self)
            },
            old(self).cursor_grab_mode.user_grab_mode != mode ==> {
                let (grab, inner) = grab_step(old(self).cursor_grab_mode, mode, has_constraints, pointers);
                &&& plan == inner
                &&& *final(self) == (WindowState {
                    cursor_grab_mode: match inner {
                        Ok(_) => GrabState { user_grab_mode: mode, ..grab },
                        Err(_) => grab,
                    },
                    ..*old(self)
                })
            },
    {
        if self.cursor_grab_mode.user_grab_mode == mode {
            return Ok(GrabPlan { release: None, apply: None });
        }
        let plan = self.set_cursor_grab_inner(mode, has_constraints, pointers);
        // Update user grab on success.
        if plan.is_ok() {
            self.cursor_grab_mode.user_grab_mode = mode;
        }
        plan
    }

    /// Set the grabbing state on the surface, whatever the user asked for
    /// before; used when a pointer enters the window to restore the user's grab.
    pub fn set_cursor_grab_inner(&mut self, mode: CursorGrabMode, has_constraints: bool, pointers: usize) -> (plan: Result<GrabPlan, CursorError>)
        ensures
            ({
                let (grab, inner) = grab_step(old(self).cursor_grab_mode, mode, has_constraints, pointers);
                &&& plan == inner
                &&& *final(self) == (WindowState { cursor_grab_mode: grab, ..*old(self) })
            }),
    {
        if !has_constraints {
            match mode {
                CursorGrabMode::Free => return Ok(GrabPlan { release: None, apply: None }),
                _ => return Err(CursorError::NotSupported),
            }
        }
        let current = self.cursor_grab_mode.current_grab_mode;
        let unset_old = match current {
            CursorGrabMode::Free => true,
            _ => pointers > 0,
        };
        let release = match current {
            CursorGrabMode::Free => None,
            _ => if pointers > 0 {
                Some(current)
            } else {
                None
            },
        };
        // Without a pointer above the window the old mode stays until one re-appears.
        if !unset_old {
            return Ok(GrabPlan { release, apply: None });
        }
        let set_mode = match mode {
            CursorGrabMode::Free => true,
            _ => pointers > 0,
        };
        let apply = match mode {
            CursorGrabMode::Free => None,
            _ => if pointers > 0 {
                Some(mode)
            } else {
                None
            },
        };
        // Replace the current grab mode after we've ensure that it got updated.
        if set_mode {
            self.cursor_grab_mode.current_grab_mode = mode;
        }
        Ok(GrabPlan { release, apply })
    }

    /// Whether the cursor position can be set: the compositor must support
    /// pointer constraints and the cursor must be locked.
    pub fn check_cursor_position(&self, has_constraints: bool) -> (allowed: Result<(), CursorError>)
        ensures
            !has_constraints ==> allowed == Err::<(), CursorError>(CursorError::NotSupported),
            has_constraints && self.cursor_grab_mode.current_grab_mode != CursorGrabMode::Locked
                ==> allowed == Err::<(), CursorError>(CursorError::NotLocked),
            has_constraints && self.cursor_grab_mode.current_grab_mode == CursorGrabMode::Locked
                ==> allowed == Ok::<(), CursorError>(()),
    {
        if !has_constraints {
            return Err(CursorError::NotSupported);
        }
        // Position can be set only for locked cursor.
        match self.cursor_grab_mode.current_grab_mode {
            CursorGrabMode::Locked => Ok(()),
            _ => Err(CursorError::NotLocked),
        }
    }

    /// Set the visibility state of the cursor.
    pub fn set_cursor_visible(&mut self, cursor_visible: bool)
        ensures
            *final(self) == (WindowState { cursor_visible, ..*old(self) }),
    {
        self.cursor_visible = cursor_visible;
    }

    /// Allow or forbid IME input. `text_inputs` is how many text inputs are on
    /// the window; returns whether any took the request.
    pub fn set_ime_allowed(&mut self, allowed: bool, text_inputs: usize) -> (applied: bool)
        ensures
            applied == (text_inputs > 0),
            *final(self) == (WindowState { ime_allowed: allowed, ..*old(self) }),
    {
        self.ime_allowed = allowed;
        text_inputs > 0
    }

    /// Whether the IME is allowed.
    pub fn ime_allowed(&self) -> (allowed: bool)
        ensures
            allowed == self.ime_allowed,
    {
        self.ime_allowed
    }

    /// Set the IME purpose.
    pub fn set_ime_purpose(&mut self, purpose: ImePurpose)
        ensures
            *final(self) == (WindowState { ime_purpose: purpose, ..*old(self) }),
    {
        self.ime_purpose = purpose;
    }

    /// Get the IME purpose.
    pub fn ime_purpose(&self) -> (purpose: ImePurpose)
        ensures
            purpose == self.ime_purpose,
    {
        self.ime_purpose
    }

    /// Mark the window as transparent.
    pub fn set_transparent(&mut self, transparent: bool)
        ensures
            *final(self) == (WindowState { transparent, ..*old(self) }),
    {
        self.transparent = transparent;
    }

    /// Set the window title to a new value, truncated to at most 1024 bytes.
    pub fn set_title(&mut self, title: String)
        ensures
            encode_utf8(final(self).title@) == encode_utf8(title@).subrange(
                0,
                title_cut(encode_utf8(title@)),
            ),
            encode_utf8(title@).len() <= MAX_TITLE_BYTES ==> final(self).title@ == title@,
            *final(self) == (WindowState { title: final(self).title, ..*old(self) }),
    {
        self.title = truncate_title(title);
    }

    /// Get the cached title.
    pub fn title(&self) -> (title: &str)
        ensures
            title@ == self.title@,
    {
        self.title.as_str()
    }

    /// A click on the decorations asks to move the window; the move starts
    /// when the pointer next moves over the decorations.
    pub fn frame_move_requested(&mut self, serial: u32)
        ensures
            *final(self) == (WindowState { has_pending_move: Some(serial), ..*old(self) }),
    {
        self.has_pending_move = Some(serial);
    }

    /// The pointer moved; `over_decorations` tells whether the frame showed a
    /// cursor for it. The pending move serial is taken either way, so it does
    /// not stick around; returns it when the window is to be moved now.
    pub fn frame_point_moved(&mut self, over_decorations: bool) -> (move_serial: Option<u32>)
        ensures
            final(self).has_pending_move is None,
            move_serial == if over_decorations {
                old(self).has_pending_move
            } else {
                None
            },
            *final(self) == (WindowState { has_pending_move: None, ..*old(self) }),
    {
        let serial = self.has_pending_move.take();
        if over_decorations {
            serial
        } else {
            None
        }
    }

    /// Handle a click on the decorations: `click` is what the frame made of
    /// it, `None` when there is no frame or it asked for nothing. A move
    /// remembers `serial` until the pointer moves; nothing else changes the
    /// window here. Returns `None` when the click leads nowhere.
    pub fn frame_click(&mut self, click: Option<DecorationClick>, serial: u32) -> (step: Option<
        FrameClickStep,
    >)
        ensures
            step == frame_click_step(click),
            *final(self) == if step == Some(FrameClickStep::Move) {
                WindowState { has_pending_move: Some(serial), ..*old(self) }
            } else {
                *old(self)
            },
    {
        match click {
            None => None,
            Some(DecorationClick::Minimize) => Some(FrameClickStep::Minimize),
            Some(DecorationClick::Maximize) => Some(FrameClickStep::Maximize),
            Some(DecorationClick::UnMaximize) => Some(FrameClickStep::UnMaximize),
            Some(DecorationClick::Close) => Some(FrameClickStep::Close),
            Some(DecorationClick::Move) => {
                self.has_pending_move = Some(serial);
                Some(FrameClickStep::Move)
            },
            Some(DecorationClick::Resize(None)) => None,
            Some(DecorationClick::Resize(Some(edge))) => Some(FrameClickStep::Resize(edge)),
            Some(DecorationClick::ShowMenu(x, y)) => Some(FrameClickStep::ShowMenu(x, y)),
            Some(DecorationClick::Other) => Some(FrameClickStep::Nothing),
        }
    }

    /// The opaque region to announce: none for a transparent window, else
    /// the whole plane.
    pub fn opaque_region(&self) -> (region: Option<(i32, i32, i32, i32)>)
        ensures
            region == if self.transparent {
                None
            } else {
                Some((0i32, 0i32, i32::MAX, i32::MAX))
            },
    {
        if self.transparent {
            None
        } else {
            Some((0, 0, i32::MAX, i32::MAX))
        }
    }
}

/// The cursor rectangle handed to the text inputs for an IME cursor area,
/// each value reinterpreted as a signed 32-bit integer.
pub fn ime_cursor_rectangle(position: LogicalPosition, size: LogicalSize) -> (rect: (
    i32,
    i32,
    i32,
    i32,
))
    ensures
        rect == (position.x as i32, position.y as i32, size.width as i32, size.height as i32),
{
    (position.x as i32, position.y as i32, size.width as i32, size.height as i32)
}

/// What asking for cursor grab `mode` does to the grab state, and what the
/// pointers are put through. Without pointer constraints only `Free` is
/// accepted, and changes nothing. Otherwise the current grab is released
/// when there is one and a pointer to release it on; the new grab is applied
/// if there is a pointer for it, and only then becomes the current one. With
/// no pointer over the window a held grab stays until one re-appears.
pub open spec fn grab_step(
    grab: GrabState,
    mode: CursorGrabMode,
    has_constraints: bool,
    pointers: usize,
) -> (GrabState, Result<GrabPlan, CursorError>) {
    if !has_constraints {
        if mode == CursorGrabMode::Free {
            (grab, Ok(GrabPlan { release: None, apply: None }))
        } else {
            (grab, Err(CursorError::NotSupported))
        }
    } else {
        let current = grab.current_grab_mode;
        let release = if current != CursorGrabMode::Free && pointers > 0 {
            Some(current)
        } else {
            None
        };
        let unset_old = current == CursorGrabMode::Free || pointers > 0;
        if !unset_old {
            (grab, Ok(GrabPlan { release, apply: None }))
        } else {
            let set_mode = mode == CursorGrabMode::Free || pointers > 0;
            let apply = if mode != CursorGrabMode::Free && pointers > 0 {
                Some(mode)
            } else {
                None
            };
            (
                if set_mode {
                    GrabState { current_grab_mode: mode, ..grab }
                } else {
                    grab
                },
                Ok(GrabPlan { release, apply }),
            )
        }
    }
}

/// A configure repeated right after itself changes no size: the window is
/// resized at most once for it.
pub proof fn lemma_repeated_configure_does_not_resize(
    s: WindowState,
    cfg: Configure,
    initial: LogicalSize,
    borders: Option<FrameBorders>,
)
    ensures
        !configure_step(configure_step(s, cfg, initial, borders).0, cfg, initial, borders).1,
{
    let first = configure_step(s, cfg, initial, borders).0;
    assert((cfg.state ^ cfg.state) & !(STATE_ACTIVATED | STATE_SUSPENDED) == 0) by (bit_vector);
}


/// Each click the frame reports leads to the step of the same name, its
/// edge or menu position carried over; a resize from an edge the window
/// cannot name, or no click, leads nowhere. No two different clicks lead to
/// the same step.
pub proof fn lemma_frame_click_names_its_step(click: DecorationClick, other: DecorationClick)
    ensures
        frame_click_step(None) is None,
        click == DecorationClick::Minimize ==> frame_click_step(Some(click)) == Some(
            FrameClickStep::Minimize,
        ),
        click == DecorationClick::Maximize ==> frame_click_step(Some(click)) == Some(
            FrameClickStep::Maximize,
        ),
        click == DecorationClick::UnMaximize ==> frame_click_step(Some(click)) == Some(
            FrameClickStep::UnMaximize,
        ),
        click == DecorationClick::Close ==> frame_click_step(Some(click)) == Some(
            FrameClickStep::Close,
        ),
        click == DecorationClick::Move ==> frame_click_step(Some(click)) == Some(
            FrameClickStep::Move,
        ),
        click == DecorationClick::Other ==> frame_click_step(Some(click)) == Some(
            FrameClickStep::Nothing,
        ),
        forall|edge: ResizeEdge|
            click == DecorationClick::Resize(Some(edge)) ==> frame_click_step(Some(click)) == Some(
                FrameClickStep::Resize(edge),
            ),
        click == DecorationClick::Resize(None) ==> frame_click_step(Some(click)) is None,
        forall|x: i32, y: i32|
            click == DecorationClick::ShowMenu(x, y) ==> frame_click_step(Some(click)) == Some(
                FrameClickStep::ShowMenu(x, y),
            ),
        frame_click_step(Some(click)) is Some && frame_click_step(Some(click)) == frame_click_step(
            Some(other),
        ) ==> click == other,
{
}

/// A configure that names both dimensions sets the inner size to them,
/// less the frame's borders when there is a frame (never below 1), and the
/// suggested bounds play no part: a fullscreen or maximized window takes the
/// whole size it is given.
pub proof fn lemma_named_size_is_taken(
    s: WindowState,
    cfg: Configure,
    initial: LogicalSize,
    borders: Option<FrameBorders>,
)
    requires
        cfg.new_width is Some,
        cfg.new_height is Some,
    ensures
        ({
            let after = configure_step(s, cfg, initial, borders).0;
            let w = cfg.new_width.unwrap();
            let h = cfg.new_height.unwrap();
            &&& borders is None ==> after.size == (LogicalSize { width: w, height: h })
            &&& forall|b: FrameBorders|
                borders == Some(b) ==> after.size == (LogicalSize {
                    width: if w > b.width {
                        (w - b.width) as u32
                    } else {
                        1
                    },
                    height: if h > b.height {
                        (h - b.height) as u32
                    } else {
                        1
                    },
                })
        }),
{
}

/// A configure that leaves the size to the window keeps it within each
/// non-zero suggested bound (for a window without a frame).
pub proof fn lemma_chosen_size_within_bounds(
    s: WindowState,
    cfg: Configure,
    initial: LogicalSize,
    bound_w: u32,
    bound_h: u32,
)
    requires
        cfg.new_width is None || cfg.new_height is None,
        cfg.suggested_bounds == Some((bound_w, bound_h)),
    ensures
        ({
            let after = configure_step(s, cfg, initial, None).0;
            &&& bound_w > 0 ==> after.size.width <= bound_w
            &&& bound_h > 0 ==> after.size.height <= bound_h
        }),
{
}

/// With pointer constraints and a pointer over the window, a held grab is
/// always released before the requested mode is applied, whatever mode is
/// asked for; the requested mode is then applied (nothing to apply for
/// `Free`) and becomes the current one. With no pointer over the window a
/// held grab stays, nothing is done, and the request waits.
pub proof fn lemma_held_grab_released_first(
    grab: GrabState,
    mode: CursorGrabMode,
    pointers: usize,
)
    requires
        grab.current_grab_mode != CursorGrabMode::Free,
    ensures
        pointers > 0 ==> {
            &&& grab_step(grab, mode, true, pointers).1 == Ok::<GrabPlan, CursorError>(GrabPlan {
                release: Some(grab.current_grab_mode),
                apply: if mode == CursorGrabMode::Free {
                    None
                } else {
                    Some(mode)
                },
            })
            &&& grab_step(grab, mode, true, pointers).0.current_grab_mode == mode
            &&& grab_step(grab, mode, true, pointers).0.user_grab_mode == grab.user_grab_mode
        },
        pointers == 0 ==> grab_step(grab, mode, true, pointers) == (
            grab,
            Ok::<GrabPlan, CursorError>(GrabPlan { release: None, apply: None }),
        ),
{
}


/// With no grab held, a requested grab is applied at once when a pointer is
/// over the window and becomes the current one; with no pointer, `Free` is
/// taken and any other mode waits, nothing being applied. Without pointer
/// constraints only `Free` is accepted, and nothing changes.
pub proof fn lemma_grab_from_free(grab: GrabState, mode: CursorGrabMode, pointers: usize)
    requires
        grab.current_grab_mode == CursorGrabMode::Free,
    ensures
        grab_step(grab, mode, false, pointers) == (
            grab,
            if mode == CursorGrabMode::Free {
                Ok::<GrabPlan, CursorError>(GrabPlan { release: None, apply: None })
            } else {
                Err::<GrabPlan, CursorError>(CursorError::NotSupported)
            },
        ),
        grab_step(grab, mode, true, pointers).1 == Ok::<GrabPlan, CursorError>(GrabPlan {
            release: None,
            apply: if mode != CursorGrabMode::Free && pointers > 0 {
                Some(mode)
            } else {
                None
            },
        }),
        grab_step(grab, mode, true, pointers).0.current_grab_mode == if mode
            == CursorGrabMode::Free || pointers > 0 {
            mode
        } else {
            CursorGrabMode::Free
        },
        grab_step(grab, mode, true, pointers).0.user_grab_mode == grab.user_grab_mode,
{
}

} // verus!
