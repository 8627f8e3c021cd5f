//! Keyboard focus and key repeat.
//!
//! The compositor's keyboard events are decided on here: which surface
//! holds the focus, what focus events each surface is told, when modifiers
//! are held back, and when the key-repeat timer runs. Processing a key
//! through the keymap, and the timer itself, belong to the caller.

use vstd::prelude::*;

use crate::ids::WindowId;
use crate::window::WindowState;
use crate::popup::PopupId;

verus! {

/// The keyboard modifiers held, as bit flags.
#[derive(Debug, Clone, Copy, PartialEq, Eq, Hash, Structural)]
pub struct ModifiersState(pub u32);

impl ModifiersState {
    /// The shift key held.
    pub fn shift() -> (mods: Self)
        ensures
            mods.0 == 4,
    {
        ModifiersState(4)
    }

    /// The control key held.
    pub fn control() -> (mods: Self)
        ensures
            mods.0 == 32,
    {
        ModifiersState(32)
    }

    /// The alt key held.
    pub fn alt() -> (mods: Self)
        ensures
            mods.0 == 256,
    {
        ModifiersState(256)
    }

    /// The super key held.
    pub fn super_key() -> (mods: Self)
        ensures
            mods.0 == 2048,
    {
        ModifiersState(2048)
    }

    /// No modifier held.
    pub fn empty() -> (mods: Self)
        ensures
            mods.0 == 0,
    {
        ModifiersState(0)
    }
}

/// A focus event as a surface receives it.
#[derive(Debug, Clone, Copy, PartialEq, Eq, Structural)]
pub enum FocusEvent {
    /// The surface gained (`true`) or lost (`false`) keyboard focus.
    Focused(bool),
    /// The held modifiers changed.
    ModifiersChanged(ModifiersState),
}

/// The surface holding keyboard focus.
#[derive(Debug, Clone, Copy, PartialEq, Eq, Structural)]
pub enum KeyboardFocus {
    Window(WindowId),
    Popup(PopupId),
}

impl KeyboardFocus {
    /// Queues `event` for this surface. Returns whether it went to a popup: only the window
    /// queue counts as dispatched events for the event source.
    pub fn push<E>(self, event: E, windows: &mut Vec<(WindowId, E)>, popups: &mut Vec<(PopupId, E)>) -> (to_popup: bool)
        ensures
            to_popup == (self is Popup),
            match self {
                KeyboardFocus::Window(id) => {
                    &&& final(windows)@ == old(windows)@.push((id, event))
                    &&& final(popups)@ == old(popups)@
                },
                KeyboardFocus::Popup(id) => {
                    &&& final(popups)@ == old(popups)@.push((id, event))
                    &&& final(windows)@ == old(windows)@
                },
            },
    {
        match self {
            KeyboardFocus::Window(window_id) => {
                windows.push((window_id, event));
                false
            },
            KeyboardFocus::Popup(id) => {
                popups.push((id, event));
                true
            },
        }
    }
}

/// Takes the focus if a popup holds it, whatever surface the leave names.
pub fn take_popup_focus(focus: &mut Option<KeyboardFocus>) -> (taken: Option<PopupId>)
    ensures
        match *old(focus) {
            Some(KeyboardFocus::Popup(id)) => taken == Some(id) && *final(focus) == None::<
                KeyboardFocus,
            >,
            _ => taken == None::<PopupId> && *final(focus) == *old(focus),
        },
{
    match *focus {
        Some(KeyboardFocus::Popup(id)) => {
            *focus = None;
            Some(id)
        },
        _ => None,
    }
}

/// The events a popup reports on taking keyboard focus.
pub open spec fn spec_popup_enter_events(id: PopupId, pending: Option<ModifiersState>) -> Seq<
    (PopupId, FocusEvent),
> {
    match pending {
        Some(mods) => seq![(id, FocusEvent::Focused(true)), (id, FocusEvent::ModifiersChanged(mods))],
        None => seq![(id, FocusEvent::Focused(true))],
    }
}

/// What a popup reports taking keyboard focus: always focused, since a popup's enter can't
/// repeat, then the modifiers held back while nothing had focus.
pub fn popup_enter_events(id: PopupId, pending: Option<ModifiersState>) -> (events: Vec<
    (PopupId, FocusEvent),
>)
    ensures
        events@ == spec_popup_enter_events(id, pending),
{
    let mut events: Vec<(PopupId, FocusEvent)> = Vec::new();
    events.push((id, FocusEvent::Focused(true)));
    if let Some(modifiers) = pending {
        events.push((id, FocusEvent::ModifiersChanged(modifiers)));
    }
    proof {
        match pending {
            Some(mods) => {
                assert(events@ =~= seq![
                    (id, FocusEvent::Focused(true)),
                    (id, FocusEvent::ModifiersChanged(mods)),
                ]);
            },
            None => {
                assert(events@ =~= seq![(id, FocusEvent::Focused(true))]);
            },
        }
    }
    events
}

/// What a popup reports losing keyboard focus, in the order a window does.
pub fn popup_leave_events(id: PopupId) -> (events: [(PopupId, FocusEvent); 2])
    ensures
        events@ == seq![
            (id, FocusEvent::ModifiersChanged(ModifiersState(0))),
            (id, FocusEvent::Focused(false)),
        ],
{
    let events = [
        (id, FocusEvent::ModifiersChanged(ModifiersState::empty())),
        (id, FocusEvent::Focused(false)),
    ];
    assert(events@ =~= seq![
        (id, FocusEvent::ModifiersChanged(ModifiersState(0))),
        (id, FocusEvent::Focused(false)),
    ]);
    events
}

/// The rate at which a pressed key is repeated.
#[derive(Debug, Clone, Copy, PartialEq, Eq, Structural)]
pub enum RepeatInfo {
    /// Keys are repeated every `gap_us` microseconds, starting `delay_ms`
    /// milliseconds after the press.
    Repeat {
        /// The time between the key repeats, in microseconds.
        gap_us: u64,
        /// Delay between a key press and the start of repetition, in milliseconds.
        delay_ms: u64,
    },
    /// Keys should not be repeated.
    Disable,
}

impl Default for RepeatInfo {
    /// The default repeat rate is 25 keys per second with the delay of 200ms.
    ///
    /// The values are picked based on the default in various compositors and Xorg.
    fn default() -> (info: Self)
        ensures
            info == (RepeatInfo::Repeat { gap_us: 40_000, delay_ms: 200 }),
    {
        RepeatInfo::Repeat { gap_us: 40_000, delay_ms: 200 }
    }
}

/// The repeat a compositor's `repeat_info(rate, delay)` asks for: none at rate
/// 0, otherwise one key every `1 / rate` seconds after `delay` milliseconds.
/// Both values are widened the way a cast to `u64` widens them.
pub open spec fn repeat_info_from(rate: i32, delay: i32) -> RepeatInfo {
    if rate == 0 {
        RepeatInfo::Disable
    } else {
        RepeatInfo::Repeat { gap_us: (1_000_000u64 / (rate as u64)) as u64, delay_ms: delay as u64 }
    }
}

/// The key-repeat state of a keyboard.
#[derive(Debug, Clone, Copy, PartialEq, Eq, Structural)]
pub struct KeyboardState {
    /// The information about the repeat rate obtained from the compositor.
    pub repeat_info: RepeatInfo,
    /// The current repeat raw key.
    pub current_repeat: Option<u32>,
}

impl KeyboardState {
    /// A keyboard with the default repeat rate and no key repeating.
    pub fn new() -> (state: Self)
        ensures
            state.repeat_info == (RepeatInfo::Repeat { gap_us: 40_000, delay_ms: 200 }),
            state.current_repeat == None::<u32>,
    {
        KeyboardState { repeat_info: RepeatInfo::default(), current_repeat: None }
    }
}

/// The keyboard of one seat: who has focus, the modifiers, and the repeat.
#[derive(Debug, Clone, Copy, PartialEq, Eq, Structural)]
pub struct KeyboardSession {
    /// The currently focused surface. Could be `None` on compositors that
    /// send events out of order.
    pub focus: Option<KeyboardFocus>,
    /// The modifiers last reported by the compositor.
    pub modifiers: ModifiersState,
    /// Modifiers changed while nothing had focus; the next enter reports them.
    pub modifiers_pending: bool,
    /// The key-repeat state.
    pub keyboard: KeyboardState,
}

/// What a key press or release asks of the caller.
#[derive(Debug, Clone, Copy, PartialEq, Eq, Structural)]
pub struct KeyStep {
    /// The surface the key goes to, after the keymap has processed it.
    pub deliver_to: Option<KeyboardFocus>,
    /// The keycode to process (the raw key offset into the keymap's range).
    pub keycode: u32,
    /// Stop the running repeat timer, if there is one.
    pub cancel_timer: bool,
    /// Start a repeat timer that fires after this many milliseconds.
    pub start_timer_ms: Option<u64>,
}

/// What a firing repeat timer asks of the caller.
#[derive(Debug, Clone, Copy, PartialEq, Eq, Structural)]
pub struct RepeatTick {
    /// The repeated key; `None` when nothing repeats.
    pub key: Option<u32>,
    /// The surface the repeated key goes to.
    pub deliver_to: Option<KeyboardFocus>,
    /// Fire again after this many microseconds; `None` drops the timer.
    pub next_gap_us: Option<u64>,
}

/// The modifiers an enter reports: those held back while nothing had focus.
pub open spec fn pending_modifiers(session: KeyboardSession) -> Option<ModifiersState> {
    if session.modifiers_pending {
        Some(session.modifiers)
    } else {
        None
    }
}

/// `session` after its focus moved to `focus`: the repeat is dropped and the
/// held-back modifiers are handed out.
pub open spec fn focused_on(session: KeyboardSession, focus: KeyboardFocus) -> KeyboardSession {
    KeyboardSession {
        focus: Some(focus),
        modifiers: session.modifiers,
        modifiers_pending: false,
        keyboard: KeyboardState {
            repeat_info: session.keyboard.repeat_info,
            current_repeat: None,
        },
    }
}

/// The events a window reports on taking keyboard focus.
pub open spec fn window_enter_events(
    session: KeyboardSession,
    window: WindowId,
    was_unfocused: bool,
) -> Seq<(WindowId, FocusEvent)> {
    let focused: Seq<(WindowId, FocusEvent)> = if was_unfocused {
        seq![(window, FocusEvent::Focused(true))]
    } else {
        Seq::empty()
    };
    match pending_modifiers(session) {
        Some(mods) => focused.push((window, FocusEvent::ModifiersChanged(mods))),
        None => focused,
    }
}

/// The events a window reports on losing the keyboard focus of one seat.
pub open spec fn window_leave_events(window: WindowId, still_focused: bool) -> Seq<
    (WindowId, FocusEvent),
> {
    if still_focused {
        Seq::empty()
    } else {
        seq![
            (window, FocusEvent::ModifiersChanged(ModifiersState(0))),
            (window, FocusEvent::Focused(false)),
        ]
    }
}

/// What a key press or release decides.
pub open spec fn key_step(session: KeyboardSession, keycode: u32, pressed: bool, repeats: bool) -> (
    KeyboardSession,
    KeyStep,
) {
    let info = session.keyboard.repeat_info;
    let starts = pressed && info != RepeatInfo::Disable && repeats;
    let stops = !pressed && info != RepeatInfo::Disable && repeats && session.keyboard.current_repeat
        == Some(keycode);
    let next_repeat = if starts {
        Some(keycode)
    } else if stops {
        None
    } else {
        session.keyboard.current_repeat
    };
    let start_ms = match info {
        RepeatInfo::Repeat { gap_us, delay_ms } => if starts {
            Some(delay_ms)
        } else {
            None
        },
        RepeatInfo::Disable => None,
    };
    (
        KeyboardSession {
            keyboard: KeyboardState { repeat_info: info, current_repeat: next_repeat },
            ..session
        },
        KeyStep {
            deliver_to: session.focus,
            keycode,
            cancel_timer: starts || stops,
            start_timer_ms: start_ms,
        },
    )
}

impl KeyboardSession {
    /// A seat keyboard with nothing focused and nothing held.
    pub fn new() -> (session: Self)
        ensures
            session.focus == None::<KeyboardFocus>,
            session.modifiers == ModifiersState(0),
            !session.modifiers_pending,
            session.keyboard.repeat_info == (RepeatInfo::Repeat { gap_us: 40_000, delay_ms: 200 }),
            session.keyboard.current_repeat == None::<u32>,
    {
        KeyboardSession {
            focus: None,
            modifiers: ModifiersState::empty(),
            modifiers_pending: false,
            keyboard: KeyboardState::new(),
        }
    }

    /// A popup took keyboard focus, like a grabbing menu. Returns the events the
    /// popup reports; the caller stops any repeat timer.
    pub fn enter_popup(&mut self, id: PopupId) -> (events: Vec<(PopupId, FocusEvent)>)
        ensures
            *final(self) == focused_on(*old(self), KeyboardFocus::Popup(id)),
            events@ == spec_popup_enter_events(id, pending_modifiers(*old(self))),
    {
        self.keyboard.current_repeat = None;
        self.focus = Some(KeyboardFocus::Popup(id));
        let pending = if self.modifiers_pending {
            Some(self.modifiers)
        } else {
            None
        };
        self.modifiers_pending = false;
        popup_enter_events(id, pending)
    }

    /// A known window took keyboard focus; `was_unfocused` tells whether no
    /// seat had focused it before. Returns the events the window reports; the
    /// caller stops any repeat timer.
    pub fn enter_window(&mut self, window: WindowId, was_unfocused: bool) -> (events: Vec<
        (WindowId, FocusEvent),
    >)
        ensures
            *final(self) == focused_on(*old(self), KeyboardFocus::Window(window)),
            events@ == window_enter_events(*old(self), window, was_unfocused),
    {
        let ghost before = *self;
        self.keyboard.current_repeat = None;
        self.focus = Some(KeyboardFocus::Window(window));
        let mut events: Vec<(WindowId, FocusEvent)> = Vec::new();
        // The keyboard focus is considered as general focus.
        if was_unfocused {
            events.push((window, FocusEvent::Focused(true)));
        }
        if self.modifiers_pending {
            self.modifiers_pending = false;
            events.push((window, FocusEvent::ModifiersChanged(self.modifiers)));
        }
        proof {
            let focused: Seq<(WindowId, FocusEvent)> = if was_unfocused {
                seq![(window, FocusEvent::Focused(true))]
            } else {
                Seq::empty()
            };
            if was_unfocused {
                if before.modifiers_pending {
                    assert(events@ =~= focused.push(
                        (window, FocusEvent::ModifiersChanged(before.modifiers)),
                    ));
                } else {
                    assert(events@ =~= focused);
                }
            } else {
                if before.modifiers_pending {
                    assert(events@ =~= focused.push(
                        (window, FocusEvent::ModifiersChanged(before.modifiers)),
                    ));
                } else {
                    assert(events@ =~= focused);
                }
            }
        }
        events
    }

    /// The seat's keyboard left a surface. The repeat is dropped either way.
    /// If a popup held the focus, the focus is cleared and the popup's leave
    /// events are returned; otherwise the caller goes on with the window the
    /// leave names (see [`KeyboardSession::leave_window`]).
    pub fn leave(&mut self) -> (popup_events: Option<[(PopupId, FocusEvent); 2]>)
        ensures
            final(self).keyboard.current_repeat == None::<u32>,
            final(self).keyboard.repeat_info == old(self).keyboard.repeat_info,
            final(self).modifiers == old(self).modifiers,
            final(self).modifiers_pending == old(self).modifiers_pending,
            match old(self).focus {
                Some(KeyboardFocus::Popup(id)) => {
                    &&& final(self).focus == None::<KeyboardFocus>
                    &&& popup_events matches Some(events) && events@ == seq![
                        (id, FocusEvent::ModifiersChanged(ModifiersState(0))),
                        (id, FocusEvent::Focused(false)),
                    ]
                },
                _ => {
                    &&& final(self).focus == old(self).focus
                    &&& popup_events is None
                },
            },
    {
        self.keyboard.current_repeat = None;
        match take_popup_focus(&mut self.focus) {
            Some(id) => Some(popup_leave_events(id)),
            None => None,
        }
    }

    /// The keyboard left a known window, which `still_focused` tells is still
    /// focused by another seat. Returns the events the window reports.
    pub fn leave_window(&mut self, window: WindowId, still_focused: bool) -> (events: Vec<
        (WindowId, FocusEvent),
    >)
        ensures
            final(self).focus == None::<KeyboardFocus>,
            final(self).keyboard == old(self).keyboard,
            final(self).modifiers == old(self).modifiers,
            final(self).modifiers_pending == old(self).modifiers_pending,
            events@ == window_leave_events(window, still_focused),
    {
        self.focus = None;
        let mut events: Vec<(WindowId, FocusEvent)> = Vec::new();
        if !still_focused {
            // Notify that no modifiers are being pressed.
            events.push((window, FocusEvent::ModifiersChanged(ModifiersState::empty())));
            events.push((window, FocusEvent::Focused(false)));
        }
        proof {
            if still_focused {
                assert(events@ =~= Seq::<(WindowId, FocusEvent)>::empty());
            } else {
                assert(events@ =~= seq![
                    (window, FocusEvent::ModifiersChanged(ModifiersState(0))),
                    (window, FocusEvent::Focused(false)),
                ]);
            }
        }
        events
    }

    /// A key went down (`pressed`) or up. `raw_key` is the compositor's key
    /// code and `repeats` whether the keymap repeats that key.
    pub fn key(&mut self, raw_key: u32, pressed: bool, repeats: bool) -> (step: KeyStep)
        requires
            raw_key <= u32::MAX - 8,
        ensures
            (*final(self), step) == key_step(*old(self), (raw_key + 8) as u32, pressed, repeats),
    {
        let key = raw_key + 8;
        let info = self.keyboard.repeat_info;
        let enabled = match info {
            RepeatInfo::Disable => false,
            RepeatInfo::Repeat { .. } => true,
        };
        let mut cancel_timer = false;
        let mut start_timer_ms: Option<u64> = None;
        if pressed {
            if enabled && repeats {
                self.keyboard.current_repeat = Some(key);
                cancel_timer = true;
                if let RepeatInfo::Repeat { delay_ms, .. } = info {
                    start_timer_ms = Some(delay_ms);
                }
            }
        } else {
            let is_current = match self.keyboard.current_repeat {
                Some(current) => current == key,
                None => false,
            };
            if enabled && repeats && is_current {
                self.keyboard.current_repeat = None;
                cancel_timer = true;
            }
        }
        KeyStep { deliver_to: self.focus, keycode: key, cancel_timer, start_timer_ms }
    }

    /// The compositor reported new modifiers. With a surface focused they go to
    /// it; with none they are held back for the next enter.
    pub fn modifiers_changed(&mut self, mods: ModifiersState) -> (event: Option<
        (KeyboardFocus, FocusEvent),
    >)
        ensures
            final(self).modifiers == mods,
            final(self).focus == old(self).focus,
            final(self).keyboard == old(self).keyboard,
            match old(self).focus {
                Some(focus) => {
                    &&& event == Some((focus, FocusEvent::ModifiersChanged(mods)))
                    &&& final(self).modifiers_pending == old(self).modifiers_pending
                },
                None => event is None && final(self).modifiers_pending,
            },
    {
        self.modifiers = mods;
        match self.focus {
            Some(focus) => Some((focus, FocusEvent::ModifiersChanged(mods))),
            None => {
                self.modifiers_pending = true;
                None
            },
        }
    }

    /// The compositor reported its repeat rate (keys per second) and delay
    /// (milliseconds). Returns whether the caller stops the repeat timer, which
    /// happens when repetition is switched off.
    pub fn repeat_info_changed(&mut self, rate: i32, delay: i32) -> (cancel_timer: bool)
        ensures
            final(self).keyboard.repeat_info == repeat_info_from(rate, delay),
            cancel_timer == (rate == 0),
            final(self).keyboard.current_repeat == if rate == 0 {
                None
            } else {
                old(self).keyboard.current_repeat
            },
            final(self).focus == old(self).focus,
            final(self).modifiers == old(self).modifiers,
            final(self).modifiers_pending == old(self).modifiers_pending,
    {
        if rate == 0 {
            // Stop the repeat once we get a disable event.
            self.keyboard.current_repeat = None;
            self.keyboard.repeat_info = RepeatInfo::Disable;
            true
        } else {
            let divisor = rate as u64;
            assert(divisor != 0) by (bit_vector)
                requires
                    rate != 0i32,
                    divisor == rate as u64,
            ;
            let gap_us = 1_000_000u64 / divisor;
            self.keyboard.repeat_info = RepeatInfo::Repeat { gap_us, delay_ms: delay as u64 };
            false
        }
    }

    /// The repeat timer fired: the key that repeats, if any, goes again, and
    /// the timer is rearmed with the current gap unless repetition is off.
    pub fn repeat_fired(&self) -> (tick: RepeatTick)
        ensures
            match self.keyboard.current_repeat {
                None => tick.key is None && tick.next_gap_us is None,
                Some(key) => {
                    &&& tick.key == Some(key)
                    &&& tick.deliver_to == self.focus
                    &&& tick.next_gap_us == match self.keyboard.repeat_info {
                        RepeatInfo::Repeat { gap_us, .. } => Some(gap_us),
                        RepeatInfo::Disable => None,
                    }
                },
            },
    {
        match self.keyboard.current_repeat {
            None => RepeatTick { key: None, deliver_to: None, next_gap_us: None },
            Some(key) => {
                // The gap could change while the repeat is going.
                let next_gap_us = match self.keyboard.repeat_info {
                    RepeatInfo::Repeat { gap_us, .. } => Some(gap_us),
                    RepeatInfo::Disable => None,
                };
                RepeatTick { key: Some(key), deliver_to: self.focus, next_gap_us }
            },
        }
    }
}

/// A seat's keyboard `seat` entered `window`, whose state is `window_state`.
/// The window counts the seat among those focusing it, and reports gaining
/// focus only when no seat focused it before. Returns the events the window
/// reports; the caller stops any repeat timer.
pub fn keyboard_entered_window(
    session: &mut KeyboardSession,
    window_state: &mut WindowState,
    window: WindowId,
    seat: u32,
) -> (events: Vec<(WindowId, FocusEvent)>)
    ensures
        final(window_state).seat_focus@ == old(window_state).seat_focus@.insert(seat),
        *final(window_state) == (WindowState {
            seat_focus: final(window_state).seat_focus,
            ..*old(window_state)
        }),
        *final(session) == focused_on(*old(session), KeyboardFocus::Window(window)),
        events@ == window_enter_events(
            *old(session),
            window,
            old(window_state).seat_focus@.is_empty(),
        ),
        (events@.len() > 0 && events@[0] == (window, FocusEvent::Focused(true)))
            <==> old(window_state).seat_focus@.is_empty(),
{
    let was_unfocused = !window_state.has_focus();
    window_state.add_seat_focus(seat);
    let events = session.enter_window(window, was_unfocused);
    proof {
        if !was_unfocused {
            if events@.len() > 0 {
                assert(events@[0] == (window, FocusEvent::ModifiersChanged(old(session).modifiers)));
            }
        }
    }
    events
}

/// A seat's keyboard `seat` left `window`, whose state is `window_state`,
/// after [`KeyboardSession::leave`] found no popup holding the focus. The
/// seat no longer focuses the window, and the window reports losing focus,
/// with no modifiers held, exactly when no seat focuses it any more.
pub fn keyboard_left_window(
    session: &mut KeyboardSession,
    window_state: &mut WindowState,
    window: WindowId,
    seat: u32,
) -> (events: Vec<(WindowId, FocusEvent)>)
    ensures
        final(window_state).seat_focus@ == old(window_state).seat_focus@.remove(seat),
        *final(window_state) == (WindowState {
            seat_focus: final(window_state).seat_focus,
            ..*old(window_state)
        }),
        final(session).focus == None::<KeyboardFocus>,
        final(session).keyboard == old(session).keyboard,
        final(session).modifiers == old(session).modifiers,
        final(session).modifiers_pending == old(session).modifiers_pending,
        events@ == window_leave_events(window, !final(window_state).seat_focus@.is_empty()),
        events@.len() > 0 <==> old(window_state).seat_focus@.remove(seat).is_empty(),
{
    window_state.remove_seat_focus(seat);
    let still_focused = window_state.has_focus();
    session.leave_window(window, still_focused)
}

/// Modifiers that change while no surface has focus reach the next surface
/// to take it, right after its focus event; the hold is then cleared.
pub proof fn lemma_held_modifiers_reach_next_focus(
    session: KeyboardSession,
    mods: ModifiersState,
    window: WindowId,
    popup: PopupId,
)
    requires
        session.focus is None,
    ensures
        ({
            let held = KeyboardSession { modifiers: mods, modifiers_pending: true, ..session };
            &&& window_enter_events(held, window, true) == seq![
                (window, FocusEvent::Focused(true)),
                (window, FocusEvent::ModifiersChanged(mods)),
            ]
            &&& spec_popup_enter_events(popup, pending_modifiers(held)) == seq![
                (popup, FocusEvent::Focused(true)),
                (popup, FocusEvent::ModifiersChanged(mods)),
            ]
            &&& !focused_on(held, KeyboardFocus::Window(window)).modifiers_pending
        }),
{
    let held = KeyboardSession { modifiers: mods, modifiers_pending: true, ..session };
    assert(window_enter_events(held, window, true) =~= seq![
        (window, FocusEvent::Focused(true)),
        (window, FocusEvent::ModifiersChanged(mods)),
    ]);
}

/// Pressing a key that repeats and then releasing it leaves nothing
/// repeating, and the release stops the timer the press started.
pub proof fn lemma_release_stops_repeat(session: KeyboardSession, keycode: u32)
    requires
        session.keyboard.repeat_info != RepeatInfo::Disable,
    ensures
        ({
            let (pressed, press) = key_step(session, keycode, true, true);
            let (released, release) = key_step(pressed, keycode, false, true);
            &&& press.start_timer_ms is Some
            &&& pressed.keyboard.current_repeat == Some(keycode)
            &&& release.cancel_timer
            &&& released.keyboard.current_repeat == None::<u32>
        }),
{
}


/// The repeating key changes only through its own press and release: a
/// press of a key that repeats, with repetition on, makes it the repeating
/// key and starts the timer after the delay; any other press leaves the
/// repeat and the timer as they are; the release of the repeating key (when
/// it repeats and repetition is on) stops both; any other release leaves
/// them. The key always goes to the focused surface, and nothing else of the
/// session changes.
pub proof fn lemma_repeat_follows_its_own_key(
    session: KeyboardSession,
    keycode: u32,
    pressed: bool,
    repeats: bool,
)
    ensures
        ({
            let (after, step) = key_step(session, keycode, pressed, repeats);
            let on = session.keyboard.repeat_info != RepeatInfo::Disable;
            let current = session.keyboard.current_repeat;
            &&& step.deliver_to == session.focus
            &&& step.keycode == keycode
            &&& after.focus == session.focus
            &&& after.modifiers == session.modifiers
            &&& after.modifiers_pending == session.modifiers_pending
            &&& after.keyboard.repeat_info == session.keyboard.repeat_info
            &&& (pressed && on && repeats) ==> {
                &&& after.keyboard.current_repeat == Some(keycode)
                &&& step.cancel_timer
                &&& forall|gap: u64, delay: u64|
                    session.keyboard.repeat_info == (RepeatInfo::Repeat { gap_us: gap, delay_ms: delay })
                        ==> step.start_timer_ms == Some(delay)
            }
            &&& (pressed && !(on && repeats)) ==> {
                &&& after.keyboard.current_repeat == current
                &&& !step.cancel_timer
                &&& step.start_timer_ms is None
            }
            &&& (!pressed && on && repeats && current == Some(keycode)) ==> {
                &&& after.keyboard.current_repeat is None
                &&& step.cancel_timer
                &&& step.start_timer_ms is None
            }
            &&& (!pressed && !(on && repeats && current == Some(keycode))) ==> {
                &&& after.keyboard.current_repeat == current
                &&& !step.cancel_timer
                &&& step.start_timer_ms is None
            }
        }),
{
}

} // verus!
