//! State kept for the compositor extension protocols a window may use:
//! voice input, exclusive mode, the special action key, embedded foreign
//! toplevels, imported foreign parents and compositor-placed tooltips.
//!
//! The protocol objects deliver events into these values; the window drains
//! them on its own schedule.

use vstd::prelude::*;

verus! {

/// Where the compositor shows the voice input orb.
#[derive(Debug, Clone, Copy, PartialEq, Eq, Structural)]
pub enum OrbState {
    /// Not visible.
    Hidden,
    /// Floating; the default receiver is active.
    Floating,
    /// Attached to a window.
    Attached,
    /// Frozen in place while the input is processed.
    Frozen,
    /// Moving towards a window; cannot be interrupted.
    Transitioning,
}

/// The orb state a wire value stands for; unknown values mean hidden.
pub open spec fn orb_from_code(value: u32) -> OrbState {
    if value == 1 {
        OrbState::Floating
    } else if value == 2 {
        OrbState::Attached
    } else if value == 3 {
        OrbState::Frozen
    } else if value == 4 {
        OrbState::Transitioning
    } else {
        OrbState::Hidden
    }
}

impl From<u32> for OrbState {
    fn from(value: u32) -> (state: Self)
        ensures
            state == orb_from_code(value),
    {
        match value {
            1 => OrbState::Floating,
            2 => OrbState::Attached,
            3 => OrbState::Frozen,
            4 => OrbState::Transitioning,
            _ => OrbState::Hidden,
        }
    }
}

impl vstd::std_specs::convert::FromSpecImpl<u32> for OrbState {
    open spec fn obeys_from_spec() -> bool {
        true
    }

    open spec fn from_spec(v: u32) -> OrbState {
        orb_from_code(v)
    }
}

/// An event of a voice input receiver.
#[derive(Debug, Clone, Copy, PartialEq, Eq, Structural)]
pub enum VoiceModeEvent {
    /// Voice input started, with the orb shown as given.
    Start { orb_state: OrbState },
    /// Voice input stopped normally.
    Stop,
    /// Voice input was cancelled.
    Cancel,
    /// The orb attached to this receiver's window, at the given rectangle.
    OrbAttached { x: i32, y: i32, width: i32, height: i32 },
    /// The orb left this receiver's window.
    OrbDetached,
    /// Voice input is about to stop; the serial is to be acknowledged.
    WillStop { serial: u32 },
}

/// What a voice input receiver has been told and not yet handed on.
pub struct VoiceModeState {
    /// Events in the order they came.
    pub events: Vec<VoiceModeEvent>,
    /// Whether this receiver is the fallback for unfocused input.
    pub is_default: bool,
}

impl VoiceModeState {
    /// A receiver with nothing queued.
    pub fn new(is_default: bool) -> (state: Self)
        ensures
            state.events@ == Seq::<VoiceModeEvent>::empty(),
            state.is_default == is_default,
    {
        VoiceModeState { events: Vec::new(), is_default }
    }

    /// Hand out everything queued, oldest first, leaving the queue empty.
    pub fn take_events(&mut self) -> (taken: Vec<VoiceModeEvent>)
        ensures
            taken@ == old(self).events@,
            final(self).events@ == Seq::<VoiceModeEvent>::empty(),
            final(self).is_default == old(self).is_default,
    {
        let mut taken: Vec<VoiceModeEvent> = Vec::new();
        std::mem::swap(&mut taken, &mut self.events);
        taken
    }

    /// Queue an event behind those already there.
    pub fn push_event(&mut self, event: VoiceModeEvent)
        ensures
            final(self).events@ == old(self).events@.push(event),
            final(self).is_default == old(self).is_default,
    {
        self.events.push(event);
    }
}

/// What the compositor reports about an exclusive mode request.
#[derive(Debug, Clone, Copy, PartialEq, Eq, Structural)]
pub enum ExclusiveModeEvent {
    /// Exclusive mode is on; `count` other windows were minimized.
    Enabled { count: u32 },
    /// Exclusive mode is off; `count` windows were restored.
    Disabled { count: u32 },
    /// The request was refused.
    Failed,
}

/// The last known exclusive mode of a window.
#[derive(Debug, Clone, Copy, PartialEq, Eq, Structural)]
pub struct ExclusiveModeState {
    /// Whether exclusive mode is on.
    pub enabled: bool,
    /// How many windows the last change affected.
    pub affected_count: u32,
    /// Whether the last request failed.
    pub failed: bool,
}

/// The state after an event: a change of mode records its count and clears
/// the failure; a failure keeps the mode and the count.
pub open spec fn exclusive_after(
    state: ExclusiveModeState,
    event: ExclusiveModeEvent,
) -> ExclusiveModeState {
    match event {
        ExclusiveModeEvent::Enabled { count } => ExclusiveModeState {
            enabled: true,
            affected_count: count,
            failed: false,
        },
        ExclusiveModeEvent::Disabled { count } => ExclusiveModeState {
            enabled: false,
            affected_count: count,
            failed: false,
        },
        ExclusiveModeEvent::Failed => ExclusiveModeState { failed: true, ..state },
    }
}

impl ExclusiveModeState {
    /// Off, nothing affected, nothing failed.
    pub fn new() -> (state: Self)
        ensures
            !state.enabled,
            state.affected_count == 0,
            !state.failed,
    {
        ExclusiveModeState { enabled: false, affected_count: 0, failed: false }
    }

    /// Record what the compositor reported.
    pub fn apply(&mut self, event: ExclusiveModeEvent)
        ensures
            *final(self) == exclusive_after(*old(self), event),
    {
        match event {
            ExclusiveModeEvent::Enabled { count } => {
                self.enabled = true;
                self.affected_count = count;
                self.failed = false;
            },
            ExclusiveModeEvent::Disabled { count } => {
                self.enabled = false;
                self.affected_count = count;
                self.failed = false;
            },
            ExclusiveModeEvent::Failed => {
                self.failed = true;
            },
        }
    }

    /// Whether exclusive mode is on.
    pub fn is_enabled(&self) -> (enabled: bool)
        ensures
            enabled == self.enabled,
    {
        self.enabled
    }

    /// How many windows the last change affected.
    pub fn affected_count(&self) -> (count: u32)
        ensures
            count == self.affected_count,
    {
        self.affected_count
    }

    /// Whether the last request failed.
    pub fn has_failed(&self) -> (failed: bool)
        ensures
            failed == self.failed,
    {
        self.failed
    }
}

impl Default for ExclusiveModeState {
    fn default() -> (state: Self)
        ensures
            !state.enabled,
            state.affected_count == 0,
            !state.failed,
    {
        ExclusiveModeState::new()
    }
}

/// Whether a window's exclusive mode is on: off until it has asked for one
/// and the compositor has enabled it.
pub fn is_exclusive_mode(state: Option<ExclusiveModeState>) -> (on: bool)
    ensures
        on == match state {
            Some(s) => s.enabled,
            None => false,
        },
{
    match state {
        Some(s) => s.enabled,
        None => false,
    }
}

/// What the special key meant, as the compositor resolved it.
#[derive(Debug, Clone, Copy, PartialEq, Eq, Structural)]
pub enum SpecialActionEvent {
    /// A tap.
    Activate,
    /// A hold began.
    HoldStart,
    /// The hold ended.
    HoldEnd,
    /// The gesture was cancelled.
    Cancel,
}

/// Special key events queued for one receiver.
pub struct SpecialActionState {
    events: Vec<SpecialActionEvent>,
}

impl SpecialActionState {
    /// The queued events, oldest first.
    pub closed spec fn pending(&self) -> Seq<SpecialActionEvent> {
        self.events@
    }

    /// Nothing queued.
    pub fn new() -> (state: Self)
        ensures
            state.pending() == Seq::<SpecialActionEvent>::empty(),
    {
        SpecialActionState { events: Vec::new() }
    }

    /// Hand out everything queued, oldest first, leaving the queue empty.
    pub fn take_events(&mut self) -> (taken: Vec<SpecialActionEvent>)
        ensures
            taken@ == old(self).pending(),
            final(self).pending() == Seq::<SpecialActionEvent>::empty(),
    {
        let mut taken: Vec<SpecialActionEvent> = Vec::new();
        std::mem::swap(&mut taken, &mut self.events);
        taken
    }

    /// Queue an event behind those already there.
    pub fn push_event(&mut self, event: SpecialActionEvent)
        ensures
            final(self).pending() == old(self).pending().push(event),
    {
        self.events.push(event);
    }
}

impl Default for SpecialActionState {
    fn default() -> (state: Self)
        ensures
            state.pending() == Seq::<SpecialActionEvent>::empty(),
    {
        SpecialActionState::new()
    }
}

/// An event of an embedded foreign toplevel.
#[derive(Debug, Clone, Copy, PartialEq, Eq, Structural)]
pub enum EmbeddedSurfaceEvent {
    /// The embedded toplevel prefers this size.
    Configure { width: i32, height: i32 },
    /// A captured frame is ready.
    Frame,
    /// The embedded toplevel closed.
    Closed,
    /// The pointer entered the embed region.
    Entered,
    /// The pointer left the embed region.
    Left,
}

/// What an embedded surface has reported and not yet handed on.
pub struct EmbeddedSurfaceData {
    /// Events in the order they came.
    pub events: Vec<EmbeddedSurfaceEvent>,
    /// Whether the embedded toplevel is still there.
    pub valid: bool,
}

impl EmbeddedSurfaceData {
    /// A fresh embed: valid, nothing queued.
    pub fn new() -> (data: Self)
        ensures
            data.events@ == Seq::<EmbeddedSurfaceEvent>::empty(),
            data.valid,
    {
        EmbeddedSurfaceData { events: Vec::new(), valid: true }
    }

    /// Record an event; once the embedded toplevel closes, the embed is no
    /// longer valid.
    pub fn record(&mut self, event: EmbeddedSurfaceEvent)
        ensures
            final(self).events@ == old(self).events@.push(event),
            final(self).valid == (old(self).valid && event != EmbeddedSurfaceEvent::Closed),
    {
        if let EmbeddedSurfaceEvent::Closed = event {
            self.valid = false;
        }
        self.events.push(event);
    }

    /// Whether the embedded toplevel is still there.
    pub fn is_valid(&self) -> (valid: bool)
        ensures
            valid == self.valid,
    {
        self.valid
    }

    /// Hand out everything queued, oldest first, leaving the queue empty.
    pub fn take_events(&mut self) -> (taken: Vec<EmbeddedSurfaceEvent>)
        ensures
            taken@ == old(self).events@,
            final(self).events@ == Seq::<EmbeddedSurfaceEvent>::empty(),
            final(self).valid == old(self).valid,
    {
        let mut taken: Vec<EmbeddedSurfaceEvent> = Vec::new();
        std::mem::swap(&mut taken, &mut self.events);
        taken
    }
}

/// A foreign toplevel imported as a window's parent.
#[derive(Debug, Clone, Copy, PartialEq, Eq, Structural)]
pub struct ImportedData {
    /// Whether the import still stands; the compositor withdraws it when the
    /// exported toplevel goes away or the handle was never valid.
    pub valid: bool,
}

impl ImportedData {
    /// A fresh import, valid until the compositor says otherwise.
    pub fn new() -> (data: Self)
        ensures
            data.valid,
    {
        ImportedData { valid: true }
    }

    /// The compositor withdrew the import.
    pub fn destroyed(&mut self)
        ensures
            !final(self).valid,
    {
        self.valid = false;
    }

    /// Whether the import still stands, and so may still be made the
    /// parent of a surface.
    pub fn is_valid(&self) -> (valid: bool)
        ensures
            valid == self.valid,
    {
        self.valid
    }
}

/// The corner of a tooltip placed at the pointer offset.
#[derive(Debug, Clone, Copy, PartialEq, Eq, Structural)]
pub enum TooltipAnchor {
    TopLeft,
    TopRight,
    BottomLeft,
    BottomRight,
}

/// The corner a wire value names; anything unknown is the top left.
pub open spec fn tooltip_anchor_spec(anchor: u32) -> TooltipAnchor {
    if anchor == 1 {
        TooltipAnchor::TopRight
    } else if anchor == 2 {
        TooltipAnchor::BottomLeft
    } else if anchor == 3 {
        TooltipAnchor::BottomRight
    } else {
        TooltipAnchor::TopLeft
    }
}

/// The corner a wire value names (0 top left, 1 top right, 2 bottom left,
/// 3 bottom right); anything else is the top left.
pub fn tooltip_anchor(anchor: u32) -> (corner: TooltipAnchor)
    ensures
        corner == tooltip_anchor_spec(anchor),
{
    match anchor {
        1 => TooltipAnchor::TopRight,
        2 => TooltipAnchor::BottomLeft,
        3 => TooltipAnchor::BottomRight,
        _ => TooltipAnchor::TopLeft,
    }
}

/// How a per-window request to an optional compositor extension goes.
#[derive(Debug, Clone, Copy, PartialEq, Eq, Structural)]
pub enum ControllerStep {
    /// The window already has a controller: send through it.
    Reuse,
    /// Make a controller from the bound manager, keep it, then send.
    Create,
    /// The compositor lacks the extension: nothing is sent.
    Unavailable,
}

impl ControllerStep {
    /// Whether the request reaches the compositor.
    pub open spec fn sends(self) -> bool {
        self != ControllerStep::Unavailable
    }
}

/// The step for a request, given whether the window has a controller and
/// whether the manager global is bound. An existing controller is always
/// used; a new one is made only once.
pub fn controller_step(has_controller: bool, has_manager: bool) -> (step: ControllerStep)
    ensures
        step == controller_step_spec(has_controller, has_manager),
{
    if has_controller {
        ControllerStep::Reuse
    } else if has_manager {
        ControllerStep::Create
    } else {
        ControllerStep::Unavailable
    }
}

/// Whether a request with this step reports success to the caller.
pub fn step_sends(step: ControllerStep) -> (sent: bool)
    ensures
        sent == step.sends(),
{
    match step {
        ControllerStep::Unavailable => false,
        _ => true,
    }
}

/// The step for a request, as a function of the two facts.
pub open spec fn controller_step_spec(has_controller: bool, has_manager: bool) -> ControllerStep {
    if has_controller {
        ControllerStep::Reuse
    } else if has_manager {
        ControllerStep::Create
    } else {
        ControllerStep::Unavailable
    }
}

/// How registering a window for voice input goes.
#[derive(Debug, Clone, Copy, PartialEq, Eq, Structural)]
pub enum VoiceRegistration {
    /// The window is registered already; that registration stays.
    AlreadyRegistered,
    /// Register the window with the bound manager.
    Register,
    /// The compositor lacks voice input.
    Unavailable,
}

impl VoiceRegistration {
    /// Whether the window is a voice receiver afterwards, which is what
    /// registering reports.
    pub open spec fn registered(self) -> bool {
        self != VoiceRegistration::Unavailable
    }
}

/// The registration step, given whether the window is registered and
/// whether the manager global is bound.
pub fn voice_registration(has_receiver: bool, has_manager: bool) -> (step: VoiceRegistration)
    ensures
        step == if has_receiver {
            VoiceRegistration::AlreadyRegistered
        } else if has_manager {
            VoiceRegistration::Register
        } else {
            VoiceRegistration::Unavailable
        },
{
    if has_receiver {
        VoiceRegistration::AlreadyRegistered
    } else if has_manager {
        VoiceRegistration::Register
    } else {
        VoiceRegistration::Unavailable
    }
}

/// The voice events a window hands on: everything its receiver queued, or
/// nothing when it is not registered.
pub fn take_voice_mode_events(receiver: &mut Option<VoiceModeState>) -> (taken: Vec<VoiceModeEvent>)
    ensures
        match *old(receiver) {
            Some(r) => {
                &&& taken@ == r.events@
                &&& final(receiver).is_some()
                &&& final(receiver).unwrap().events@ == Seq::<VoiceModeEvent>::empty()
                &&& final(receiver).unwrap().is_default == r.is_default
            },
            None => taken@ == Seq::<VoiceModeEvent>::empty() && final(receiver).is_none(),
        },
{
    match receiver {
        Some(r) => r.take_events(),
        None => Vec::new(),
    }
}

/// What asking for a blurred or a clear background does.
#[derive(Debug, Clone, Copy, PartialEq, Eq, Structural)]
pub enum BlurStep {
    /// Make a blur object from the bound manager and keep it.
    Create,
    /// Blur is wanted but the compositor lacks it.
    Unavailable,
    /// Unset the blur and release the object.
    Release,
    /// The background already is as asked.
    Nothing,
}

/// The step for `blurred`, given whether the window holds a blur object and
/// whether the manager global is bound.
pub fn blur_step(blurred: bool, has_blur: bool, has_manager: bool) -> (step: BlurStep)
    ensures
        step == if blurred && !has_blur {
            if has_manager {
                BlurStep::Create
            } else {
                BlurStep::Unavailable
            }
        } else if !blurred && has_blur {
            BlurStep::Release
        } else {
            BlurStep::Nothing
        },
{
    if blurred && !has_blur {
        if has_manager {
            BlurStep::Create
        } else {
            BlurStep::Unavailable
        }
    } else if !blurred && has_blur {
        BlurStep::Release
    } else {
        BlurStep::Nothing
    }
}

} // verus!
