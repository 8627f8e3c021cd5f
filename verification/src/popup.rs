//! xdg_popup bookkeeping: positioner enums, popup settings, ids, and the
//! tree walks that decide in which order popups are destroyed and which
//! popup may carry an input grab.

use vstd::prelude::*;

use crate::ids::WindowId;

verus! {

/// Popup anchor position on the parent surface.
#[derive(Debug, Clone, Copy, PartialEq, Eq, Hash, Structural)]
pub enum PopupAnchor {
    Center,
    Top,
    Bottom,
    Left,
    Right,
    TopLeft,
    BottomLeft,
    TopRight,
    BottomRight,
}

/// The protocol value of an anchor (`xdg_positioner.anchor`).
pub open spec fn anchor_code(anchor: PopupAnchor) -> u32 {
    match anchor {
        PopupAnchor::Center => 0,
        PopupAnchor::Top => 1,
        PopupAnchor::Bottom => 2,
        PopupAnchor::Left => 3,
        PopupAnchor::Right => 4,
        PopupAnchor::TopLeft => 5,
        PopupAnchor::BottomLeft => 6,
        PopupAnchor::TopRight => 7,
        PopupAnchor::BottomRight => 8,
    }
}

/// The anchor a protocol value stands for; unknown values are `Center`.
pub open spec fn anchor_from_code(value: u32) -> PopupAnchor {
    if value == 1 {
        PopupAnchor::Top
    } else if value == 2 {
        PopupAnchor::Bottom
    } else if value == 3 {
        PopupAnchor::Left
    } else if value == 4 {
        PopupAnchor::Right
    } else if value == 5 {
        PopupAnchor::TopLeft
    } else if value == 6 {
        PopupAnchor::BottomLeft
    } else if value == 7 {
        PopupAnchor::TopRight
    } else if value == 8 {
        PopupAnchor::BottomRight
    } else {
        PopupAnchor::Center
    }
}

impl From<u32> for PopupAnchor {
    fn from(value: u32) -> (anchor: Self)
        ensures
            anchor == anchor_from_code(value),
    {
        match value {
            1 => PopupAnchor::Top,
            2 => PopupAnchor::Bottom,
            3 => PopupAnchor::Left,
            4 => PopupAnchor::Right,
            5 => PopupAnchor::TopLeft,
            6 => PopupAnchor::BottomLeft,
            7 => PopupAnchor::TopRight,
            8 => PopupAnchor::BottomRight,
            _ => PopupAnchor::Center,
        }
    }
}

impl vstd::std_specs::convert::FromSpecImpl<u32> for PopupAnchor {
    open spec fn obeys_from_spec() -> bool {
        true
    }

    open spec fn from_spec(v: u32) -> PopupAnchor {
        anchor_from_code(v)
    }
}

impl Default for PopupAnchor {
    fn default() -> (anchor: Self)
        ensures
            anchor == PopupAnchor::Center,
    {
        PopupAnchor::Center
    }
}

/// Reading an anchor back from its protocol value gives the same anchor,
/// and a value outside `1..=8` reads as `Center`.
pub proof fn lemma_anchor_code_round_trip(anchor: PopupAnchor, value: u32)
    ensures
        anchor_from_code(anchor_code(anchor)) == anchor,
        (value == 0 || value > 8) ==> anchor_from_code(value) == PopupAnchor::Center,
        1 <= value <= 8 ==> anchor_code(anchor_from_code(value)) == value,
{
}

/// Popup gravity direction.
#[derive(Debug, Clone, Copy, PartialEq, Eq, Hash, Structural)]
pub enum PopupGravity {
    Center,
    Top,
    Bottom,
    Left,
    Right,
    TopLeft,
    BottomLeft,
    TopRight,
    BottomRight,
}

/// The protocol value of a gravity (`xdg_positioner.gravity`).
pub open spec fn gravity_code(gravity: PopupGravity) -> u32 {
    match gravity {
        PopupGravity::Center => 0,
        PopupGravity::Top => 1,
        PopupGravity::Bottom => 2,
        PopupGravity::Left => 3,
        PopupGravity::Right => 4,
        PopupGravity::TopLeft => 5,
        PopupGravity::BottomLeft => 6,
        PopupGravity::TopRight => 7,
        PopupGravity::BottomRight => 8,
    }
}

/// The gravity a protocol value stands for; unknown values are `Center`.
pub open spec fn gravity_from_code(value: u32) -> PopupGravity {
    if value == 1 {
        PopupGravity::Top
    } else if value == 2 {
        PopupGravity::Bottom
    } else if value == 3 {
        PopupGravity::Left
    } else if value == 4 {
        PopupGravity::Right
    } else if value == 5 {
        PopupGravity::TopLeft
    } else if value == 6 {
        PopupGravity::BottomLeft
    } else if value == 7 {
        PopupGravity::TopRight
    } else if value == 8 {
        PopupGravity::BottomRight
    } else {
        PopupGravity::Center
    }
}

impl From<u32> for PopupGravity {
    fn from(value: u32) -> (gravity: Self)
        ensures
            gravity == gravity_from_code(value),
    {
        match value {
            1 => PopupGravity::Top,
            2 => PopupGravity::Bottom,
            3 => PopupGravity::Left,
            4 => PopupGravity::Right,
            5 => PopupGravity::TopLeft,
            6 => PopupGravity::BottomLeft,
            7 => PopupGravity::TopRight,
            8 => PopupGravity::BottomRight,
            _ => PopupGravity::Center,
        }
    }
}

impl vstd::std_specs::convert::FromSpecImpl<u32> for PopupGravity {
    open spec fn obeys_from_spec() -> bool {
        true
    }

    open spec fn from_spec(v: u32) -> PopupGravity {
        gravity_from_code(v)
    }
}

impl Default for PopupGravity {
    fn default() -> (gravity: Self)
        ensures
            gravity == PopupGravity::Center,
    {
        PopupGravity::Center
    }
}

/// Reading a gravity back from its protocol value gives the same gravity,
/// and a value outside `1..=8` reads as `Center`.
pub proof fn lemma_gravity_code_round_trip(gravity: PopupGravity, value: u32)
    ensures
        gravity_from_code(gravity_code(gravity)) == gravity,
        (value == 0 || value > 8) ==> gravity_from_code(value) == PopupGravity::Center,
        1 <= value <= 8 ==> gravity_code(gravity_from_code(value)) == value,
{
}

/// Settings for creating a popup surface.
#[derive(Debug)]
pub struct PopupSettings {
    /// ID of the parent window this popup belongs to.
    pub parent_id: WindowId,
    /// Size of the popup (width, height).
    pub size: (u32, u32),
    /// Anchor rectangle on the parent surface (x, y, width, height).
    pub anchor_rect: (i32, i32, i32, i32),
    /// Anchor edge of the rectangle.
    pub anchor: PopupAnchor,
    /// Gravity direction.
    pub gravity: PopupGravity,
    /// Offset from calculated position (x, y).
    pub offset: (i32, i32),
    /// Constraint adjustment flags (xdg_positioner constraint adjustment bits).
    /// 0 = no adjustment, let popup extend outside parent.
    pub constraint_adjustment: u32,
    /// Whether to grab input focus.
    pub grab: bool,
    /// Ask the compositor to blur what is behind the popup.
    pub blur: bool,
    /// Ask the compositor to draw a drop shadow behind the popup.
    pub shadow: bool,
    /// Corner radius hinted to the compositor, in logical pixels.
    pub corner_radius: Option<u32>,
    /// Window geometry (x, y, width, height) in logical pixels.
    pub window_geometry: Option<(i32, i32, i32, i32)>,
    /// When set, enables compositor-driven tooltip positioning at pointer + offset.
    pub tooltip_offset: Option<(i32, i32)>,
    /// Tooltip anchor corner (0=TopLeft, 1=TopRight, 2=BottomLeft, 3=BottomRight).
    pub tooltip_anchor: Option<u32>,
    /// Show delay in milliseconds (0 = immediate cursor-following, >0 = delayed fixed position).
    pub tooltip_delay_ms: Option<u32>,
}

impl Clone for PopupSettings {
    fn clone(&self) -> (copy: Self)
        ensures
            copy == *self,
    {
        PopupSettings {
            parent_id: self.parent_id,
            size: self.size,
            anchor_rect: self.anchor_rect,
            anchor: self.anchor,
            gravity: self.gravity,
            offset: self.offset,
            constraint_adjustment: self.constraint_adjustment,
            grab: self.grab,
            blur: self.blur,
            shadow: self.shadow,
            corner_radius: self.corner_radius,
            window_geometry: self.window_geometry,
            tooltip_offset: self.tooltip_offset,
            tooltip_anchor: self.tooltip_anchor,
            tooltip_delay_ms: self.tooltip_delay_ms,
        }
    }
}

impl Default for PopupSettings {
    fn default() -> (settings: Self)
        ensures
            settings == (PopupSettings {
                parent_id: WindowId(0),
                size: (200, 200),
                anchor_rect: (0, 0, 1, 1),
                anchor: PopupAnchor::Center,
                gravity: PopupGravity::Center,
                offset: (0, 0),
                constraint_adjustment: 0,
                grab: false,
                blur: false,
                shadow: false,
                corner_radius: None,
                window_geometry: None,
                tooltip_offset: None,
                tooltip_anchor: None,
                tooltip_delay_ms: None,
            }),
    {
        PopupSettings {
            parent_id: WindowId(0),
            size: (200, 200),
            anchor_rect: (0, 0, 1, 1),
            anchor: PopupAnchor::Center,
            gravity: PopupGravity::Center,
            offset: (0, 0),
            constraint_adjustment: 0,
            grab: false,
            blur: false,
            shadow: false,
            corner_radius: None,
            window_geometry: None,
            tooltip_offset: None,
            tooltip_anchor: None,
            tooltip_delay_ms: None,
        }
    }
}

/// Unique ID for a popup.
#[derive(Debug, Clone, Copy, PartialEq, Eq, Hash, Structural)]
pub struct PopupId(pub u64);

/// The source of fresh popup ids. Ids are handed out in increasing order,
/// starting at 1, so a newer popup always has the larger id.
#[derive(Debug)]
pub struct PopupIdCounter {
    next: u64,
}

impl PopupIdCounter {
    /// The id the counter hands out next.
    pub closed spec fn next_id(&self) -> u64 {
        self.next
    }

    /// A counter whose first id is 1.
    pub fn new() -> (counter: Self)
        ensures
            counter.next_id() == 1,
    {
        PopupIdCounter { next: 1 }
    }
}

impl PopupId {
    /// Create a new popup ID: the counter's next id, after which the counter
    /// moves on by one (wrapping around at the end of the `u64` range).
    pub fn new(counter: &mut PopupIdCounter) -> (id: Self)
        ensures
            id.0 == old(counter).next_id(),
            final(counter).next_id() == old(counter).next_id().wrapping_add(1),
    {
        let id = counter.next;
        counter.next = counter.next.wrapping_add(1);
        PopupId(id)
    }
}

/// Two popups created one after the other from the same counter get
/// different ids, the later one larger, as long as the counter has not run
/// through the whole `u64` range.
pub proof fn lemma_later_popup_has_larger_id(first: PopupIdCounter, second: PopupIdCounter)
    requires
        first.next_id() < u64::MAX,
        second.next_id() == first.next_id().wrapping_add(1),
    ensures
        first.next_id() < second.next_id(),
{
}

/// The ids a counter made by [`PopupIdCounter::new`] hands out, one per
/// [`PopupId::new`], are 1, 2, 3, ... in turn, as long as fewer than
/// `u64::MAX` have been handed out: never 0, and each larger than all before.
/// `counters[i]` is the counter before the `i`-th call.
pub proof fn lemma_fresh_counter_ids(counters: Seq<PopupIdCounter>)
    requires
        0 < counters.len() <= u64::MAX,
        counters[0].next_id() == 1,
        forall|i: int|
            0 <= i < counters.len() - 1 ==> #[trigger] counters[i + 1].next_id() == counters[i].next_id().wrapping_add(1),
    ensures
        forall|i: int| 0 <= i < counters.len() ==> #[trigger] counters[i].next_id() == i + 1,
        forall|i: int, j: int|
            0 <= i < j < counters.len() ==> #[trigger] counters[i].next_id() < #[trigger] counters[j].next_id(),
    decreases counters.len(),
{
    if counters.len() > 1 {
        let init = counters.drop_last();
        assert forall|i: int| 0 <= i < init.len() - 1 implies #[trigger] init[i + 1].next_id()
            == init[i].next_id().wrapping_add(1) by {
            assert(counters[i + 1].next_id() == counters[i].next_id().wrapping_add(1));
        }
        lemma_fresh_counter_ids(init);
        let last = counters.len() - 1;
        assert(init[last - 1].next_id() == last);
        assert(counters[last].next_id() == counters[last - 1].next_id().wrapping_add(1));
        assert forall|i: int| 0 <= i < counters.len() implies #[trigger] counters[i].next_id() == i + 1 by {
            if i < last {
                assert(init[i].next_id() == i + 1);
            }
        }
    }
}

impl From<u64> for PopupId {
    fn from(id: u64) -> (popup: Self)
        ensures
            popup.0 == id,
    {
        PopupId(id)
    }
}

impl vstd::std_specs::convert::FromSpecImpl<u64> for PopupId {
    open spec fn obeys_from_spec() -> bool {
        true
    }

    open spec fn from_spec(v: u64) -> PopupId {
        PopupId(v)
    }
}

} // verus!
