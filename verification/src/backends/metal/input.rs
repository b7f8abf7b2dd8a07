//! Libinput events of the metal backend: which keys and buttons are held,
//! and what each libinput event turns into.

use vstd::prelude::*;
use crate::backend::AxisSource;
use crate::backend::InputDeviceAccelProfile;
use crate::backend::InputDeviceClickMethod;
use crate::backend::KeyState;
use crate::backend::ScrollAxis;

verus! {

broadcast use vstd::seq_lib::group_seq_properties;

/// Libinput key and button states.
pub const LIBINPUT_KEY_STATE_RELEASED: u32 = 0;
pub const LIBINPUT_KEY_STATE_PRESSED: u32 = 1;
pub const LIBINPUT_BUTTON_STATE_RELEASED: u32 = 0;
pub const LIBINPUT_BUTTON_STATE_PRESSED: u32 = 1;

/// Libinput pointer axes.
pub const LIBINPUT_POINTER_AXIS_SCROLL_VERTICAL: u32 = 0;
pub const LIBINPUT_POINTER_AXIS_SCROLL_HORIZONTAL: u32 = 1;

/// Libinput switches and their states.
pub const LIBINPUT_SWITCH_LID: u32 = 1;
pub const LIBINPUT_SWITCH_TABLET_MODE: u32 = 2;
pub const LIBINPUT_SWITCH_STATE_OFF: u32 = 0;
pub const LIBINPUT_SWITCH_STATE_ON: u32 = 1;

/// Libinput tablet tool types.
pub const LIBINPUT_TABLET_TOOL_TYPE_PEN: u32 = 1;
pub const LIBINPUT_TABLET_TOOL_TYPE_ERASER: u32 = 2;
pub const LIBINPUT_TABLET_TOOL_TYPE_BRUSH: u32 = 3;
pub const LIBINPUT_TABLET_TOOL_TYPE_PENCIL: u32 = 4;
pub const LIBINPUT_TABLET_TOOL_TYPE_AIRBRUSH: u32 = 5;
pub const LIBINPUT_TABLET_TOOL_TYPE_MOUSE: u32 = 6;
pub const LIBINPUT_TABLET_TOOL_TYPE_LENS: u32 = 7;

/// Libinput tablet tool proximity and tip states.
pub const LIBINPUT_TABLET_TOOL_PROXIMITY_STATE_OUT: u32 = 0;
pub const LIBINPUT_TABLET_TOOL_PROXIMITY_STATE_IN: u32 = 1;
pub const LIBINPUT_TABLET_TOOL_TIP_UP: u32 = 0;
pub const LIBINPUT_TABLET_TOOL_TIP_DOWN: u32 = 1;

/// Libinput ring and strip sources.
pub const LIBINPUT_TABLET_PAD_RING_SOURCE_FINGER: u32 = 2;
pub const LIBINPUT_TABLET_PAD_STRIP_SOURCE_FINGER: u32 = 2;

/// Libinput acceleration profiles and click methods.
pub const LIBINPUT_CONFIG_ACCEL_PROFILE_FLAT: u32 = 1;
pub const LIBINPUT_CONFIG_ACCEL_PROFILE_ADAPTIVE: u32 = 2;
pub const LIBINPUT_CONFIG_CLICK_METHOD_NONE: u32 = 0;
pub const LIBINPUT_CONFIG_CLICK_METHOD_BUTTON_AREAS: u32 = 1;
pub const LIBINPUT_CONFIG_CLICK_METHOD_CLICKFINGER: u32 = 2;

/// The keys (or buttons) that are held down, each once, in the order they
/// were pressed.
pub struct PressedSet {
    items: Vec<u32>,
}

impl View for PressedSet {
    type V = Seq<u32>;

    closed spec fn view(&self) -> Seq<u32> {
        self.items@
    }
}

impl PressedSet {
    pub closed spec fn wf(&self) -> bool {
        self.items@.no_duplicates()
    }

    pub fn new() -> (r: Self)
        ensures
            r.wf(),
            r@ == Seq::<u32>::empty(),
    {
        PressedSet { items: Vec::new() }
    }

    /// Whether the key is held down.
    pub fn contains(&self, key: u32) -> (r: bool)
        ensures
            r == self@.contains(key),
    {
        let mut i: usize = 0;
        while i < self.items.len()
            invariant
                i <= self.items@.len(),
                forall|j: int| 0 <= j < i ==> self.items@[j] != key,
            decreases self.items@.len() - i,
        {
            if self.items[i] == key {
                assert(self.items@[i as int] == key);
                return true;
            }
            i += 1;
        }
        false
    }

    /// Marks the key as held down; says whether it was not held before.
    pub fn insert(&mut self, key: u32) -> (new: bool)
        requires
            old(self).wf(),
        ensures
            final(self).wf(),
            new == !old(self)@.contains(key),
            final(self)@ == (if new { old(self)@.push(key) } else { old(self)@ }),
    {
        if self.contains(key) {
            return false;
        }
        proof {
            assert forall|i: int, j: int| 0 <= i < j < self.items@.push(key).len() implies self.items@.push(key)[i]
                != self.items@.push(key)[j] by {
                if j == self.items@.len() {
                    assert(self.items@.contains(self.items@[i]));
                }
            }
        }
        self.items.push(key);
        true
    }

    /// Marks the key as released; says whether it was held before.
    pub fn remove(&mut self, key: u32) -> (was: bool)
        requires
            old(self).wf(),
        ensures
            final(self).wf(),
            was == old(self)@.contains(key),
            final(self)@.to_set() == old(self)@.to_set().remove(key),
            final(self)@ == old(self)@.filter(|k: u32| k != key),
    {
        let ghost old_items = self.items@;
        let mut i: usize = 0;
        while i < self.items.len()
            invariant
                i <= self.items@.len(),
                self.items@ == old_items,
                old_items == old(self).items@,
                old_items.no_duplicates(),
                forall|j: int| 0 <= j < i ==> self.items@[j] != key,
            decreases self.items@.len() - i,
        {
            if self.items[i] == key {
                self.items.remove(i);
                proof {
                    lemma_filter_removes_unique(old_items, i as int, key);
                    assert(self.items@ =~= old_items.remove(i as int));
                    assert(old_items.contains(key));
                    assert forall|a: int, b: int| 0 <= a < b < self.items@.len() implies self.items@[a]
                        != self.items@[b] by {
                        let a2 = if a < i { a } else { a + 1 };
                        let b2 = if b < i { b } else { b + 1 };
                        assert(self.items@[a] == old_items[a2]);
                        assert(self.items@[b] == old_items[b2]);
                    }
                    assert forall|k: u32| #[trigger] self.items@.to_set().contains(k) <==> old_items.to_set().remove(key).contains(k) by {
                        if self.items@.contains(k) {
                            let j = choose|j: int| 0 <= j < self.items@.len() && self.items@[j] == k;
                            let j2 = if j < i { j } else { j + 1 };
                            assert(old_items[j2] == k);
                        }
                        if k != key && old_items.contains(k) {
                            let j = choose|j: int| 0 <= j < old_items.len() && old_items[j] == k;
                            assert(j != i);
                            let j2 = if j < i { j } else { j - 1 };
                            assert(self.items@[j2] == k);
                        }
                    }
                    assert(self.items@.to_set() =~= old_items.to_set().remove(key));
                }
                return true;
            }
            i += 1;
        }
        proof {
            lemma_filter_absent(old_items, key);
            assert(old_items.to_set().remove(key) =~= old_items.to_set());
        }
        false
    }

    /// Empties the set and returns what it held, in order.
    pub fn take(&mut self) -> (r: Vec<u32>)
        requires
            old(self).wf(),
        ensures
            final(self).wf(),
            final(self)@ == Seq::<u32>::empty(),
            r@ == old(self)@,
    {
        let mut items: Vec<u32> = Vec::new();
        std::mem::swap(&mut items, &mut self.items);
        items
    }
}

proof fn lemma_filter_absent(s: Seq<u32>, key: u32)
    requires
        !s.contains(key),
    ensures
        s.filter(|k: u32| k != key) == s,
    decreases s.len(),
{
    reveal(Seq::filter);
    if s.len() > 0 {
        lemma_filter_absent(s.drop_last(), key);
        assert(s.drop_last().push(s.last()) =~= s);
    }
}

proof fn lemma_filter_removes_unique(s: Seq<u32>, i: int, key: u32)
    requires
        s.no_duplicates(),
        0 <= i < s.len(),
        s[i] == key,
    ensures
        s.filter(|k: u32| k != key) == s.remove(i),
    decreases s.len(),
{
    reveal(Seq::filter);
    if i == s.len() - 1 {
        assert(!s.drop_last().contains(key)) by {
            if s.drop_last().contains(key) {
                let j = choose|j: int| 0 <= j < s.drop_last().len() && s.drop_last()[j] == key;
                assert(s[j] == s[i]);
            }
        }
        lemma_filter_absent(s.drop_last(), key);
        assert(s.remove(i) =~= s.drop_last());
    } else {
        assert(s.drop_last().no_duplicates());
        lemma_filter_removes_unique(s.drop_last(), i, key);
        assert(s.last() != key);
        assert(s.drop_last().remove(i).push(s.last()) =~= s.remove(i));
    }
}

/// What a libinput key (or button) event turns into: a press of a key that
/// is not held, or a release of a key that is held; other events are
/// dropped.
pub open spec fn spec_key_event(held: Seq<u32>, key: u32, pressed: bool) -> Option<KeyState> {
    if pressed {
        if held.contains(key) {
            None
        } else {
            Some(KeyState::Pressed)
        }
    } else {
        if held.contains(key) {
            Some(KeyState::Released)
        } else {
            None
        }
    }
}

/// Handles a libinput key or button event with the given libinput state
/// (`LIBINPUT_KEY_STATE_PRESSED` and `LIBINPUT_BUTTON_STATE_PRESSED` are
/// both 1): updates what is held and returns the state to report, if any.
pub fn handle_key(held: &mut PressedSet, key: u32, libinput_state: u32) -> (r: Option<KeyState>)
    requires
        old(held).wf(),
    ensures
        final(held).wf(),
        r == spec_key_event(old(held)@, key, libinput_state == LIBINPUT_KEY_STATE_PRESSED),
        final(held)@.to_set() == (if libinput_state == LIBINPUT_KEY_STATE_PRESSED {
            old(held)@.to_set().insert(key)
        } else {
            old(held)@.to_set().remove(key)
        }),
{
    if libinput_state == LIBINPUT_KEY_STATE_PRESSED {
        let new = held.insert(key);
        proof {
            if new {
                assert(old(held)@.push(key).to_set() =~= old(held)@.to_set().insert(key));
            } else {
                assert(old(held)@.to_set() =~= old(held)@.to_set().insert(key));
            }
        }
        if !new {
            return None;
        }
        Some(KeyState::Pressed)
    } else {
        if !held.remove(key) {
            return None;
        }
        Some(KeyState::Released)
    }
}

/// Proves that a key pressed twice is reported pressed once, and a key
/// released twice is reported released once.
pub proof fn lemma_repeated_key_events_are_dropped(held: Seq<u32>, key: u32, pressed: bool)
    ensures
        spec_key_event(
            if pressed {
                held.push(key)
            } else {
                held.filter(|k: u32| k != key)
            },
            key,
            pressed,
        ) is None,
{
    if pressed {
        assert(held.push(key)[held.len() as int] == key);
    } else {
        let f = held.filter(|k: u32| k != key);
        if f.contains(key) {
            let j = choose|j: int| 0 <= j < f.len() && f[j] == key;
            held.lemma_filter_pred(|k: u32| k != key, j);
        }
    }
}

/// A switch event.
#[derive(Copy, Clone, Debug, PartialEq, Eq, Structural)]
pub enum SwitchEvent {
    LidOpened,
    LidClosed,
    ConvertedToLaptop,
    ConvertedToTablet,
}

/// The switch event of a libinput switch and state; none for others.
pub fn switch_event(switch: u32, state: u32) -> (r: Option<SwitchEvent>)
    ensures
        r == (if switch == LIBINPUT_SWITCH_LID && state == LIBINPUT_SWITCH_STATE_OFF {
            Some(SwitchEvent::LidOpened)
        } else if switch == LIBINPUT_SWITCH_LID && state == LIBINPUT_SWITCH_STATE_ON {
            Some(SwitchEvent::LidClosed)
        } else if switch == LIBINPUT_SWITCH_TABLET_MODE && state == LIBINPUT_SWITCH_STATE_OFF {
            Some(SwitchEvent::ConvertedToLaptop)
        } else if switch == LIBINPUT_SWITCH_TABLET_MODE && state == LIBINPUT_SWITCH_STATE_ON {
            Some(SwitchEvent::ConvertedToTablet)
        } else {
            None
        }),
{
    if switch == LIBINPUT_SWITCH_LID {
        if state == LIBINPUT_SWITCH_STATE_OFF {
            return Some(SwitchEvent::LidOpened);
        }
        if state == LIBINPUT_SWITCH_STATE_ON {
            return Some(SwitchEvent::LidClosed);
        }
    } else if switch == LIBINPUT_SWITCH_TABLET_MODE {
        if state == LIBINPUT_SWITCH_STATE_OFF {
            return Some(SwitchEvent::ConvertedToLaptop);
        }
        if state == LIBINPUT_SWITCH_STATE_ON {
            return Some(SwitchEvent::ConvertedToTablet);
        }
    }
    None
}

/// A tablet tool type.
#[derive(Copy, Clone, Debug, PartialEq, Eq, Structural)]
pub enum TabletToolType {
    Pen,
    Eraser,
    Brush,
    Pencil,
    Airbrush,
    Mouse,
    Lens,
}

/// The tool type of a libinput tool type; none for others (the totem).
pub open spec fn spec_tool_type(t: u32) -> Option<TabletToolType> {
    if t == LIBINPUT_TABLET_TOOL_TYPE_PEN {
        Some(TabletToolType::Pen)
    } else if t == LIBINPUT_TABLET_TOOL_TYPE_ERASER {
        Some(TabletToolType::Eraser)
    } else if t == LIBINPUT_TABLET_TOOL_TYPE_BRUSH {
        Some(TabletToolType::Brush)
    } else if t == LIBINPUT_TABLET_TOOL_TYPE_PENCIL {
        Some(TabletToolType::Pencil)
    } else if t == LIBINPUT_TABLET_TOOL_TYPE_AIRBRUSH {
        Some(TabletToolType::Airbrush)
    } else if t == LIBINPUT_TABLET_TOOL_TYPE_MOUSE {
        Some(TabletToolType::Mouse)
    } else if t == LIBINPUT_TABLET_TOOL_TYPE_LENS {
        Some(TabletToolType::Lens)
    } else {
        None
    }
}

pub fn tool_type(t: u32) -> (r: Option<TabletToolType>)
    ensures
        r == spec_tool_type(t),
{
    if t == LIBINPUT_TABLET_TOOL_TYPE_PEN {
        Some(TabletToolType::Pen)
    } else if t == LIBINPUT_TABLET_TOOL_TYPE_ERASER {
        Some(TabletToolType::Eraser)
    } else if t == LIBINPUT_TABLET_TOOL_TYPE_BRUSH {
        Some(TabletToolType::Brush)
    } else if t == LIBINPUT_TABLET_TOOL_TYPE_PENCIL {
        Some(TabletToolType::Pencil)
    } else if t == LIBINPUT_TABLET_TOOL_TYPE_AIRBRUSH {
        Some(TabletToolType::Airbrush)
    } else if t == LIBINPUT_TABLET_TOOL_TYPE_MOUSE {
        Some(TabletToolType::Mouse)
    } else if t == LIBINPUT_TABLET_TOOL_TYPE_LENS {
        Some(TabletToolType::Lens)
    } else {
        None
    }
}

/// A tablet tool capability.
#[derive(Copy, Clone, Debug, PartialEq, Eq, Structural)]
pub enum TabletToolCapability {
    Tilt,
    Pressure,
    Distance,
    Rotation,
    Slider,
    Wheel,
}

/// The axes a libinput tool has.
#[derive(Copy, Clone, Debug, PartialEq, Eq, Structural)]
pub struct ToolAxes {
    pub has_tilt: bool,
    pub has_pressure: bool,
    pub has_distance: bool,
    pub has_rotation: bool,
    pub has_slider: bool,
    pub has_wheel: bool,
}

/// The capabilities of a tool, in a fixed order.
pub open spec fn spec_tool_capabilities(a: ToolAxes) -> Seq<TabletToolCapability> {
    let s0 = Seq::<TabletToolCapability>::empty();
    let s1 = if a.has_tilt { s0.push(TabletToolCapability::Tilt) } else { s0 };
    let s2 = if a.has_pressure { s1.push(TabletToolCapability::Pressure) } else { s1 };
    let s3 = if a.has_distance { s2.push(TabletToolCapability::Distance) } else { s2 };
    let s4 = if a.has_rotation { s3.push(TabletToolCapability::Rotation) } else { s3 };
    let s5 = if a.has_slider { s4.push(TabletToolCapability::Slider) } else { s4 };
    if a.has_wheel { s5.push(TabletToolCapability::Wheel) } else { s5 }
}

pub fn tool_capabilities(a: ToolAxes) -> (r: Vec<TabletToolCapability>)
    ensures
        r@ == spec_tool_capabilities(a),
{
    let mut caps: Vec<TabletToolCapability> = Vec::new();
    if a.has_tilt {
        caps.push(TabletToolCapability::Tilt);
    }
    if a.has_pressure {
        caps.push(TabletToolCapability::Pressure);
    }
    if a.has_distance {
        caps.push(TabletToolCapability::Distance);
    }
    if a.has_rotation {
        caps.push(TabletToolCapability::Rotation);
    }
    if a.has_slider {
        caps.push(TabletToolCapability::Slider);
    }
    if a.has_wheel {
        caps.push(TabletToolCapability::Wheel);
    }
    caps
}

/// Which axes of a tool event changed, as libinput reports them.
#[derive(Copy, Clone, Debug, PartialEq, Eq, Structural)]
pub struct ToolAxisChanges {
    pub x: bool,
    pub y: bool,
    pub pressure: bool,
    pub distance: bool,
    pub tilt_x: bool,
    pub tilt_y: bool,
    pub rotation: bool,
    pub slider: bool,
    pub wheel: bool,
}

/// What a tool-changed event carries: the tip state where the event gives
/// one, and which readings are reported (each read from the event).
#[derive(Copy, Clone, Debug, PartialEq, Eq, Structural)]
pub struct ToolChangeFields {
    pub down: Option<bool>,
    /// The position and its motion, on both axes.
    pub pos: bool,
    pub pressure: bool,
    pub distance: bool,
    /// The tilt on both axes.
    pub tilt: bool,
    pub rotation: bool,
    pub slider: bool,
    /// The wheel's motion in degrees and in clicks.
    pub wheel: bool,
}

/// What a tool-changed event carries, for an event whose axes changed as
/// given, with the tip state where the event is a tip event: the position
/// where either coordinate changed, the tilt where either tilt changed, and
/// each other reading where it changed.
pub fn tool_change_fields(changed: ToolAxisChanges, down: Option<bool>) -> (r: ToolChangeFields)
    ensures
        r == (ToolChangeFields {
            down,
            pos: changed.x || changed.y,
            pressure: changed.pressure,
            distance: changed.distance,
            tilt: changed.tilt_x || changed.tilt_y,
            rotation: changed.rotation,
            slider: changed.slider,
            wheel: changed.wheel,
        }),
{
    ToolChangeFields {
        down,
        pos: changed.x || changed.y,
        pressure: changed.pressure,
        distance: changed.distance,
        tilt: changed.tilt_x || changed.tilt_y,
        rotation: changed.rotation,
        slider: changed.slider,
        wheel: changed.wheel,
    }
}

/// An event that a tool's proximity event turns into.
#[derive(Clone, Debug, PartialEq, Eq)]
pub enum ProximityEvent {
    /// The tool came in: it is added to the tablet.
    ToolAdded { tablet_id: u64, id: u64, tool_type: TabletToolType, capabilities: Vec<TabletToolCapability> },
    /// The tool's state is reported, with the tip state where it changed
    /// (none here) and the tool's axes read from the event.
    ToolChanged { id: u64, down: Option<bool> },
    /// The tool left.
    ToolRemoved { id: u64 },
}

/// The events a tool's proximity event turns into, in order, for the tool
/// with the id (see [`tool_id`]): where the tool comes in on a tablet and
/// has a known type, it is added and then its state reported (with no tip
/// state); where it comes in otherwise, none; where it leaves, its removal.
pub fn proximity_events(state: u32, tablet_id: Option<u64>, libinput_tool_type: u32, axes: ToolAxes, id: u64) -> (r: Vec<
    ProximityEvent,
>)
    ensures
        state != LIBINPUT_TABLET_TOOL_PROXIMITY_STATE_IN ==> r@ == seq![ProximityEvent::ToolRemoved { id }],
        state == LIBINPUT_TABLET_TOOL_PROXIMITY_STATE_IN ==> match (tablet_id, spec_tool_type(libinput_tool_type)) {
            (Some(t), Some(ty)) => {
                &&& r@.len() == 2
                &&& r@[0] matches ProximityEvent::ToolAdded { tablet_id: t1, id: i1, tool_type: y1, capabilities: c1 }
                    && t1 == t && i1 == id && y1 == ty && c1@ == spec_tool_capabilities(axes)
                &&& r@[1] == (ProximityEvent::ToolChanged { id, down: None })
            },
            _ => r@.len() == 0,
        },
{
    let mut r: Vec<ProximityEvent> = Vec::new();
    if state != LIBINPUT_TABLET_TOOL_PROXIMITY_STATE_IN {
        r.push(ProximityEvent::ToolRemoved { id });
        return r;
    }
    let tablet_id = match tablet_id {
        Some(t) => t,
        None => {
            return r;
        },
    };
    let tool_type = match tool_type(libinput_tool_type) {
        Some(t) => t,
        None => {
            return r;
        },
    };
    r.push(ProximityEvent::ToolAdded { tablet_id, id, tool_type, capabilities: tool_capabilities(axes) });
    r.push(ProximityEvent::ToolChanged { id, down: None });
    r
}

/// Whether a tip event puts the tool down; none for unknown states.
pub fn tip_down(tip_state: u32) -> (r: Option<bool>)
    ensures
        r == (if tip_state == LIBINPUT_TABLET_TOOL_TIP_UP {
            Some(false)
        } else if tip_state == LIBINPUT_TABLET_TOOL_TIP_DOWN {
            Some(true)
        } else {
            None
        }),
{
    if tip_state == LIBINPUT_TABLET_TOOL_TIP_UP {
        Some(false)
    } else if tip_state == LIBINPUT_TABLET_TOOL_TIP_DOWN {
        Some(true)
    } else {
        None
    }
}

/// Whether a tool or pad button event is a press; none for unknown states.
pub fn button_pressed(button_state: u32) -> (r: Option<bool>)
    ensures
        r == (if button_state == LIBINPUT_BUTTON_STATE_RELEASED {
            Some(false)
        } else if button_state == LIBINPUT_BUTTON_STATE_PRESSED {
            Some(true)
        } else {
            None
        }),
{
    if button_state == LIBINPUT_BUTTON_STATE_RELEASED {
        Some(false)
    } else if button_state == LIBINPUT_BUTTON_STATE_PRESSED {
        Some(true)
    } else {
        None
    }
}

/// Whether a ring or strip event comes from a finger (its source is known
/// only then).
pub fn pad_source_is_finger(source: u32) -> (r: bool)
    ensures
        r == (source == LIBINPUT_TABLET_PAD_RING_SOURCE_FINGER),
{
    source == LIBINPUT_TABLET_PAD_RING_SOURCE_FINGER
}

/// What a scroll on one axis turns into.
#[derive(Copy, Clone, Debug, PartialEq, Eq, Structural)]
pub enum AxisEventKind {
    /// The axis stopped scrolling.
    Stop,
    /// A wheel scrolled by a multiple of 1/120 of a notch.
    Axis120,
    /// A finger or continuous scroll moved by a distance in pixels.
    AxisPx,
}

/// The axes of a pointer scroll event, in the order they are reported.
pub fn scroll_axes() -> (r: Vec<(u32, ScrollAxis)>)
    ensures
        r@ == seq![
            (LIBINPUT_POINTER_AXIS_SCROLL_HORIZONTAL, ScrollAxis::Horizontal),
            (LIBINPUT_POINTER_AXIS_SCROLL_VERTICAL, ScrollAxis::Vertical),
        ],
{
    let r = vec![
        (LIBINPUT_POINTER_AXIS_SCROLL_HORIZONTAL, ScrollAxis::Horizontal),
        (LIBINPUT_POINTER_AXIS_SCROLL_VERTICAL, ScrollAxis::Vertical),
    ];
    assert(r@ =~= seq![
        (LIBINPUT_POINTER_AXIS_SCROLL_HORIZONTAL, ScrollAxis::Horizontal),
        (LIBINPUT_POINTER_AXIS_SCROLL_VERTICAL, ScrollAxis::Vertical),
    ]);
    r
}

/// What the scroll of an axis that has a value turns into: a zero value
/// stops the axis; else a wheel reports in 1/120 notches and other sources
/// in pixels. The result's second part says whether the scroll is inverted:
/// where natural scrolling is known to be on.
pub fn axis_event(source: AxisSource, value_is_zero: bool, natural_scrolling: Option<bool>) -> (r: (AxisEventKind, bool))
    ensures
        r.0 == (if value_is_zero {
            AxisEventKind::Stop
        } else if source == AxisSource::Wheel {
            AxisEventKind::Axis120
        } else {
            AxisEventKind::AxisPx
        }),
        r.1 == (natural_scrolling == Some(true)),
{
    let inverted = match natural_scrolling {
        Some(b) => b,
        None => false,
    };
    let kind = if value_is_zero {
        AxisEventKind::Stop
    } else {
        match source {
            AxisSource::Wheel => AxisEventKind::Axis120,
            _ => AxisEventKind::AxisPx,
        }
    };
    (kind, inverted)
}

/// What the scroll on one axis of a pointer axis event reports, as read
/// from the event: whether the event has a value for the axis, and whether
/// that value is zero.
#[derive(Debug, Copy, Clone, Eq, PartialEq, Structural)]
pub struct AxisReading {
    pub present: bool,
    pub zero: bool,
}

/// One event that a pointer axis event turns into; the distance of an
/// axis event is the value read for its axis (in 1/120 notches for a
/// wheel, in pixels otherwise).
#[derive(Debug, Copy, Clone, Eq, PartialEq, Structural)]
pub enum AxisEventPlan {
    /// The source of the scroll.
    Source(AxisSource),
    /// The scroll of one axis.
    Axis { axis: ScrollAxis, kind: AxisEventKind, inverted: bool },
    /// The end of the event, with its time.
    Frame,
}

/// The event of one axis, where the event has a value for it.
pub open spec fn spec_axis_plan(source: AxisSource, axis: ScrollAxis, a: AxisReading, natural_scrolling: Option<bool>) -> Seq<
    AxisEventPlan,
> {
    if a.present {
        seq![
            AxisEventPlan::Axis {
                axis,
                kind: if a.zero {
                    AxisEventKind::Stop
                } else if source == AxisSource::Wheel {
                    AxisEventKind::Axis120
                } else {
                    AxisEventKind::AxisPx
                },
                inverted: natural_scrolling == Some(true),
            },
        ]
    } else {
        Seq::empty()
    }
}

/// The events a pointer axis event turns into, in order: its source, then
/// the horizontal and the vertical axis where the event has a value for
/// them, then the frame.
pub fn pointer_axis_events(
    source: AxisSource,
    horizontal: AxisReading,
    vertical: AxisReading,
    natural_scrolling: Option<bool>,
) -> (r: Vec<AxisEventPlan>)
    ensures
        r@ == seq![AxisEventPlan::Source(source)] + spec_axis_plan(source, ScrollAxis::Horizontal, horizontal, natural_scrolling)
            + spec_axis_plan(source, ScrollAxis::Vertical, vertical, natural_scrolling) + seq![AxisEventPlan::Frame],
{
    let mut r: Vec<AxisEventPlan> = Vec::new();
    r.push(AxisEventPlan::Source(source));
    if horizontal.present {
        let (kind, inverted) = axis_event(source, horizontal.zero, natural_scrolling);
        r.push(AxisEventPlan::Axis { axis: ScrollAxis::Horizontal, kind, inverted });
    }
    if vertical.present {
        let (kind, inverted) = axis_event(source, vertical.zero, natural_scrolling);
        r.push(AxisEventPlan::Axis { axis: ScrollAxis::Vertical, kind, inverted });
    }
    r.push(AxisEventPlan::Frame);
    assert(r@ =~= seq![AxisEventPlan::Source(source)] + spec_axis_plan(source, ScrollAxis::Horizontal, horizontal, natural_scrolling)
        + spec_axis_plan(source, ScrollAxis::Vertical, vertical, natural_scrolling) + seq![AxisEventPlan::Frame]);
    r
}

/// A pointer scroll reports its source first and a frame last, and in
/// between one axis event for each axis the event has a value for,
/// horizontal before vertical. Every axis event is inverted exactly where
/// natural scrolling is on, whatever the source; it stops the axis where
/// the axis's value is zero, and otherwise scrolls in notches for a wheel
/// and in pixels for every other source.
pub proof fn lemma_pointer_axis_events(
    source: AxisSource,
    horizontal: AxisReading,
    vertical: AxisReading,
    natural_scrolling: Option<bool>,
)
    ensures
        ({
            let r = seq![AxisEventPlan::Source(source)] + spec_axis_plan(
                source,
                ScrollAxis::Horizontal,
                horizontal,
                natural_scrolling,
            ) + spec_axis_plan(source, ScrollAxis::Vertical, vertical, natural_scrolling) + seq![AxisEventPlan::Frame];
            let n = 2 + (if horizontal.present { 1int } else { 0int }) + (if vertical.present { 1int } else { 0int });
            &&& r.len() == n
            &&& r[0] == AxisEventPlan::Source(source)
            &&& r[n - 1] == AxisEventPlan::Frame
            &&& horizontal.present ==> (r[1] matches AxisEventPlan::Axis { axis, .. } && axis == ScrollAxis::Horizontal)
            &&& vertical.present ==> (r[n - 2] matches AxisEventPlan::Axis { axis, .. } && axis == ScrollAxis::Vertical)
            &&& forall|i: int|
                1 <= i < n - 1 ==> (#[trigger] r[i] matches AxisEventPlan::Axis { axis, kind, inverted } && {
                    let a = if axis == ScrollAxis::Horizontal {
                        horizontal
                    } else {
                        vertical
                    };
                    &&& a.present
                    &&& inverted == (natural_scrolling == Some(true))
                    &&& (kind == AxisEventKind::Stop <==> a.zero)
                    &&& (kind == AxisEventKind::Axis120 <==> !a.zero && source == AxisSource::Wheel)
                    &&& (kind == AxisEventKind::AxisPx <==> !a.zero && source != AxisSource::Wheel)
                })
        }),
{
    let h = spec_axis_plan(source, ScrollAxis::Horizontal, horizontal, natural_scrolling);
    let v = spec_axis_plan(source, ScrollAxis::Vertical, vertical, natural_scrolling);
    let r = seq![AxisEventPlan::Source(source)] + h + v + seq![AxisEventPlan::Frame];
    assert forall|i: int| 1 <= i < r.len() - 1 implies (#[trigger] r[i]) == (if i < 1 + h.len() {
        h[i - 1]
    } else {
        v[i - 1 - h.len()]
    }) by {}
}

/// The acceleration profile of a libinput profile; none for others.
pub fn accel_profile_from_libinput(p: u32) -> (r: Option<InputDeviceAccelProfile>)
    ensures
        r == (if p == LIBINPUT_CONFIG_ACCEL_PROFILE_FLAT {
            Some(InputDeviceAccelProfile::Flat)
        } else if p == LIBINPUT_CONFIG_ACCEL_PROFILE_ADAPTIVE {
            Some(InputDeviceAccelProfile::Adaptive)
        } else {
            None
        }),
{
    if p == LIBINPUT_CONFIG_ACCEL_PROFILE_FLAT {
        Some(InputDeviceAccelProfile::Flat)
    } else if p == LIBINPUT_CONFIG_ACCEL_PROFILE_ADAPTIVE {
        Some(InputDeviceAccelProfile::Adaptive)
    } else {
        None
    }
}

/// The libinput profile of an acceleration profile.
pub fn accel_profile_to_libinput(p: InputDeviceAccelProfile) -> (r: u32)
    ensures
        r == (match p {
            InputDeviceAccelProfile::Flat => LIBINPUT_CONFIG_ACCEL_PROFILE_FLAT,
            InputDeviceAccelProfile::Adaptive => LIBINPUT_CONFIG_ACCEL_PROFILE_ADAPTIVE,
        }),
{
    match p {
        InputDeviceAccelProfile::Flat => LIBINPUT_CONFIG_ACCEL_PROFILE_FLAT,
        InputDeviceAccelProfile::Adaptive => LIBINPUT_CONFIG_ACCEL_PROFILE_ADAPTIVE,
    }
}

/// The click method of a libinput click method; none for others.
pub fn click_method_from_libinput(m: u32) -> (r: Option<InputDeviceClickMethod>)
    ensures
        r == (if m == LIBINPUT_CONFIG_CLICK_METHOD_NONE {
            Some(InputDeviceClickMethod::NoClick)
        } else if m == LIBINPUT_CONFIG_CLICK_METHOD_BUTTON_AREAS {
            Some(InputDeviceClickMethod::ButtonAreas)
        } else if m == LIBINPUT_CONFIG_CLICK_METHOD_CLICKFINGER {
            Some(InputDeviceClickMethod::Clickfinger)
        } else {
            None
        }),
{
    if m == LIBINPUT_CONFIG_CLICK_METHOD_NONE {
        Some(InputDeviceClickMethod::NoClick)
    } else if m == LIBINPUT_CONFIG_CLICK_METHOD_BUTTON_AREAS {
        Some(InputDeviceClickMethod::ButtonAreas)
    } else if m == LIBINPUT_CONFIG_CLICK_METHOD_CLICKFINGER {
        Some(InputDeviceClickMethod::Clickfinger)
    } else {
        None
    }
}

/// The libinput click method of a click method.
pub fn click_method_to_libinput(m: InputDeviceClickMethod) -> (r: u32)
    ensures
        r == (match m {
            InputDeviceClickMethod::NoClick => LIBINPUT_CONFIG_CLICK_METHOD_NONE,
            InputDeviceClickMethod::ButtonAreas => LIBINPUT_CONFIG_CLICK_METHOD_BUTTON_AREAS,
            InputDeviceClickMethod::Clickfinger => LIBINPUT_CONFIG_CLICK_METHOD_CLICKFINGER,
        }),
{
    match m {
        InputDeviceClickMethod::NoClick => LIBINPUT_CONFIG_CLICK_METHOD_NONE,
        InputDeviceClickMethod::ButtonAreas => LIBINPUT_CONFIG_CLICK_METHOD_BUTTON_AREAS,
        InputDeviceClickMethod::Clickfinger => LIBINPUT_CONFIG_CLICK_METHOD_CLICKFINGER,
    }
}

/// Proves that converting an acceleration profile or a click method to
/// libinput and back gives it back.
pub proof fn lemma_config_round_trip(p: InputDeviceAccelProfile, m: InputDeviceClickMethod)
    ensures
        (match p {
            InputDeviceAccelProfile::Flat => LIBINPUT_CONFIG_ACCEL_PROFILE_FLAT,
            InputDeviceAccelProfile::Adaptive => LIBINPUT_CONFIG_ACCEL_PROFILE_ADAPTIVE,
        }) == LIBINPUT_CONFIG_ACCEL_PROFILE_FLAT <==> p == InputDeviceAccelProfile::Flat,
        (match m {
            InputDeviceClickMethod::NoClick => LIBINPUT_CONFIG_CLICK_METHOD_NONE,
            InputDeviceClickMethod::ButtonAreas => LIBINPUT_CONFIG_CLICK_METHOD_BUTTON_AREAS,
            InputDeviceClickMethod::Clickfinger => LIBINPUT_CONFIG_CLICK_METHOD_CLICKFINGER,
        }) == LIBINPUT_CONFIG_CLICK_METHOD_BUTTON_AREAS <==> m == InputDeviceClickMethod::ButtonAreas,
{
}

/// The identifier handed out, and whether the fresh one was taken.
pub open spec fn spec_lazy_id(stored: Option<u64>, fresh: u64) -> (u64, bool) {
    match stored {
        Some(id) => (id, false),
        None => (fresh, true),
    }
}

/// An identifier that is handed out on first use and kept: the stored one
/// if there is one, else the fresh one, which is then stored. The second
/// part of the result says whether the fresh one was taken.
pub fn lazy_id(stored: Option<u64>, fresh: u64) -> (r: (u64, bool))
    ensures
        r == spec_lazy_id(stored, fresh),
{
    match stored {
        Some(id) => (id, false),
        None => (fresh, true),
    }
}

/// An identifier handed out (a tablet pad's id) stays the same on every
/// later query, once the fresh one taken is stored, whatever fresh ids the
/// later queries offer.
pub proof fn lemma_lazy_id_is_stable(stored: Option<u64>, fresh: u64, later: Seq<u64>)
    ensures
        ({
            let (id, taken) = spec_lazy_id(stored, fresh);
            let kept = if taken {
                Some(id)
            } else {
                stored
            };
            forall|k: int| 0 <= k < later.len() ==> #[trigger] spec_lazy_id(kept, later[k]) == (id, false)
        }),
{
}

/// The id a tool's user data gives: the stored one, else the fresh one.
pub open spec fn spec_tool_id(user_data: u64, fresh: u64) -> (u64, bool) {
    if user_data == 0 {
        (fresh, true)
    } else {
        (user_data, false)
    }
}

/// A tool's id stays the same on every later event, once a fresh id taken
/// (never zero) is stored in its user data.
pub proof fn lemma_tool_id_is_stable(user_data: u64, fresh: u64, later: Seq<u64>)
    requires
        fresh != 0,
    ensures
        ({
            let (id, taken) = spec_tool_id(user_data, fresh);
            let kept = if taken {
                id
            } else {
                user_data
            };
            forall|k: int| 0 <= k < later.len() ==> #[trigger] spec_tool_id(kept, later[k]) == (id, false)
        }),
{
}

/// The tool id stored in a libinput tool's user data (zero where none was
/// stored): the stored one, else the fresh one, which is then stored.
pub fn tool_id(user_data: u64, fresh: u64) -> (r: (u64, bool))
    ensures
        r == spec_tool_id(user_data, fresh),
{
    if user_data == 0 {
        (fresh, true)
    } else {
        (user_data, false)
    }
}

/// A mode group of a tablet pad, as the device describes it: for each
/// button, ring, strip and dial whether it belongs to the group, and the
/// group's modes.
pub struct PadGroupDesc {
    pub buttons: Vec<bool>,
    pub rings: Vec<bool>,
    pub strips: Vec<bool>,
    pub dials: Vec<bool>,
    pub modes: u32,
    pub mode: u32,
}

/// A mode group of a tablet pad: its members, by index, and its modes.
pub struct PadGroupInfo {
    pub buttons: Vec<u32>,
    pub rings: Vec<u32>,
    pub strips: Vec<u32>,
    pub dials: Vec<u32>,
    pub modes: u32,
    pub mode: u32,
}

/// What a tablet pad reports of itself.
pub struct PadInfo {
    pub id: u64,
    pub buttons: u32,
    pub strips: u32,
    pub rings: u32,
    pub dials: u32,
    pub groups: Vec<PadGroupInfo>,
}

/// Whether a group's members are the flagged ones among `count`, in
/// ascending order.
pub open spec fn spec_members(r: Seq<u32>, count: u32, flags: Seq<bool>) -> bool {
    &&& r == Seq::new(count as nat, |i: int| i as u32).filter(|i: u32| flags[i as int])
    &&& forall|a: int, b: int| 0 <= a < b < r.len() ==> r[a] < r[b]
    &&& forall|a: int| 0 <= a < r.len() ==> #[trigger] r[a] < count
}

/// What a device that may be a tablet pad reports: nothing where it is
/// no pad; else its id (the one stored in `slot`, else `fresh`, which is
/// then stored), its numbers of buttons, strips, rings and dials, and its
/// mode groups in order, each with its members in ascending order.
pub fn tablet_pad_info(
    slot: &mut Option<u64>,
    is_pad: bool,
    fresh: Option<u64>,
    buttons: u32,
    strips: u32,
    rings: u32,
    dials: u32,
    groups: &[PadGroupDesc],
) -> (r: Option<PadInfo>)
    requires
        is_pad && *old(slot) is None ==> fresh is Some,
        forall|g: int|
            0 <= g < groups@.len() ==> (#[trigger] groups@[g]).buttons@.len() == buttons && groups@[g].rings@.len() == rings
                && groups@[g].strips@.len() == strips && groups@[g].dials@.len() == dials,
    ensures
        !is_pad ==> r is None && *final(slot) == *old(slot),
        is_pad ==> (r matches Some(p) && {
            &&& p.id == spec_lazy_id(*old(slot), fresh.unwrap_or(0)).0
            &&& *final(slot) == Some(p.id)
            &&& (*old(slot) matches Some(id) ==> p.id == id)
            &&& p.buttons == buttons && p.strips == strips && p.rings == rings && p.dials == dials
            &&& p.groups@.len() == groups@.len()
            &&& forall|g: int|
                0 <= g < groups@.len() ==> {
                    let gi = #[trigger] p.groups@[g];
                    let gd = groups@[g];
                    &&& spec_members(gi.buttons@, buttons, gd.buttons@)
                    &&& spec_members(gi.rings@, rings, gd.rings@)
                    &&& spec_members(gi.strips@, strips, gd.strips@)
                    &&& spec_members(gi.dials@, dials, gd.dials@)
                    &&& gi.modes == gd.modes
                    &&& gi.mode == gd.mode
                }
        }),
{
    if !is_pad {
        return None;
    }
    let (id, taken) = lazy_id(*slot, match fresh {
        Some(f) => f,
        None => 0,
    });
    if taken {
        *slot = Some(id);
    }
    let mut out: Vec<PadGroupInfo> = Vec::new();
    let mut g: usize = 0;
    while g < groups.len()
        invariant
            g <= groups@.len(),
            out@.len() == g,
            forall|k: int|
                0 <= k < groups@.len() ==> (#[trigger] groups@[k]).buttons@.len() == buttons && groups@[k].rings@.len()
                    == rings && groups@[k].strips@.len() == strips && groups@[k].dials@.len() == dials,
            forall|k: int|
                0 <= k < g ==> {
                    let gi = #[trigger] out@[k];
                    let gd = groups@[k];
                    &&& spec_members(gi.buttons@, buttons, gd.buttons@)
                    &&& spec_members(gi.rings@, rings, gd.rings@)
                    &&& spec_members(gi.strips@, strips, gd.strips@)
                    &&& spec_members(gi.dials@, dials, gd.dials@)
                    &&& gi.modes == gd.modes
                    &&& gi.mode == gd.mode
                },
        decreases groups@.len() - g,
    {
        let d = &groups[g];
        let gi = PadGroupInfo {
            buttons: pad_group_members(buttons, d.buttons.as_slice()),
            rings: pad_group_members(rings, d.rings.as_slice()),
            strips: pad_group_members(strips, d.strips.as_slice()),
            dials: pad_group_members(dials, d.dials.as_slice()),
            modes: d.modes,
            mode: d.mode,
        };
        out.push(gi);
        g += 1;
    }
    Some(PadInfo { id, buttons, strips, rings, dials, groups: out })
}

/// A pad's id is the same on every later query of its device: the first
/// query stores the id it reports, and a query of a device with a stored id
/// reports that id, whatever fresh id is offered.
pub proof fn lemma_pad_id_kept(slot: Option<u64>, fresh: u64, later: u64)
    ensures
        ({
            let id = spec_lazy_id(slot, fresh).0;
            spec_lazy_id(Some(id), later).0 == id
        }),
{
}

/// The members of a pad mode group among `count` buttons (rings, strips,
/// dials): the indices whose membership flag is set, in order.
pub fn pad_group_members(count: u32, member: &[bool]) -> (r: Vec<u32>)
    requires
        member@.len() == count,
    ensures
        r@ == Seq::new(count as nat, |i: int| i as u32).filter(|i: u32| member@[i as int]),
        forall|a: int, b: int| 0 <= a < b < r@.len() ==> r@[a] < r@[b],
        forall|a: int| 0 <= a < r@.len() ==> #[trigger] r@[a] < count && member@[r@[a] as int],
{
    let ghost all = Seq::new(count as nat, |i: int| i as u32);
    let ghost p = |i: u32| member@[i as int];
    let mut res: Vec<u32> = Vec::new();
    let mut i: u32 = 0;
    while i < count
        invariant
            i <= count,
            member@.len() == count,
            all == Seq::new(count as nat, |i: int| i as u32),
            p == (|i: u32| member@[i as int]),
            res@ == all.take(i as int).filter(p),
            forall|a: int, b: int| 0 <= a < b < res@.len() ==> res@[a] < res@[b],
            forall|a: int| 0 <= a < res@.len() ==> #[trigger] res@[a] < i && member@[res@[a] as int],
        decreases count - i,
    {
        proof {
            reveal(Seq::filter);
            assert(all.take(i + 1).drop_last() =~= all.take(i as int));
            assert(all.take(i + 1).last() == i);
        }
        if member[i as usize] {
            res.push(i);
        }
        i += 1;
    }
    assert(all.take(count as int) =~= all);
    res
}

/// The settings a user asked for of an input device (the acceleration
/// speed and the calibration matrix by whether they are set; their values
/// are kept with the device).
#[derive(Copy, Clone, Debug, PartialEq, Eq, Structural)]
pub struct DesiredConfig {
    pub left_handed: Option<bool>,
    pub accel_profile: Option<u32>,
    pub accel_speed: bool,
    pub tap_enabled: Option<bool>,
    pub drag_enabled: Option<bool>,
    pub drag_lock_enabled: Option<bool>,
    pub natural_scrolling_enabled: Option<bool>,
    pub calibration_matrix: bool,
    pub click_method: Option<u32>,
    pub middle_button_emulation_enabled: Option<bool>,
    pub enabled_leds: Option<u32>,
}

/// A setting applied to a libinput device.
#[derive(Copy, Clone, Debug, PartialEq, Eq, Structural)]
pub enum ConfigSetting {
    LeftHanded(bool),
    AccelProfile(u32),
    AccelSpeed,
    TapEnabled(bool),
    DragEnabled(bool),
    DragLockEnabled(bool),
    NaturalScrolling(bool),
    CalibrationMatrix,
    ClickMethod(u32),
    MiddleButtonEmulation(bool),
    EnabledLeds(u32),
}

/// The settings that reapplying the desired configuration applies, in
/// order: each one that is set.
pub open spec fn spec_config_settings(d: DesiredConfig) -> Seq<ConfigSetting> {
    let s0 = Seq::<ConfigSetting>::empty();
    let s1 = match d.left_handed { Some(v) => s0.push(ConfigSetting::LeftHanded(v)), None => s0 };
    let s2 = match d.accel_profile { Some(v) => s1.push(ConfigSetting::AccelProfile(v)), None => s1 };
    let s3 = if d.accel_speed { s2.push(ConfigSetting::AccelSpeed) } else { s2 };
    let s4 = match d.tap_enabled { Some(v) => s3.push(ConfigSetting::TapEnabled(v)), None => s3 };
    let s5 = match d.drag_enabled { Some(v) => s4.push(ConfigSetting::DragEnabled(v)), None => s4 };
    let s6 = match d.drag_lock_enabled { Some(v) => s5.push(ConfigSetting::DragLockEnabled(v)), None => s5 };
    let s7 = match d.natural_scrolling_enabled {
        Some(v) => s6.push(ConfigSetting::NaturalScrolling(v)),
        None => s6,
    };
    let s8 = if d.calibration_matrix { s7.push(ConfigSetting::CalibrationMatrix) } else { s7 };
    let s9 = match d.click_method { Some(v) => s8.push(ConfigSetting::ClickMethod(v)), None => s8 };
    let s10 = match d.middle_button_emulation_enabled {
        Some(v) => s9.push(ConfigSetting::MiddleButtonEmulation(v)),
        None => s9,
    };
    match d.enabled_leds { Some(v) => s10.push(ConfigSetting::EnabledLeds(v)), None => s10 }
}

/// The settings to apply when a device (re)appears: none without a libinput
/// device, else each desired setting in order (the effective settings are
/// then read back).
pub fn apply_config_plan(desired: &DesiredConfig, has_device: bool) -> (r: Vec<ConfigSetting>)
    ensures
        !has_device ==> r@.len() == 0,
        has_device ==> r@ == spec_config_settings(*desired),
{
    let mut r: Vec<ConfigSetting> = Vec::new();
    if !has_device {
        return r;
    }
    if let Some(v) = desired.left_handed {
        r.push(ConfigSetting::LeftHanded(v));
    }
    if let Some(v) = desired.accel_profile {
        r.push(ConfigSetting::AccelProfile(v));
    }
    if desired.accel_speed {
        r.push(ConfigSetting::AccelSpeed);
    }
    if let Some(v) = desired.tap_enabled {
        r.push(ConfigSetting::TapEnabled(v));
    }
    if let Some(v) = desired.drag_enabled {
        r.push(ConfigSetting::DragEnabled(v));
    }
    if let Some(v) = desired.drag_lock_enabled {
        r.push(ConfigSetting::DragLockEnabled(v));
    }
    if let Some(v) = desired.natural_scrolling_enabled {
        r.push(ConfigSetting::NaturalScrolling(v));
    }
    if desired.calibration_matrix {
        r.push(ConfigSetting::CalibrationMatrix);
    }
    if let Some(v) = desired.click_method {
        r.push(ConfigSetting::ClickMethod(v));
    }
    if let Some(v) = desired.middle_button_emulation_enabled {
        r.push(ConfigSetting::MiddleButtonEmulation(v));
    }
    if let Some(v) = desired.enabled_leds {
        r.push(ConfigSetting::EnabledLeds(v));
    }
    r
}

/// What a libinput device supports of the settings.
#[derive(Copy, Clone, Debug, PartialEq, Eq, Structural)]
pub struct DeviceSupport {
    pub left_handed_available: bool,
    pub accel_available: bool,
    pub tap_available: bool,
    pub has_natural_scrolling: bool,
    pub has_calibration_matrix: bool,
    pub has_click_methods: bool,
    pub middle_button_emulation_available: bool,
}

/// Whether the device supports a setting: the tap, drag and drag-lock
/// settings need tapping, both acceleration settings need acceleration,
/// LEDs are always set.
pub open spec fn spec_setting_supported(s: ConfigSetting, d: DeviceSupport) -> bool {
    match s {
        ConfigSetting::LeftHanded(_) => d.left_handed_available,
        ConfigSetting::AccelProfile(_) | ConfigSetting::AccelSpeed => d.accel_available,
        ConfigSetting::TapEnabled(_) | ConfigSetting::DragEnabled(_) | ConfigSetting::DragLockEnabled(_) => d.tap_available,
        ConfigSetting::NaturalScrolling(_) => d.has_natural_scrolling,
        ConfigSetting::CalibrationMatrix => d.has_calibration_matrix,
        ConfigSetting::ClickMethod(_) => d.has_click_methods,
        ConfigSetting::MiddleButtonEmulation(_) => d.middle_button_emulation_available,
        ConfigSetting::EnabledLeds(_) => true,
    }
}

/// Whether applying the setting reaches the device: a setting is always
/// recorded as desired, and applied (its effective value read back) where
/// a device exists and supports it.
pub fn setting_reaches_device(s: ConfigSetting, has_device: bool, d: DeviceSupport) -> (r: bool)
    ensures
        r == (has_device && spec_setting_supported(s, d)),
{
    if !has_device {
        return false;
    }
    match s {
        ConfigSetting::LeftHanded(_) => d.left_handed_available,
        ConfigSetting::AccelProfile(_) | ConfigSetting::AccelSpeed => d.accel_available,
        ConfigSetting::TapEnabled(_) | ConfigSetting::DragEnabled(_) | ConfigSetting::DragLockEnabled(_) => d.tap_available,
        ConfigSetting::NaturalScrolling(_) => d.has_natural_scrolling,
        ConfigSetting::CalibrationMatrix => d.has_calibration_matrix,
        ConfigSetting::ClickMethod(_) => d.has_click_methods,
        ConfigSetting::MiddleButtonEmulation(_) => d.middle_button_emulation_available,
        ConfigSetting::EnabledLeds(_) => true,
    }
}

/// An effective setting read back from a device.
#[derive(Copy, Clone, Debug, PartialEq, Eq, Structural)]
pub enum EffectiveRead {
    LeftHanded,
    AccelProfile,
    AccelSpeed,
    TapEnabled,
    DragEnabled,
    DragLockEnabled,
    NaturalScrolling,
    CalibrationMatrix,
    ClickMethod,
    MiddleButtonEmulation,
}

/// The effective settings read back from a device, in order: those it
/// supports.
pub open spec fn spec_effective_reads(d: DeviceSupport) -> Seq<EffectiveRead> {
    let s0 = Seq::<EffectiveRead>::empty();
    let s1 = if d.left_handed_available { s0.push(EffectiveRead::LeftHanded) } else { s0 };
    let s2 = if d.accel_available {
        s1.push(EffectiveRead::AccelProfile).push(EffectiveRead::AccelSpeed)
    } else {
        s1
    };
    let s3 = if d.tap_available {
        s2.push(EffectiveRead::TapEnabled).push(EffectiveRead::DragEnabled).push(EffectiveRead::DragLockEnabled)
    } else {
        s2
    };
    let s4 = if d.has_natural_scrolling { s3.push(EffectiveRead::NaturalScrolling) } else { s3 };
    let s5 = if d.has_calibration_matrix { s4.push(EffectiveRead::CalibrationMatrix) } else { s4 };
    let s6 = if d.has_click_methods { s5.push(EffectiveRead::ClickMethod) } else { s5 };
    if d.middle_button_emulation_available { s6.push(EffectiveRead::MiddleButtonEmulation) } else { s6 }
}

/// The effective settings to read back from a device: none without a
/// libinput device.
pub fn fetch_effective_plan(has_device: bool, d: DeviceSupport) -> (r: Vec<EffectiveRead>)
    ensures
        !has_device ==> r@.len() == 0,
        has_device ==> r@ == spec_effective_reads(d),
{
    let mut r: Vec<EffectiveRead> = Vec::new();
    if !has_device {
        return r;
    }
    if d.left_handed_available {
        r.push(EffectiveRead::LeftHanded);
    }
    if d.accel_available {
        r.push(EffectiveRead::AccelProfile);
        r.push(EffectiveRead::AccelSpeed);
    }
    if d.tap_available {
        r.push(EffectiveRead::TapEnabled);
        r.push(EffectiveRead::DragEnabled);
        r.push(EffectiveRead::DragLockEnabled);
    }
    if d.has_natural_scrolling {
        r.push(EffectiveRead::NaturalScrolling);
    }
    if d.has_calibration_matrix {
        r.push(EffectiveRead::CalibrationMatrix);
    }
    if d.has_click_methods {
        r.push(EffectiveRead::ClickMethod);
    }
    if d.middle_button_emulation_available {
        r.push(EffectiveRead::MiddleButtonEmulation);
    }
    r
}

} // verus!
