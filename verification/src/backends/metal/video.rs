//! DRM devices, connectors, CRTCs and planes: the state kept of them and
//! the rules by which flips and vblank sequences update it.

pub mod connector;
pub mod device_init;
pub mod drm_props;
pub mod lease;
pub mod metal_cm;

use vstd::prelude::*;
use crate::backend::BackendConnectorState;
use crate::backend::PICOS_PER_SEC;

verus! {

/// Wayland presentation-feedback kinds.
pub const KIND_VSYNC: u32 = 1;
pub const KIND_HW_CLOCK: u32 = 2;
pub const KIND_HW_COMPLETION: u32 = 4;
pub const KIND_ZERO_COPY: u32 = 8;

/// How much the margin after a commit grows after missed flips, in
/// nanoseconds.
pub const POST_COMMIT_MARGIN_DELTA: u64 = 500_000;

/// What the compositor is told of a connector.
#[derive(Copy, Clone, Debug, PartialEq, Eq, Structural)]
pub enum FrontState {
    Removed,
    Disconnected,
    Connected { non_desktop: bool },
    Unavailable,
}

/// The type of a plane.
#[derive(Copy, Clone, Debug, PartialEq, Eq, Structural)]
pub enum PlaneType {
    Overlay,
    Primary,
    Cursor,
}

/// A property of an object that is reset to a value when the object is
/// taken over.
#[derive(Clone, Debug)]
pub struct DefaultProperty {
    pub name: String,
    pub prop: u32,
    pub value: u64,
}

/// The state of a connector that outlives its DRM objects.
#[derive(Clone, Debug)]
pub struct PersistentDisplayData {
    pub state: BackendConnectorState,
}

/// A property and its value.
#[derive(Copy, Clone, Debug)]
pub struct TypedProperty<T> {
    pub id: u32,
    pub value: T,
}

impl<T: Copy> TypedProperty<T> {
    /// The same property with its value mapped by `f`.
    pub fn map<U, F: FnOnce(T) -> U>(self, f: F) -> (r: TypedProperty<U>)
        requires
            call_requires(f, (self.value,)),
        ensures
            r.id == self.id,
            call_ensures(f, (self.value,), r.value),
    {
        TypedProperty { id: self.id, value: f(self.value) }
    }
}

/// The period of a display's refresh in nanoseconds: zero without a CRTC or
/// a mode, or where the mode's rate is zero.
pub open spec fn spec_display_refresh(has_crtc: bool, mode_refresh_millihz: Option<u32>) -> u32 {
    if !has_crtc {
        0
    } else {
        match mode_refresh_millihz {
            None => 0,
            Some(mhz) => if mhz == 0 {
                0
            } else {
                (PICOS_PER_SEC / (mhz as u64)) as u32
            },
        }
    }
}

/// The refresh period of a connector's display, from whether it has a CRTC
/// and the refresh rate of the CRTC's mode, if it has one.
pub fn display_refresh(has_crtc: bool, mode_refresh_millihz: Option<u32>) -> (r: u32)
    ensures
        r == spec_display_refresh(has_crtc, mode_refresh_millihz),
{
    if !has_crtc {
        return 0;
    }
    match mode_refresh_millihz {
        None => 0,
        Some(mhz) => {
            if mhz == 0 {
                0
            } else {
                let period = PICOS_PER_SEC / (mhz as u64);
                period as u32
            }
        },
    }
}

/// Whether a connector is effectively a non-desktop connector: disabled
/// connectors are, else the override decides where set, else the
/// connector's own property.
pub fn non_desktop_effective(enabled: bool, non_desktop_override: Option<bool>, non_desktop: bool) -> (r: bool)
    ensures
        r == (!enabled || match non_desktop_override {
            Some(o) => o,
            None => non_desktop,
        }),
{
    if !enabled {
        return true;
    }
    match non_desktop_override {
        Some(o) => o,
        None => non_desktop,
    }
}

/// The CRTC's 64-bit vblank sequence after a flip event reported the low 32
/// bits `sequence`: the value with those low bits nearest above the old
/// sequence (wrapping into the next 2^32 where the low bits went back),
/// stepped back by 2^32 where it is more than 2^31 ahead; none where no
/// value makes sense (nothing changes then).
pub open spec fn spec_extend_sequence(old: u64, sequence: u32) -> Option<u64> {
    let base = old - old % 0x1_0000_0000;
    let n0 = base + sequence;
    let n1 = if n0 < old {
        n0 + 0x1_0000_0000
    } else {
        n0
    };
    if n1 < old || n1 > u64::MAX {
        None
    } else if n1 > old + 0x8000_0000 {
        let n2 = if n1 >= 0x1_0000_0000 {
            n1 - 0x1_0000_0000
        } else {
            0
        };
        if n2 < old {
            None
        } else {
            Some(n2 as u64)
        }
    } else {
        Some(n1 as u64)
    }
}

proof fn lemma_sequence_bits(old: u64, sequence: u32)
    by (bit_vector)
    ensures
        (old & !0xffff_ffffu64) | (sequence as u64) == (old - old % 0x1_0000_0000) + sequence,
        old - old % 0x1_0000_0000 <= old,
{
}

/// Extends the 32 bits of a flip event's sequence to the CRTC's 64-bit
/// sequence.
pub fn extend_sequence(old: u64, sequence: u32) -> (r: Option<u64>)
    ensures
        r == spec_extend_sequence(old, sequence),
{
    proof {
        lemma_sequence_bits(old, sequence);
    }
    let mut new: u64 = (old & !0xffff_ffffu64) | (sequence as u64);
    if new < old {
        if new > u64::MAX - 0x1_0000_0000 {
            return None;
        }
        new = new + 0x1_0000_0000;
    }
    if old <= u64::MAX - 0x8000_0000 && new > old + 0x8000_0000 {
        new = new.saturating_sub(0x1_0000_0000);
        if new < old {
            return None;
        }
    }
    Some(new)
}

/// Proves that an accepted sequence never goes back and is at most 2^31
/// ahead, and that it has the reported low bits, once the old sequence has
/// passed 2^32.
pub proof fn lemma_extended_sequence_is_near(old: u64, sequence: u32)
    requires
        spec_extend_sequence(old, sequence) is Some,
        0x1_0000_0000 <= old <= u64::MAX - 0x1_0000_0000,
    ensures
        old <= spec_extend_sequence(old, sequence)->0 <= old + 0x8000_0000,
        spec_extend_sequence(old, sequence)->0 % 0x1_0000_0000 == sequence,
{
    let base = old - old % 0x1_0000_0000;
    assert((base + sequence) % 0x1_0000_0000 == sequence as int) by (nonlinear_arith)
        requires
            base == old - old % 0x1_0000_0000,
            0 <= sequence < 0x1_0000_0000,
    ;
    assert((base + sequence + 0x1_0000_0000) % 0x1_0000_0000 == sequence as int) by (nonlinear_arith)
        requires
            base == old - old % 0x1_0000_0000,
            0 <= sequence < 0x1_0000_0000,
    ;
    assert((base + sequence - 0x1_0000_0000) % 0x1_0000_0000 == sequence as int) by (nonlinear_arith)
        requires
            base == old - old % 0x1_0000_0000,
            0 <= sequence < 0x1_0000_0000,
            old >= 0x1_0000_0000,
    ;
}

/// The presentation-feedback flags of a completed flip.
pub fn presentation_flags(is_sync: bool, is_zero_copy: bool) -> (r: u32)
    ensures
        r == KIND_HW_COMPLETION + (if is_sync { KIND_VSYNC } else { 0 }) + (if is_zero_copy {
            KIND_ZERO_COPY
        } else {
            0
        }),
{
    proof {
        lemma_flag_bits();
    }
    let mut flags = KIND_HW_COMPLETION;
    if is_sync {
        flags = flags | KIND_VSYNC;
    }
    if is_zero_copy {
        flags = flags | KIND_ZERO_COPY;
    }
    flags
}

proof fn lemma_flag_bits()
    by (bit_vector)
    ensures
        4u32 | 1u32 == 5u32,
        4u32 | 8u32 == 12u32,
        5u32 | 8u32 == 13u32,
{
}

/// The time of a flip event in nanoseconds.
pub fn flip_time_ns(tv_sec: u32, tv_usec: u32) -> (r: u64)
    ensures
        r == tv_sec * 1_000_000_000 + tv_usec * 1000,
{
    assert(tv_sec * 1_000_000_000 + tv_usec * 1000 <= u64::MAX) by (nonlinear_arith)
        requires
            tv_sec <= u32::MAX,
            tv_usec <= u32::MAX,
    ;
    tv_sec as u64 * 1_000_000_000 + tv_usec as u64 * 1000
}

/// How the margin kept after a commit changes once per second.
#[derive(Copy, Clone, Debug, PartialEq, Eq, Structural)]
pub enum MarginUpdate {
    /// Nothing changes.
    Keep,
    /// Flips were missed: the margin grows to this value, which also
    /// restarts its decay.
    Grow(u64),
    /// No flip was missed: the decay takes the device's minimum margin and
    /// the margin becomes the decayed value.
    Decay(u64),
}

/// How the margin after a commit changes: where flips were missed it grows
/// by a step, up to the refresh period (nothing changes where it already
/// reached it); else it decays towards the device's minimum (nothing
/// changes where it is already at or below it).
pub fn post_commit_margin_update(n_missed: u64, old_margin: u64, refresh: u64, min_margin: u64) -> (r: MarginUpdate)
    ensures
        n_missed > 0 && old_margin >= refresh ==> r == MarginUpdate::Keep,
        n_missed > 0 && old_margin < refresh ==> r == MarginUpdate::Grow(
            if old_margin + POST_COMMIT_MARGIN_DELTA < refresh {
                (old_margin + POST_COMMIT_MARGIN_DELTA) as u64
            } else {
                refresh
            },
        ),
        n_missed == 0 && min_margin >= old_margin ==> r == MarginUpdate::Keep,
        n_missed == 0 && min_margin < old_margin ==> r == MarginUpdate::Decay(min_margin),
{
    if n_missed > 0 {
        if old_margin >= refresh {
            return MarginUpdate::Keep;
        }
        let grown = if refresh > POST_COMMIT_MARGIN_DELTA && old_margin < refresh - POST_COMMIT_MARGIN_DELTA {
            old_margin + POST_COMMIT_MARGIN_DELTA
        } else {
            refresh
        };
        MarginUpdate::Grow(grown)
    } else {
        if min_margin >= old_margin {
            return MarginUpdate::Keep;
        }
        MarginUpdate::Decay(min_margin)
    }
}

} // verus!
