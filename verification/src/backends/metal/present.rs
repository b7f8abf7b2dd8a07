//! Presenting frames on a connector: when the next frame starts, how the
//! hardware cursor is programmed, which properties a page flip changes and
//! how it is committed, and what follows a commit.

use vstd::prelude::*;
use super::transaction::DrmConnectorState;
use super::transaction::DrmPlaneState;
use super::transaction::tx_change::PlaneProps;
use super::transaction::tx_change::PropChange;
use super::transaction::tx_plan::PlaneFormats;
use super::transaction::tx_plan::plane_format_entries;
use super::transaction::tx_plan::plane_format_modifiers;
use super::allocator::modifier_set_items;
use super::allocator::modifier_set_contains;
use indexmap::IndexSet;

verus! {

/// The margins kept before and after a commit, in nanoseconds.
pub const DEFAULT_PRE_COMMIT_MARGIN: u64 = 16_000_000;
pub const DEFAULT_POST_COMMIT_MARGIN: u64 = 1_500_000;

/// Flags of an atomic commit.
pub const DRM_MODE_PAGE_FLIP_EVENT: u32 = 0x01;
pub const DRM_MODE_PAGE_FLIP_ASYNC: u32 = 0x02;
pub const DRM_MODE_ATOMIC_NONBLOCK: u32 = 0x0200;

/// Whether a flip may tear: the connector asks for it and the device can
/// commit asynchronously.
pub fn try_async_flip(tearing: bool, supports_async_commit: bool) -> (r: bool)
    ensures
        r == (tearing && supports_async_commit),
{
    tearing && supports_async_commit
}

/// When a frame starts.
#[derive(Copy, Clone, Debug, PartialEq, Eq, Structural)]
pub struct FrameStart {
    /// Wait until this time before the frame starts.
    pub wait_until: Option<u64>,
    /// The vblank sequence the frame is expected at, where frames are
    /// scheduled.
    pub expected_sequence: Option<u64>,
}

/// The time a frame must start to make the next vblank: the vblank less
/// both margins, not before zero.
pub open spec fn spec_next_present(next_vblank: u64, pre_margin: u64, post_margin: u64) -> u64 {
    let a = if next_vblank >= pre_margin {
        next_vblank - pre_margin
    } else {
        0
    };
    (if a >= post_margin {
        a - post_margin
    } else {
        0
    }) as u64
}

/// When the next frame starts. A tearing connector starts at once and has
/// no expected sequence. Otherwise the frame waits until it must start to
/// make the next vblank and expects the vblank after the CRTC's last one;
/// where that time has passed, it starts at once and expects one vblank
/// later.
pub fn frame_start(
    async_flip: bool,
    now: u64,
    next_vblank: u64,
    pre_margin: u64,
    post_margin: u64,
    sequence: u64,
) -> (r: FrameStart)
    requires
        sequence < u64::MAX - 1,
    ensures
        async_flip ==> r == (FrameStart { wait_until: None, expected_sequence: None }),
        !async_flip ==> r == (if now < spec_next_present(next_vblank, pre_margin, post_margin) {
            FrameStart {
                wait_until: Some(spec_next_present(next_vblank, pre_margin, post_margin)),
                expected_sequence: Some((sequence + 1) as u64),
            }
        } else {
            FrameStart { wait_until: None, expected_sequence: Some((sequence + 2) as u64) }
        }),
{
    if async_flip {
        return FrameStart { wait_until: None, expected_sequence: None };
    }
    let next_present = next_vblank.saturating_sub(pre_margin).saturating_sub(post_margin);
    if now < next_present {
        FrameStart { wait_until: Some(next_present), expected_sequence: Some(sequence + 1) }
    } else {
        FrameStart { wait_until: None, expected_sequence: Some(sequence + 2) }
    }
}

/// The time the frame's content is latched for: now for a tearing flip,
/// else the next vblank.
pub fn latch_time(async_flip: bool, now: u64, next_vblank: u64) -> (r: u64)
    ensures
        r == (if async_flip { now } else { next_vblank }),
{
    if async_flip {
        now
    } else {
        next_vblank
    }
}

/// The index of the next of `n` buffers after the one with index `idx`.
pub fn next_buffer_index(idx: u64, n: usize) -> (r: usize)
    requires
        n > 0,
        idx < u64::MAX,
    ensures
        r == ((idx + 1) % (n as int)),
        r < n,
{
    let m = n as u64;
    assert(((idx + 1) as u64) % m < m) by (nonlinear_arith)
        requires
            m > 0,
    ;
    ((idx + 1) % m) as usize
}

/// Whether the hardware cursor changed: it was enabled or disabled, its
/// image was swapped, or it moved.
pub fn cursor_changed(
    old_enabled: bool,
    new_enabled: bool,
    swapped: bool,
    old_x: i32,
    new_x: i32,
    old_y: i32,
    new_y: i32,
) -> (r: bool)
    ensures
        r == (old_enabled != new_enabled || swapped || old_x != new_x || old_y != new_y),
{
    old_enabled != new_enabled || swapped || old_x != new_x || old_y != new_y
}

/// How the cursor plane is programmed.
#[derive(Copy, Clone, Debug, PartialEq, Eq, Structural)]
pub enum CursorProgrammingType {
    /// The cursor shows the buffer with the index at the position; `swap`
    /// says whether that buffer was just painted.
    Enable { buffer: usize, x: i32, y: i32, swap: bool },
    Disable,
}

/// How the cursor plane is programmed in a frame: not at all unless the
/// cursor changed and the connector has a cursor plane; an enabled cursor
/// shows its front buffer, which is the next one where it was swapped.
pub open spec fn spec_cursor_programming(
    changed: bool,
    has_plane: bool,
    enabled: bool,
    swap: bool,
    cursor_fb_idx: u64,
    n: usize,
    x: i32,
    y: i32,
) -> Option<CursorProgrammingType> {
    if !changed || !has_plane {
        None
    } else if enabled {
        let front = if swap {
            cursor_fb_idx + 1
        } else {
            cursor_fb_idx as int
        };
        Some(CursorProgrammingType::Enable { buffer: (front % (n as int)) as usize, x, y, swap })
    } else {
        Some(CursorProgrammingType::Disable)
    }
}

pub fn cursor_programming(
    changed: bool,
    has_plane: bool,
    enabled: bool,
    swap: bool,
    cursor_fb_idx: u64,
    n: usize,
    x: i32,
    y: i32,
) -> (r: Option<CursorProgrammingType>)
    requires
        n > 0,
        cursor_fb_idx < u64::MAX,
    ensures
        r == spec_cursor_programming(changed, has_plane, enabled, swap, cursor_fb_idx, n, x, y),
        r matches Some(CursorProgrammingType::Enable { buffer, .. }) ==> buffer < n,
{
    if !changed || !has_plane {
        return None;
    }
    if !enabled {
        return Some(CursorProgrammingType::Disable);
    }
    let mut front = cursor_fb_idx;
    if swap {
        front = front + 1;
    }
    let m = n as u64;
    assert(front % m < m) by (nonlinear_arith)
        requires
            m > 0,
    ;
    Some(CursorProgrammingType::Enable { buffer: (front % m) as usize, x, y, swap })
}

/// Where a directly scanned-out buffer is shown.
#[derive(Copy, Clone, Debug, PartialEq, Eq, Structural)]
pub struct DirectScanoutPosition {
    pub src_width: i32,
    pub src_height: i32,
    pub crtc_x: i32,
    pub crtc_y: i32,
    pub crtc_width: i32,
    pub crtc_height: i32,
}

/// The framebuffer a frame presents: its id, whether it shows lock-screen
/// content, and where it is shown where it is scanned out directly.
#[derive(Copy, Clone, Debug, PartialEq, Eq, Structural)]
pub struct PresentedFb {
    pub fb: u32,
    pub locked: bool,
    pub direct: Option<DirectScanoutPosition>,
}

/// The cursor plane as a flip programs it.
#[derive(Copy, Clone, Debug, PartialEq, Eq, Structural)]
pub struct CursorFlip {
    pub plane: u32,
    pub props: PlaneProps,
    pub state: DrmPlaneState,
    /// The image to show where the cursor is enabled, with its size.
    pub fb: u32,
    pub width: i32,
    pub height: i32,
    pub ty: CursorProgrammingType,
}

/// What a flip changes and how it is committed.
pub struct FlipPlan {
    /// The property changes of every commit.
    pub changes: Vec<PropChange>,
    /// Whether the flip is first committed asynchronously; where that
    /// fails, it is committed synchronously.
    pub try_async: bool,
    /// A synchronous commit sets the primary plane's in-fence to the signaled
    /// sync file.
    pub in_fence_on_primary: bool,
    /// A synchronous commit asks the CRTC for an out-fence.
    pub out_fence: bool,
    /// The cursor plane's in-fence is set to the signaled sync file.
    pub in_fence_on_cursor: bool,
    pub primary_state: Option<DrmPlaneState>,
    pub cursor_state: Option<DrmPlaneState>,
    /// The connector's state once the flip is committed (whether it has an
    /// out-fence is known only then).
    pub connector_state: DrmConnectorState,
}

/// The primary plane's fields a flip compares, in order: each property
/// id, the old value and the new value.
pub open spec fn spec_primary_fields(p: PlaneProps, o: DrmPlaneState, src_w: u32, src_h: u32, pos: (i32, i32, i32, i32)) -> Seq<(u32, u64, u64)> {
    seq![
        (p.src_w, o.src_w as u64, src_w as u64),
        (p.src_h, o.src_h as u64, src_h as u64),
        (p.crtc_x, o.crtc_x as u64, pos.0 as u64),
        (p.crtc_y, o.crtc_y as u64, pos.1 as u64),
        (p.crtc_w, o.crtc_w as u64, pos.2 as u64),
        (p.crtc_h, o.crtc_h as u64, pos.3 as u64),
    ]
}

/// The changes of fields whose values differ.
pub open spec fn spec_diff(object: u32, fields: Seq<(u32, u64, u64)>) -> Seq<PropChange>
    decreases fields.len(),
{
    if fields.len() == 0 {
        Seq::empty()
    } else {
        let f = fields.last();
        spec_diff(object, fields.drop_last()) + if f.1 != f.2 {
            seq![PropChange { object, prop: f.0, value: f.2 }]
        } else {
            Seq::empty()
        }
    }
}

/// A flip sets only fields that change: each change of the diff is a
/// field whose new value differs from its old one, set to the new value,
/// and where no field changes there is no change at all.
pub proof fn lemma_diff_sets_only_changes(object: u32, fields: Seq<(u32, u64, u64)>)
    ensures
        (forall|i: int| 0 <= i < fields.len() ==> (#[trigger] fields[i]).1 == fields[i].2) ==> spec_diff(
            object,
            fields,
        ).len() == 0,
        forall|k: int|
            #![trigger spec_diff(object, fields)[k]]
            0 <= k < spec_diff(object, fields).len() ==> exists|i: int|
                0 <= i < fields.len() && (#[trigger] fields[i]).1 != fields[i].2 && spec_diff(object, fields)[k]
                    == (PropChange { object, prop: fields[i].0, value: fields[i].2 }),
    decreases fields.len(),
{
    if fields.len() > 0 {
        let init = fields.drop_last();
        lemma_diff_sets_only_changes(object, init);
        let d = spec_diff(object, fields);
        let di = spec_diff(object, init);
        assert forall|k: int| #![trigger d[k]] 0 <= k < d.len() implies exists|i: int|
            0 <= i < fields.len() && (#[trigger] fields[i]).1 != fields[i].2 && d[k] == (PropChange {
                object,
                prop: fields[i].0,
                value: fields[i].2,
            }) by {
            if k < di.len() {
                assert(d[k] == di[k]);
                let i = choose|i: int|
                    0 <= i < init.len() && (#[trigger] init[i]).1 != init[i].2 && di[k] == (PropChange {
                        object,
                        prop: init[i].0,
                        value: init[i].2,
                    });
                assert(fields[i] == init[i]);
            } else {
                assert(fields[fields.len() - 1] == fields.last());
            }
        }
        if forall|i: int| 0 <= i < fields.len() ==> (#[trigger] fields[i]).1 == fields[i].2 {
            assert forall|i: int| 0 <= i < init.len() implies (#[trigger] init[i]).1 == init[i].2 by {
                assert(init[i] == fields[i]);
            }
            assert(fields[fields.len() - 1] == fields.last());
        }
    }
}

/// A field whose value changes is set to its new value by the diff.
pub proof fn lemma_diff_sets_each_change(object: u32, fields: Seq<(u32, u64, u64)>, i: int)
    requires
        0 <= i < fields.len(),
        fields[i].1 != fields[i].2,
    ensures
        spec_diff(object, fields).contains(PropChange { object, prop: fields[i].0, value: fields[i].2 }),
    decreases fields.len(),
{
    let d = spec_diff(object, fields);
    let init = fields.drop_last();
    let c = PropChange { object, prop: fields[i].0, value: fields[i].2 };
    if i == fields.len() - 1 {
        assert(fields.last() == fields[i]);
        assert(d[d.len() - 1] == c);
    } else {
        assert(init[i] == fields[i]);
        lemma_diff_sets_each_change(object, init, i);
        let k = choose|k: int| 0 <= k < spec_diff(object, init).len() && spec_diff(object, init)[k] == c;
        assert(d[k] == c);
    }
}

proof fn lemma_i32_as_u64_injective(a: i32, b: i32)
    by (bit_vector)
    ensures
        (a as u64 == b as u64) <==> a == b,
{
}

/// A flip sets each field of the primary plane's rectangle that changes to
/// its new value: the source size (in 16.16 fixed point, as given) and the
/// position and size on the CRTC; it sets nothing else of the rectangle,
/// and nothing at all where no field changes.
pub proof fn lemma_flip_sets_primary_rectangle(
    plane: u32,
    p: PlaneProps,
    o: DrmPlaneState,
    src_w: u32,
    src_h: u32,
    pos: (i32, i32, i32, i32),
)
    ensures
        ({
            let d = spec_diff(plane, spec_primary_fields(p, o, src_w, src_h, pos));
            &&& o.src_w != src_w ==> d.contains(PropChange { object: plane, prop: p.src_w, value: src_w as u64 })
            &&& o.src_h != src_h ==> d.contains(PropChange { object: plane, prop: p.src_h, value: src_h as u64 })
            &&& o.crtc_x != pos.0 ==> d.contains(PropChange { object: plane, prop: p.crtc_x, value: pos.0 as u64 })
            &&& o.crtc_y != pos.1 ==> d.contains(PropChange { object: plane, prop: p.crtc_y, value: pos.1 as u64 })
            &&& o.crtc_w != pos.2 ==> d.contains(PropChange { object: plane, prop: p.crtc_w, value: pos.2 as u64 })
            &&& o.crtc_h != pos.3 ==> d.contains(PropChange { object: plane, prop: p.crtc_h, value: pos.3 as u64 })
            &&& (o.src_w == src_w && o.src_h == src_h && o.crtc_x == pos.0 && o.crtc_y == pos.1 && o.crtc_w == pos.2
                && o.crtc_h == pos.3 ==> d.len() == 0)
        }),
        forall|k: int|
            0 <= k < spec_diff(plane, spec_primary_fields(p, o, src_w, src_h, pos)).len() ==> {
                let c = #[trigger] spec_diff(plane, spec_primary_fields(p, o, src_w, src_h, pos))[k];
                ||| c == (PropChange { object: plane, prop: p.src_w, value: src_w as u64 })
                ||| c == (PropChange { object: plane, prop: p.src_h, value: src_h as u64 })
                ||| c == (PropChange { object: plane, prop: p.crtc_x, value: pos.0 as u64 })
                ||| c == (PropChange { object: plane, prop: p.crtc_y, value: pos.1 as u64 })
                ||| c == (PropChange { object: plane, prop: p.crtc_w, value: pos.2 as u64 })
                ||| c == (PropChange { object: plane, prop: p.crtc_h, value: pos.3 as u64 })
            },
{
    let f = spec_primary_fields(p, o, src_w, src_h, pos);
    lemma_diff_sets_only_changes(plane, f);
    if f[0].1 != f[0].2 {
        lemma_diff_sets_each_change(plane, f, 0);
    }
    if f[1].1 != f[1].2 {
        lemma_diff_sets_each_change(plane, f, 1);
    }
    if f[2].1 != f[2].2 {
        lemma_diff_sets_each_change(plane, f, 2);
    }
    if f[3].1 != f[3].2 {
        lemma_diff_sets_each_change(plane, f, 3);
    }
    if f[4].1 != f[4].2 {
        lemma_diff_sets_each_change(plane, f, 4);
    }
    if f[5].1 != f[5].2 {
        lemma_diff_sets_each_change(plane, f, 5);
    }
    assert(f[0].1 != f[0].2 <==> o.src_w != src_w);
    assert(f[1].1 != f[1].2 <==> o.src_h != src_h);
    lemma_i32_as_u64_injective(o.crtc_x, pos.0);
    lemma_i32_as_u64_injective(o.crtc_y, pos.1);
    lemma_i32_as_u64_injective(o.crtc_w, pos.2);
    lemma_i32_as_u64_injective(o.crtc_h, pos.3);
    assert forall|k: int| 0 <= k < spec_diff(plane, f).len() implies {
        let c = #[trigger] spec_diff(plane, f)[k];
        ||| c == (PropChange { object: plane, prop: p.src_w, value: src_w as u64 })
        ||| c == (PropChange { object: plane, prop: p.src_h, value: src_h as u64 })
        ||| c == (PropChange { object: plane, prop: p.crtc_x, value: pos.0 as u64 })
        ||| c == (PropChange { object: plane, prop: p.crtc_y, value: pos.1 as u64 })
        ||| c == (PropChange { object: plane, prop: p.crtc_w, value: pos.2 as u64 })
        ||| c == (PropChange { object: plane, prop: p.crtc_h, value: pos.3 as u64 })
    } by {
        let i = choose|i: int|
            0 <= i < f.len() && (#[trigger] f[i]).1 != f[i].2 && spec_diff(plane, f)[k] == (PropChange {
                object: plane,
                prop: f[i].0,
                value: f[i].2,
            });
        assert(0 <= i < 6);
    }
    if o.src_w == src_w && o.src_h == src_h && o.crtc_x == pos.0 && o.crtc_y == pos.1 && o.crtc_w == pos.2 && o.crtc_h
        == pos.3 {
        assert forall|i: int| 0 <= i < f.len() implies (#[trigger] f[i]).1 == f[i].2 by {}
    }
}

fn push_diff(out: &mut Vec<PropChange>, object: u32, fields: &[(u32, u64, u64)]) -> (changed: bool)
    ensures
        final(out)@ == old(out)@ + spec_diff(object, fields@),
        changed == (spec_diff(object, fields@).len() > 0),
{
    let ghost start = out@;
    let mut changed = false;
    let mut i: usize = 0;
    while i < fields.len()
        invariant
            i <= fields@.len(),
            out@ == start + spec_diff(object, fields@.take(i as int)),
            changed == (spec_diff(object, fields@.take(i as int)).len() > 0),
        decreases fields@.len() - i,
    {
        let (prop, o, n) = fields[i];
        proof {
            assert(fields@.take(i + 1).drop_last() =~= fields@.take(i as int));
            assert(fields@.take(i + 1).last() == fields@[i as int]);
        }
        if o != n {
            out.push(PropChange { object, prop, value: n });
            changed = true;
        }
        proof {
            assert(out@ =~= start + spec_diff(object, fields@.take(i + 1)));
        }
        i += 1;
    }
    assert(fields@.take(fields@.len() as int) =~= fields@);
    changed
}

/// The cursor plane's changes, in order.
pub open spec fn spec_cursor_changes(c: CursorFlip, crtc: u32) -> Seq<PropChange> {
    let o = c.plane;
    let p = c.props;
    match c.ty {
        CursorProgrammingType::Enable { x, y, .. } => seq![
            PropChange { object: o, prop: p.fb_id, value: c.fb as u64 },
            PropChange { object: o, prop: p.crtc_id, value: crtc as u64 },
            PropChange { object: o, prop: p.crtc_x, value: x as u64 },
            PropChange { object: o, prop: p.crtc_y, value: y as u64 },
            PropChange { object: o, prop: p.crtc_w, value: c.width as u64 },
            PropChange { object: o, prop: p.crtc_h, value: c.height as u64 },
            PropChange { object: o, prop: p.src_x, value: 0 },
            PropChange { object: o, prop: p.src_y, value: 0 },
            PropChange { object: o, prop: p.src_w, value: ((c.width as u32) << 16u32) as u64 },
            PropChange { object: o, prop: p.src_h, value: ((c.height as u32) << 16u32) as u64 },
        ],
        CursorProgrammingType::Disable => seq![
            PropChange { object: o, prop: p.fb_id, value: 0 },
            PropChange { object: o, prop: p.crtc_id, value: 0 },
        ],
    }
}

/// A size in 16.16 fixed point, as DRM takes source rectangles: the size
/// times 65536, modulo 2^32.
pub open spec fn spec_fixed_16_16(v: u32) -> u64 {
    ((v as int * 65536) % 0x1_0000_0000) as u64
}

proof fn lemma_shift_is_fixed_16_16(v: u32)
    ensures
        ((v << 16u32) as u64) == spec_fixed_16_16(v),
{
    assert((v << 16u32) as int == (v as int * 65536) % 0x1_0000_0000) by (bit_vector);
}

/// A cursor plane is changed only by its own changes: an enabled cursor
/// shows its image (the whole of it, at its size) on the CRTC with CRTC_X
/// set to the cursor's x and CRTC_Y to its y; a disabled cursor's plane is
/// detached from its framebuffer and its CRTC and nothing else is set.
pub proof fn lemma_cursor_shown_at_its_position(c: CursorFlip, crtc: u32)
    ensures
        ({
            let ch = spec_cursor_changes(c, crtc);
            let o = c.plane;
            let p = c.props;
            &&& forall|i: int| 0 <= i < ch.len() ==> (#[trigger] ch[i]).object == o
            &&& (c.ty matches CursorProgrammingType::Enable { x, y, .. } ==> {
                &&& ch.contains(PropChange { object: o, prop: p.fb_id, value: c.fb as u64 })
                &&& ch.contains(PropChange { object: o, prop: p.crtc_id, value: crtc as u64 })
                &&& ch.contains(PropChange { object: o, prop: p.crtc_x, value: x as u64 })
                &&& ch.contains(PropChange { object: o, prop: p.crtc_y, value: y as u64 })
                &&& ch.contains(PropChange { object: o, prop: p.crtc_w, value: c.width as u64 })
                &&& ch.contains(PropChange { object: o, prop: p.crtc_h, value: c.height as u64 })
                &&& ch.contains(PropChange { object: o, prop: p.src_x, value: 0 })
                &&& ch.contains(PropChange { object: o, prop: p.src_y, value: 0 })
                &&& ch.contains(
                    PropChange { object: o, prop: p.src_w, value: spec_fixed_16_16(c.width as u32) },
                )
                &&& ch.contains(
                    PropChange { object: o, prop: p.src_h, value: spec_fixed_16_16(c.height as u32) },
                )
            })
            &&& (c.ty is Disable ==> ch =~= seq![
                PropChange { object: o, prop: p.fb_id, value: 0 },
                PropChange { object: o, prop: p.crtc_id, value: 0 },
            ])
        }),
{
    lemma_shift_is_fixed_16_16(c.width as u32);
    lemma_shift_is_fixed_16_16(c.height as u32);
}

/// Plans a flip of the connector on the CRTC: a new framebuffer is put on
/// the primary plane (its rectangle is the whole mode, or the position of
/// a buffer that is scanned out directly; only rectangle fields that change
/// are set, and a change rules out tearing), and the cursor is programmed
/// (which rules out tearing). Without NVIDIA, a synchronous commit fences
/// the primary plane with the signaled sync file and asks for an
/// out-fence, and an enabled cursor is fenced too.
pub fn program_connector(
    crtc: u32,
    primary_plane: u32,
    primary_props: PlaneProps,
    primary_state: DrmPlaneState,
    mode_w: i32,
    mode_h: i32,
    new_fb: Option<PresentedFb>,
    cursor: Option<CursorFlip>,
    connector: DrmConnectorState,
    tearing: bool,
    supports_async_commit: bool,
    is_nvidia: bool,
    has_signaled_sync_file: bool,
) -> (r: FlipPlan)
    requires
        connector.fb_idx < u64::MAX,
        connector.cursor_fb_idx < u64::MAX,
    ensures
        ({
            let (primary_changes, rect_changed) = match new_fb {
                Some(f) => {
                    let pos = match f.direct {
                        None => (0i32, 0i32, mode_w, mode_h),
                        Some(d) => (d.crtc_x, d.crtc_y, d.crtc_width, d.crtc_height),
                    };
                    let (sw, sh) = match f.direct {
                        None => (mode_w, mode_h),
                        Some(d) => (d.src_width, d.src_height),
                    };
                    let d = spec_diff(
                        primary_plane,
                        spec_primary_fields(primary_props, primary_state, (sw as u32) << 16u32, (sh as u32) << 16u32, pos),
                    );
                    (seq![PropChange { object: primary_plane, prop: primary_props.fb_id, value: f.fb as u64 }] + d, d.len()
                        > 0)
                },
                None => (Seq::<PropChange>::empty(), false),
            };
            let cursor_changes = match cursor {
                Some(c) => spec_cursor_changes(c, crtc),
                None => Seq::empty(),
            };
            &&& r.changes@ == primary_changes + cursor_changes
            &&& r.try_async == (tearing && supports_async_commit && !rect_changed && cursor is None)
            &&& r.in_fence_on_primary == (!is_nvidia && new_fb is Some && has_signaled_sync_file)
            &&& r.out_fence == !is_nvidia
            &&& r.in_fence_on_cursor == (!is_nvidia && has_signaled_sync_file && (cursor matches Some(c)
                && c.ty is Enable))
            &&& r.primary_state is Some == new_fb is Some
            &&& r.cursor_state is Some == cursor is Some
            &&& (new_fb matches Some(f) ==> {
                &&& r.connector_state.fb == f.fb
                &&& r.connector_state.locked == f.locked
                &&& r.connector_state.fb_idx == if f.direct is None {
                    (connector.fb_idx + 1) as u64
                } else {
                    connector.fb_idx
                }
                &&& r.primary_state->0.fb_id == f.fb
            })
            &&& (cursor matches Some(c) ==> match c.ty {
                CursorProgrammingType::Enable { x, y, swap, .. } => {
                    &&& r.connector_state.cursor_fb == c.fb
                    &&& r.connector_state.cursor_x == x
                    &&& r.connector_state.cursor_y == y
                    &&& r.connector_state.cursor_fb_idx == if swap {
                        (connector.cursor_fb_idx + 1) as u64
                    } else {
                        connector.cursor_fb_idx
                    }
                },
                CursorProgrammingType::Disable => r.connector_state.cursor_fb == 0,
            })
        }),
{
    let mut changes: Vec<PropChange> = Vec::new();
    let mut try_async = tearing && supports_async_commit;
    let mut conn = connector;
    let mut primary_out: Option<DrmPlaneState> = None;
    let mut cursor_out: Option<DrmPlaneState> = None;
    let ghost mut primary_part: Seq<PropChange> = Seq::empty();
    let ghost mut rect_changed = false;
    if let Some(f) = new_fb {
        let (crtc_x, crtc_y, crtc_w, crtc_h, src_width, src_height) = match f.direct {
            None => (0i32, 0i32, mode_w, mode_h, mode_w, mode_h),
            Some(d) => (d.crtc_x, d.crtc_y, d.crtc_width, d.crtc_height, d.src_width, d.src_height),
        };
        let mut ps = primary_state;
        changes.push(PropChange { object: primary_plane, prop: primary_props.fb_id, value: f.fb as u64 });
        ps.fb_id = f.fb;
        conn.fb = f.fb;
        conn.locked = f.locked;
        if f.direct.is_none() {
            conn.fb_idx = conn.fb_idx + 1;
        }
        let sw = (src_width as u32) << 16u32;
        let sh = (src_height as u32) << 16u32;
        let fields = [
            (primary_props.src_w, ps.src_w as u64, sw as u64),
            (primary_props.src_h, ps.src_h as u64, sh as u64),
            (primary_props.crtc_x, ps.crtc_x as u64, crtc_x as u64),
            (primary_props.crtc_y, ps.crtc_y as u64, crtc_y as u64),
            (primary_props.crtc_w, ps.crtc_w as u64, crtc_w as u64),
            (primary_props.crtc_h, ps.crtc_h as u64, crtc_h as u64),
        ];
        assert(fields@ =~= spec_primary_fields(primary_props, primary_state, sw, sh, (crtc_x, crtc_y, crtc_w, crtc_h)));
        let changed = push_diff(&mut changes, primary_plane, fields.as_slice());
        if changed {
            try_async = false;
        }
        ps.src_w = sw;
        ps.src_h = sh;
        ps.crtc_x = crtc_x;
        ps.crtc_y = crtc_y;
        ps.crtc_w = crtc_w;
        ps.crtc_h = crtc_h;
        conn.src_w = ps.src_w;
        conn.src_h = ps.src_h;
        conn.crtc_x = ps.crtc_x;
        conn.crtc_y = ps.crtc_y;
        conn.crtc_w = ps.crtc_w;
        conn.crtc_h = ps.crtc_h;
        primary_out = Some(ps);
        proof {
            primary_part = changes@;
            rect_changed = changed;
        }
    }
    let mut in_fence_on_cursor = false;
    if let Some(c) = cursor {
        let mut cs = c.state;
        try_async = false;
        let o = c.plane;
        let p = c.props;
        match c.ty {
            CursorProgrammingType::Enable { x, y, swap, .. } => {
                conn.cursor_fb = c.fb;
                if swap {
                    conn.cursor_fb_idx = conn.cursor_fb_idx + 1;
                }
                conn.cursor_x = x;
                conn.cursor_y = y;
                changes.push(PropChange { object: o, prop: p.fb_id, value: c.fb as u64 });
                changes.push(PropChange { object: o, prop: p.crtc_id, value: crtc as u64 });
                changes.push(PropChange { object: o, prop: p.crtc_x, value: x as u64 });
                changes.push(PropChange { object: o, prop: p.crtc_y, value: y as u64 });
                changes.push(PropChange { object: o, prop: p.crtc_w, value: c.width as u64 });
                changes.push(PropChange { object: o, prop: p.crtc_h, value: c.height as u64 });
                changes.push(PropChange { object: o, prop: p.src_x, value: 0 });
                changes.push(PropChange { object: o, prop: p.src_y, value: 0 });
                changes.push(PropChange { object: o, prop: p.src_w, value: ((c.width as u32) << 16u32) as u64 });
                changes.push(PropChange { object: o, prop: p.src_h, value: ((c.height as u32) << 16u32) as u64 });
                cs.fb_id = c.fb;
                cs.crtc_id = crtc;
                cs.crtc_x = x;
                cs.crtc_y = y;
                cs.crtc_w = c.width;
                cs.crtc_h = c.height;
                cs.src_x = 0;
                cs.src_y = 0;
                cs.src_w = (c.width as u32) << 16u32;
                cs.src_h = (c.height as u32) << 16u32;
                in_fence_on_cursor = !is_nvidia && has_signaled_sync_file;
            },
            CursorProgrammingType::Disable => {
                conn.cursor_fb = 0;
                changes.push(PropChange { object: o, prop: p.fb_id, value: 0 });
                changes.push(PropChange { object: o, prop: p.crtc_id, value: 0 });
                cs.fb_id = 0;
                cs.crtc_id = 0;
            },
        }
        cursor_out = Some(cs);
        proof {
            assert(changes@ =~= primary_part + spec_cursor_changes(c, crtc));
        }
    }
    FlipPlan {
        changes,
        try_async,
        in_fence_on_primary: !is_nvidia && new_fb.is_some() && has_signaled_sync_file,
        out_fence: !is_nvidia,
        in_fence_on_cursor,
        primary_state: primary_out,
        cursor_state: cursor_out,
        connector_state: conn,
    }
}

/// What follows a failed commit of a frame: where a buffer was scanned out
/// directly, the frame is prepared again without it and committed once
/// more (and the buffer is remembered as impossible to scan out where that
/// succeeds); a commit refused because the device is no longer ours is no
/// error.
#[derive(Copy, Clone, Debug, PartialEq, Eq, Structural)]
pub enum CommitFailure {
    RetryWithoutDirectScanout,
    Ignore,
    Fail,
}

pub fn commit_failure(direct_scanout: bool, retried: bool, access_denied: bool) -> (r: CommitFailure)
    ensures
        r == (if direct_scanout && !retried {
            CommitFailure::RetryWithoutDirectScanout
        } else if access_denied {
            CommitFailure::Ignore
        } else {
            CommitFailure::Fail
        }),
{
    if direct_scanout && !retried {
        CommitFailure::RetryWithoutDirectScanout
    } else if access_denied {
        CommitFailure::Ignore
    } else {
        CommitFailure::Fail
    }
}

/// What follows a committed frame.
#[derive(Copy, Clone, Debug, PartialEq, Eq, Structural)]
pub struct PresentDone {
    /// The frame was scanned out without a copy.
    pub zero_copy: bool,
    /// All buffers' damage is reset and the first buffer is repainted in
    /// full (after a directly scanned-out frame); else only the presented
    /// buffer's damage is cleared.
    pub reset_damage: bool,
    pub clear_buffer_damage: bool,
    /// The cursor's image no longer needs to be swapped in.
    pub cursor_swapped: bool,
    /// The damage that the frame consumed.
    pub consumed_damage: u64,
}

pub fn present_done(
    presented: Option<bool>,
    cursor: Option<CursorProgrammingType>,
    latched_damage: Option<u64>,
) -> (r: PresentDone)
    ensures
        r.zero_copy == (presented == Some(true)),
        r.reset_damage == (presented == Some(true)),
        r.clear_buffer_damage == (presented == Some(false)),
        r.cursor_swapped == (cursor matches Some(CursorProgrammingType::Enable { swap, .. }) && swap),
        r.consumed_damage == match latched_damage {
            Some(d) => d,
            None => 0,
        },
{
    let direct = match presented {
        Some(d) => d,
        None => false,
    };
    let swapped = match cursor {
        Some(CursorProgrammingType::Enable { swap, .. }) => swap,
        _ => false,
    };
    PresentDone {
        zero_copy: direct,
        reset_damage: direct,
        clear_buffer_damage: presented.is_some() && !direct,
        cursor_swapped: swapped,
        consumed_damage: match latched_damage {
            Some(d) => d,
            None => 0,
        },
    }
}

/// Where a buffer that could be scanned out directly comes from.
#[derive(Copy, Clone, Debug, PartialEq, Eq, Structural)]
pub enum ScanoutSource {
    /// The client's buffer, which lives on this device.
    Client,
    /// The texture the compositor holds.
    Texture,
}

/// Where a directly scanned-out buffer comes from: the client's buffer
/// where it lives on this device; else, on the render device, the
/// compositor's texture unless it has pending work; none otherwise. A
/// buffer without a dmabuf cannot be scanned out.
pub fn scanout_source(
    client_buffer_on_device: bool,
    is_render_device: bool,
    lazy_work_pending: bool,
    has_dmabuf: bool,
) -> (r: Option<ScanoutSource>)
    ensures
        r == (if client_buffer_on_device {
            if has_dmabuf { Some(ScanoutSource::Client) } else { None }
        } else if is_render_device && !lazy_work_pending {
            if has_dmabuf { Some(ScanoutSource::Texture) } else { None }
        } else {
            None
        }),
{
    let src = if client_buffer_on_device {
        ScanoutSource::Client
    } else if is_render_device {
        if lazy_work_pending {
            return None;
        }
        ScanoutSource::Texture
    } else {
        return None;
    };
    if !has_dmabuf {
        return None;
    }
    Some(src)
}

/// The format under which a dmabuf is scanned out directly on a plane
/// whose formats (with the modifiers of each) are given: the dmabuf's own
/// format where the plane has it, else its opaque variant where it has one
/// and the plane has that; none where neither is there, or where the
/// chosen format does not take the dmabuf's modifier.
pub open spec fn spec_direct_scanout_format(
    formats: Map<u32, IndexSet<u64>>,
    format: u32,
    opaque: Option<u32>,
    modifier: u64,
) -> Option<u32> {
    let chosen = if formats.contains_key(format) {
        Some(format)
    } else {
        match opaque {
            Some(o) => if formats.contains_key(o) {
                Some(o)
            } else {
                None
            },
            None => None,
        }
    };
    match chosen {
        Some(f) => if modifier_set_items(formats[f]).contains(modifier) {
            Some(f)
        } else {
            None
        },
        None => None,
    }
}

/// The format under which a dmabuf (its format, the opaque variant of that
/// format where it has one, and its modifier) is scanned out directly on a
/// plane with the formats; none where the plane cannot scan it out.
pub fn direct_scanout_format(formats: &PlaneFormats, format: u32, opaque: Option<u32>, modifier: u64) -> (r: Option<u32>)
    ensures
        r == spec_direct_scanout_format(plane_format_entries(*formats), format, opaque, modifier),
{
    let (f, mods) = match plane_format_modifiers(formats, format) {
        Some(m) => (format, m),
        None => match opaque {
            Some(o) => match plane_format_modifiers(formats, o) {
                Some(m) => (o, m),
                None => {
                    return None;
                },
            },
            None => {
                return None;
            },
        },
    };
    if modifier_set_contains(mods, modifier) {
        Some(f)
    } else {
        None
    }
}

} // verus!
