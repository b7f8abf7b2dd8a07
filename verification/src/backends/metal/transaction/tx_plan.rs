//! The DRM state a transaction asks for: each connector that drives a
//! display gets a CRTC, a primary plane and, where one fits, a cursor
//! plane, a mode, scanout buffers and a framebuffer to show; connectors
//! that drive nothing release what they held.
//!
//! The planner decides everything that does not need the device. What needs
//! it (mode and HDR metadata blobs, buffer allocation, filling and blanking
//! buffers) is returned as actions, in the order in which they are to be
//! performed; a failed action ends the transaction with its error, before
//! the planner's own error, if any. An action that creates an object leaves
//! the field that is to name it for the caller to fill in.

use vstd::prelude::*;
use ahash::AHashMap;
use indexmap::IndexSet;
use crate::backend::BackendConnectorState;
use crate::backend::ConnectorKernelId;
use crate::backend::Mode;
use crate::backend::BackendColorSpace;
use crate::backends::metal::video::PlaneType;
use super::DrmConnectorState;
use super::DrmCrtcState;
use super::DrmModeInfo;
use super::DrmPlaneState;
use super::HdrMetadata;
use super::modes_equal;
use super::spec_default_connector_state;
use super::spec_default_plane_state;
use super::spec_modes_equal;
use super::tx_rules::buffers_reusable;
use super::tx_rules::check_capabilities;
use super::tx_rules::choose_fb;
use super::tx_rules::drives_display;
use super::tx_rules::hdr_update;
use super::tx_rules::spec_check_capabilities;
use super::tx_rules::spec_drives_display;
use super::tx_rules::BackendConnectorTransactionError;
use super::tx_rules::FbChoice;
use super::tx_rules::HdrUpdate;
use super::tx_rules::TxBuffers;
use super::tx_rules::ARGB8888;
use super::tx_rules::spec_buffers_reusable;
use super::tx_rules::spec_choose_fb;
use super::tx_rules::spec_may_show;
use super::tx_rules::spec_hdr_update;
use crate::backends::metal::allocator::modifier_set_items;

verus! {

/// The formats a plane supports, with the modifiers of each.
pub type PlaneFormats = AHashMap<u32, IndexSet<u64>>;

/// What a map of plane formats holds.
pub uninterp spec fn plane_format_entries(m: PlaneFormats) -> Map<u32, IndexSet<u64>>;

/// Calls `AHashMap::get`. The contract claims that the result is the set
/// stored under the format, if any.
#[verifier::external_body]
pub(crate) fn plane_format_modifiers(m: &PlaneFormats, format: u32) -> (r: Option<&IndexSet<u64>>)
    ensures
        match r {
            Some(s) => plane_format_entries(*m).contains_key(format) && *s == plane_format_entries(*m)[format],
            None => !plane_format_entries(*m).contains_key(format),
        },
{
    m.get(&format)
}

/// A set of object ids.
struct IdSet {
    items: Vec<u32>,
}

impl View for IdSet {
    type V = Set<u32>;

    closed spec fn view(&self) -> Set<u32> {
        Set::new(|x: u32| self.items@.contains(x))
    }
}

impl IdSet {
    fn new() -> (r: Self)
        ensures
            r@ == Set::<u32>::empty(),
    {
        let r = IdSet { items: Vec::new() };
        assert(r@ =~= Set::<u32>::empty());
        r
    }

    fn contains(&self, x: u32) -> (r: bool)
        ensures
            r == self@.contains(x),
    {
        let mut i: usize = 0;
        while i < self.items.len()
            invariant
                i <= self.items@.len(),
                forall|k: int| 0 <= k < i ==> self.items@[k] != x,
            decreases self.items@.len() - i,
        {
            if self.items[i] == x {
                assert(self.items@[i as int] == x);
                return true;
            }
            i += 1;
        }
        false
    }

    fn insert(&mut self, x: u32)
        ensures
            final(self)@ == old(self)@.insert(x),
    {
        self.items.push(x);
        proof {
            assert forall|y: u32| #[trigger] self.items@.contains(y) <==> (old(self).items@.contains(y) || y == x) by {
                if self.items@.contains(y) && y != x {
                    let k = choose|k: int| 0 <= k < self.items@.len() && self.items@[k] == y;
                    assert(old(self).items@[k] == y);
                }
                if old(self).items@.contains(y) {
                    let k = choose|k: int| 0 <= k < old(self).items@.len() && old(self).items@[k] == y;
                    assert(self.items@[k] == y);
                }
                if y == x {
                    assert(self.items@[self.items@.len() - 1] == y);
                }
            }
        }
        assert(self@ =~= old(self)@.insert(x));
    }

    fn remove(&mut self, x: u32)
        ensures
            final(self)@ == old(self)@.remove(x),
    {
        let mut kept: Vec<u32> = Vec::new();
        let mut i: usize = 0;
        while i < self.items.len()
            invariant
                i <= self.items@.len(),
                forall|y: u32| #[trigger] kept@.contains(y) <==> (self.items@.take(i as int).contains(y) && y != x),
            decreases self.items@.len() - i,
        {
            let v = self.items[i];
            let ghost before = kept@;
            proof {
                assert(self.items@.take(i + 1) =~= self.items@.take(i as int).push(v));
            }
            if v != x {
                kept.push(v);
            }
            proof {
                assert forall|y: u32| #[trigger] kept@.contains(y) <==> (self.items@.take(i + 1).contains(y) && y != x) by {
                    let t = self.items@.take(i as int);
                    if kept@.contains(y) {
                        let k = choose|k: int| 0 <= k < kept@.len() && kept@[k] == y;
                        if k < before.len() {
                            assert(before[k] == y);
                            assert(before.contains(y));
                            let q = choose|q: int| 0 <= q < t.len() && t[q] == y;
                            assert(t.push(v)[q] == y);
                        } else {
                            assert(y == v);
                            assert(t.push(v)[t.len() as int] == y);
                        }
                    }
                    if t.push(v).contains(y) && y != x {
                        let q = choose|q: int| 0 <= q < t.push(v).len() && t.push(v)[q] == y;
                        if q < t.len() {
                            assert(t[q] == y);
                            assert(t.contains(y));
                            assert(before.contains(y));
                            let k = choose|k: int| 0 <= k < before.len() && before[k] == y;
                            assert(kept@[k] == y);
                        } else {
                            assert(y == v);
                            assert(kept@[kept@.len() - 1] == y);
                        }
                    }
                }
            }
            i += 1;
        }
        assert(self.items@.take(self.items@.len() as int) =~= self.items@);
        self.items = kept;
        assert(self@ =~= old(self)@.remove(x));
    }
}

/// A CRTC as the planner sees it: its id and the planes that can show on it.
pub struct TxCrtcInfo {
    pub id: u32,
    pub possible_planes: Vec<u32>,
}

/// A plane as the planner sees it.
pub struct TxPlaneInfo {
    pub id: u32,
    pub ty: PlaneType,
    pub formats: PlaneFormats,
}

/// A connector as the planner sees it: the state asked for, its display,
/// the CRTCs it can use, its modes (as the kernel describes them and as
/// the compositor does), what it supports, its buffers, and whether a
/// client buffer is scanned out directly and its buffers are idle.
pub struct TxConnectorInfo {
    pub id: u32,
    pub kernel_id: ConnectorKernelId,
    pub state: BackendConnectorState,
    pub connected: bool,
    pub non_desktop: bool,
    pub crtcs: Vec<u32>,
    pub modes: Vec<DrmModeInfo>,
    pub backend_modes: Vec<Mode>,
    pub vrr_capable: bool,
    pub supports_bt2020: bool,
    pub supports_pq: bool,
    pub has_hdr_metadata: bool,
    pub buffers: Option<TxBuffers>,
    pub cursor_buffers: Option<TxBuffers>,
    pub direct_scanout_active: bool,
    pub buffers_idle: bool,
}

/// The device as the planner sees it.
#[derive(Copy, Clone, Debug)]
pub struct TxDevice {
    pub session_locked: bool,
    pub supports_async_commit: bool,
    pub allow_direct_scanout: bool,
    pub cursor_width: i32,
    pub cursor_height: i32,
}

/// Work on the device that the planned state needs.
#[derive(Copy, Clone, Debug, PartialEq, Eq, Structural)]
pub enum TxAction {
    /// Create a blob of the CRTC's new mode; it becomes the CRTC's mode
    /// blob (fails with `CreateModeBlob`).
    CreateModeBlob { crtc: usize },
    /// Allocate scanout buffers for the plane of the connector; they become
    /// the plane's buffers (fails with `AllocateScanoutBuffers`).
    AllocateBuffers { connector: usize, plane: usize, format: u32, width: i32, height: i32, cursor: bool },
    /// The plane shows the first new buffer, which is filled from the old
    /// buffer with the index, or cleared.
    ShowNewBuffer { connector: usize, plane: usize, copy_from: Option<usize> },
    /// Blank the plane's buffer with the index (it is repainted in full and
    /// counts as blanked afterwards), after the CRTC's last commit has
    /// completed where asked.
    BlankBuffer { connector: usize, plane: usize, index: usize, wait_out_fd: bool },
    /// Create a blob of the metadata that announces the EOTF; it becomes
    /// the connector's HDR metadata blob (fails with
    /// `CreateHdrMetadataBlob`).
    CreateHdrBlob { connector: usize, eotf: u8 },
}

/// The planes, CRTC and mode chosen for a connector that drives a display.
#[derive(Copy, Clone, Debug, PartialEq, Eq, Structural)]
pub struct ConnectorChoice {
    pub crtc: usize,
    pub primary: usize,
    pub cursor: Option<usize>,
    pub mode: usize,
}

/// The outcome of planning: the actions to perform, in order, and the
/// planner's verdict, which stands only once the actions succeeded.
pub struct TxPlan {
    pub actions: Vec<TxAction>,
    pub choices: Vec<Option<ConnectorChoice>>,
    pub result: Result<(), BackendConnectorTransactionError>,
    /// The connectors (by index) each CRTC (by index) marks changed.
    pub crtc_links: Vec<(usize, usize)>,
    /// The connectors (by index) each plane (by index) marks changed.
    pub plane_links: Vec<(usize, usize)>,
}

/// The index of the object with the id, if any.
pub open spec fn spec_crtc_at(info: Seq<TxCrtcInfo>, id: u32) -> Option<int> {
    if exists|k: int| 0 <= k < info.len() && (#[trigger] info[k]).id == id {
        Some(choose|k: int| 0 <= k < info.len() && (#[trigger] info[k]).id == id)
    } else {
        None
    }
}

pub open spec fn spec_plane_at(info: Seq<TxPlaneInfo>, id: u32) -> Option<int> {
    if exists|k: int| 0 <= k < info.len() && (#[trigger] info[k]).id == id {
        Some(choose|k: int| 0 <= k < info.len() && (#[trigger] info[k]).id == id)
    } else {
        None
    }
}

/// The first CRTC (by index) with the id.
pub open spec fn spec_crtc_first(info: Seq<TxCrtcInfo>, id: u32) -> Option<int>
    decreases info.len(),
{
    if info.len() == 0 {
        None
    } else if info[0].id == id {
        Some(0)
    } else {
        match spec_crtc_first(info.drop_first(), id) {
            Some(k) => Some(k + 1),
            None => None,
        }
    }
}

proof fn lemma_crtc_first(info: Seq<TxCrtcInfo>, id: u32)
    ensures
        match spec_crtc_first(info, id) {
            Some(k) => 0 <= k < info.len() && info[k].id == id && forall|q: int| 0 <= q < k ==> (#[trigger] info[q]).id != id,
            None => forall|q: int| 0 <= q < info.len() ==> (#[trigger] info[q]).id != id,
        },
    decreases info.len(),
{
    if info.len() > 0 && info[0].id != id {
        lemma_crtc_first(info.drop_first(), id);
        assert forall|q: int| 1 <= q < info.len() implies info[q] == info.drop_first()[q - 1] by {}
    }
}

proof fn lemma_crtc_first_is(info: Seq<TxCrtcInfo>, id: u32, k: int)
    requires
        0 <= k < info.len(),
        info[k].id == id,
        forall|q: int| 0 <= q < k ==> (#[trigger] info[q]).id != id,
    ensures
        spec_crtc_first(info, id) == Some(k),
    decreases info.len(),
{
    if k > 0 {
        assert(info[0].id != id);
        assert forall|q: int| 0 <= q < k - 1 implies (#[trigger] info.drop_first()[q]).id != id by {
            assert(info.drop_first()[q] == info[q + 1]);
        }
        lemma_crtc_first_is(info.drop_first(), id, k - 1);
    }
}

fn crtc_index(info: &[TxCrtcInfo], id: u32) -> (r: Option<usize>)
    ensures
        match r {
            Some(k) => k < info@.len() && info@[k as int].id == id,
            None => forall|k: int| 0 <= k < info@.len() ==> (#[trigger] info@[k]).id != id,
        },
        match spec_crtc_first(info@, id) {
            Some(k) => r matches Some(kk) && kk as int == k,
            None => r is None,
        },
{
    proof {
        lemma_crtc_first(info@, id);
    }
    let mut k: usize = 0;
    while k < info.len()
        invariant
            k <= info@.len(),
            forall|q: int| 0 <= q < k ==> (#[trigger] info@[q]).id != id,
        decreases info@.len() - k,
    {
        if info[k].id == id {
            proof {
                lemma_crtc_first_is(info@, id, k as int);
            }
            return Some(k);
        }
        k += 1;
    }
    None
}

fn plane_index(info: &[TxPlaneInfo], id: u32) -> (r: Option<usize>)
    ensures
        match r {
            Some(k) => k < info@.len() && info@[k as int].id == id,
            None => forall|k: int| 0 <= k < info@.len() ==> (#[trigger] info@[k]).id != id,
        },
{
    let mut k: usize = 0;
    while k < info.len()
        invariant
            k <= info@.len(),
            forall|q: int| 0 <= q < k ==> (#[trigger] info@[q]).id != id,
        decreases info@.len() - k,
    {
        if info[k].id == id {
            return Some(k);
        }
        k += 1;
    }
    None
}

/// Whether the plane supports the format.
pub open spec fn spec_supports(p: &TxPlaneInfo, format: u32) -> bool {
    plane_format_entries(p.formats).contains_key(format)
}

fn supports(p: &TxPlaneInfo, format: u32) -> (r: bool)
    ensures
        r == spec_supports(p, format),
{
    plane_format_modifiers(&p.formats, format).is_some()
}

/// The first mode whose description for the compositor is the one asked
/// for.
fn find_mode(modes: &[Mode], wanted: Mode) -> (r: Option<usize>)
    ensures
        match r {
            Some(k) => k < modes@.len() && modes@[k as int] == wanted && forall|q: int| 0 <= q < k ==> modes@[q] != wanted,
            None => !modes@.contains(wanted),
        },
{
    let mut k: usize = 0;
    while k < modes.len()
        invariant
            k <= modes@.len(),
            forall|q: int| 0 <= q < k ==> modes@[q] != wanted,
        decreases modes@.len() - k,
    {
        if modes[k] == wanted {
            return Some(k);
        }
        k += 1;
    }
    None
}

/// The first CRTC of the list that is unused.
pub open spec fn spec_first_unused(crtcs: Seq<u32>, unused: Set<u32>) -> Option<u32>
    decreases crtcs.len(),
{
    if crtcs.len() == 0 {
        None
    } else if unused.contains(crtcs[0]) {
        Some(crtcs[0])
    } else {
        spec_first_unused(crtcs.drop_first(), unused)
    }
}

proof fn lemma_first_unused(crtcs: Seq<u32>, unused: Set<u32>)
    ensures
        match spec_first_unused(crtcs, unused) {
            Some(c) => unused.contains(c) && crtcs.contains(c),
            None => forall|k: int| 0 <= k < crtcs.len() ==> !unused.contains(#[trigger] crtcs[k]),
        },
    decreases crtcs.len(),
{
    if crtcs.len() > 0 {
        if unused.contains(crtcs[0]) {
            assert(crtcs[0] == crtcs[0]);
        } else {
            lemma_first_unused(crtcs.drop_first(), unused);
            if let Some(c) = spec_first_unused(crtcs, unused) {
                let k = choose|k: int| 0 <= k < crtcs.drop_first().len() && crtcs.drop_first()[k] == c;
                assert(crtcs[k + 1] == c);
            } else {
                assert forall|k: int| 0 <= k < crtcs.len() implies !unused.contains(#[trigger] crtcs[k]) by {
                    if k > 0 {
                        assert(crtcs[k] == crtcs.drop_first()[k - 1]);
                    }
                }
            }
        }
    }
}

proof fn lemma_first_unused_is(crtcs: Seq<u32>, unused: Set<u32>, k: int)
    requires
        0 <= k < crtcs.len(),
        unused.contains(crtcs[k]),
        forall|q: int| 0 <= q < k ==> !unused.contains(#[trigger] crtcs[q]),
    ensures
        spec_first_unused(crtcs, unused) == Some(crtcs[k]),
    decreases crtcs.len(),
{
    if k > 0 {
        assert(!unused.contains(crtcs[0]));
        assert forall|q: int| 0 <= q < k - 1 implies !unused.contains(#[trigger] crtcs.drop_first()[q]) by {
            assert(crtcs.drop_first()[q] == crtcs[q + 1]);
        }
        lemma_first_unused_is(crtcs.drop_first(), unused, k - 1);
    }
}

fn pick_crtc(crtcs: &[u32], unused: &IdSet) -> (r: Option<u32>)
    ensures
        r == spec_first_unused(crtcs@, unused@),
        match r {
            Some(c) => unused@.contains(c) && crtcs@.contains(c),
            None => forall|k: int| 0 <= k < crtcs@.len() ==> !unused@.contains(#[trigger] crtcs@[k]),
        },
{
    proof {
        lemma_first_unused(crtcs@, unused@);
    }
    let mut k: usize = 0;
    while k < crtcs.len()
        invariant
            k <= crtcs@.len(),
            forall|q: int| 0 <= q < k ==> !unused@.contains(#[trigger] crtcs@[q]),
        decreases crtcs@.len() - k,
    {
        if unused.contains(crtcs[k]) {
            assert(crtcs@[k as int] == crtcs[k as int]);
            proof {
                lemma_first_unused_is(crtcs@, unused@, k as int);
            }
            return Some(crtcs[k]);
        }
        k += 1;
    }
    None
}

/// Whether a plane is a candidate of the type for a CRTC: it is unused,
/// known, of the type, and supports the format.
pub open spec fn spec_candidate(info: Seq<TxPlaneInfo>, unused: Set<u32>, pid: u32, ty: PlaneType, format: u32) -> bool {
    &&& unused.contains(pid)
    &&& spec_plane_at(info, pid) matches Some(k) && info[k].ty == ty && spec_supports(&info[k], format)
}

/// The choice among the possible planes and the unused planes afterwards:
/// each candidate in turn (by the unused planes left at that point) becomes
/// the choice and leaves the unused planes.
pub open spec fn spec_pick(ps: Seq<u32>, info: Seq<TxPlaneInfo>, ty: PlaneType, format: u32, unused: Set<u32>) -> (
    Option<usize>,
    Set<u32>,
)
    decreases ps.len(),
{
    if ps.len() == 0 {
        (None, unused)
    } else {
        let prev = spec_pick(ps.drop_last(), info, ty, format, unused);
        let pid = ps.last();
        if spec_candidate(info, prev.1, pid, ty, format) {
            (Some(spec_plane_at(info, pid)->0 as usize), prev.1.remove(pid))
        } else {
            prev
        }
    }
}

/// Picks a plane of the type for a CRTC among its possible planes: each
/// candidate in turn becomes the choice and leaves the unused planes, so
/// the last candidate is chosen.
fn pick_plane(
    possible: &[u32],
    info: &[TxPlaneInfo],
    ty: PlaneType,
    format: u32,
    unused: &mut IdSet,
) -> (r: Option<usize>)
    requires
        forall|a: int, b: int| 0 <= a < b < info@.len() ==> info@[a].id != info@[b].id,
    ensures
        match r {
            Some(k) => k < info@.len() && info@[k as int].ty == ty && spec_supports(&info@[k as int], format)
                && possible@.contains(info@[k as int].id) && old(unused)@.contains(info@[k as int].id)
                && !final(unused)@.contains(info@[k as int].id),
            None => forall|q: int|
                0 <= q < possible@.len() ==> !spec_candidate(info@, old(unused)@, #[trigger] possible@[q], ty, format),
        },
        final(unused)@.subset_of(old(unused)@),
        (r, final(unused)@) == spec_pick(possible@, info@, ty, format, old(unused)@),
{
    let mut chosen: Option<usize> = None;
    let mut q: usize = 0;
    while q < possible.len()
        invariant
            q <= possible@.len(),
            forall|a: int, b: int| 0 <= a < b < info@.len() ==> info@[a].id != info@[b].id,
            unused@.subset_of(old(unused)@),
            chosen is None ==> unused@ == old(unused)@,
            match chosen {
                Some(k) => k < info@.len() && info@[k as int].ty == ty && spec_supports(&info@[k as int], format)
                    && possible@.contains(info@[k as int].id) && old(unused)@.contains(info@[k as int].id)
                    && !unused@.contains(info@[k as int].id),
                None => forall|a: int|
                    0 <= a < q ==> !spec_candidate(info@, old(unused)@, #[trigger] possible@[a], ty, format),
            },
            (chosen, unused@) == spec_pick(possible@.take(q as int), info@, ty, format, old(unused)@),
        decreases possible@.len() - q,
    {
        let pid = possible[q];
        let ghost prev_unused = unused@;
        let ghost prev_chosen = chosen;
        proof {
            assert(possible@.take(q + 1).drop_last() =~= possible@.take(q as int));
            assert(possible@.take(q + 1).last() == pid);
        }
        if unused.contains(pid) {
            match plane_index(info, pid) {
                Some(k) => {
                    if info[k].ty == ty && supports(&info[k], format) {
                        unused.remove(pid);
                        assert(possible@[q as int] == pid);
                        chosen = Some(k);
                    }
                },
                None => {},
            }
        }
        proof {
            if spec_candidate(info@, prev_unused, pid, ty, format) {
                let k = spec_plane_at(info@, pid)->0;
                assert(info@[k].id == pid);
                let k2 = chosen->0;
                assert(info@[k2 as int].id == pid);
                assert(k2 == k);
            } else {
                if chosen != prev_chosen {
                    let k2 = chosen->0;
                    assert(info@[k2 as int].id == pid);
                    assert(spec_plane_at(info@, pid) is Some);
                }
            }
            if chosen is None {
                assert forall|a: int| 0 <= a < q + 1 implies !spec_candidate(
                    info@,
                    old(unused)@,
                    #[trigger] possible@[a],
                    ty,
                    format,
                ) by {
                    if a == q && spec_candidate(info@, old(unused)@, possible@[a], ty, format) {
                        let k = spec_plane_at(info@, pid)->0;
                        assert(info@[k].id == pid);
                    }
                }
            }
        }
        q += 1;
    }
    assert(possible@.take(possible@.len() as int) =~= possible@);
    chosen
}

/// The planes a CRTC gets: its primary and its cursor plane, by index.
#[derive(Copy, Clone, Debug, PartialEq, Eq, Structural)]
pub struct CrtcPlanes {
    pub primary: Option<usize>,
    pub cursor: Option<usize>,
}

/// What the planner keeps while it works.
struct Work {
    unused_crtcs: IdSet,
    unused_planes: IdSet,
    crtc_planes: Vec<CrtcPlanes>,
    crtc_links: Vec<(usize, usize)>,
    plane_links: Vec<(usize, usize)>,
    actions: Vec<TxAction>,
}

/// The objects and their new states, as the planner updates them.
pub struct TxState {
    pub crtcs: Vec<DrmCrtcState>,
    pub planes: Vec<DrmPlaneState>,
    pub connectors: Vec<DrmConnectorState>,
    /// Whether each connector is marked changed.
    pub changed: Vec<bool>,
}

/// Whether the inputs are consistent: ids are unique and name objects of
/// the transaction, buffers come in non-empty pairs, and each connector has
/// a compositor description of each of its modes.
pub open spec fn spec_inputs_ok(
    crtc_info: Seq<TxCrtcInfo>,
    plane_info: Seq<TxPlaneInfo>,
    conn_info: Seq<TxConnectorInfo>,
    st: &TxState,
) -> bool {
    &&& st.crtcs@.len() == crtc_info.len()
    &&& st.planes@.len() == plane_info.len()
    &&& st.connectors@.len() == conn_info.len()
    &&& st.changed@.len() == conn_info.len()
    &&& forall|a: int, b: int| 0 <= a < b < crtc_info.len() ==> crtc_info[a].id != crtc_info[b].id
    &&& forall|a: int, b: int| 0 <= a < b < plane_info.len() ==> plane_info[a].id != plane_info[b].id
    &&& forall|k: int| 0 <= k < plane_info.len() ==> (#[trigger] plane_info[k]).id != 0
    &&& forall|k: int| 0 <= k < crtc_info.len() ==> (#[trigger] crtc_info[k]).id != 0
    &&& forall|i: int|
        0 <= i < conn_info.len() ==> (#[trigger] conn_info[i]).modes@.len() == conn_info[i].backend_modes@.len()
    &&& forall|i: int|
        0 <= i < conn_info.len() ==> spec_buffers_ok((#[trigger] conn_info[i]).buffers) && spec_buffers_ok(
            conn_info[i].cursor_buffers,
        )
    &&& forall|i: int|
        0 <= i < conn_info.len() && (#[trigger] st.connectors@[i]).crtc_id != 0 ==> spec_crtc_at(
            crtc_info,
            st.connectors@[i].crtc_id,
        ) is Some
    &&& forall|i: int| 0 <= i < conn_info.len() ==> (#[trigger] st.connectors@[i]).fb_idx < u64::MAX
    &&& forall|i: int| 0 <= i < conn_info.len() ==> (#[trigger] st.connectors@[i]).cursor_fb_idx < u64::MAX
}

pub open spec fn spec_buffers_ok(b: Option<TxBuffers>) -> bool {
    match b {
        Some(b) => b.fbs@.len() > 0 && b.locked@.len() == b.fbs@.len(),
        None => true,
    }
}

/// What is true of a choice made for connector `i`: the CRTC is one the
/// connector may use, the primary plane and the cursor plane have their
/// types and support the connector's format and the cursor format, and the
/// mode is the one asked for.
pub open spec fn spec_choice_ok(
    crtc_info: Seq<TxCrtcInfo>,
    plane_info: Seq<TxPlaneInfo>,
    c: &TxConnectorInfo,
    ch: ConnectorChoice,
) -> bool {
    &&& ch.crtc < crtc_info.len()
    &&& ch.primary < plane_info.len()
    &&& plane_info[ch.primary as int].ty == PlaneType::Primary
    &&& spec_supports(&plane_info[ch.primary as int], c.state.format)
    &&& match ch.cursor {
        Some(k) => k < plane_info.len() && plane_info[k as int].ty == PlaneType::Cursor && spec_supports(
            &plane_info[k as int],
            ARGB8888,
        ),
        None => true,
    }
    &&& ch.mode < c.backend_modes@.len()
    &&& c.backend_modes@[ch.mode as int] == c.state.mode
}

/// The plane's links that the CRTC's links give: for each connector the
/// CRTC (by index) is linked to, in order, a link of the plane to it.
pub open spec fn spec_inherited(links: Seq<(usize, usize)>, ci: usize, pk: usize) -> Seq<(usize, usize)>
    decreases links.len(),
{
    if links.len() == 0 {
        Seq::empty()
    } else {
        spec_inherited(links.drop_last(), ci, pk) + if links.last().0 == ci {
            seq![(pk, links.last().1)]
        } else {
            Seq::empty()
        }
    }
}

/// Finds the links of the CRTC and adds them to the plane's.
fn inherit_links(w: &mut Work, ci: usize, pk: usize)
    ensures
        final(w).plane_links@ == old(w).plane_links@ + spec_inherited(old(w).crtc_links@, ci, pk),
        final(w).unused_crtcs@ == old(w).unused_crtcs@,
        final(w).unused_planes@ == old(w).unused_planes@,
        final(w).crtc_planes@ == old(w).crtc_planes@,
        final(w).crtc_links@ == old(w).crtc_links@,
        final(w).actions@ == old(w).actions@,
{
    let n = w.crtc_links.len();
    let mut q: usize = 0;
    while q < n
        invariant
            q <= n,
            n == w.crtc_links@.len(),
            w.unused_crtcs@ == old(w).unused_crtcs@,
            w.unused_planes@ == old(w).unused_planes@,
            w.crtc_planes@ == old(w).crtc_planes@,
            w.crtc_links@ == old(w).crtc_links@,
            w.actions@ == old(w).actions@,
            w.plane_links@ == old(w).plane_links@ + spec_inherited(old(w).crtc_links@.take(q as int), ci, pk),
        decreases n - q,
    {
        proof {
            assert(old(w).crtc_links@.take(q + 1).drop_last() =~= old(w).crtc_links@.take(q as int));
            assert(old(w).crtc_links@.take(q + 1).last() == old(w).crtc_links@[q as int]);
        }
        let (c, conn) = w.crtc_links[q];
        if c == ci {
            w.plane_links.push((pk, conn));
        }
        q += 1;
        proof {
            assert(w.plane_links@ =~= old(w).plane_links@ + spec_inherited(old(w).crtc_links@.take(q as int), ci, pk));
        }
    }
    assert(old(w).crtc_links@.take(n as int) =~= old(w).crtc_links@);
}

/// Whether the CRTC has links.
fn has_links(w: &Work, ci: usize) -> (r: bool)
    ensures
        r == exists|q: int| 0 <= q < w.crtc_links@.len() && (#[trigger] w.crtc_links@[q]).0 == ci,
{
    let mut q: usize = 0;
    while q < w.crtc_links.len()
        invariant
            q <= w.crtc_links@.len(),
            forall|k: int| 0 <= k < q ==> (#[trigger] w.crtc_links@[k]).0 != ci,
        decreases w.crtc_links@.len() - q,
    {
        if w.crtc_links[q].0 == ci {
            assert(w.crtc_links@[q as int].0 == ci);
            return true;
        }
        q += 1;
    }
    false
}

fn reset_plane(st: &mut TxState, pk: usize)
    requires
        pk < old(st).planes@.len(),
    ensures
        final(st).planes@ == old(st).planes@.update(
            pk as int,
            DrmPlaneState { crtc_id: 0, assigned_crtc: 0, ..old(st).planes@[pk as int] },
        ),
        final(st).crtcs@ == old(st).crtcs@,
        final(st).connectors@ == old(st).connectors@,
        final(st).changed@ == old(st).changed@,
{
    let mut p = st.planes[pk];
    p.crtc_id = 0;
    p.assigned_crtc = 0;
    st.planes.set(pk, p);
}

/// A plane's state once it claims the CRTC it shows on: it belongs to
/// that CRTC.
pub open spec fn spec_claiming(p: DrmPlaneState) -> DrmPlaneState {
    if p.crtc_id != 0 {
        DrmPlaneState { assigned_crtc: p.crtc_id, ..p }
    } else {
        p
    }
}

/// The CRTC (by index) whose slot plane `k` fills, given the slots so far:
/// the first CRTC with the id of the CRTC it belongs to, where that CRTC is
/// used by a connector and the slot of the plane's type is free; none for
/// an overlay plane.
pub open spec fn spec_claim_target(
    crtc_info: Seq<TxCrtcInfo>,
    plane_info: Seq<TxPlaneInfo>,
    p: DrmPlaneState,
    unused: Set<u32>,
    slots: Seq<CrtcPlanes>,
    k: int,
) -> Option<int> {
    let a = spec_claiming(p).assigned_crtc;
    if a != 0 && !unused.contains(a) {
        match spec_crtc_first(crtc_info, a) {
            Some(ci) => match plane_info[k].ty {
                PlaneType::Overlay => None,
                PlaneType::Primary => if slots[ci].primary is None {
                    Some(ci)
                } else {
                    None
                },
                PlaneType::Cursor => if slots[ci].cursor is None {
                    Some(ci)
                } else {
                    None
                },
            },
            None => None,
        }
    } else {
        None
    }
}

/// The slot once plane `k` of the type fills it.
pub open spec fn spec_fill(slot: CrtcPlanes, ty: PlaneType, k: int) -> CrtcPlanes {
    match ty {
        PlaneType::Primary => CrtcPlanes { primary: Some(k as usize), ..slot },
        PlaneType::Cursor => CrtcPlanes { cursor: Some(k as usize), ..slot },
        PlaneType::Overlay => slot,
    }
}

/// The CRTCs' slots once planes `0..k` claimed their CRTCs, from empty
/// slots.
pub open spec fn spec_claim_slots(
    crtc_info: Seq<TxCrtcInfo>,
    plane_info: Seq<TxPlaneInfo>,
    planes: Seq<DrmPlaneState>,
    unused: Set<u32>,
    k: int,
) -> Seq<CrtcPlanes>
    decreases k,
{
    if k <= 0 {
        Seq::new(crtc_info.len(), |c: int| CrtcPlanes { primary: None, cursor: None })
    } else {
        let prev = spec_claim_slots(crtc_info, plane_info, planes, unused, k - 1);
        match spec_claim_target(crtc_info, plane_info, planes[k - 1], unused, prev, k - 1) {
            Some(ci) => prev.update(ci, spec_fill(prev[ci], plane_info[k - 1].ty, k - 1)),
            None => prev,
        }
    }
}

/// Whether plane `k` fills a slot.
pub open spec fn spec_claimed(
    crtc_info: Seq<TxCrtcInfo>,
    plane_info: Seq<TxPlaneInfo>,
    planes: Seq<DrmPlaneState>,
    unused: Set<u32>,
    k: int,
) -> bool {
    spec_claim_target(crtc_info, plane_info, planes[k], unused, spec_claim_slots(crtc_info, plane_info, planes, unused, k), k) is Some
}

/// The ids of the planes among `0..k` that fill no slot.
pub open spec fn spec_unclaimed_ids(
    crtc_info: Seq<TxCrtcInfo>,
    plane_info: Seq<TxPlaneInfo>,
    planes: Seq<DrmPlaneState>,
    unused: Set<u32>,
    k: int,
) -> Set<u32> {
    Set::new(
        |x: u32|
            exists|q: int|
                0 <= q < k && !spec_claimed(crtc_info, plane_info, planes, unused, q) && (#[trigger] plane_info[q]).id == x,
    )
}

/// The links planes `0..k` inherit, in order: each the links of the CRTC
/// it belonged to.
pub open spec fn spec_claim_links(
    crtc_info: Seq<TxCrtcInfo>,
    links: Seq<(usize, usize)>,
    planes: Seq<DrmPlaneState>,
    k: int,
) -> Seq<(usize, usize)>
    decreases k,
{
    if k <= 0 {
        Seq::empty()
    } else {
        spec_claim_links(crtc_info, links, planes, k - 1) + match spec_crtc_first(crtc_info, planes[k - 1].assigned_crtc) {
            Some(ci) => spec_inherited(links, ci as usize, (k - 1) as usize),
            None => Seq::empty(),
        }
    }
}

/// The planes claim the CRTCs they are on: a plane on a CRTC that is used
/// by a connector becomes that CRTC's primary or cursor plane, unless it is
/// an overlay plane or the CRTC already has one; other planes leave their
/// CRTC and are unused.
fn claim_planes(crtc_info: &[TxCrtcInfo], plane_info: &[TxPlaneInfo], st: &mut TxState, w: &mut Work)
    requires
        old(st).planes@.len() == plane_info@.len(),
        old(w).crtc_planes@.len() == crtc_info@.len(),
        forall|c: int| 0 <= c < crtc_info@.len() ==> (#[trigger] old(w).crtc_planes@[c]) == (CrtcPlanes { primary: None, cursor: None }),
    ensures
        final(st).crtcs@ == old(st).crtcs@,
        final(st).connectors@ == old(st).connectors@,
        final(st).changed@ == old(st).changed@,
        final(st).planes@.len() == plane_info@.len(),
        final(w).crtc_planes@.len() == crtc_info@.len(),
        final(w).unused_crtcs@ == old(w).unused_crtcs@,
        forall|c: int| 0 <= c < crtc_info@.len() ==> spec_slots_ok(plane_info@, #[trigger] final(w).crtc_planes@[c]),
        final(w).crtc_links@ == old(w).crtc_links@,
        final(w).actions@ == old(w).actions@,
        final(w).crtc_planes@ == spec_claim_slots(
            crtc_info@,
            plane_info@,
            old(st).planes@,
            old(w).unused_crtcs@,
            plane_info@.len() as int,
        ),
        forall|k: int|
            0 <= k < plane_info@.len() ==> #[trigger] final(st).planes@[k] == (if spec_claimed(
                crtc_info@,
                plane_info@,
                old(st).planes@,
                old(w).unused_crtcs@,
                k,
            ) {
                spec_claiming(old(st).planes@[k])
            } else {
                DrmPlaneState { crtc_id: 0, assigned_crtc: 0, ..old(st).planes@[k] }
            }),
        final(w).unused_planes@ == old(w).unused_planes@.union(
            spec_unclaimed_ids(crtc_info@, plane_info@, old(st).planes@, old(w).unused_crtcs@, plane_info@.len() as int),
        ),
        final(w).plane_links@ == old(w).plane_links@ + spec_claim_links(
            crtc_info@,
            old(w).crtc_links@,
            old(st).planes@,
            plane_info@.len() as int,
        ),
{
    let ghost planes0 = old(st).planes@;
    let ghost unused0 = old(w).unused_crtcs@;
    assert(w.crtc_planes@ =~= spec_claim_slots(crtc_info@, plane_info@, planes0, unused0, 0));
    assert(w.unused_planes@ =~= old(w).unused_planes@.union(
        spec_unclaimed_ids(crtc_info@, plane_info@, planes0, unused0, 0),
    ));
    assert(w.plane_links@ =~= old(w).plane_links@ + spec_claim_links(crtc_info@, old(w).crtc_links@, planes0, 0));
    let mut k: usize = 0;
    while k < plane_info.len()
        invariant
            k <= plane_info@.len(),
            planes0 == old(st).planes@,
            unused0 == old(w).unused_crtcs@,
            planes0.len() == plane_info@.len(),
            st.planes@.len() == plane_info@.len(),
            st.crtcs@ == old(st).crtcs@,
            st.connectors@ == old(st).connectors@,
            st.changed@ == old(st).changed@,
            w.crtc_planes@.len() == crtc_info@.len(),
            w.unused_crtcs@ == old(w).unused_crtcs@,
            w.crtc_links@ == old(w).crtc_links@,
            w.actions@ == old(w).actions@,
            forall|c: int| 0 <= c < crtc_info@.len() ==> spec_slots_ok(plane_info@, #[trigger] w.crtc_planes@[c]),
            w.crtc_planes@ == spec_claim_slots(crtc_info@, plane_info@, planes0, unused0, k as int),
            forall|q: int|
                0 <= q < k ==> #[trigger] st.planes@[q] == (if spec_claimed(crtc_info@, plane_info@, planes0, unused0, q) {
                    spec_claiming(planes0[q])
                } else {
                    DrmPlaneState { crtc_id: 0, assigned_crtc: 0, ..planes0[q] }
                }),
            forall|q: int| k <= q < plane_info@.len() ==> #[trigger] st.planes@[q] == planes0[q],
            w.unused_planes@ == old(w).unused_planes@.union(
                spec_unclaimed_ids(crtc_info@, plane_info@, planes0, unused0, k as int),
            ),
            w.plane_links@ == old(w).plane_links@ + spec_claim_links(crtc_info@, old(w).crtc_links@, planes0, k as int),
        decreases plane_info@.len() - k,
    {
        let ghost links_before = w.plane_links@;
        let ghost unused_before = w.unused_planes@;
        let ghost slots_before = w.crtc_planes@;
        let p = st.planes[k];
        if let Some(ci) = crtc_index(crtc_info, p.assigned_crtc) {
            inherit_links(w, ci, k);
        }
        proof {
            assert(w.plane_links@ =~= old(w).plane_links@ + spec_claim_links(
                crtc_info@,
                old(w).crtc_links@,
                planes0,
                k + 1,
            ));
        }
        let mut p = st.planes[k];
        if p.crtc_id != 0 {
            p.assigned_crtc = p.crtc_id;
            st.planes.set(k, p);
        }
        assert(p == spec_claiming(planes0[k as int]));
        let a = p.assigned_crtc;
        let mut claimed = false;
        if a != 0 && !w.unused_crtcs.contains(a) {
            if let Some(ci) = crtc_index(crtc_info, a) {
                let slots = w.crtc_planes[ci];
                match plane_info[k].ty {
                    PlaneType::Overlay => {},
                    PlaneType::Primary => {
                        if slots.primary.is_none() {
                            w.crtc_planes.set(ci, CrtcPlanes { primary: Some(k), ..slots });
                            claimed = true;
                        }
                    },
                    PlaneType::Cursor => {
                        if slots.cursor.is_none() {
                            w.crtc_planes.set(ci, CrtcPlanes { cursor: Some(k), ..slots });
                            claimed = true;
                        }
                    },
                }
            }
        }
        proof {
            assert(claimed == spec_claimed(crtc_info@, plane_info@, planes0, unused0, k as int));
            assert(w.crtc_planes@ =~= spec_claim_slots(crtc_info@, plane_info@, planes0, unused0, k + 1));
        }
        if !claimed {
            w.unused_planes.insert(plane_info[k].id);
            reset_plane(st, k);
        }
        proof {
            let s0 = spec_unclaimed_ids(crtc_info@, plane_info@, planes0, unused0, k as int);
            let s1 = spec_unclaimed_ids(crtc_info@, plane_info@, planes0, unused0, k + 1);
            assert forall|x: u32| #[trigger] s1.contains(x) <==> (s0.contains(x) || (!claimed && x == plane_info@[k as int].id)) by {
                if s1.contains(x) {
                    let q = choose|q: int|
                        0 <= q < k + 1 && !spec_claimed(crtc_info@, plane_info@, planes0, unused0, q) && (#[trigger] plane_info@[q]).id
                            == x;
                    if q < k {
                        assert(s0.contains(x));
                    }
                }
                if s0.contains(x) {
                    let q = choose|q: int|
                        0 <= q < k && !spec_claimed(crtc_info@, plane_info@, planes0, unused0, q) && (#[trigger] plane_info@[q]).id == x;
                    assert(s1.contains(x));
                }
                if !claimed && x == plane_info@[k as int].id {
                    assert(plane_info@[k as int].id == x);
                    assert(s1.contains(x));
                }
            }
            assert(w.unused_planes@ =~= old(w).unused_planes@.union(s1));
        }
        k += 1;
    }
}

/// The slots hold planes of their types.
pub open spec fn spec_slots_ok(plane_info: Seq<TxPlaneInfo>, s: CrtcPlanes) -> bool {
    &&& (s.primary matches Some(k) ==> k < plane_info.len() && plane_info[k as int].ty == PlaneType::Primary)
    &&& (s.cursor matches Some(k) ==> k < plane_info.len() && plane_info[k as int].ty == PlaneType::Cursor)
}

/// Whether the plane with the index supports the format, where it exists.
fn plane_supports(plane_info: &[TxPlaneInfo], pk: usize, format: u32) -> (r: bool)
    requires
        pk < plane_info@.len(),
    ensures
        r == spec_supports(&plane_info@[pk as int], format),
{
    supports(&plane_info[pk], format)
}

/// What the planner's state keeps true between connectors.
pub open spec fn spec_work_ok(
    crtc_info: Seq<TxCrtcInfo>,
    plane_info: Seq<TxPlaneInfo>,
    conn_info: Seq<TxConnectorInfo>,
    st: &TxState,
    unused_crtcs: Set<u32>,
    crtc_planes: Seq<CrtcPlanes>,
) -> bool {
    &&& st.crtcs@.len() == crtc_info.len()
    &&& st.planes@.len() == plane_info.len()
    &&& st.connectors@.len() == conn_info.len()
    &&& st.changed@.len() == conn_info.len()
    &&& crtc_planes.len() == crtc_info.len()
    &&& forall|k: int| 0 <= k < crtc_info.len() ==> (#[trigger] crtc_info[k]).id != 0
    &&& forall|c: int| 0 <= c < crtc_info.len() ==> spec_slots_ok(plane_info, #[trigger] crtc_planes[c])
    &&& forall|x: u32| #[trigger] unused_crtcs.contains(x) ==> spec_crtc_at(crtc_info, x) is Some
    &&& forall|i: int|
        0 <= i < conn_info.len() && (#[trigger] st.connectors@[i]).crtc_id != 0 ==> spec_crtc_at(
            crtc_info,
            st.connectors@[i].crtc_id,
        ) is Some
    &&& forall|i: int| 0 <= i < conn_info.len() ==> (#[trigger] st.connectors@[i]).fb_idx < u64::MAX
    &&& forall|i: int| 0 <= i < conn_info.len() ==> (#[trigger] st.connectors@[i]).cursor_fb_idx < u64::MAX
}

/// Where a plane of the connector goes and what it needs: its position,
/// size and format (the mode's size and the connector's format for a
/// primary plane; the cursor's position, the device's cursor size and
/// ARGB8888 for a cursor plane).
pub open spec fn spec_geometry(
    dev: TxDevice,
    c: &TxConnectorInfo,
    conn: DrmConnectorState,
    primary: bool,
    mode: DrmModeInfo,
) -> (i32, i32, i32, i32, u32) {
    if primary {
        (0i32, 0i32, mode.hdisplay as i32, mode.vdisplay as i32, c.state.format)
    } else {
        (conn.cursor_x, conn.cursor_y, dev.cursor_width, dev.cursor_height, ARGB8888)
    }
}

/// The buffers the plane has.
pub open spec fn spec_old_buffers(c: &TxConnectorInfo, primary: bool) -> Option<TxBuffers> {
    if primary {
        c.buffers
    } else {
        c.cursor_buffers
    }
}

/// Whether the plane's buffers are kept: they fit the size and format and
/// the plane supports the format with their modifiers.
pub open spec fn spec_reuse(p: &TxPlaneInfo, old: Option<TxBuffers>, width: i32, height: i32, format: u32) -> bool {
    match old {
        Some(b) => plane_format_entries(p.formats).contains_key(format) && spec_buffers_reusable(
            &b,
            width,
            height,
            format,
            modifier_set_items(plane_format_entries(p.formats)[format]),
        ),
        None => false,
    }
}

/// The framebuffers of kept buffers.
pub open spec fn spec_current_fbs(old: Option<TxBuffers>, reuse: bool) -> Seq<u32> {
    match old {
        Some(b) => if reuse {
            b.fbs@
        } else {
            Seq::empty()
        },
        None => Seq::empty(),
    }
}

/// Which framebuffer the plane shows.
pub open spec fn spec_plane_choice(
    dev: TxDevice,
    c: &TxConnectorInfo,
    conn: DrmConnectorState,
    crtc_active: bool,
    primary: bool,
    old: Option<TxBuffers>,
    reuse: bool,
) -> FbChoice {
    spec_choose_fb(
        primary,
        if primary { conn.fb } else { conn.cursor_fb },
        if primary { conn.fb_idx } else { conn.cursor_fb_idx },
        spec_may_show(primary, crtc_active, conn.locked, dev.session_locked),
        c.direct_scanout_active && dev.allow_direct_scanout,
        spec_current_fbs(old, reuse),
        !reuse,
        match old {
            Some(b) => Some(b.fbs@),
            None => None,
        },
        match old {
            Some(b) => b.dev_ctx_current,
            None => false,
        },
    )
}

/// The plane's new state: on the CRTC (`crtc_id`), at its position and
/// size, with its kept buffers; it shows on the CRTC unless it is off, a
/// directly scanned-out buffer in the connector's rectangle, else the
/// chosen framebuffer (none yet for a new buffer).
pub open spec fn spec_new_plane(
    geo: (i32, i32, i32, i32, u32),
    conn: DrmConnectorState,
    crtc_id: u32,
    old: Option<TxBuffers>,
    reuse: bool,
    choice: FbChoice,
) -> DrmPlaneState {
    let base = DrmPlaneState {
        fb_id: 0,
        src_x: 0,
        src_y: 0,
        src_w: ((geo.2 as u32) << 16u32) as u32,
        src_h: ((geo.3 as u32) << 16u32) as u32,
        assigned_crtc: crtc_id,
        crtc_id: 0,
        crtc_x: geo.0,
        crtc_y: geo.1,
        crtc_w: geo.2,
        crtc_h: geo.3,
        buffers: if reuse {
            Some(old->0.handle)
        } else {
            None
        },
    };
    match choice {
        FbChoice::Off => base,
        FbChoice::Direct(f) => DrmPlaneState {
            crtc_id,
            fb_id: f,
            src_w: conn.src_w,
            src_h: conn.src_h,
            crtc_x: conn.crtc_x,
            crtc_y: conn.crtc_y,
            crtc_w: conn.crtc_w,
            crtc_h: conn.crtc_h,
            ..base
        },
        FbChoice::Keep(f) => DrmPlaneState { crtc_id, fb_id: f, ..base },
        FbChoice::NewBuffer { .. } => DrmPlaneState { crtc_id, ..base },
        FbChoice::Current(j) => DrmPlaneState { crtc_id, fb_id: spec_current_fbs(old, reuse)[j as int], ..base },
        FbChoice::Blank(j) => DrmPlaneState { crtc_id, fb_id: spec_current_fbs(old, reuse)[j as int], ..base },
    }
}

/// The index of the buffer the connector shows next on the plane.
pub open spec fn spec_new_idx(conn: DrmConnectorState, primary: bool, choice: FbChoice) -> u64 {
    match choice {
        FbChoice::NewBuffer { .. } => 0,
        FbChoice::Blank(j) => j as u64,
        _ => if primary {
            conn.fb_idx
        } else {
            conn.cursor_fb_idx
        },
    }
}

/// The connector's new state: its buffer index for the plane, and for a
/// primary plane the plane's rectangle.
pub open spec fn spec_new_conn(conn: DrmConnectorState, primary: bool, plane: DrmPlaneState, idx: u64) -> DrmConnectorState {
    if primary {
        DrmConnectorState {
            fb_idx: idx,
            src_w: plane.src_w,
            src_h: plane.src_h,
            crtc_x: plane.crtc_x,
            crtc_y: plane.crtc_y,
            crtc_w: plane.crtc_w,
            crtc_h: plane.crtc_h,
            ..conn
        }
    } else {
        DrmConnectorState { cursor_fb_idx: idx, ..conn }
    }
}

/// The work a plane's setup asks for: new buffers where they are not kept,
/// then showing the first new buffer, or blanking the next buffer where it
/// is not blank yet (after the last commit completed, where the buffers are
/// busy and it handed out a sync file).
pub open spec fn spec_plane_actions(
    c: &TxConnectorInfo,
    conn: DrmConnectorState,
    i: usize,
    pk: usize,
    primary: bool,
    geo: (i32, i32, i32, i32, u32),
    old: Option<TxBuffers>,
    reuse: bool,
    choice: FbChoice,
) -> Seq<TxAction> {
    (if !reuse {
        seq![
            TxAction::AllocateBuffers {
                connector: i,
                plane: pk,
                format: geo.4,
                width: geo.2,
                height: geo.3,
                cursor: !primary,
            },
        ]
    } else {
        Seq::empty()
    }) + match choice {
        FbChoice::NewBuffer { copy_from } => seq![TxAction::ShowNewBuffer { connector: i, plane: pk, copy_from }],
        FbChoice::Blank(j) => if !old->0.locked@[j as int] {
            seq![
                TxAction::BlankBuffer {
                    connector: i,
                    plane: pk,
                    index: j,
                    wait_out_fd: !c.buffers_idle && conn.has_out_fd,
                },
            ]
        } else {
            Seq::empty()
        },
        _ => Seq::empty(),
    }
}

/// Sets up a plane of connector `i` on CRTC `ci`: its position, size and
/// buffers (kept where they fit, else allocated), and the framebuffer it
/// shows; a primary plane's rectangle becomes the connector's.
fn configure_plane(
    dev: &TxDevice,
    crtc_info: &[TxCrtcInfo],
    plane_info: &[TxPlaneInfo],
    conn_info: &[TxConnectorInfo],
    st: &mut TxState,
    w: &mut Work,
    i: usize,
    ci: usize,
    pk: usize,
    primary: bool,
    mode: DrmModeInfo,
)
    requires
        i < conn_info@.len(),
        ci < crtc_info@.len(),
        pk < plane_info@.len(),
        spec_work_ok(crtc_info@, plane_info@, conn_info@, old(st), old(w).unused_crtcs@, old(w).crtc_planes@),
        spec_buffers_ok(conn_info@[i as int].buffers),
        spec_buffers_ok(conn_info@[i as int].cursor_buffers),
    ensures
        spec_work_ok(crtc_info@, plane_info@, conn_info@, final(st), final(w).unused_crtcs@, final(w).crtc_planes@),
        final(w).unused_crtcs@ == old(w).unused_crtcs@,
        final(w).unused_planes@ == old(w).unused_planes@,
        final(w).crtc_planes@ == old(w).crtc_planes@,
        final(st).crtcs@ == old(st).crtcs@,
        forall|j: int| 0 <= j < conn_info@.len() && j != i ==> #[trigger] final(st).connectors@[j] == old(st).connectors@[j],
        final(st).connectors@[i as int].crtc_id == old(st).connectors@[i as int].crtc_id,
        final(w).crtc_links@ == old(w).crtc_links@,
        final(w).plane_links@ == old(w).plane_links@ + spec_inherited(old(w).crtc_links@, ci, pk),
        ({
            let c = &conn_info@[i as int];
            let conn = old(st).connectors@[i as int];
            let geo = spec_geometry(*dev, c, conn, primary, mode);
            let bufs = spec_old_buffers(c, primary);
            let reuse = spec_reuse(&plane_info@[pk as int], bufs, geo.2, geo.3, geo.4);
            let choice = spec_plane_choice(*dev, c, conn, old(st).crtcs@[ci as int].active, primary, bufs, reuse);
            let plane = spec_new_plane(geo, conn, crtc_info@[ci as int].id, bufs, reuse, choice);
            &&& final(st).planes@ == old(st).planes@.update(pk as int, plane)
            &&& final(st).connectors@[i as int] == spec_new_conn(conn, primary, plane, spec_new_idx(conn, primary, choice))
            &&& final(st).changed@ == (if reuse {
                old(st).changed@
            } else {
                old(st).changed@.update(i as int, true)
            })
            &&& final(w).actions@ == old(w).actions@ + spec_plane_actions(c, conn, i, pk, primary, geo, bufs, reuse, choice)
        }),
{
    let c = &conn_info[i];
    let crtc_active = st.crtcs[ci].active;
    let mut ps = st.planes[pk];
    ps.assigned_crtc = crtc_info[ci].id;
    inherit_links(w, ci, pk);
    let mut conn = st.connectors[i];
    let (x, y, width, height, format) = if primary {
        (0i32, 0i32, mode.hdisplay as i32, mode.vdisplay as i32, c.state.format)
    } else {
        (conn.cursor_x, conn.cursor_y, dev.cursor_width, dev.cursor_height, ARGB8888)
    };
    let old = if primary {
        &c.buffers
    } else {
        &c.cursor_buffers
    };
    ps.buffers = match old {
        Some(b) => Some(b.handle),
        None => None,
    };
    ps.src_x = 0;
    ps.src_y = 0;
    ps.src_w = (width as u32) << 16;
    ps.src_h = (height as u32) << 16;
    ps.crtc_x = x;
    ps.crtc_y = y;
    ps.crtc_w = width;
    ps.crtc_h = height;
    let mut reuse = false;
    if let Some(b) = old {
        if let Some(mods) = plane_format_modifiers(&plane_info[pk].formats, format) {
            reuse = buffers_reusable(b, width, height, format, mods);
        }
    }
    if !reuse {
        ps.buffers = None;
        st.changed.set(i, true);
        w.actions.push(TxAction::AllocateBuffers { connector: i, plane: pk, format, width, height, cursor: !primary });
    }
    let (fb_id, fb_idx) = if primary {
        (conn.fb, conn.fb_idx)
    } else {
        (conn.cursor_fb, conn.cursor_fb_idx)
    };
    ps.crtc_id = 0;
    ps.fb_id = 0;
    let may_show = !crtc_active || conn.locked || !dev.session_locked || !primary;
    let empty: Vec<u32> = Vec::new();
    let (current, old_fbs, old_same_ctx): (&[u32], Option<&[u32]>, bool) = match old {
        Some(b) => (if reuse {
            b.fbs.as_slice()
        } else {
            empty.as_slice()
        }, Some(b.fbs.as_slice()), b.dev_ctx_current),
        None => (empty.as_slice(), None, false),
    };
    let choice = choose_fb(
        primary,
        fb_id,
        fb_idx,
        may_show,
        c.direct_scanout_active && dev.allow_direct_scanout,
        current,
        !reuse,
        old_fbs,
        old_same_ctx,
    );
    let crtc_id = crtc_info[ci].id;
    let n = current.len();
    let mut new_idx = fb_idx;
    match choice {
        FbChoice::Off => {},
        FbChoice::Direct(f) => {
            ps.crtc_id = crtc_id;
            ps.fb_id = f;
            ps.src_w = conn.src_w;
            ps.src_h = conn.src_h;
            ps.crtc_x = conn.crtc_x;
            ps.crtc_y = conn.crtc_y;
            ps.crtc_w = conn.crtc_w;
            ps.crtc_h = conn.crtc_h;
        },
        FbChoice::Keep(f) => {
            ps.crtc_id = crtc_id;
            ps.fb_id = f;
        },
        FbChoice::NewBuffer { copy_from } => {
            ps.crtc_id = crtc_id;
            new_idx = 0;
            w.actions.push(TxAction::ShowNewBuffer { connector: i, plane: pk, copy_from });
        },
        FbChoice::Current(j) => {
            ps.crtc_id = crtc_id;
            assert((fb_idx % (n as u64)) < n) by (nonlinear_arith)
                requires
                    n > 0,
            ;
            ps.fb_id = current[j];
        },
        FbChoice::Blank(j) => {
            ps.crtc_id = crtc_id;
            assert((((fb_idx + 1) as u64) % (n as u64)) < n) by (nonlinear_arith)
                requires
                    n > 0,
            ;
            ps.fb_id = current[j];
            new_idx = j as u64;
            let b = old.as_ref().unwrap();
            if !b.locked[j] {
                w.actions.push(
                    TxAction::BlankBuffer {
                        connector: i,
                        plane: pk,
                        index: j,
                        wait_out_fd: !c.buffers_idle && conn.has_out_fd,
                    },
                );
            }
        },
    }
    if primary {
        conn.fb_idx = new_idx;
        conn.src_w = ps.src_w;
        conn.src_h = ps.src_h;
        conn.crtc_x = ps.crtc_x;
        conn.crtc_y = ps.crtc_y;
        conn.crtc_w = ps.crtc_w;
        conn.crtc_h = ps.crtc_h;
    } else {
        conn.cursor_fb_idx = new_idx;
    }
    st.planes.set(pk, ps);
    st.connectors.set(i, conn);
}

/// Releases what a connector that drives nothing holds: its CRTC becomes
/// unused, and so do the CRTC's planes; its state is reset.
/// What the planner keeps between connectors, as far as later connectors
/// depend on it: the unused CRTCs and planes, and the planes of each CRTC.
pub struct PlanWork {
    pub unused_crtcs: Set<u32>,
    pub unused_planes: Set<u32>,
    pub crtc_planes: Seq<CrtcPlanes>,
}

/// The planner's state once a connector that held the CRTC `cid` (0: none)
/// released it: the CRTC and its planes become unused.
pub open spec fn spec_release(crtc_info: Seq<TxCrtcInfo>, plane_info: Seq<TxPlaneInfo>, cid: u32, w: PlanWork) -> PlanWork {
    if cid == 0 {
        w
    } else {
        match spec_crtc_first(crtc_info, cid) {
            Some(ci) => {
                let slots = w.crtc_planes[ci];
                let u1 = match slots.primary {
                    Some(pk) => w.unused_planes.insert(plane_info[pk as int].id),
                    None => w.unused_planes,
                };
                let u2 = match slots.cursor {
                    Some(pk) => u1.insert(plane_info[pk as int].id),
                    None => u1,
                };
                PlanWork {
                    unused_crtcs: w.unused_crtcs.insert(cid),
                    unused_planes: u2,
                    crtc_planes: w.crtc_planes.update(ci, CrtcPlanes { primary: None, cursor: None }),
                }
            },
            None => PlanWork { unused_crtcs: w.unused_crtcs.insert(cid), ..w },
        }
    }
}

/// A plane's state once it no longer shows on or belongs to a CRTC.
pub open spec fn spec_reset_plane(p: DrmPlaneState) -> DrmPlaneState {
    DrmPlaneState { crtc_id: 0, assigned_crtc: 0, ..p }
}

/// The planes once a connector that held the CRTC `cid` released it: the
/// CRTC's planes are reset.
pub open spec fn spec_release_planes(
    crtc_info: Seq<TxCrtcInfo>,
    cid: u32,
    crtc_planes: Seq<CrtcPlanes>,
    planes: Seq<DrmPlaneState>,
) -> Seq<DrmPlaneState> {
    if cid == 0 {
        planes
    } else {
        match spec_crtc_first(crtc_info, cid) {
            Some(ci) => {
                let slots = crtc_planes[ci];
                let p1 = match slots.primary {
                    Some(pk) => planes.update(pk as int, spec_reset_plane(planes[pk as int])),
                    None => planes,
                };
                match slots.cursor {
                    Some(pk) => p1.update(pk as int, spec_reset_plane(p1[pk as int])),
                    None => p1,
                }
            },
            None => planes,
        }
    }
}

/// The planner's state once connector `i`, which drives nothing, released
/// its CRTC and that CRTC's planes, and was reset.
pub open spec fn spec_release_state(crtc_info: Seq<TxCrtcInfo>, plane_info: Seq<TxPlaneInfo>, i: int, s: PlanState) -> PlanState {
    let cid = s.connectors[i].crtc_id;
    PlanState {
        connectors: s.connectors.update(i, spec_default_connector_state()),
        planes: spec_release_planes(crtc_info, cid, s.work.crtc_planes, s.planes),
        work: spec_release(crtc_info, plane_info, cid, s.work),
        ..s
    }
}

fn release_connector(
    crtc_info: &[TxCrtcInfo],
    plane_info: &[TxPlaneInfo],
    conn_info: &[TxConnectorInfo],
    st: &mut TxState,
    w: &mut Work,
    i: usize,
)
    requires
        i < conn_info@.len(),
        spec_work_ok(crtc_info@, plane_info@, conn_info@, old(st), old(w).unused_crtcs@, old(w).crtc_planes@),
    ensures
        spec_work_ok(crtc_info@, plane_info@, conn_info@, final(st), final(w).unused_crtcs@, final(w).crtc_planes@),
        final(st).connectors@ == old(st).connectors@.update(i as int, spec_default_connector_state()),
        final(st).crtcs@ == old(st).crtcs@,
        final(w).unused_crtcs@ == (if old(st).connectors@[i as int].crtc_id != 0 {
            old(w).unused_crtcs@.insert(old(st).connectors@[i as int].crtc_id)
        } else {
            old(w).unused_crtcs@
        }),
        final(st).changed@ == old(st).changed@,
        final(w).crtc_links@ == old(w).crtc_links@,
        final(w).plane_links@ == old(w).plane_links@,
        final(w).actions@ == old(w).actions@,
        final(st).planes@ == spec_release_planes(
            crtc_info@,
            old(st).connectors@[i as int].crtc_id,
            old(w).crtc_planes@,
            old(st).planes@,
        ),
        spec_plan_state(final(st), final(w)) == spec_release_state(crtc_info@, plane_info@, i as int, spec_plan_state(old(st), old(w))),
        (PlanWork {
            unused_crtcs: final(w).unused_crtcs@,
            unused_planes: final(w).unused_planes@,
            crtc_planes: final(w).crtc_planes@,
        }) == spec_release(
            crtc_info@,
            plane_info@,
            old(st).connectors@[i as int].crtc_id,
            PlanWork {
                unused_crtcs: old(w).unused_crtcs@,
                unused_planes: old(w).unused_planes@,
                crtc_planes: old(w).crtc_planes@,
            },
        ),
{
    let cid = st.connectors[i].crtc_id;
    if cid != 0 {
        w.unused_crtcs.insert(cid);
        if let Some(ci) = crtc_index(crtc_info, cid) {
            let slots = w.crtc_planes[ci];
            if let Some(pk) = slots.primary {
                w.unused_planes.insert(plane_info[pk].id);
                reset_plane(st, pk);
            }
            if let Some(pk) = slots.cursor {
                w.unused_planes.insert(plane_info[pk].id);
                reset_plane(st, pk);
            }
            w.crtc_planes.set(ci, CrtcPlanes { primary: None, cursor: None });
        }
    }
    st.connectors.set(i, DrmConnectorState::new());
}

/// Gives connector `i` its CRTC: the one it has, else the first unused one
/// it can use. The CRTC is made active as asked and assigned to the
/// connector.
fn assign_crtc(
    crtc_info: &[TxCrtcInfo],
    plane_info: &[TxPlaneInfo],
    conn_info: &[TxConnectorInfo],
    st: &mut TxState,
    w: &mut Work,
    i: usize,
) -> (r: Result<usize, BackendConnectorTransactionError>)
    requires
        i < conn_info@.len(),
        spec_work_ok(crtc_info@, plane_info@, conn_info@, old(st), old(w).unused_crtcs@, old(w).crtc_planes@),
    ensures
        spec_work_ok(crtc_info@, plane_info@, conn_info@, final(st), final(w).unused_crtcs@, final(w).crtc_planes@),
        forall|j: int| 0 <= j < conn_info@.len() && j != i ==> #[trigger] final(st).connectors@[j] == old(st).connectors@[j],
        final(w).unused_planes@ == old(w).unused_planes@,
        final(w).crtc_planes@ == old(w).crtc_planes@,
        final(w).plane_links@ == old(w).plane_links@,
        final(w).actions@ == old(w).actions@,
        final(st).planes@ == old(st).planes@,
        final(st).changed@ == old(st).changed@,
        r is Err <==> old(st).connectors@[i as int].crtc_id == 0 && spec_first_unused(
            conn_info@[i as int].crtcs@,
            old(w).unused_crtcs@,
        ) is None,
        r is Err ==> r == Err::<usize, BackendConnectorTransactionError>(
            BackendConnectorTransactionError::NoCrtcForConnector(conn_info@[i as int].kernel_id),
        ) && final(st).connectors@ == old(st).connectors@ && final(st).crtcs@ == old(st).crtcs@
            && final(w).unused_crtcs@ == old(w).unused_crtcs@ && final(w).crtc_links@ == old(w).crtc_links@,
        r matches Ok(ci) ==> {
            let held = final(st).connectors@[i as int].crtc_id;
            &&& held == (if old(st).connectors@[i as int].crtc_id != 0 {
                old(st).connectors@[i as int].crtc_id
            } else {
                spec_first_unused(conn_info@[i as int].crtcs@, old(w).unused_crtcs@)->0
            })
            &&& final(st).connectors@[i as int] == DrmConnectorState { crtc_id: held, ..old(st).connectors@[i as int] }
            &&& spec_crtc_first(crtc_info@, held) == Some(ci as int)
            &&& final(w).crtc_links@ == old(w).crtc_links@.push((ci, i))
            &&& ci < crtc_info@.len()
            &&& held != 0
            &&& crtc_info@[ci as int].id == held
            &&& final(st).crtcs@ == old(st).crtcs@.update(
                ci as int,
                DrmCrtcState {
                    active: conn_info@[i as int].state.active,
                    assigned_connector: conn_info@[i as int].id,
                    ..old(st).crtcs@[ci as int]
                },
            )
            &&& if old(st).connectors@[i as int].crtc_id != 0 {
                &&& held == old(st).connectors@[i as int].crtc_id
                &&& final(w).unused_crtcs@ == old(w).unused_crtcs@
            } else {
                &&& old(w).unused_crtcs@.contains(held)
                &&& final(w).unused_crtcs@ == old(w).unused_crtcs@.remove(held)
            }
        },
{
    let c = &conn_info[i];
    if st.connectors[i].crtc_id == 0 {
        let picked = pick_crtc(c.crtcs.as_slice(), &w.unused_crtcs);
        match picked {
            None => {
                return Err(BackendConnectorTransactionError::NoCrtcForConnector(c.kernel_id));
            },
            Some(id) => {
                w.unused_crtcs.remove(id);
                let mut conn = st.connectors[i];
                conn.crtc_id = id;
                st.connectors.set(i, conn);
            },
        }
    }
    let ci = match crtc_index(crtc_info, st.connectors[i].crtc_id) {
        Some(ci) => ci,
        None => {
            proof {
                let k = spec_crtc_at(crtc_info@, st.connectors@[i as int].crtc_id)->0;
                assert(crtc_info@[k].id == st.connectors@[i as int].crtc_id);
                assert(false);
            }
            return Err(BackendConnectorTransactionError::NoCrtcForConnector(c.kernel_id));
        },
    };
    let mut cs = st.crtcs[ci];
    cs.active = c.state.active;
    cs.assigned_connector = c.id;
    st.crtcs.set(ci, cs);
    w.crtc_links.push((ci, i));
    Ok(ci)
}

/// The slot's plane, where it supports the format.
pub open spec fn spec_kept(plane_info: Seq<TxPlaneInfo>, slot: Option<usize>, format: u32) -> Option<usize> {
    match slot {
        Some(pk) => if spec_supports(&plane_info[pk as int], format) {
            Some(pk)
        } else {
            None
        },
        None => None,
    }
}

/// The unused planes once the CRTC's planes that do not support their
/// formats (the connector's for the primary plane, ARGB8888 for the cursor
/// plane) are dropped.
pub open spec fn spec_after_drop(plane_info: Seq<TxPlaneInfo>, slots: CrtcPlanes, unused: Set<u32>, format: u32) -> Set<u32> {
    let u1 = match slots.primary {
        Some(pk) => if !spec_supports(&plane_info[pk as int], format) {
            unused.insert(plane_info[pk as int].id)
        } else {
            unused
        },
        None => unused,
    };
    match slots.cursor {
        Some(pk) => if !spec_supports(&plane_info[pk as int], ARGB8888) {
            u1.insert(plane_info[pk as int].id)
        } else {
            u1
        },
        None => u1,
    }
}

/// Whether the CRTC gets a primary plane for the format: the one it has
/// supports the format, or one of its possible planes is an unused primary
/// plane that does.
pub open spec fn spec_primary_available(
    crtc_info: Seq<TxCrtcInfo>,
    plane_info: Seq<TxPlaneInfo>,
    slots: CrtcPlanes,
    unused: Set<u32>,
    ci: int,
    format: u32,
) -> bool {
    ||| spec_kept(plane_info, slots.primary, format) is Some
    ||| exists|q: int|
        0 <= q < crtc_info[ci].possible_planes@.len() && spec_candidate(
            plane_info,
            spec_after_drop(plane_info, slots, unused, format),
            #[trigger] crtc_info[ci].possible_planes@[q],
            PlaneType::Primary,
            format,
        )
}

/// A slot's plane kept where it supports the format, else dropped back to
/// the unused planes.
pub open spec fn spec_keep_or_drop(plane_info: Seq<TxPlaneInfo>, slot: Option<usize>, unused: Set<u32>, format: u32) -> (
    Option<usize>,
    Set<u32>,
) {
    match slot {
        Some(pk) => if spec_supports(&plane_info[pk as int], format) {
            (Some(pk), unused)
        } else {
            (None, unused.insert(plane_info[pk as int].id))
        },
        None => (None, unused),
    }
}

/// The slots of CRTC `ci` and the unused planes once its planes are chosen
/// for a connector with the format (see [`choose_planes`]).
pub open spec fn spec_choose(
    crtc_info: Seq<TxCrtcInfo>,
    plane_info: Seq<TxPlaneInfo>,
    slots: CrtcPlanes,
    unused: Set<u32>,
    ci: int,
    format: u32,
) -> (CrtcPlanes, Set<u32>) {
    let possible = crtc_info[ci].possible_planes@;
    let (p1, u1) = spec_keep_or_drop(plane_info, slots.primary, unused, format);
    let (c1, u2) = spec_keep_or_drop(plane_info, slots.cursor, u1, ARGB8888);
    let (p2, u3) = if p1 is None {
        spec_pick(possible, plane_info, PlaneType::Primary, format, u2)
    } else {
        (p1, u2)
    };
    let (c2, u4) = if c1 is None {
        spec_pick(possible, plane_info, PlaneType::Cursor, ARGB8888, u3)
    } else {
        (c1, u3)
    };
    (CrtcPlanes { primary: p2, cursor: c2 }, u4)
}

/// The planes of CRTC `ci` for a connector with the format: those it has,
/// where they support the formats (the others become unused), else picked
/// among its possible planes; none without a primary plane.
fn choose_planes(
    crtc_info: &[TxCrtcInfo],
    plane_info: &[TxPlaneInfo],
    w: &mut Work,
    ci: usize,
    format: u32,
) -> (r: Option<CrtcPlanes>)
    requires
        ci < crtc_info@.len(),
        old(w).crtc_planes@.len() == crtc_info@.len(),
        forall|c: int| 0 <= c < crtc_info@.len() ==> spec_slots_ok(plane_info@, #[trigger] old(w).crtc_planes@[c]),
        forall|a: int, b: int| 0 <= a < b < plane_info@.len() ==> plane_info@[a].id != plane_info@[b].id,
    ensures
        final(w).crtc_planes@.len() == crtc_info@.len(),
        forall|c: int| 0 <= c < crtc_info@.len() ==> spec_slots_ok(plane_info@, #[trigger] final(w).crtc_planes@[c]),
        final(w).unused_crtcs@ == old(w).unused_crtcs@,
        final(w).crtc_links@ == old(w).crtc_links@,
        final(w).plane_links@ == old(w).plane_links@,
        final(w).actions@ == old(w).actions@,
        final(w).crtc_planes@ == old(w).crtc_planes@.update(ci as int, final(w).crtc_planes@[ci as int]),
        final(w).unused_planes@.subset_of(
            spec_after_drop(plane_info@, old(w).crtc_planes@[ci as int], old(w).unused_planes@, format),
        ),
        r is Some <==> spec_primary_available(
            crtc_info@,
            plane_info@,
            old(w).crtc_planes@[ci as int],
            old(w).unused_planes@,
            ci as int,
            format,
        ),
        r is None ==> final(w).crtc_planes@[ci as int].primary is None,
        (final(w).crtc_planes@[ci as int], final(w).unused_planes@) == spec_choose(
            crtc_info@,
            plane_info@,
            old(w).crtc_planes@[ci as int],
            old(w).unused_planes@,
            ci as int,
            format,
        ),
        ({
            let s = final(w).crtc_planes@[ci as int];
            let old_s = old(w).crtc_planes@[ci as int];
            let dropped = spec_after_drop(plane_info@, old_s, old(w).unused_planes@, format);
            &&& (spec_kept(plane_info@, old_s.primary, format) matches Some(pk) ==> s.primary == Some(pk))
            &&& (spec_kept(plane_info@, old_s.primary, format) is None ==> (s.primary matches Some(pk) ==> dropped.contains(
                plane_info@[pk as int].id,
            ) && crtc_info@[ci as int].possible_planes@.contains(plane_info@[pk as int].id) && !final(w).unused_planes@.contains(
                plane_info@[pk as int].id,
            )))
            &&& (spec_kept(plane_info@, old_s.cursor, ARGB8888) matches Some(pk) ==> s.cursor == Some(pk))
            &&& (spec_kept(plane_info@, old_s.cursor, ARGB8888) is None ==> (s.cursor matches Some(pk)
                ==> crtc_info@[ci as int].possible_planes@.contains(plane_info@[pk as int].id) && !final(w).unused_planes@.contains(
                plane_info@[pk as int].id,
            )))
        }),
        r matches Some(s) ==> s.primary is Some && final(w).crtc_planes@[ci as int] == s && spec_slots_ok(plane_info@, s)
            && spec_supports(&plane_info@[s.primary->0 as int], format) && (s.cursor matches Some(k) ==> spec_supports(
            &plane_info@[k as int],
            ARGB8888,
        )),
{
    let mut slots = w.crtc_planes[ci];
    if let Some(pk) = slots.primary {
        if !plane_supports(plane_info, pk, format) {
            w.unused_planes.insert(plane_info[pk].id);
            slots.primary = None;
        }
    }
    if let Some(pk) = slots.cursor {
        if !plane_supports(plane_info, pk, ARGB8888) {
            w.unused_planes.insert(plane_info[pk].id);
            slots.cursor = None;
        }
    }
    if slots.primary.is_none() {
        slots.primary = pick_plane(
            crtc_info[ci].possible_planes.as_slice(),
            plane_info,
            PlaneType::Primary,
            format,
            &mut w.unused_planes,
        );
    }
    if slots.cursor.is_none() {
        slots.cursor = pick_plane(
            crtc_info[ci].possible_planes.as_slice(),
            plane_info,
            PlaneType::Cursor,
            ARGB8888,
            &mut w.unused_planes,
        );
    }
    w.crtc_planes.set(ci, slots);
    if slots.primary.is_none() {
        return None;
    }
    Some(slots)
}

/// Whether the CRTC has a mode equal to the given one.
pub open spec fn spec_crtc_mode_is(c: DrmCrtcState, m: DrmModeInfo) -> bool {
    match c.mode {
        Some(cm) => spec_modes_equal(&cm, &m),
        None => false,
    }
}

/// Sets the mode asked for on CRTC `ci`: the connector's first mode that
/// the compositor describes as asked; a blob is created for it unless the
/// CRTC has an equal mode.
fn set_mode(
    crtc_info: &[TxCrtcInfo],
    conn_info: &[TxConnectorInfo],
    st: &mut TxState,
    w: &mut Work,
    i: usize,
    ci: usize,
) -> (r: Result<usize, BackendConnectorTransactionError>)
    requires
        i < conn_info@.len(),
        ci < old(st).crtcs@.len(),
        conn_info@[i as int].modes@.len() == conn_info@[i as int].backend_modes@.len(),
    ensures
        final(st).crtcs@.len() == old(st).crtcs@.len(),
        final(st).planes@ == old(st).planes@,
        final(st).connectors@ == old(st).connectors@,
        final(st).changed@ == old(st).changed@,
        final(w).unused_crtcs@ == old(w).unused_crtcs@,
        final(w).unused_planes@ == old(w).unused_planes@,
        final(w).crtc_planes@ == old(w).crtc_planes@,
        final(w).crtc_links@ == old(w).crtc_links@,
        final(w).plane_links@ == old(w).plane_links@,
        r is Err <==> !conn_info@[i as int].backend_modes@.contains(conn_info@[i as int].state.mode),
        r is Err ==> r == Err::<usize, BackendConnectorTransactionError>(
            BackendConnectorTransactionError::UnsupportedMode(conn_info@[i as int].kernel_id, conn_info@[i as int].state.mode),
        ) && final(st).crtcs@ == old(st).crtcs@ && final(w).actions@ == old(w).actions@,
        r matches Ok(mi) ==> {
            let m = conn_info@[i as int].modes@[mi as int];
            let same = spec_crtc_mode_is(old(st).crtcs@[ci as int], m);
            &&& mi < conn_info@[i as int].backend_modes@.len()
            &&& conn_info@[i as int].backend_modes@[mi as int] == conn_info@[i as int].state.mode
            &&& forall|q: int| 0 <= q < mi ==> conn_info@[i as int].backend_modes@[q] != conn_info@[i as int].state.mode
            &&& mi < conn_info@[i as int].modes@.len()
            &&& final(st).crtcs@ == old(st).crtcs@.update(
                ci as int,
                DrmCrtcState { mode: final(st).crtcs@[ci as int].mode, ..old(st).crtcs@[ci as int] },
            )
            &&& final(st).crtcs@[ci as int].mode == (if same {
                old(st).crtcs@[ci as int].mode
            } else {
                Some(m)
            })
            &&& final(w).actions@ == (if same {
                old(w).actions@
            } else {
                old(w).actions@.push(TxAction::CreateModeBlob { crtc: ci })
            })
            &&& spec_crtc_mode_is(final(st).crtcs@[ci as int], m)
        },
{
    let c = &conn_info[i];
    let mi = match find_mode(c.backend_modes.as_slice(), c.state.mode) {
        Some(mi) => mi,
        None => {
            return Err(BackendConnectorTransactionError::UnsupportedMode(c.kernel_id, c.state.mode));
        },
    };
    let mode = c.modes[mi];
    let mut cs = st.crtcs[ci];
    let same = match cs.mode {
        Some(old) => modes_equal(&old, &mode),
        None => false,
    };
    if !same {
        cs.mode = Some(mode);
        st.crtcs.set(ci, cs);
        w.actions.push(TxAction::CreateModeBlob { crtc: ci });
    }
    Ok(mi)
}

/// The colorimetry value of a color space.
pub open spec fn spec_colorimetry(cs: BackendColorSpace) -> u64 {
    match cs {
        BackendColorSpace::Default => crate::backend::DRM_MODE_COLORIMETRY_DEFAULT,
        BackendColorSpace::Bt2020 => crate::backend::DRM_MODE_COLORIMETRY_BT2020_RGB,
    }
}

/// The CRTC's state once VRR is enabled as asked, where the connector can.
pub open spec fn spec_finish_crtc(c: &TxConnectorInfo, cs: DrmCrtcState) -> DrmCrtcState {
    if !(c.state.vrr && !c.vrr_capable) {
        DrmCrtcState { vrr_enabled: c.state.vrr, ..cs }
    } else {
        cs
    }
}

/// The connector's state with its color space (where it has the property)
/// and its HDR metadata set as asked.
pub open spec fn spec_finish_conn(c: &TxConnectorInfo, conn: DrmConnectorState) -> DrmConnectorState {
    let c1 = DrmConnectorState {
        color_space: if conn.color_space is Some {
            Some(spec_colorimetry(c.state.color_space))
        } else {
            conn.color_space
        },
        ..conn
    };
    match spec_hdr_update(c.has_hdr_metadata, c.state.eotf, conn.hdr_metadata) {
        HdrUpdate::Keep => c1,
        HdrUpdate::Create(e) => DrmConnectorState { hdr_metadata: Some(HdrMetadata::Eotf(e)), ..c1 },
        HdrUpdate::Clear => DrmConnectorState { hdr_metadata: None, hdr_metadata_blob_id: 0, ..c1 },
    }
}

/// The blob of HDR metadata that connector `i` needs created, if any.
pub open spec fn spec_finish_actions(c: &TxConnectorInfo, conn: DrmConnectorState, i: usize) -> Seq<TxAction> {
    match spec_hdr_update(c.has_hdr_metadata, c.state.eotf, conn.hdr_metadata) {
        HdrUpdate::Create(e) => seq![TxAction::CreateHdrBlob { connector: i, eotf: e }],
        _ => Seq::empty(),
    }
}

/// Checks what connector `i` must support, enables VRR as asked where it
/// can, and sets its color space and HDR metadata.
fn finish_connector(
    dev: &TxDevice,
    crtc_info: &[TxCrtcInfo],
    plane_info: &[TxPlaneInfo],
    conn_info: &[TxConnectorInfo],
    st: &mut TxState,
    w: &mut Work,
    i: usize,
    ci: usize,
) -> (r: Result<(), BackendConnectorTransactionError>)
    requires
        i < conn_info@.len(),
        ci < crtc_info@.len(),
        spec_work_ok(crtc_info@, plane_info@, conn_info@, old(st), old(w).unused_crtcs@, old(w).crtc_planes@),
    ensures
        spec_work_ok(crtc_info@, plane_info@, conn_info@, final(st), final(w).unused_crtcs@, final(w).crtc_planes@),
        forall|j: int| 0 <= j < conn_info@.len() && j != i ==> #[trigger] final(st).connectors@[j] == old(st).connectors@[j],
        r == spec_check_capabilities(
            conn_info@[i as int].kernel_id,
            conn_info@[i as int].state,
            conn_info@[i as int].vrr_capable,
            dev.supports_async_commit,
            conn_info@[i as int].supports_bt2020,
            conn_info@[i as int].supports_pq,
        ),
        final(w).unused_crtcs@ == old(w).unused_crtcs@,
        final(w).unused_planes@ == old(w).unused_planes@,
        final(w).crtc_planes@ == old(w).crtc_planes@,
        final(st).connectors@[i as int].crtc_id == old(st).connectors@[i as int].crtc_id,
        r is Ok ==> final(st).crtcs@ == old(st).crtcs@.update(
            ci as int,
            DrmCrtcState { vrr_enabled: conn_info@[i as int].state.vrr, ..old(st).crtcs@[ci as int] },
        ),
        final(st).crtcs@ == old(st).crtcs@.update(ci as int, spec_finish_crtc(&conn_info@[i as int], old(st).crtcs@[ci as int])),
        final(st).planes@ == old(st).planes@,
        final(st).changed@ == old(st).changed@,
        final(w).crtc_links@ == old(w).crtc_links@,
        final(w).plane_links@ == old(w).plane_links@,
        r is Ok ==> final(st).connectors@ == old(st).connectors@.update(
            i as int,
            spec_finish_conn(&conn_info@[i as int], old(st).connectors@[i as int]),
        ) && final(w).actions@ == old(w).actions@ + spec_finish_actions(
            &conn_info@[i as int],
            old(st).connectors@[i as int],
            i,
        ),
        r is Err ==> final(st).connectors@ == old(st).connectors@ && final(w).actions@ == old(w).actions@,
{
    let c = &conn_info[i];
    if !(c.state.vrr && !c.vrr_capable) {
        let mut cs = st.crtcs[ci];
        cs.vrr_enabled = c.state.vrr;
        st.crtcs.set(ci, cs);
    }
    match check_capabilities(
        c.kernel_id,
        &c.state,
        c.vrr_capable,
        dev.supports_async_commit,
        c.supports_bt2020,
        c.supports_pq,
    ) {
        Err(e) => {
            return Err(e);
        },
        Ok(()) => {},
    }
    let mut conn = st.connectors[i];
    if conn.color_space.is_some() {
        conn.color_space = Some(c.state.color_space.to_drm());
    }
    match hdr_update(c.has_hdr_metadata, c.state.eotf, conn.hdr_metadata) {
        HdrUpdate::Keep => {},
        HdrUpdate::Create(e) => {
            conn.hdr_metadata = Some(HdrMetadata::Eotf(e));
            w.actions.push(TxAction::CreateHdrBlob { connector: i, eotf: e });
        },
        HdrUpdate::Clear => {
            conn.hdr_metadata = None;
            conn.hdr_metadata_blob_id = 0;
        },
    }
    st.connectors.set(i, conn);
    Ok(())
}

/// Whether the CRTC's state serves the connector as chosen: it is assigned
/// to the connector, active and VRR-enabled as asked, with a mode equal to
/// the chosen one.
pub open spec fn spec_crtc_serves(cs: DrmCrtcState, c: &TxConnectorInfo, ch: ConnectorChoice) -> bool {
    &&& cs.assigned_connector == c.id
    &&& cs.active == c.state.active
    &&& cs.vrr_enabled == c.state.vrr
    &&& ch.mode < c.modes@.len()
    &&& spec_crtc_mode_is(cs, c.modes@[ch.mode as int])
}

/// Why connector `c`, in state `conn`, cannot be planned, checked in this
/// order: no CRTC for it (it has none and none of its possible ones is
/// unused), no primary plane for the format on its CRTC, a mode that the
/// connector does not offer, then what it must support; none where it can
/// be planned.
pub open spec fn spec_connector_error(
    crtc_info: Seq<TxCrtcInfo>,
    plane_info: Seq<TxPlaneInfo>,
    c: &TxConnectorInfo,
    supports_async_commit: bool,
    conn: DrmConnectorState,
    unused_crtcs: Set<u32>,
    unused_planes: Set<u32>,
    crtc_planes: Seq<CrtcPlanes>,
) -> Option<BackendConnectorTransactionError> {
    let picked = spec_first_unused(c.crtcs@, unused_crtcs);
    if conn.crtc_id == 0 && picked is None {
        Some(BackendConnectorTransactionError::NoCrtcForConnector(c.kernel_id))
    } else {
        let held = if conn.crtc_id != 0 {
            conn.crtc_id
        } else {
            picked->0
        };
        let ci = spec_crtc_first(crtc_info, held)->0;
        if !spec_primary_available(crtc_info, plane_info, crtc_planes[ci], unused_planes, ci, c.state.format) {
            Some(BackendConnectorTransactionError::NoPrimaryPlaneForConnector(c.kernel_id))
        } else {
            spec_input_error(c, supports_async_commit)
        }
    }
}

/// What the connector's own description refuses, checked in this order: a
/// mode that the connector does not offer, then what it must support.
pub open spec fn spec_input_error(c: &TxConnectorInfo, supports_async_commit: bool) -> Option<
    BackendConnectorTransactionError,
> {
    if !c.backend_modes@.contains(c.state.mode) {
        Some(BackendConnectorTransactionError::UnsupportedMode(c.kernel_id, c.state.mode))
    } else {
        match spec_check_capabilities(
            c.kernel_id,
            c.state,
            c.vrr_capable,
            supports_async_commit,
            c.supports_bt2020,
            c.supports_pq,
        ) {
            Err(e) => Some(e),
            Ok(_) => None,
        }
    }
}

/// Every CRTC that no connector holds is unused.
pub open spec fn spec_unused_held(crtc_info: Seq<TxCrtcInfo>, conns: Seq<DrmConnectorState>, unused: Set<u32>) -> bool {
    forall|x: u32|
        spec_crtc_at(crtc_info, x) is Some && !#[trigger] unused.contains(x) ==> exists|j: int|
            0 <= j < conns.len() && (#[trigger] conns[j]).crtc_id == x
}

/// What stays true of the unused CRTCs when connector `i` alone changes
/// and a CRTC leaves the unused ones only where connector `i` takes it.
proof fn lemma_unused_held_step(
    crtc_info: Seq<TxCrtcInfo>,
    c0: Seq<DrmConnectorState>,
    u0: Set<u32>,
    c1: Seq<DrmConnectorState>,
    u1: Set<u32>,
    i: int,
)
    requires
        spec_unused_held(crtc_info, c0, u0),
        0 <= i < c0.len(),
        c1.len() == c0.len(),
        forall|j: int| 0 <= j < c0.len() && j != i ==> #[trigger] c1[j] == c0[j],
        forall|x: u32|
            spec_crtc_at(crtc_info, x) is Some && !#[trigger] u1.contains(x) ==> (!u0.contains(x) && x != c0[i].crtc_id)
                || x == c1[i].crtc_id,
    ensures
        spec_unused_held(crtc_info, c1, u1),
{
    assert forall|x: u32| spec_crtc_at(crtc_info, x) is Some && !#[trigger] u1.contains(x) implies exists|j: int|
        0 <= j < c1.len() && (#[trigger] c1[j]).crtc_id == x by {
        if x == c1[i].crtc_id {
            assert(c1[i].crtc_id == x);
        } else {
            assert(!u0.contains(x));
            let j = choose|j: int| 0 <= j < c0.len() && (#[trigger] c0[j]).crtc_id == x;
            assert(j != i);
            assert(c1[j] == c0[j]);
        }
    }
}

/// Each connector that drives a display, among the first `upto`, passes
/// what its own description refuses, where the plan holds for them.
proof fn lemma_plan_ok_inputs(
    dev: &TxDevice,
    crtc_info: Seq<TxCrtcInfo>,
    plane_info: Seq<TxPlaneInfo>,
    conn_info: Seq<TxConnectorInfo>,
    st: &TxState,
    choices: Seq<Option<ConnectorChoice>>,
    upto: int,
)
    requires
        spec_plan_ok(dev, crtc_info, plane_info, conn_info, st, choices, upto),
    ensures
        forall|j: int|
            0 <= j < upto && spec_drives(conn_info, j) ==> spec_input_error(#[trigger] &conn_info[j], dev.supports_async_commit)
                is None,
{
    assert forall|j: int| 0 <= j < upto && spec_drives(conn_info, j) implies spec_input_error(
        #[trigger] &conn_info[j],
        dev.supports_async_commit,
    ) is None by {
        let ch = choices[j]->0;
        assert(conn_info[j].backend_modes@[ch.mode as int] == conn_info[j].state.mode);
    }
}

/// The planner's state once a connector in state `conn` that drives a
/// display was planned without error: it holds its CRTC or takes the first
/// unused one it can use, and that CRTC's planes are chosen.
pub open spec fn spec_connector_work(
    crtc_info: Seq<TxCrtcInfo>,
    plane_info: Seq<TxPlaneInfo>,
    c: &TxConnectorInfo,
    conn: DrmConnectorState,
    w: PlanWork,
) -> PlanWork {
    let held = if conn.crtc_id != 0 {
        conn.crtc_id
    } else {
        spec_first_unused(c.crtcs@, w.unused_crtcs)->0
    };
    let ci = spec_crtc_first(crtc_info, held)->0;
    let (slots, unused_planes) = spec_choose(crtc_info, plane_info, w.crtc_planes[ci], w.unused_planes, ci, c.state.format);
    PlanWork {
        unused_crtcs: if conn.crtc_id != 0 {
            w.unused_crtcs
        } else {
            w.unused_crtcs.remove(held)
        },
        unused_planes,
        crtc_planes: w.crtc_planes.update(ci, slots),
    }
}

/// Everything the planner has decided so far: the objects' states, the
/// unused objects and CRTC planes, the links and the actions.
pub struct PlanState {
    pub crtcs: Seq<DrmCrtcState>,
    pub planes: Seq<DrmPlaneState>,
    pub connectors: Seq<DrmConnectorState>,
    pub changed: Seq<bool>,
    pub work: PlanWork,
    pub crtc_links: Seq<(usize, usize)>,
    pub plane_links: Seq<(usize, usize)>,
    pub actions: Seq<TxAction>,
}

spec fn spec_plan_state(st: &TxState, w: &Work) -> PlanState {
    PlanState {
        crtcs: st.crtcs@,
        planes: st.planes@,
        connectors: st.connectors@,
        changed: st.changed@,
        work: PlanWork { unused_crtcs: w.unused_crtcs@, unused_planes: w.unused_planes@, crtc_planes: w.crtc_planes@ },
        crtc_links: w.crtc_links@,
        plane_links: w.plane_links@,
        actions: w.actions@,
    }
}

/// The first position of the value in the list (its length where it does
/// not occur).
pub open spec fn spec_first_index(s: Seq<Mode>, x: Mode) -> int
    decreases s.len(),
{
    if s.len() == 0 {
        0
    } else if s[0] == x {
        0
    } else {
        1 + spec_first_index(s.drop_first(), x)
    }
}

proof fn lemma_first_index(s: Seq<Mode>, x: Mode, k: int)
    requires
        0 <= k < s.len(),
        s[k] == x,
        forall|q: int| 0 <= q < k ==> s[q] != x,
    ensures
        spec_first_index(s, x) == k,
    decreases s.len(),
{
    if k > 0 {
        assert(s[0] != x);
        assert forall|q: int| 0 <= q < k - 1 implies s.drop_first()[q] != x by {
            assert(s.drop_first()[q] == s[q + 1]);
        }
        lemma_first_index(s.drop_first(), x, k - 1);
    }
}

/// The planner's state once plane `pk` is set up for connector `i` on CRTC
/// `ci` (see [`configure_plane`]).
pub open spec fn spec_configure_state(
    dev: TxDevice,
    crtc_info: Seq<TxCrtcInfo>,
    plane_info: Seq<TxPlaneInfo>,
    c: &TxConnectorInfo,
    i: int,
    ci: int,
    pk: int,
    primary: bool,
    mode: DrmModeInfo,
    s: PlanState,
) -> PlanState {
    let conn = s.connectors[i];
    let geo = spec_geometry(dev, c, conn, primary, mode);
    let bufs = spec_old_buffers(c, primary);
    let reuse = spec_reuse(&plane_info[pk], bufs, geo.2, geo.3, geo.4);
    let choice = spec_plane_choice(dev, c, conn, s.crtcs[ci].active, primary, bufs, reuse);
    let plane = spec_new_plane(geo, conn, crtc_info[ci].id, bufs, reuse, choice);
    PlanState {
        planes: s.planes.update(pk, plane),
        connectors: s.connectors.update(i, spec_new_conn(conn, primary, plane, spec_new_idx(conn, primary, choice))),
        changed: if reuse {
            s.changed
        } else {
            s.changed.update(i, true)
        },
        actions: s.actions + spec_plane_actions(c, conn, i as usize, pk as usize, primary, geo, bufs, reuse, choice),
        plane_links: s.plane_links + spec_inherited(s.crtc_links, ci as usize, pk as usize),
        ..s
    }
}

/// The CRTC connector `i` gets: the one it holds, else the first unused
/// one it can use.
pub open spec fn spec_held(c: &TxConnectorInfo, conn: DrmConnectorState, unused: Set<u32>) -> u32 {
    if conn.crtc_id != 0 {
        conn.crtc_id
    } else {
        spec_first_unused(c.crtcs@, unused)->0
    }
}

/// The planner's state once connector `i` holds its CRTC, made active and
/// assigned to it.
pub open spec fn spec_assign_state(crtc_info: Seq<TxCrtcInfo>, c: &TxConnectorInfo, i: int, s: PlanState) -> PlanState {
    let conn = s.connectors[i];
    let held = spec_held(c, conn, s.work.unused_crtcs);
    let ci = spec_crtc_first(crtc_info, held)->0;
    PlanState {
        connectors: s.connectors.update(i, DrmConnectorState { crtc_id: held, ..conn }),
        crtcs: s.crtcs.update(ci, DrmCrtcState { active: c.state.active, assigned_connector: c.id, ..s.crtcs[ci] }),
        crtc_links: s.crtc_links.push((ci as usize, i as usize)),
        work: PlanWork {
            unused_crtcs: if conn.crtc_id != 0 {
                s.work.unused_crtcs
            } else {
                s.work.unused_crtcs.remove(held)
            },
            ..s.work
        },
        ..s
    }
}

/// The planner's state once the planes of CRTC `ci` are chosen for the
/// connector.
pub open spec fn spec_choose_state(
    crtc_info: Seq<TxCrtcInfo>,
    plane_info: Seq<TxPlaneInfo>,
    c: &TxConnectorInfo,
    ci: int,
    s: PlanState,
) -> PlanState {
    let (slots, up) = spec_choose(crtc_info, plane_info, s.work.crtc_planes[ci], s.work.unused_planes, ci, c.state.format);
    PlanState { work: PlanWork { unused_planes: up, crtc_planes: s.work.crtc_planes.update(ci, slots), ..s.work }, ..s }
}

/// The mode connector `c` asks for: the first of its modes that the
/// compositor describes as asked.
pub open spec fn spec_mode(c: &TxConnectorInfo) -> DrmModeInfo {
    c.modes@[spec_first_index(c.backend_modes@, c.state.mode)]
}

/// The planner's state once CRTC `ci` has the mode, with a blob to create
/// where its mode differs.
pub open spec fn spec_mode_state(ci: int, m: DrmModeInfo, s: PlanState) -> PlanState {
    let same = spec_crtc_mode_is(s.crtcs[ci], m);
    PlanState {
        crtcs: s.crtcs.update(
            ci,
            DrmCrtcState {
                mode: if same {
                    s.crtcs[ci].mode
                } else {
                    Some(m)
                },
                ..s.crtcs[ci]
            },
        ),
        actions: if same {
            s.actions
        } else {
            s.actions.push(TxAction::CreateModeBlob { crtc: ci as usize })
        },
        ..s
    }
}

/// The planner's state once the planes are set up and VRR is enabled
/// where the connector can.
pub open spec fn spec_setup_state(
    dev: TxDevice,
    crtc_info: Seq<TxCrtcInfo>,
    plane_info: Seq<TxPlaneInfo>,
    c: &TxConnectorInfo,
    i: int,
    ci: int,
    slots: CrtcPlanes,
    m: DrmModeInfo,
    s: PlanState,
) -> PlanState {
    let s4 = spec_configure_state(dev, crtc_info, plane_info, c, i, ci, slots.primary->0 as int, true, m, s);
    let s5 = match slots.cursor {
        Some(k) => spec_configure_state(dev, crtc_info, plane_info, c, i, ci, k as int, false, m, s4),
        None => s4,
    };
    PlanState { crtcs: s5.crtcs.update(ci, spec_finish_crtc(c, s5.crtcs[ci])), ..s5 }
}

/// The planner's state once connector `i`, which drives a display, was
/// planned, and its error, if any; the steps done before an error stay
/// done. Its CRTC is the one it holds or the first unused one it can use,
/// made active and assigned to it; the CRTC's planes are chosen; the mode
/// is set, with a blob where the CRTC's mode differs; the primary and the
/// cursor plane are set up; VRR is enabled where the connector can; the
/// capabilities are checked; the color space and HDR metadata are set.
pub open spec fn spec_drive(
    dev: TxDevice,
    crtc_info: Seq<TxCrtcInfo>,
    plane_info: Seq<TxPlaneInfo>,
    c: &TxConnectorInfo,
    i: int,
    s: PlanState,
) -> (PlanState, Option<BackendConnectorTransactionError>) {
    let conn = s.connectors[i];
    if conn.crtc_id == 0 && spec_first_unused(c.crtcs@, s.work.unused_crtcs) is None {
        (s, Some(BackendConnectorTransactionError::NoCrtcForConnector(c.kernel_id)))
    } else {
        let ci = spec_crtc_first(crtc_info, spec_held(c, conn, s.work.unused_crtcs))->0;
        let s2 = spec_choose_state(crtc_info, plane_info, c, ci, spec_assign_state(crtc_info, c, i, s));
        let slots = s2.work.crtc_planes[ci];
        if slots.primary is None {
            (s2, Some(BackendConnectorTransactionError::NoPrimaryPlaneForConnector(c.kernel_id)))
        } else if !c.backend_modes@.contains(c.state.mode) {
            (s2, Some(BackendConnectorTransactionError::UnsupportedMode(c.kernel_id, c.state.mode)))
        } else {
            let m = spec_mode(c);
            let s6 = spec_setup_state(dev, crtc_info, plane_info, c, i, ci, slots, m, spec_mode_state(ci, m, s2));
            match spec_check_capabilities(
                c.kernel_id,
                c.state,
                c.vrr_capable,
                dev.supports_async_commit,
                c.supports_bt2020,
                c.supports_pq,
            ) {
                Err(e) => (s6, Some(e)),
                Ok(_) => (
                    PlanState {
                        connectors: s6.connectors.update(i, spec_finish_conn(c, s6.connectors[i])),
                        actions: s6.actions + spec_finish_actions(c, s6.connectors[i], i as usize),
                        ..s6
                    },
                    None,
                ),
            }
        }
    }
}

/// Plans connector `i`, which drives a display: its CRTC, its planes, its
/// mode, the set-up of its planes, and what it must support.
fn assign_connector(
    dev: &TxDevice,
    crtc_info: &[TxCrtcInfo],
    plane_info: &[TxPlaneInfo],
    conn_info: &[TxConnectorInfo],
    st: &mut TxState,
    w: &mut Work,
    i: usize,
) -> (r: Result<ConnectorChoice, BackendConnectorTransactionError>)
    requires
        i < conn_info@.len(),
        spec_work_ok(crtc_info@, plane_info@, conn_info@, old(st), old(w).unused_crtcs@, old(w).crtc_planes@),
        forall|a: int, b: int| 0 <= a < b < plane_info@.len() ==> plane_info@[a].id != plane_info@[b].id,
        conn_info@[i as int].modes@.len() == conn_info@[i as int].backend_modes@.len(),
        spec_buffers_ok(conn_info@[i as int].buffers),
        spec_buffers_ok(conn_info@[i as int].cursor_buffers),
    ensures
        spec_work_ok(crtc_info@, plane_info@, conn_info@, final(st), final(w).unused_crtcs@, final(w).crtc_planes@),
        forall|j: int| 0 <= j < conn_info@.len() && j != i ==> #[trigger] final(st).connectors@[j] == old(st).connectors@[j],
        match spec_connector_error(
            crtc_info@,
            plane_info@,
            &conn_info@[i as int],
            dev.supports_async_commit,
            old(st).connectors@[i as int],
            old(w).unused_crtcs@,
            old(w).unused_planes@,
            old(w).crtc_planes@,
        ) {
            Some(e) => r == Err::<ConnectorChoice, BackendConnectorTransactionError>(e),
            None => r is Ok,
        },
        (final(st).connectors@[i as int].crtc_id == old(st).connectors@[i as int].crtc_id && final(w).unused_crtcs@
            == old(w).unused_crtcs@) || (old(st).connectors@[i as int].crtc_id == 0 && final(w).unused_crtcs@
            == old(w).unused_crtcs@.remove(final(st).connectors@[i as int].crtc_id)),
        r == Err::<ConnectorChoice, BackendConnectorTransactionError>(
            BackendConnectorTransactionError::NoCrtcForConnector(conn_info@[i as int].kernel_id),
        ) ==> final(st).connectors@ == old(st).connectors@ && final(w).unused_crtcs@ == old(w).unused_crtcs@,
        r == Err::<ConnectorChoice, BackendConnectorTransactionError>(
            BackendConnectorTransactionError::NoPrimaryPlaneForConnector(conn_info@[i as int].kernel_id),
        ) ==> final(st).connectors@[i as int].crtc_id != 0,
        spec_plan_state(final(st), final(w)) == spec_drive(
            *dev,
            crtc_info@,
            plane_info@,
            &conn_info@[i as int],
            i as int,
            spec_plan_state(old(st), old(w)),
        ).0,
        match spec_drive(*dev, crtc_info@, plane_info@, &conn_info@[i as int], i as int, spec_plan_state(old(st), old(w))).1 {
            Some(e) => r == Err::<ConnectorChoice, BackendConnectorTransactionError>(e),
            None => r is Ok,
        },
        r is Ok ==> (PlanWork {
            unused_crtcs: final(w).unused_crtcs@,
            unused_planes: final(w).unused_planes@,
            crtc_planes: final(w).crtc_planes@,
        }) == spec_connector_work(
            crtc_info@,
            plane_info@,
            &conn_info@[i as int],
            old(st).connectors@[i as int],
            PlanWork {
                unused_crtcs: old(w).unused_crtcs@,
                unused_planes: old(w).unused_planes@,
                crtc_planes: old(w).crtc_planes@,
            },
        ),
        r matches Ok(ch) ==> spec_choice_ok(crtc_info@, plane_info@, &conn_info@[i as int], ch) && spec_check_capabilities(
            conn_info@[i as int].kernel_id,
            conn_info@[i as int].state,
            conn_info@[i as int].vrr_capable,
            dev.supports_async_commit,
            conn_info@[i as int].supports_bt2020,
            conn_info@[i as int].supports_pq,
        ) is Ok,
        r matches Ok(ch) ==> {
            let held = final(st).connectors@[i as int].crtc_id;
            let cs = final(st).crtcs@[ch.crtc as int];
            &&& held != 0
            &&& crtc_info@[ch.crtc as int].id == held
            &&& forall|q: int| 0 <= q < crtc_info@.len() && q != ch.crtc ==> #[trigger] final(st).crtcs@[q] == old(st).crtcs@[q]
            &&& spec_crtc_serves(cs, &conn_info@[i as int], ch)
            &&& if old(st).connectors@[i as int].crtc_id != 0 {
                &&& held == old(st).connectors@[i as int].crtc_id
                &&& final(w).unused_crtcs@ == old(w).unused_crtcs@
            } else {
                &&& old(w).unused_crtcs@.contains(held)
                &&& final(w).unused_crtcs@ == old(w).unused_crtcs@.remove(held)
            }
        },
{
    let c = &conn_info[i];
    let ghost s0 = spec_plan_state(st, w);
    let ci = match assign_crtc(crtc_info, plane_info, conn_info, st, w, i) {
        Ok(ci) => ci,
        Err(e) => {
            return Err(e);
        },
    };
    let ghost s1 = spec_plan_state(st, w);
    proof {
        let t = spec_assign_state(crtc_info@, &conn_info@[i as int], i as int, s0);
        assert(s1.connectors =~= t.connectors);
        assert(s1.crtcs =~= t.crtcs);
        assert(s1.work.unused_crtcs =~= t.work.unused_crtcs);
        assert(s1 == t);
    }
    let chosen = choose_planes(crtc_info, plane_info, w, ci, c.state.format);
    let ghost s2 = spec_plan_state(st, w);
    proof {
        assert(s2 == spec_choose_state(crtc_info@, plane_info@, &conn_info@[i as int], ci as int, s1));
    }
    let slots = match chosen {
        Some(s) => s,
        None => {
            return Err(BackendConnectorTransactionError::NoPrimaryPlaneForConnector(c.kernel_id));
        },
    };
    let primary = slots.primary.unwrap();
    let mi = match set_mode(crtc_info, conn_info, st, w, i, ci) {
        Ok(mi) => mi,
        Err(e) => {
            return Err(e);
        },
    };
    let mode = c.modes[mi];
    proof {
        lemma_first_index(c.backend_modes@, c.state.mode, mi as int);
        assert(mode == spec_mode(&conn_info@[i as int]));
        assert(spec_plan_state(st, w) == spec_mode_state(ci as int, mode, s2));
    }
    let ghost s3 = spec_plan_state(st, w);
    configure_plane(dev, crtc_info, plane_info, conn_info, st, w, i, ci, primary, true, mode);
    let ghost s4 = spec_plan_state(st, w);
    proof {
        let t = spec_configure_state(*dev, crtc_info@, plane_info@, &conn_info@[i as int], i as int, ci as int, primary as int, true, mode, s3);
        assert(s4.connectors =~= t.connectors);
        assert(s4 == t);
    }
    if let Some(pk) = slots.cursor {
        configure_plane(dev, crtc_info, plane_info, conn_info, st, w, i, ci, pk, false, mode);
        proof {
            let t = spec_configure_state(*dev, crtc_info@, plane_info@, &conn_info@[i as int], i as int, ci as int, pk as int, false, mode, s4);
            assert(st.connectors@ =~= t.connectors);
            assert(spec_plan_state(st, w) == t);
        }
    }
    let ghost s5 = spec_plan_state(st, w);
    let fin = finish_connector(dev, crtc_info, plane_info, conn_info, st, w, i, ci);
    proof {
        let s6 = PlanState { crtcs: s5.crtcs.update(ci as int, spec_finish_crtc(&conn_info@[i as int], s5.crtcs[ci as int])), ..s5 };
        assert(s6 == spec_setup_state(*dev, crtc_info@, plane_info@, &conn_info@[i as int], i as int, ci as int, slots, mode, s3));
    }
    match fin {
        Err(e) => {
            return Err(e);
        },
        Ok(()) => {},
    }
    Ok(ConnectorChoice { crtc: ci, primary, cursor: slots.cursor, mode: mi })
}

/// One connector's turn in the plan: one that drives nothing releases its
/// CRTC; one that drives a display fails with its error or is planned.
pub open spec fn spec_step(
    supports_async_commit: bool,
    crtc_info: Seq<TxCrtcInfo>,
    plane_info: Seq<TxPlaneInfo>,
    c: &TxConnectorInfo,
    conn: DrmConnectorState,
    w: PlanWork,
) -> Result<PlanWork, BackendConnectorTransactionError> {
    if !spec_drives_display(c.state, c.connected, c.non_desktop) {
        Ok(spec_release(crtc_info, plane_info, conn.crtc_id, w))
    } else {
        match spec_connector_error(
            crtc_info,
            plane_info,
            c,
            supports_async_commit,
            conn,
            w.unused_crtcs,
            w.unused_planes,
            w.crtc_planes,
        ) {
            Some(e) => Err(e),
            None => Ok(spec_connector_work(crtc_info, plane_info, c, conn, w)),
        }
    }
}

/// The CRTCs that no connector holds at the start.
pub open spec fn spec_initial_unused_crtcs(crtc_info: Seq<TxCrtcInfo>, conns: Seq<DrmConnectorState>) -> Set<u32> {
    Set::new(
        |x: u32| spec_crtc_at(crtc_info, x) is Some && forall|j: int| 0 <= j < conns.len() ==> (#[trigger] conns[j]).crtc_id != x,
    )
}

/// The planner's state before the first connector: the CRTCs that no
/// connector holds are unused, and the planes claim the CRTCs they show on.
pub open spec fn spec_initial_work(
    crtc_info: Seq<TxCrtcInfo>,
    plane_info: Seq<TxPlaneInfo>,
    planes: Seq<DrmPlaneState>,
    conns: Seq<DrmConnectorState>,
) -> PlanWork {
    let unused = spec_initial_unused_crtcs(crtc_info, conns);
    PlanWork {
        unused_crtcs: unused,
        unused_planes: spec_unclaimed_ids(crtc_info, plane_info, planes, unused, plane_info.len() as int),
        crtc_planes: spec_claim_slots(crtc_info, plane_info, planes, unused, plane_info.len() as int),
    }
}

/// The planner's state after the first `i` connectors, or the first error.
pub open spec fn spec_replay(
    supports_async_commit: bool,
    crtc_info: Seq<TxCrtcInfo>,
    plane_info: Seq<TxPlaneInfo>,
    conn_info: Seq<TxConnectorInfo>,
    conns: Seq<DrmConnectorState>,
    w0: PlanWork,
    i: int,
) -> Result<PlanWork, BackendConnectorTransactionError>
    decreases i,
{
    if i <= 0 {
        Ok(w0)
    } else {
        match spec_replay(supports_async_commit, crtc_info, plane_info, conn_info, conns, w0, i - 1) {
            Err(e) => Err(e),
            Ok(w) => spec_step(supports_async_commit, crtc_info, plane_info, &conn_info[i - 1], conns[i - 1], w),
        }
    }
}

/// The outcome of the plan: the first connector's error, if any.
pub open spec fn spec_plan_result(
    supports_async_commit: bool,
    crtc_info: Seq<TxCrtcInfo>,
    plane_info: Seq<TxPlaneInfo>,
    conn_info: Seq<TxConnectorInfo>,
    planes: Seq<DrmPlaneState>,
    conns: Seq<DrmConnectorState>,
) -> Result<(), BackendConnectorTransactionError> {
    match spec_replay(
        supports_async_commit,
        crtc_info,
        plane_info,
        conn_info,
        conns,
        spec_initial_work(crtc_info, plane_info, planes, conns),
        conn_info.len() as int,
    ) {
        Ok(_) => Ok(()),
        Err(e) => Err(e),
    }
}

/// Once a connector fails, the plan keeps that error.
proof fn lemma_replay_error_kept(
    supports_async_commit: bool,
    crtc_info: Seq<TxCrtcInfo>,
    plane_info: Seq<TxPlaneInfo>,
    conn_info: Seq<TxConnectorInfo>,
    conns: Seq<DrmConnectorState>,
    w0: PlanWork,
    i: int,
    k: int,
)
    requires
        0 <= i <= k,
        spec_replay(supports_async_commit, crtc_info, plane_info, conn_info, conns, w0, i) is Err,
    ensures
        spec_replay(supports_async_commit, crtc_info, plane_info, conn_info, conns, w0, k) == spec_replay(
            supports_async_commit,
            crtc_info,
            plane_info,
            conn_info,
            conns,
            w0,
            i,
        ),
    decreases k - i,
{
    if k > i {
        lemma_replay_error_kept(supports_async_commit, crtc_info, plane_info, conn_info, conns, w0, i, k - 1);
    }
}

/// One connector's turn in the whole plan: one that drives nothing is
/// released; one that drives a display is planned or fails.
pub open spec fn spec_turn(
    dev: TxDevice,
    crtc_info: Seq<TxCrtcInfo>,
    plane_info: Seq<TxPlaneInfo>,
    conn_info: Seq<TxConnectorInfo>,
    i: int,
    s: PlanState,
) -> (PlanState, Option<BackendConnectorTransactionError>) {
    if !spec_drives(conn_info, i) {
        (spec_release_state(crtc_info, plane_info, i, s), None)
    } else {
        spec_drive(dev, crtc_info, plane_info, &conn_info[i], i, s)
    }
}

/// The planner's decisions after the first `k` connectors, and the first
/// error, with the decisions made up to it.
pub open spec fn spec_plan_after(
    dev: TxDevice,
    crtc_info: Seq<TxCrtcInfo>,
    plane_info: Seq<TxPlaneInfo>,
    conn_info: Seq<TxConnectorInfo>,
    s0: PlanState,
    k: int,
) -> (PlanState, Option<BackendConnectorTransactionError>)
    decreases k,
{
    if k <= 0 {
        (s0, None)
    } else {
        let prev = spec_plan_after(dev, crtc_info, plane_info, conn_info, s0, k - 1);
        if prev.1 is Some {
            prev
        } else {
            spec_turn(dev, crtc_info, plane_info, conn_info, k - 1, prev.0)
        }
    }
}

proof fn lemma_plan_after_error_kept(
    dev: TxDevice,
    crtc_info: Seq<TxCrtcInfo>,
    plane_info: Seq<TxPlaneInfo>,
    conn_info: Seq<TxConnectorInfo>,
    s0: PlanState,
    i: int,
    k: int,
)
    requires
        0 <= i <= k,
        spec_plan_after(dev, crtc_info, plane_info, conn_info, s0, i).1 is Some,
    ensures
        spec_plan_after(dev, crtc_info, plane_info, conn_info, s0, k) == spec_plan_after(
            dev,
            crtc_info,
            plane_info,
            conn_info,
            s0,
            i,
        ),
    decreases k - i,
{
    if k > i {
        lemma_plan_after_error_kept(dev, crtc_info, plane_info, conn_info, s0, i, k - 1);
    }
}

/// The links of the CRTCs the connectors hold at the start: each CRTC is
/// linked to the first connector (by index) that holds it.
pub open spec fn spec_initial_crtc_links(crtc_info: Seq<TxCrtcInfo>, conns: Seq<DrmConnectorState>, j: int) -> Seq<
    (usize, usize),
>
    decreases j,
{
    if j <= 0 {
        Seq::empty()
    } else {
        let l = spec_initial_crtc_links(crtc_info, conns, j - 1);
        match spec_crtc_first(crtc_info, conns[j - 1].crtc_id) {
            Some(ci) => if exists|q: int| 0 <= q < l.len() && (#[trigger] l[q]).0 == ci {
                l
            } else {
                l.push((ci as usize, (j - 1) as usize))
            },
            None => l,
        }
    }
}

/// The planes once they claimed the CRTCs they show on; the others are
/// reset.
pub open spec fn spec_claimed_planes(
    crtc_info: Seq<TxCrtcInfo>,
    plane_info: Seq<TxPlaneInfo>,
    planes: Seq<DrmPlaneState>,
    unused: Set<u32>,
) -> Seq<DrmPlaneState> {
    Seq::new(
        planes.len(),
        |k: int|
            if spec_claimed(crtc_info, plane_info, planes, unused, k) {
                spec_claiming(planes[k])
            } else {
                spec_reset_plane(planes[k])
            },
    )
}

/// The planner's state before the first connector.
pub open spec fn spec_initial_state(
    crtc_info: Seq<TxCrtcInfo>,
    plane_info: Seq<TxPlaneInfo>,
    st: &TxState,
) -> PlanState {
    let conns = st.connectors@;
    let w0 = spec_initial_work(crtc_info, plane_info, st.planes@, conns);
    let links = spec_initial_crtc_links(crtc_info, conns, conns.len() as int);
    PlanState {
        crtcs: st.crtcs@,
        planes: spec_claimed_planes(crtc_info, plane_info, st.planes@, w0.unused_crtcs),
        connectors: conns,
        changed: st.changed@,
        work: w0,
        crtc_links: links,
        plane_links: spec_claim_links(crtc_info, links, st.planes@, plane_info.len() as int),
        actions: Seq::empty(),
    }
}

/// The whole plan for the transaction: the decisions for every connector,
/// or up to the first error.
pub open spec fn spec_whole_plan(dev: TxDevice, crtc_info: Seq<TxCrtcInfo>, plane_info: Seq<TxPlaneInfo>, conn_info: Seq<TxConnectorInfo>, st: &TxState) -> (
    PlanState,
    Option<BackendConnectorTransactionError>,
) {
    spec_plan_after(
        dev,
        crtc_info,
        plane_info,
        conn_info,
        spec_initial_state(crtc_info, plane_info, st),
        conn_info.len() as int,
    )
}

/// The state of a CRTC that is not used.
pub open spec fn spec_unused_crtc_state() -> DrmCrtcState {
    DrmCrtcState { active: false, mode: None, mode_blob_id: 0, vrr_enabled: false, assigned_connector: 0 }
}

/// The CRTCs once those left unused are reset.
pub open spec fn spec_final_crtcs(crtc_info: Seq<TxCrtcInfo>, s: PlanState) -> Seq<DrmCrtcState> {
    Seq::new(
        s.crtcs.len(),
        |q: int|
            if s.work.unused_crtcs.contains(crtc_info[q].id) {
                spec_unused_crtc_state()
            } else {
                s.crtcs[q]
            },
    )
}

/// The planes once those left unused are reset.
pub open spec fn spec_final_planes(plane_info: Seq<TxPlaneInfo>, s: PlanState) -> Seq<DrmPlaneState> {
    Seq::new(
        s.planes.len(),
        |k: int|
            if s.work.unused_planes.contains(plane_info[k].id) {
                spec_default_plane_state()
            } else {
                s.planes[k]
            },
    )
}

/// Whether the plan holds for the connectors: each one that drives a
/// display has a valid choice and supports what its state asks for; each
/// other one has no choice and the state of a connector that drives
/// nothing.
pub open spec fn spec_plan_ok(
    dev: &TxDevice,
    crtc_info: Seq<TxCrtcInfo>,
    plane_info: Seq<TxPlaneInfo>,
    conn_info: Seq<TxConnectorInfo>,
    st: &TxState,
    choices: Seq<Option<ConnectorChoice>>,
    upto: int,
) -> bool {
    &&& choices.len() == upto
    &&& forall|i: int|
        0 <= i < upto ==> if spec_drives_display(
            (#[trigger] conn_info[i]).state,
            conn_info[i].connected,
            conn_info[i].non_desktop,
        ) {
            &&& choices[i] matches Some(ch) && spec_choice_ok(crtc_info, plane_info, &conn_info[i], ch)
            &&& spec_check_capabilities(
                conn_info[i].kernel_id,
                conn_info[i].state,
                conn_info[i].vrr_capable,
                dev.supports_async_commit,
                conn_info[i].supports_bt2020,
                conn_info[i].supports_pq,
            ) is Ok
        } else {
            &&& choices[i] is None
            &&& st.connectors@[i] == spec_default_connector_state()
        }
}

/// Whether no two connectors are on the same CRTC.
pub open spec fn spec_distinct_crtcs(conns: Seq<DrmConnectorState>) -> bool {
    forall|a: int, b: int|
        0 <= a < conns.len() && 0 <= b < conns.len() && a != b && (#[trigger] conns[a]).crtc_id != 0 ==> conns[a].crtc_id
            != (#[trigger] conns[b]).crtc_id
}

/// Whether connector `i` drives a display.
pub open spec fn spec_drives(conn_info: Seq<TxConnectorInfo>, i: int) -> bool {
    spec_drives_display(conn_info[i].state, conn_info[i].connected, conn_info[i].non_desktop)
}

/// Each connector that drives a display is on the CRTC it was given, and
/// that CRTC's state serves it.
pub open spec fn spec_served(
    crtc_info: Seq<TxCrtcInfo>,
    conn_info: Seq<TxConnectorInfo>,
    st: &TxState,
    choices: Seq<Option<ConnectorChoice>>,
    upto: int,
) -> bool {
    forall|i: int|
        0 <= i < upto && spec_drives(conn_info, i) ==> spec_served_one(crtc_info, &conn_info[i], st, i, #[trigger] choices[i])
}

/// Connector `i` is on the CRTC it was given, and that CRTC serves it.
pub open spec fn spec_served_one(
    crtc_info: Seq<TxCrtcInfo>,
    c: &TxConnectorInfo,
    st: &TxState,
    i: int,
    choice: Option<ConnectorChoice>,
) -> bool {
    match choice {
        Some(ch) => {
            &&& st.connectors@[i].crtc_id != 0
            &&& ch.crtc < crtc_info.len()
            &&& crtc_info[ch.crtc as int].id == st.connectors@[i].crtc_id
            &&& spec_crtc_serves(st.crtcs@[ch.crtc as int], c, ch)
        },
        None => false,
    }
}

/// Connectors that drive displays are on different CRTCs.
pub open spec fn spec_crtcs_unshared(conn_info: Seq<TxConnectorInfo>, st: &TxState, upto: int) -> bool {
    forall|a: int, b: int|
        0 <= a < upto && 0 <= b < upto && a != b && spec_drives(conn_info, a) && spec_drives(conn_info, b) ==> (
        #[trigger] st.connectors@[a]).crtc_id != (#[trigger] st.connectors@[b]).crtc_id
}

fn crtc_ids_ok(crtc_info: &[TxCrtcInfo]) -> (r: bool)
    ensures
        r == ((forall|a: int, b: int| 0 <= a < b < crtc_info@.len() ==> crtc_info@[a].id != crtc_info@[b].id) && (forall|k: int|
            0 <= k < crtc_info@.len() ==> (#[trigger] crtc_info@[k]).id != 0)),
{
    let n = crtc_info.len();
    let mut a: usize = 0;
    while a < n
        invariant
            a <= n,
            n == crtc_info@.len(),
            forall|x: int, y: int| 0 <= x < a && x < y < n ==> crtc_info@[x].id != crtc_info@[y].id,
            forall|k: int| 0 <= k < a ==> (#[trigger] crtc_info@[k]).id != 0,
        decreases n - a,
    {
        if crtc_info[a].id == 0 {
            return false;
        }
        let mut b: usize = a + 1;
        while b < n
            invariant
                a < b <= n,
                n == crtc_info@.len(),
                forall|y: int| a < y < b ==> crtc_info@[a as int].id != crtc_info@[y].id,
            decreases n - b,
        {
            if crtc_info[a].id == crtc_info[b].id {
                return false;
            }
            b += 1;
        }
        a += 1;
    }
    true
}

fn plane_ids_ok(plane_info: &[TxPlaneInfo]) -> (r: bool)
    ensures
        r == ((forall|a: int, b: int| 0 <= a < b < plane_info@.len() ==> plane_info@[a].id != plane_info@[b].id) && (forall|k: int|
            0 <= k < plane_info@.len() ==> (#[trigger] plane_info@[k]).id != 0)),
{
    let n = plane_info.len();
    let mut a: usize = 0;
    while a < n
        invariant
            a <= n,
            n == plane_info@.len(),
            forall|x: int, y: int| 0 <= x < a && x < y < n ==> plane_info@[x].id != plane_info@[y].id,
            forall|k: int| 0 <= k < a ==> (#[trigger] plane_info@[k]).id != 0,
        decreases n - a,
    {
        if plane_info[a].id == 0 {
            return false;
        }
        let mut b: usize = a + 1;
        while b < n
            invariant
                a < b <= n,
                n == plane_info@.len(),
                forall|y: int| a < y < b ==> plane_info@[a as int].id != plane_info@[y].id,
            decreases n - b,
        {
            if plane_info[a].id == plane_info[b].id {
                return false;
            }
            b += 1;
        }
        a += 1;
    }
    true
}

fn buffers_ok(b: &Option<TxBuffers>) -> (r: bool)
    ensures
        r == spec_buffers_ok(*b),
{
    match b {
        Some(b) => b.fbs.len() > 0 && b.locked.len() == b.fbs.len(),
        None => true,
    }
}

fn connectors_ok(crtc_info: &[TxCrtcInfo], conn_info: &[TxConnectorInfo], st: &TxState) -> (r: bool)
    requires
        st.connectors@.len() == conn_info@.len(),
    ensures
        r == ((forall|i: int|
            0 <= i < conn_info@.len() ==> (#[trigger] conn_info@[i]).modes@.len() == conn_info@[i].backend_modes@.len())
            && (forall|i: int|
            0 <= i < conn_info@.len() ==> spec_buffers_ok((#[trigger] conn_info@[i]).buffers) && spec_buffers_ok(
                conn_info@[i].cursor_buffers,
            )) && (forall|i: int|
            0 <= i < conn_info@.len() && (#[trigger] st.connectors@[i]).crtc_id != 0 ==> spec_crtc_at(
                crtc_info@,
                st.connectors@[i].crtc_id,
            ) is Some) && (forall|i: int| 0 <= i < conn_info@.len() ==> (#[trigger] st.connectors@[i]).fb_idx < u64::MAX)
            && (forall|i: int| 0 <= i < conn_info@.len() ==> (#[trigger] st.connectors@[i]).cursor_fb_idx < u64::MAX)),
{
    let n = conn_info.len();
    let mut i: usize = 0;
    while i < n
        invariant
            i <= n,
            n == conn_info@.len(),
            st.connectors@.len() == n,
            forall|k: int| 0 <= k < i ==> (#[trigger] conn_info@[k]).modes@.len() == conn_info@[k].backend_modes@.len(),
            forall|k: int|
                0 <= k < i ==> spec_buffers_ok((#[trigger] conn_info@[k]).buffers) && spec_buffers_ok(
                    conn_info@[k].cursor_buffers,
                ),
            forall|k: int|
                0 <= k < i && (#[trigger] st.connectors@[k]).crtc_id != 0 ==> spec_crtc_at(
                    crtc_info@,
                    st.connectors@[k].crtc_id,
                ) is Some,
            forall|k: int| 0 <= k < i ==> (#[trigger] st.connectors@[k]).fb_idx < u64::MAX,
            forall|k: int| 0 <= k < i ==> (#[trigger] st.connectors@[k]).cursor_fb_idx < u64::MAX,
        decreases n - i,
    {
        let c = &conn_info[i];
        if c.modes.len() != c.backend_modes.len() {
            assert(conn_info@[i as int].modes@.len() != conn_info@[i as int].backend_modes@.len());
            return false;
        }
        if !buffers_ok(&c.buffers) || !buffers_ok(&c.cursor_buffers) {
            assert(!(spec_buffers_ok(conn_info@[i as int].buffers) && spec_buffers_ok(conn_info@[i as int].cursor_buffers)));
            return false;
        }
        let conn = st.connectors[i];
        if conn.crtc_id != 0 {
            match crtc_index(crtc_info, conn.crtc_id) {
                Some(k) => {
                    assert(crtc_info@[k as int].id == conn.crtc_id);
                },
                None => {
                    assert(st.connectors@[i as int].crtc_id != 0 && spec_crtc_at(crtc_info@, st.connectors@[i as int].crtc_id)
                        is None);
                    return false;
                },
            }
        }
        if conn.fb_idx == u64::MAX || conn.cursor_fb_idx == u64::MAX {
            assert(!(st.connectors@[i as int].fb_idx < u64::MAX && st.connectors@[i as int].cursor_fb_idx < u64::MAX));
            return false;
        }
        i += 1;
    }
    true
}

/// Whether the inputs of the planner are consistent (see
/// [`spec_inputs_ok`]).
pub fn inputs_ok(crtc_info: &[TxCrtcInfo], plane_info: &[TxPlaneInfo], conn_info: &[TxConnectorInfo], st: &TxState) -> (r:
    bool)
    ensures
        r == spec_inputs_ok(crtc_info@, plane_info@, conn_info@, st),
{
    if st.crtcs.len() != crtc_info.len() || st.planes.len() != plane_info.len() || st.connectors.len() != conn_info.len()
        || st.changed.len() != conn_info.len() {
        return false;
    }
    crtc_ids_ok(crtc_info) && plane_ids_ok(plane_info) && connectors_ok(crtc_info, conn_info, st)
}

/// Computes the DRM state the transaction asks for where the inputs are
/// consistent; none, with the state unchanged, where they are not.
pub fn checked_calculate_drm_state(
    dev: &TxDevice,
    crtc_info: &[TxCrtcInfo],
    plane_info: &[TxPlaneInfo],
    conn_info: &[TxConnectorInfo],
    st: &mut TxState,
) -> (r: Option<TxPlan>)
    ensures
        r is Some <==> spec_inputs_ok(crtc_info@, plane_info@, conn_info@, old(st)),
        r is None ==> *final(st) == *old(st),
        r matches Some(p) ==> p.result == spec_plan_result(
            dev.supports_async_commit,
            crtc_info@,
            plane_info@,
            conn_info@,
            old(st).planes@,
            old(st).connectors@,
        ),
        r matches Some(p) ==> {
            let (w, e) = spec_whole_plan(*dev, crtc_info@, plane_info@, conn_info@, old(st));
            &&& p.actions@ == w.actions
            &&& p.crtc_links@ == w.crtc_links
            &&& p.plane_links@ == w.plane_links
            &&& p.result == match e {
                Some(x) => Err::<(), BackendConnectorTransactionError>(x),
                None => Ok(()),
            }
        },
{
    if !inputs_ok(crtc_info, plane_info, conn_info, st) {
        return None;
    }
    Some(calculate_drm_state(dev, crtc_info, plane_info, conn_info, st))
}

/// Computes the DRM state the transaction asks for (see the module
/// documentation). CRTCs and planes that end up unused are reset. Where no
/// two connectors started on the same CRTC, no two connectors that drive
/// displays end on the same CRTC, and each such CRTC serves its connector.
pub fn calculate_drm_state(
    dev: &TxDevice,
    crtc_info: &[TxCrtcInfo],
    plane_info: &[TxPlaneInfo],
    conn_info: &[TxConnectorInfo],
    st: &mut TxState,
) -> (r: TxPlan)
    requires
        spec_inputs_ok(crtc_info@, plane_info@, conn_info@, old(st)),
    ensures
        final(st).crtcs@.len() == crtc_info@.len(),
        final(st).planes@.len() == plane_info@.len(),
        final(st).connectors@.len() == conn_info@.len(),
        final(st).changed@.len() == conn_info@.len(),
        r.result is Ok ==> spec_plan_ok(dev, crtc_info@, plane_info@, conn_info@, final(st), r.choices@, conn_info@.len() as int),
        r.result is Ok && spec_distinct_crtcs(old(st).connectors@) ==> spec_served(
            crtc_info@,
            conn_info@,
            final(st),
            r.choices@,
            conn_info@.len() as int,
        ) && spec_crtcs_unshared(conn_info@, final(st), conn_info@.len() as int),
        r.result == spec_plan_result(
            dev.supports_async_commit,
            crtc_info@,
            plane_info@,
            conn_info@,
            old(st).planes@,
            old(st).connectors@,
        ),
        r.result is Err ==> spec_replay(
            dev.supports_async_commit,
            crtc_info@,
            plane_info@,
            conn_info@,
            old(st).connectors@,
            spec_initial_work(crtc_info@, plane_info@, old(st).planes@, old(st).connectors@),
            r.choices@.len() as int,
        ) is Ok,
        r.result is Ok ==> forall|i: int|
            0 <= i < conn_info@.len() && spec_drives(conn_info@, i) ==> spec_input_error(
                #[trigger] &conn_info@[i],
                dev.supports_async_commit,
            ) is None,
        r.result matches Err(e) ==> {
            let i = r.choices@.len() as int;
            let c = &conn_info@[i];
            &&& i < conn_info@.len()
            &&& spec_drives(conn_info@, i)
            &&& spec_plan_ok(dev, crtc_info@, plane_info@, conn_info@, final(st), r.choices@, i)
            &&& forall|j: int| i < j < conn_info@.len() ==> #[trigger] final(st).connectors@[j] == old(st).connectors@[j]
            &&& forall|j: int|
                0 <= j < i && spec_drives(conn_info@, j) ==> spec_input_error(
                    #[trigger] &conn_info@[j],
                    dev.supports_async_commit,
                ) is None
            &&& e == BackendConnectorTransactionError::NoCrtcForConnector(c.kernel_id)
                || e == BackendConnectorTransactionError::NoPrimaryPlaneForConnector(c.kernel_id)
                || spec_input_error(c, dev.supports_async_commit) == Some(e)
            &&& e == BackendConnectorTransactionError::NoCrtcForConnector(c.kernel_id) ==> {
                &&& old(st).connectors@[i].crtc_id == 0
                &&& forall|k: int|
                    0 <= k < c.crtcs@.len() && spec_crtc_at(crtc_info@, #[trigger] c.crtcs@[k]) is Some ==> exists|j: int|
                        0 <= j < conn_info@.len() && (#[trigger] final(st).connectors@[j]).crtc_id == c.crtcs@[k]
            }
            &&& e == BackendConnectorTransactionError::NoPrimaryPlaneForConnector(c.kernel_id)
                ==> final(st).connectors@[i].crtc_id != 0
        },
        ({
            let (p, e) = spec_whole_plan(*dev, crtc_info@, plane_info@, conn_info@, old(st));
            &&& r.actions@ == p.actions
            &&& r.crtc_links@ == p.crtc_links
            &&& r.plane_links@ == p.plane_links
            &&& r.result == match e {
                Some(x) => Err::<(), BackendConnectorTransactionError>(x),
                None => Ok(()),
            }
            &&& final(st).connectors@ == p.connectors
            &&& final(st).changed@ == p.changed
            &&& e is Some ==> final(st).crtcs@ == p.crtcs && final(st).planes@ == p.planes
            &&& e is None ==> final(st).crtcs@ == spec_final_crtcs(crtc_info@, p) && final(st).planes@ == spec_final_planes(
                plane_info@,
                p,
            )
        }),
{
    let ghost d = spec_distinct_crtcs(old(st).connectors@);
    let mut w = Work {
        unused_crtcs: IdSet::new(),
        unused_planes: IdSet::new(),
        crtc_planes: Vec::new(),
        crtc_links: Vec::new(),
        plane_links: Vec::new(),
        actions: Vec::new(),
    };
    let mut c: usize = 0;
    while c < crtc_info.len()
        invariant
            c <= crtc_info@.len(),
            w.crtc_planes@.len() == c,
            forall|q: int| 0 <= q < c ==> (#[trigger] w.crtc_planes@[q]) == (CrtcPlanes { primary: None, cursor: None }),
            forall|x: u32| #[trigger] w.unused_crtcs@.contains(x) ==> spec_crtc_at(crtc_info@, x) is Some,
            forall|q: int| 0 <= q < c ==> w.unused_crtcs@.contains(#[trigger] crtc_info@[q].id),
            forall|x: u32| #[trigger] w.unused_crtcs@.contains(x) ==> exists|q: int| 0 <= q < c && crtc_info@[q].id == x,
            w.unused_planes@ == Set::<u32>::empty(),
            w.crtc_links@.len() == 0,
            w.plane_links@.len() == 0,
            w.actions@.len() == 0,
        decreases crtc_info@.len() - c,
    {
        w.crtc_planes.push(CrtcPlanes { primary: None, cursor: None });
        w.unused_crtcs.insert(crtc_info[c].id);
        proof {
            assert(crtc_info@[c as int].id == crtc_info[c as int].id);
        }
        c += 1;
    }
    proof {
        assert forall|x: u32| spec_crtc_at(crtc_info@, x) is Some implies #[trigger] w.unused_crtcs@.contains(x) by {
            let k = spec_crtc_at(crtc_info@, x)->0;
            assert(crtc_info@[k].id == x);
        }
        assert forall|x: u32| #[trigger] w.unused_crtcs@.contains(x) implies spec_crtc_at(crtc_info@, x) is Some by {
            let q = choose|q: int| 0 <= q < crtc_info@.len() && crtc_info@[q].id == x;
            assert(crtc_info@[q].id == x);
        }
    }
    let n = conn_info.len();
    let mut j: usize = 0;
    while j < n
        invariant
            j <= n,
            n == conn_info@.len(),
            st.connectors@.len() == n,
            st.connectors@ == old(st).connectors@,
            st.planes@ == old(st).planes@,
            st.crtcs@ == old(st).crtcs@,
            st.changed@ == old(st).changed@,
            w.crtc_planes@.len() == crtc_info@.len(),
            forall|q: int| 0 <= q < crtc_info@.len() ==> (#[trigger] w.crtc_planes@[q]) == (CrtcPlanes { primary: None, cursor: None }),
            forall|x: u32| #[trigger] w.unused_crtcs@.contains(x) ==> spec_crtc_at(crtc_info@, x) is Some,
            forall|q: int| 0 <= q < j ==> !w.unused_crtcs@.contains(#[trigger] st.connectors@[q].crtc_id),
            forall|x: u32|
                spec_crtc_at(crtc_info@, x) is Some && !#[trigger] w.unused_crtcs@.contains(x) ==> exists|q: int|
                    0 <= q < j && (#[trigger] st.connectors@[q]).crtc_id == x,
            forall|x: u32|
                #[trigger] w.unused_crtcs@.contains(x) <==> spec_crtc_at(crtc_info@, x) is Some && forall|q: int|
                    0 <= q < j ==> (#[trigger] st.connectors@[q]).crtc_id != x,
            w.unused_planes@ == Set::<u32>::empty(),
            w.crtc_links@ == spec_initial_crtc_links(crtc_info@, old(st).connectors@, j as int),
            w.plane_links@.len() == 0,
            w.actions@.len() == 0,
        decreases n - j,
    {
        let cid = st.connectors[j].crtc_id;
        let ghost u_before = w.unused_crtcs@;
        w.unused_crtcs.remove(cid);
        proof {
            assert forall|x: u32|
                spec_crtc_at(crtc_info@, x) is Some && !#[trigger] w.unused_crtcs@.contains(x) implies exists|q: int|
                    0 <= q < j + 1 && (#[trigger] st.connectors@[q]).crtc_id == x by {
                if x == cid {
                    assert(st.connectors@[j as int].crtc_id == x);
                } else {
                    assert(!u_before.contains(x));
                }
            }
            assert forall|x: u32|
                #[trigger] w.unused_crtcs@.contains(x) <==> spec_crtc_at(crtc_info@, x) is Some && forall|q: int|
                    0 <= q < j + 1 ==> (#[trigger] st.connectors@[q]).crtc_id != x by {
                if !w.unused_crtcs@.contains(x) && spec_crtc_at(crtc_info@, x) is Some && x != cid {
                    assert(!u_before.contains(x));
                }
            }
        }
        proof {
            assert(old(st).connectors@[j as int].crtc_id == cid);
        }
        if let Some(ci) = crtc_index(crtc_info, cid) {
            if !has_links(&w, ci) {
                w.crtc_links.push((ci, j));
            }
        }
        j += 1;
    }
    let ghost w0 = spec_initial_work(crtc_info@, plane_info@, old(st).planes@, old(st).connectors@);
    proof {
        assert(w.unused_crtcs@ =~= spec_initial_unused_crtcs(crtc_info@, old(st).connectors@));
        assert(w.unused_planes@ =~= Set::<u32>::empty());
    }
    let ghost planes0 = st.planes@;
    let ghost links0 = w.crtc_links@;
    claim_planes(crtc_info, plane_info, st, &mut w);
    let ghost s_init = spec_initial_state(crtc_info@, plane_info@, old(st));
    proof {
        assert(w.unused_planes@ =~= w0.unused_planes);
        assert(st.planes@ =~= s_init.planes);
        assert(w.plane_links@ =~= s_init.plane_links);
        assert(w.actions@ =~= s_init.actions);
        assert(links0 == s_init.crtc_links);
        assert(spec_plan_state(st, &w) == s_init);
    }
    let mut choices: Vec<Option<ConnectorChoice>> = Vec::new();
    let mut i: usize = 0;
    while i < n
        invariant
            i <= n,
            n == conn_info@.len(),
            d == spec_distinct_crtcs(old(st).connectors@),
            spec_inputs_ok(crtc_info@, plane_info@, conn_info@, old(st)),
            spec_work_ok(crtc_info@, plane_info@, conn_info@, st, w.unused_crtcs@, w.crtc_planes@),
            spec_plan_ok(dev, crtc_info@, plane_info@, conn_info@, st, choices@, i as int),
            forall|q: int| i <= q < n ==> #[trigger] st.connectors@[q] == old(st).connectors@[q],
            d ==> forall|q: int| i <= q < n ==> !w.unused_crtcs@.contains(#[trigger] st.connectors@[q].crtc_id),
            d ==> spec_served(crtc_info@, conn_info@, st, choices@, i as int),
            d ==> spec_crtcs_unshared(conn_info@, st, i as int),
            spec_unused_held(crtc_info@, st.connectors@, w.unused_crtcs@),
            s_init == spec_initial_state(crtc_info@, plane_info@, old(st)),
            spec_plan_after(*dev, crtc_info@, plane_info@, conn_info@, s_init, i as int) == (
                spec_plan_state(st, &w),
                None::<BackendConnectorTransactionError>,
            ),
            w0 == spec_initial_work(crtc_info@, plane_info@, old(st).planes@, old(st).connectors@),
            choices@.len() == i,
            spec_replay(dev.supports_async_commit, crtc_info@, plane_info@, conn_info@, old(st).connectors@, w0, i as int)
                == Ok::<PlanWork, BackendConnectorTransactionError>(
                PlanWork { unused_crtcs: w.unused_crtcs@, unused_planes: w.unused_planes@, crtc_planes: w.crtc_planes@ },
            ),
            d ==> forall|a: int|
                0 <= a < i && spec_drives(conn_info@, a) ==> !w.unused_crtcs@.contains(
                    #[trigger] st.connectors@[a].crtc_id,
                ),
            d ==> forall|a: int, b: int|
                0 <= a < i && i <= b < n && spec_drives(conn_info@, a) && st.connectors@[b].crtc_id != 0 ==> (
                #[trigger] st.connectors@[a]).crtc_id != (#[trigger] st.connectors@[b]).crtc_id,
        decreases n - i,
    {
        let c = &conn_info[i];
        let ghost before = st.connectors@;
        let ghost crtcs_before = st.crtcs@;
        let ghost unused_before = w.unused_crtcs@;
        let ghost work_before = PlanWork {
            unused_crtcs: w.unused_crtcs@,
            unused_planes: w.unused_planes@,
            crtc_planes: w.crtc_planes@,
        };
        proof {
            assert(before[i as int] == old(st).connectors@[i as int]);
        }
        if drives_display(&c.state, c.connected, c.non_desktop) {
            let res = assign_connector(dev, crtc_info, plane_info, conn_info, st, &mut w, i);
            proof {
                lemma_unused_held_step(crtc_info@, before, unused_before, st.connectors@, w.unused_crtcs@, i as int);
            }
            match res {
                Ok(ch) => {
                    choices.push(Some(ch));
                    proof {
                        let held = st.connectors@[i as int].crtc_id;
                        assert forall|q: int| 0 <= q < i implies #[trigger] st.connectors@[q] == before[q] by {}
                        if d {
                            assert forall|a: int| 0 <= a < i && spec_drives(conn_info@, a) implies #[trigger] st.connectors@[a].crtc_id
                                != held by {
                                if old(st).connectors@[i as int].crtc_id == 0 {
                                    assert(unused_before.contains(held));
                                    assert(!unused_before.contains(before[a].crtc_id));
                                } else {
                                    assert(before[i as int].crtc_id == old(st).connectors@[i as int].crtc_id);
                                }
                            }
                            assert forall|a: int|
                                0 <= a < i + 1 && spec_drives(conn_info@, a) implies spec_served_one(crtc_info@, &conn_info@[a], st, a, #[trigger] choices@[a]) by {
                                if a < i {
                                    let ch2 = choices@[a]->0;
                                    assert(crtc_info@[ch2.crtc as int].id == before[a].crtc_id);
                                    assert(ch2.crtc != ch.crtc);
                                    assert(st.crtcs@[ch2.crtc as int] == crtcs_before[ch2.crtc as int]);
                                }
                            }
                            assert forall|a: int, b: int|
                                0 <= a < i + 1 && 0 <= b < i + 1 && a != b && spec_drives(conn_info@, a) && spec_drives(
                                    conn_info@,
                                    b,
                                ) implies (#[trigger] st.connectors@[a]).crtc_id != (#[trigger] st.connectors@[b]).crtc_id by {
                                if a == i {
                                    assert(st.connectors@[b].crtc_id != held);
                                } else if b == i {
                                    assert(st.connectors@[a].crtc_id != held);
                                } else {
                                    assert(st.connectors@[a] == before[a]);
                                    assert(st.connectors@[b] == before[b]);
                                }
                            }
                            assert forall|a: int|
                                0 <= a < i + 1 && spec_drives(conn_info@, a) implies !w.unused_crtcs@.contains(
                                #[trigger] st.connectors@[a].crtc_id,
                            ) by {
                                if a < i {
                                    assert(st.connectors@[a] == before[a]);
                                } else if old(st).connectors@[i as int].crtc_id != 0 {
                                    assert(before[i as int].crtc_id == held);
                                }
                            }
                            assert forall|a: int, b: int|
                                0 <= a < i + 1 && i + 1 <= b < n && spec_drives(conn_info@, a) && st.connectors@[b].crtc_id != 0
                                    implies (#[trigger] st.connectors@[a]).crtc_id != (#[trigger] st.connectors@[b]).crtc_id by {
                                assert(st.connectors@[b] == old(st).connectors@[b]);
                                if a == i {
                                    if old(st).connectors@[i as int].crtc_id != 0 {
                                        assert(old(st).connectors@[i as int].crtc_id != old(st).connectors@[b].crtc_id);
                                    } else {
                                        assert(unused_before.contains(held));
                                        assert(!unused_before.contains(before[b].crtc_id));
                                    }
                                } else {
                                    assert(st.connectors@[a] == before[a]);
                                }
                            }
                        }
                    }
                },
                Err(e) => {
                    proof {
                        assert(spec_plan_after(*dev, crtc_info@, plane_info@, conn_info@, s_init, i + 1).1 is Some);
                        lemma_plan_after_error_kept(*dev, crtc_info@, plane_info@, conn_info@, s_init, i + 1, n as int);
                        assert(spec_replay(
                            dev.supports_async_commit,
                            crtc_info@,
                            plane_info@,
                            conn_info@,
                            old(st).connectors@,
                            w0,
                            i + 1,
                        ) == Err::<PlanWork, BackendConnectorTransactionError>(e));
                        lemma_replay_error_kept(
                            dev.supports_async_commit,
                            crtc_info@,
                            plane_info@,
                            conn_info@,
                            old(st).connectors@,
                            w0,
                            i + 1,
                            n as int,
                        );
                        lemma_plan_ok_inputs(dev, crtc_info@, plane_info@, conn_info@, st, choices@, i as int);
                        assert(st.connectors@[i as int] == old(st).connectors@[i as int] || e
                            != BackendConnectorTransactionError::NoCrtcForConnector(c.kernel_id));
                        if e == BackendConnectorTransactionError::NoCrtcForConnector(c.kernel_id) {
                            lemma_first_unused(c.crtcs@, unused_before);
                            assert forall|k: int|
                                0 <= k < c.crtcs@.len() && spec_crtc_at(crtc_info@, #[trigger] c.crtcs@[k]) is Some implies exists|j: int|
                                    0 <= j < conn_info@.len() && (#[trigger] st.connectors@[j]).crtc_id == c.crtcs@[k] by {
                                assert(!w.unused_crtcs@.contains(c.crtcs@[k]));
                            }
                        }
                    }
                    return TxPlan {
                        actions: w.actions,
                        choices,
                        result: Err(e),
                        crtc_links: w.crtc_links,
                        plane_links: w.plane_links,
                    };
                },
            }
        } else {
            release_connector(crtc_info, plane_info, conn_info, st, &mut w, i);
            choices.push(None);
            proof {
                lemma_unused_held_step(crtc_info@, before, unused_before, st.connectors@, w.unused_crtcs@, i as int);
                let held = before[i as int].crtc_id;
                assert forall|q: int| 0 <= q < i implies #[trigger] st.connectors@[q] == before[q] by {}
                if d {
                    assert forall|a: int|
                        0 <= a < i + 1 && spec_drives(conn_info@, a) implies spec_served_one(crtc_info@, &conn_info@[a], st, a, #[trigger] choices@[a]) by {
                        assert(a < i);
                        assert(st.connectors@[a] == before[a]);
                    }
                    assert forall|a: int, b: int|
                        0 <= a < i + 1 && 0 <= b < i + 1 && a != b && spec_drives(conn_info@, a) && spec_drives(
                            conn_info@,
                            b,
                        ) implies (#[trigger] st.connectors@[a]).crtc_id != (#[trigger] st.connectors@[b]).crtc_id by {
                        assert(a < i && b < i);
                        assert(st.connectors@[a] == before[a]);
                        assert(st.connectors@[b] == before[b]);
                    }
                    assert forall|a: int|
                        0 <= a < i + 1 && spec_drives(conn_info@, a) implies !w.unused_crtcs@.contains(
                        #[trigger] st.connectors@[a].crtc_id,
                    ) by {
                        assert(a < i);
                        assert(st.connectors@[a] == before[a]);
                        if held != 0 {
                            assert(before[a].crtc_id != before[i as int].crtc_id);
                        }
                    }
                }
                if d {
                    assert forall|q: int| i + 1 <= q < n implies !w.unused_crtcs@.contains(
                        #[trigger] st.connectors@[q].crtc_id,
                    ) by {
                        assert(st.connectors@[q] == before[q]);
                        if held != 0 {
                            assert(old(st).connectors@[q].crtc_id != old(st).connectors@[i as int].crtc_id);
                        }
                    }
                }
            }
        }
        i += 1;
    }
    let ghost conns = st.connectors@;
    let ghost crtcs_mid = st.crtcs@;
    let ghost sfin = spec_plan_state(st, &w);
    let ghost planes_mid = st.planes@;
    let ghost changed_mid = st.changed@;
    let mut c: usize = 0;
    while c < crtc_info.len()
        invariant
            c <= crtc_info@.len(),
            st.crtcs@.len() == crtc_info@.len(),
            st.planes@.len() == plane_info@.len(),
            st.changed@.len() == conn_info@.len(),
            st.connectors@ == conns,
            conns.len() == conn_info@.len(),
            spec_plan_ok(dev, crtc_info@, plane_info@, conn_info@, st, choices@, conn_info@.len() as int),
            forall|q: int| 0 <= q < crtc_info@.len() && !w.unused_crtcs@.contains(#[trigger] crtc_info@[q].id) ==> st.crtcs@[q]
                == crtcs_mid[q],
            sfin.crtcs == crtcs_mid,
            sfin.work.unused_crtcs == w.unused_crtcs@,
            st.planes@ == planes_mid,
            st.changed@ == changed_mid,
            crtcs_mid.len() == crtc_info@.len(),
            forall|q: int| 0 <= q < c ==> #[trigger] st.crtcs@[q] == spec_final_crtcs(crtc_info@, sfin)[q],
            forall|q: int| c <= q < crtc_info@.len() ==> #[trigger] st.crtcs@[q] == crtcs_mid[q],
        decreases crtc_info@.len() - c,
    {
        if w.unused_crtcs.contains(crtc_info[c].id) {
            let fresh = DrmCrtcState::new();
            assert(fresh == spec_unused_crtc_state());
            st.crtcs.set(c, fresh);
        }
        c += 1;
    }
    assert(st.crtcs@ =~= spec_final_crtcs(crtc_info@, sfin));
    proof {
        if d {
            assert forall|a: int|
                0 <= a < n && spec_drives(conn_info@, a) implies spec_served_one(crtc_info@, &conn_info@[a], st, a, #[trigger] choices@[a]) by {
                let ch2 = choices@[a]->0;
                assert(!w.unused_crtcs@.contains(crtc_info@[ch2.crtc as int].id));
            }
        }
    }
    let ghost crtcs_final = st.crtcs@;
    let mut k: usize = 0;
    while k < plane_info.len()
        invariant
            k <= plane_info@.len(),
            st.crtcs@ == crtcs_final,
            st.planes@.len() == plane_info@.len(),
            st.changed@.len() == conn_info@.len(),
            st.connectors@ == conns,
            conns.len() == conn_info@.len(),
            spec_plan_ok(dev, crtc_info@, plane_info@, conn_info@, st, choices@, conn_info@.len() as int),
            sfin.planes == planes_mid,
            sfin.work.unused_planes == w.unused_planes@,
            st.changed@ == changed_mid,
            planes_mid.len() == plane_info@.len(),
            forall|q: int| 0 <= q < k ==> #[trigger] st.planes@[q] == spec_final_planes(plane_info@, sfin)[q],
            forall|q: int| k <= q < plane_info@.len() ==> #[trigger] st.planes@[q] == planes_mid[q],
        decreases plane_info@.len() - k,
    {
        if w.unused_planes.contains(plane_info[k].id) {
            st.planes.set(k, DrmPlaneState::new());
        }
        k += 1;
    }
    assert(st.planes@ =~= spec_final_planes(plane_info@, sfin));
    proof {
        lemma_plan_ok_inputs(dev, crtc_info@, plane_info@, conn_info@, st, choices@, n as int);
    }
    TxPlan { actions: w.actions, choices, result: Ok(()), crtc_links: w.crtc_links, plane_links: w.plane_links }
}

} // verus!
