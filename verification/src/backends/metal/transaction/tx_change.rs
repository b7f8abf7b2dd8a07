//! The atomic change that moves a device from its current DRM state to the
//! state a transaction computed: one property change for each property whose
//! value differs, and, where asked for, for each property that has drifted
//! from the value it is reset to.

use vstd::prelude::*;
use ahash::AHashMap;
use crate::backends::metal::video::DefaultProperty;
use super::DrmConnectorState;
use super::DrmPlaneState;

verus! {

/// A change of a property of a DRM object.
#[derive(Copy, Clone, Debug, PartialEq, Eq, Structural)]
pub struct PropChange {
    pub object: u32,
    pub prop: u32,
    pub value: u64,
}

/// The current values of the properties of an object, by property id.
pub type PropMap = AHashMap<u32, u64>;

/// The values that a property map holds.
pub uninterp spec fn prop_map_entries(m: PropMap) -> Map<u32, u64>;

/// Calls `AHashMap::get` and copies the value out. The contract claims that
/// the result is the value stored under the key, if any.
#[verifier::external_body]
fn prop_map_get(m: &PropMap, prop: u32) -> (r: Option<u64>)
    ensures
        r == (if prop_map_entries(*m).contains_key(prop) {
            Some(prop_map_entries(*m)[prop])
        } else {
            None
        }),
{
    m.get(&prop).copied()
}

/// The current value of a property; zero where the object does not report
/// it.
pub open spec fn spec_current(props: Map<u32, u64>, prop: u32) -> u64 {
    if props.contains_key(prop) {
        props[prop]
    } else {
        0
    }
}

/// The changes that reset the properties of an object to their defaults:
/// one for each default, in order, whose current value differs.
pub open spec fn spec_default_changes(object: u32, props: Map<u32, u64>, defaults: Seq<DefaultProperty>) -> Seq<
    PropChange,
>
    decreases defaults.len(),
{
    if defaults.len() == 0 {
        Seq::empty()
    } else {
        let dp = defaults.last();
        spec_default_changes(object, props, defaults.drop_last()) + if spec_current(props, dp.prop) != dp.value {
            seq![PropChange { object, prop: dp.prop, value: dp.value }]
        } else {
            Seq::empty()
        }
    }
}

fn push_default_changes(
    out: &mut Vec<PropChange>,
    object: u32,
    props: &PropMap,
    defaults: &[DefaultProperty],
)
    ensures
        final(out)@ == old(out)@ + spec_default_changes(object, prop_map_entries(*props), defaults@),
{
    let ghost start = out@;
    let mut i: usize = 0;
    while i < defaults.len()
        invariant
            i <= defaults@.len(),
            out@ == start + spec_default_changes(object, prop_map_entries(*props), defaults@.take(i as int)),
        decreases defaults@.len() - i,
    {
        let dp = &defaults[i];
        let old = match prop_map_get(props, dp.prop) {
            Some(v) => v,
            None => 0,
        };
        proof {
            assert(defaults@.take(i + 1).drop_last() =~= defaults@.take(i as int));
            assert(defaults@.take(i + 1).last() == defaults@[i as int]);
        }
        if old != dp.value {
            out.push(PropChange { object, prop: dp.prop, value: dp.value });
        }
        proof {
            assert(out@ =~= start + spec_default_changes(object, prop_map_entries(*props), defaults@.take(i + 1)));
        }
        i += 1;
    }
    assert(defaults@.take(defaults@.len() as int) =~= defaults@);
}

/// The property ids of a connector.
#[derive(Copy, Clone, Debug, PartialEq, Eq, Structural)]
pub struct ConnectorProps {
    pub crtc_id: u32,
    pub colorspace: Option<u32>,
    pub hdr_metadata: Option<u32>,
}

/// The changes of a connector's properties.
pub open spec fn spec_connector_changes(
    object: u32,
    p: ConnectorProps,
    o: DrmConnectorState,
    n: DrmConnectorState,
    reset: bool,
    props: Map<u32, u64>,
    defaults: Seq<DefaultProperty>,
) -> Seq<PropChange> {
    let c1 = if n.crtc_id != o.crtc_id {
        seq![PropChange { object, prop: p.crtc_id, value: n.crtc_id as u64 }]
    } else {
        Seq::empty()
    };
    let c2 = match (p.colorspace, n.color_space, o.color_space) {
        (Some(prop), Some(new_cs), Some(old_cs)) => if new_cs != old_cs {
            seq![PropChange { object, prop, value: new_cs }]
        } else {
            Seq::empty()
        },
        _ => Seq::empty(),
    };
    let c3 = match p.hdr_metadata {
        Some(prop) => if n.hdr_metadata_blob_id != o.hdr_metadata_blob_id {
            seq![PropChange { object, prop, value: n.hdr_metadata_blob_id as u64 }]
        } else {
            Seq::empty()
        },
        None => Seq::empty(),
    };
    let c4 = if reset {
        spec_default_changes(object, props, defaults)
    } else {
        Seq::empty()
    };
    c1 + c2 + c3 + c4
}

/// The changes of a connector's properties: its CRTC, its color space (where
/// the connector has the property and both values are known) and its HDR
/// metadata blob (where it has the property), then the defaults.
pub fn connector_changes(
    object: u32,
    p: ConnectorProps,
    o: &DrmConnectorState,
    n: &DrmConnectorState,
    reset: bool,
    props: &PropMap,
    defaults: &[DefaultProperty],
) -> (r: Vec<PropChange>)
    ensures
        r@ == spec_connector_changes(object, p, *o, *n, reset, prop_map_entries(*props), defaults@),
{
    let mut out: Vec<PropChange> = Vec::new();
    if n.crtc_id != o.crtc_id {
        out.push(PropChange { object, prop: p.crtc_id, value: n.crtc_id as u64 });
    }
    let ghost c1 = out@;
    if let Some(prop) = p.colorspace {
        if let Some(new_cs) = n.color_space {
            if let Some(old_cs) = o.color_space {
                if new_cs != old_cs {
                    out.push(PropChange { object, prop, value: new_cs });
                }
            }
        }
    }
    let ghost c2 = out@;
    if let Some(prop) = p.hdr_metadata {
        if n.hdr_metadata_blob_id != o.hdr_metadata_blob_id {
            out.push(PropChange { object, prop, value: n.hdr_metadata_blob_id as u64 });
        }
    }
    let ghost c3 = out@;
    if reset {
        push_default_changes(&mut out, object, props, defaults);
    }
    proof {
        let s = spec_connector_changes(object, p, *o, *n, reset, prop_map_entries(*props), defaults@);
        assert(out@ =~= s);
    }
    out
}

/// The property ids of a CRTC.
#[derive(Copy, Clone, Debug, PartialEq, Eq, Structural)]
pub struct CrtcProps {
    pub active: u32,
    pub vrr_enabled: u32,
    pub mode_id: u32,
}

/// What a CRTC's properties are compared by.
#[derive(Copy, Clone, Debug, PartialEq, Eq, Structural)]
pub struct CrtcValues {
    pub active: bool,
    pub vrr_enabled: bool,
    pub mode_blob_id: u32,
}

pub open spec fn spec_bool_value(b: bool) -> u64 {
    if b {
        1
    } else {
        0
    }
}

/// The changes of a CRTC's properties.
pub open spec fn spec_crtc_changes(
    object: u32,
    p: CrtcProps,
    o: CrtcValues,
    n: CrtcValues,
    reset: bool,
    props: Map<u32, u64>,
    defaults: Seq<DefaultProperty>,
) -> Seq<PropChange> {
    let c1 = if n.active != o.active {
        seq![PropChange { object, prop: p.active, value: spec_bool_value(n.active) }]
    } else {
        Seq::empty()
    };
    let c2 = if n.vrr_enabled != o.vrr_enabled {
        seq![PropChange { object, prop: p.vrr_enabled, value: spec_bool_value(n.vrr_enabled) }]
    } else {
        Seq::empty()
    };
    let c3 = if n.mode_blob_id != o.mode_blob_id {
        seq![PropChange { object, prop: p.mode_id, value: n.mode_blob_id as u64 }]
    } else {
        Seq::empty()
    };
    let c4 = if reset {
        spec_default_changes(object, props, defaults)
    } else {
        Seq::empty()
    };
    c1 + c2 + c3 + c4
}

/// The changes of a CRTC's properties: whether it is active, whether VRR is
/// enabled, its mode blob, then the defaults.
pub fn crtc_changes(
    object: u32,
    p: CrtcProps,
    o: CrtcValues,
    n: CrtcValues,
    reset: bool,
    props: &PropMap,
    defaults: &[DefaultProperty],
) -> (r: Vec<PropChange>)
    ensures
        r@ == spec_crtc_changes(object, p, o, n, reset, prop_map_entries(*props), defaults@),
{
    let mut out: Vec<PropChange> = Vec::new();
    if n.active != o.active {
        out.push(PropChange { object, prop: p.active, value: if n.active { 1 } else { 0 } });
    }
    if n.vrr_enabled != o.vrr_enabled {
        out.push(PropChange { object, prop: p.vrr_enabled, value: if n.vrr_enabled { 1 } else { 0 } });
    }
    if n.mode_blob_id != o.mode_blob_id {
        out.push(PropChange { object, prop: p.mode_id, value: n.mode_blob_id as u64 });
    }
    if reset {
        push_default_changes(&mut out, object, props, defaults);
    }
    proof {
        let s = spec_crtc_changes(object, p, o, n, reset, prop_map_entries(*props), defaults@);
        assert(out@ =~= s);
    }
    out
}

/// The property ids of a plane.
#[derive(Copy, Clone, Debug, PartialEq, Eq, Structural)]
pub struct PlaneProps {
    pub fb_id: u32,
    pub in_fence_fd: u32,
    pub crtc_id: u32,
    pub src_x: u32,
    pub src_y: u32,
    pub src_w: u32,
    pub src_h: u32,
    pub crtc_x: u32,
    pub crtc_y: u32,
    pub crtc_w: u32,
    pub crtc_h: u32,
}

/// The value that clears a plane's in-fence: -1 as a property value.
pub open spec fn spec_no_fence() -> u64 {
    (-1i32) as u64
}

/// The changes of the fields, in order: one for each `(prop, differs,
/// value)` whose value differs.
pub open spec fn spec_field_changes(object: u32, fields: Seq<(u32, bool, u64)>) -> Seq<PropChange>
    decreases fields.len(),
{
    if fields.len() == 0 {
        Seq::empty()
    } else {
        let f = fields.last();
        spec_field_changes(object, fields.drop_last()) + if f.1 {
            seq![PropChange { object, prop: f.0, value: f.2 }]
        } else {
            Seq::empty()
        }
    }
}

/// The plane's fields other than its framebuffer, in the order they are
/// compared: each property id, whether the value changed, the new value.
pub open spec fn spec_plane_fields(p: PlaneProps, o: DrmPlaneState, n: DrmPlaneState) -> Seq<(u32, bool, u64)> {
    seq![
        (p.crtc_id, n.crtc_id != o.crtc_id, n.crtc_id as u64),
        (p.src_x, n.src_x != o.src_x, n.src_x as u64),
        (p.src_y, n.src_y != o.src_y, n.src_y as u64),
        (p.src_w, n.src_w != o.src_w, n.src_w as u64),
        (p.src_h, n.src_h != o.src_h, n.src_h as u64),
        (p.crtc_x, n.crtc_x != o.crtc_x, n.crtc_x as u64),
        (p.crtc_y, n.crtc_y != o.crtc_y, n.crtc_y as u64),
        (p.crtc_w, n.crtc_w != o.crtc_w, n.crtc_w as u64),
        (p.crtc_h, n.crtc_h != o.crtc_h, n.crtc_h as u64),
    ]
}

/// The changes of a plane's properties.
pub open spec fn spec_plane_changes(
    object: u32,
    p: PlaneProps,
    o: DrmPlaneState,
    n: DrmPlaneState,
    reset: bool,
    props: Map<u32, u64>,
    defaults: Seq<DefaultProperty>,
) -> Seq<PropChange> {
    let fb = if n.fb_id != o.fb_id {
        seq![
            PropChange { object, prop: p.fb_id, value: n.fb_id as u64 },
            PropChange { object, prop: p.in_fence_fd, value: spec_no_fence() },
        ]
    } else {
        Seq::empty()
    };
    let d = if reset {
        spec_default_changes(object, props, defaults)
    } else {
        Seq::empty()
    };
    fb + spec_field_changes(object, spec_plane_fields(p, o, n)) + d
}

fn push_field_changes(out: &mut Vec<PropChange>, object: u32, fields: &[(u32, bool, u64)])
    ensures
        final(out)@ == old(out)@ + spec_field_changes(object, fields@),
{
    let ghost start = out@;
    let mut i: usize = 0;
    while i < fields.len()
        invariant
            i <= fields@.len(),
            out@ == start + spec_field_changes(object, fields@.take(i as int)),
        decreases fields@.len() - i,
    {
        let (prop, differs, value) = fields[i];
        proof {
            assert(fields@.take(i + 1).drop_last() =~= fields@.take(i as int));
            assert(fields@.take(i + 1).last() == fields@[i as int]);
        }
        if differs {
            out.push(PropChange { object, prop, value });
        }
        proof {
            assert(out@ =~= start + spec_field_changes(object, fields@.take(i + 1)));
        }
        i += 1;
    }
    assert(fields@.take(fields@.len() as int) =~= fields@);
}

/// The changes of a plane's properties: a new framebuffer clears the
/// in-fence; then its CRTC, its source and CRTC rectangles, and the
/// defaults.
pub fn plane_changes(
    object: u32,
    p: PlaneProps,
    o: &DrmPlaneState,
    n: &DrmPlaneState,
    reset: bool,
    props: &PropMap,
    defaults: &[DefaultProperty],
) -> (r: Vec<PropChange>)
    ensures
        r@ == spec_plane_changes(object, p, *o, *n, reset, prop_map_entries(*props), defaults@),
{
    let mut out: Vec<PropChange> = Vec::new();
    if n.fb_id != o.fb_id {
        out.push(PropChange { object, prop: p.fb_id, value: n.fb_id as u64 });
        out.push(PropChange { object, prop: p.in_fence_fd, value: (-1i32) as u64 });
    }
    let fields = [
        (p.crtc_id, n.crtc_id != o.crtc_id, n.crtc_id as u64),
        (p.src_x, n.src_x != o.src_x, n.src_x as u64),
        (p.src_y, n.src_y != o.src_y, n.src_y as u64),
        (p.src_w, n.src_w != o.src_w, n.src_w as u64),
        (p.src_h, n.src_h != o.src_h, n.src_h as u64),
        (p.crtc_x, n.crtc_x != o.crtc_x, n.crtc_x as u64),
        (p.crtc_y, n.crtc_y != o.crtc_y, n.crtc_y as u64),
        (p.crtc_w, n.crtc_w != o.crtc_w, n.crtc_w as u64),
        (p.crtc_h, n.crtc_h != o.crtc_h, n.crtc_h as u64),
    ];
    assert(fields@ =~= spec_plane_fields(p, *o, *n));
    push_field_changes(&mut out, object, fields.as_slice());
    if reset {
        push_default_changes(&mut out, object, props, defaults);
    }
    proof {
        let s = spec_plane_changes(object, p, *o, *n, reset, prop_map_entries(*props), defaults@);
        assert(out@ =~= s);
    }
    out
}

/// A connector as the change sees it: its properties, its current and its
/// new state, and what its other properties hold and are reset to.
pub struct ConnectorDiff {
    pub id: u32,
    pub props: ConnectorProps,
    pub old: DrmConnectorState,
    pub new: DrmConnectorState,
    pub untyped: PropMap,
    pub defaults: Vec<DefaultProperty>,
}

/// A CRTC as the change sees it; `links` are the connectors (by index)
/// that are marked changed where the CRTC changes.
pub struct CrtcDiff {
    pub id: u32,
    pub props: CrtcProps,
    pub old: CrtcValues,
    pub new: CrtcValues,
    pub untyped: PropMap,
    pub defaults: Vec<DefaultProperty>,
    pub links: Vec<usize>,
}

/// A plane as the change sees it; `links` are the connectors (by index)
/// that are marked changed where the plane changes.
pub struct PlaneDiff {
    pub id: u32,
    pub props: PlaneProps,
    pub old: DrmPlaneState,
    pub new: DrmPlaneState,
    pub untyped: PropMap,
    pub defaults: Vec<DefaultProperty>,
    pub links: Vec<usize>,
}

pub open spec fn spec_connector_diff(c: &ConnectorDiff, reset: bool) -> Seq<PropChange> {
    spec_connector_changes(c.id, c.props, c.old, c.new, reset, prop_map_entries(c.untyped), c.defaults@)
}

pub open spec fn spec_crtc_diff(c: &CrtcDiff, reset: bool) -> Seq<PropChange> {
    spec_crtc_changes(c.id, c.props, c.old, c.new, reset, prop_map_entries(c.untyped), c.defaults@)
}

pub open spec fn spec_plane_diff(p: &PlaneDiff, reset: bool) -> Seq<PropChange> {
    spec_plane_changes(p.id, p.props, p.old, p.new, reset, prop_map_entries(p.untyped), p.defaults@)
}

pub open spec fn spec_connectors_changes(cs: Seq<ConnectorDiff>, reset: bool) -> Seq<PropChange>
    decreases cs.len(),
{
    if cs.len() == 0 {
        Seq::empty()
    } else {
        spec_connectors_changes(cs.drop_last(), reset) + spec_connector_diff(&cs.last(), reset)
    }
}

pub open spec fn spec_crtcs_changes(cs: Seq<CrtcDiff>, reset: bool) -> Seq<PropChange>
    decreases cs.len(),
{
    if cs.len() == 0 {
        Seq::empty()
    } else {
        spec_crtcs_changes(cs.drop_last(), reset) + spec_crtc_diff(&cs.last(), reset)
    }
}

pub open spec fn spec_planes_changes(ps: Seq<PlaneDiff>, reset: bool) -> Seq<PropChange>
    decreases ps.len(),
{
    if ps.len() == 0 {
        Seq::empty()
    } else {
        spec_planes_changes(ps.drop_last(), reset) + spec_plane_diff(&ps.last(), reset)
    }
}

/// Whether connector `i` is marked changed: it was already, or its own
/// properties change, or a CRTC or plane that links it changes.
pub open spec fn spec_marked(
    already: Seq<bool>,
    connectors: Seq<ConnectorDiff>,
    crtcs: Seq<CrtcDiff>,
    planes: Seq<PlaneDiff>,
    reset: bool,
    i: int,
) -> bool {
    ||| already[i]
    ||| spec_connector_diff(&connectors[i], reset).len() > 0
    ||| exists|k: int|
        0 <= k < crtcs.len() && spec_crtc_diff(&#[trigger] crtcs[k], reset).len() > 0 && crtcs[k].links@.contains(
            i as usize,
        )
    ||| exists|k: int|
        0 <= k < planes.len() && spec_plane_diff(&#[trigger] planes[k], reset).len() > 0 && planes[k].links@.contains(
            i as usize,
        )
}

/// The change of a device and the connectors it affects.
pub struct ChangeSet {
    pub changes: Vec<PropChange>,
    pub connector_changed: Vec<bool>,
}

fn mark_links(flags: &mut Vec<bool>, links: &[usize])
    requires
        forall|j: int| 0 <= j < links@.len() ==> (links@[j] as int) < old(flags)@.len(),
    ensures
        final(flags)@.len() == old(flags)@.len(),
        forall|i: int|
            0 <= i < old(flags)@.len() ==> #[trigger] final(flags)@[i] == (old(flags)@[i] || links@.contains(i as usize)),
{
    let ghost start = flags@;
    let flen = flags.len();
    let mut j: usize = 0;
    while j < links.len()
        invariant
            j <= links@.len(),
            flags@.len() == start.len(),
            start.len() == flen,
            forall|q: int| 0 <= q < links@.len() ==> (links@[q] as int) < start.len(),
            forall|i: int|
                0 <= i < start.len() ==> #[trigger] flags@[i] == (start[i] || links@.take(j as int).contains(i as usize)),
        decreases links@.len() - j,
    {
        let l = links[j];
        flags.set(l, true);
        proof {
            assert(links@.take(j + 1) =~= links@.take(j as int).push(l));
            assert forall|i: int| 0 <= i < start.len() implies #[trigger] flags@[i] == (start[i] || links@.take(
                j + 1,
            ).contains(i as usize)) by {
                let t = links@.take(j as int);
                if i == l as int {
                    assert(t.push(l)[j as int] == l);
                } else {
                    assert(i as usize != l);
                    if t.push(l).contains(i as usize) {
                        let q = choose|q: int| 0 <= q < t.push(l).len() && #[trigger] t.push(l)[q] == i as usize;
                        assert(q < j);
                        assert(t[q] == i as usize);
                    }
                    if t.contains(i as usize) {
                        let q = choose|q: int| 0 <= q < t.len() && #[trigger] t[q] == i as usize;
                        assert(t.push(l)[q] == i as usize);
                    }
                }
            }
        }
        j += 1;
    }
    assert(links@.take(links@.len() as int) =~= links@);
}

/// The change that moves the device to the new states: the changes of the
/// connectors, then of the CRTCs, then of the planes, each in order; and
/// which connectors are marked changed (those in `already` stay marked).
pub fn calculate_change(
    connectors: &[ConnectorDiff],
    crtcs: &[CrtcDiff],
    planes: &[PlaneDiff],
    reset: bool,
    already: Vec<bool>,
) -> (r: ChangeSet)
    requires
        already@.len() == connectors@.len(),
        forall|k: int, j: int|
            0 <= k < crtcs@.len() && 0 <= j < crtcs@[k].links@.len() ==> (#[trigger] crtcs@[k].links@[j] as int)
                < connectors@.len(),
        forall|k: int, j: int|
            0 <= k < planes@.len() && 0 <= j < planes@[k].links@.len() ==> (#[trigger] planes@[k].links@[j] as int)
                < connectors@.len(),
    ensures
        r.changes@ == spec_connectors_changes(connectors@, reset) + spec_crtcs_changes(crtcs@, reset)
            + spec_planes_changes(planes@, reset),
        r.connector_changed@.len() == connectors@.len(),
        forall|i: int|
            0 <= i < connectors@.len() ==> #[trigger] r.connector_changed@[i] == spec_marked(
                already@,
                connectors@,
                crtcs@,
                planes@,
                reset,
                i,
            ),
{
    let n = connectors.len();
    let mut changes: Vec<PropChange> = Vec::new();
    let mut flags = already;
    let mut i: usize = 0;
    while i < n
        invariant
            i <= n,
            n == connectors@.len(),
            flags@.len() == n,
            changes@ == spec_connectors_changes(connectors@.take(i as int), reset),
            forall|q: int| 0 <= q < n ==> #[trigger] flags@[q] == (already@[q] || (q < i && spec_connector_diff(
                &connectors@[q],
                reset,
            ).len() > 0)),
        decreases n - i,
    {
        let c = &connectors[i];
        let mut cc = connector_changes(c.id, c.props, &c.old, &c.new, reset, &c.untyped, c.defaults.as_slice());
        proof {
            assert(connectors@.take(i + 1).drop_last() =~= connectors@.take(i as int));
            assert(connectors@.take(i + 1).last() == connectors@[i as int]);
        }
        if cc.len() > 0 {
            flags.set(i, true);
        }
        changes.append(&mut cc);
        i += 1;
    }
    assert(connectors@.take(n as int) =~= connectors@);
    let ghost after_connectors = flags@;
    let ghost conn_changes = changes@;
    let mut k: usize = 0;
    while k < crtcs.len()
        invariant
            k <= crtcs@.len(),
            n == connectors@.len(),
            flags@.len() == n,
            forall|a: int, j: int|
                0 <= a < crtcs@.len() && 0 <= j < crtcs@[a].links@.len() ==> (#[trigger] crtcs@[a].links@[j] as int)
                    < n,
            changes@ == conn_changes + spec_crtcs_changes(crtcs@.take(k as int), reset),
            forall|q: int| 0 <= q < n ==> #[trigger] flags@[q] == (after_connectors[q] || exists|a: int|
                0 <= a < k && spec_crtc_diff(&#[trigger] crtcs@[a], reset).len() > 0 && crtcs@[a].links@.contains(
                    q as usize,
                )),
        decreases crtcs@.len() - k,
    {
        let c = &crtcs[k];
        let mut cc = crtc_changes(c.id, c.props, c.old, c.new, reset, &c.untyped, c.defaults.as_slice());
        proof {
            assert(crtcs@.take(k + 1).drop_last() =~= crtcs@.take(k as int));
            assert(crtcs@.take(k + 1).last() == crtcs@[k as int]);
        }
        let ghost before = flags@;
        if cc.len() > 0 {
            assert forall|j: int| 0 <= j < c.links@.len() implies (c.links@[j] as int) < flags@.len() by {
                assert(crtcs@[k as int].links@[j] == c.links@[j]);
            }
            mark_links(&mut flags, c.links.as_slice());
        }
        proof {
            assert forall|q: int| 0 <= q < n implies #[trigger] flags@[q] == (after_connectors[q] || exists|a: int|
                0 <= a < k + 1 && spec_crtc_diff(&#[trigger] crtcs@[a], reset).len() > 0 && crtcs@[a].links@.contains(
                    q as usize,
                )) by {
                if flags@[q] && !before[q] {
                    assert(spec_crtc_diff(&crtcs@[k as int], reset).len() > 0);
                    assert(crtcs@[k as int].links@.contains(q as usize));
                }
                if exists|a: int|
                    0 <= a < k + 1 && spec_crtc_diff(&#[trigger] crtcs@[a], reset).len() > 0 && crtcs@[a].links@.contains(
                        q as usize,
                    ) {
                    let a = choose|a: int|
                        0 <= a < k + 1 && spec_crtc_diff(&#[trigger] crtcs@[a], reset).len() > 0 && crtcs@[a].links@.contains(
                            q as usize,
                        );
                    if a == k {
                        assert(flags@[q]);
                    } else {
                        assert(before[q]);
                    }
                }
            }
        }
        changes.append(&mut cc);
        k += 1;
    }
    assert(crtcs@.take(crtcs@.len() as int) =~= crtcs@);
    let ghost after_crtcs = flags@;
    let ghost crtc_changes_all = changes@;
    let mut k: usize = 0;
    while k < planes.len()
        invariant
            k <= planes@.len(),
            n == connectors@.len(),
            flags@.len() == n,
            forall|a: int, j: int|
                0 <= a < planes@.len() && 0 <= j < planes@[a].links@.len() ==> (#[trigger] planes@[a].links@[j] as int)
                    < n,
            changes@ == crtc_changes_all + spec_planes_changes(planes@.take(k as int), reset),
            forall|q: int| 0 <= q < n ==> #[trigger] flags@[q] == (after_crtcs[q] || exists|a: int|
                0 <= a < k && spec_plane_diff(&#[trigger] planes@[a], reset).len() > 0 && planes@[a].links@.contains(
                    q as usize,
                )),
        decreases planes@.len() - k,
    {
        let p = &planes[k];
        let mut pc = plane_changes(p.id, p.props, &p.old, &p.new, reset, &p.untyped, p.defaults.as_slice());
        proof {
            assert(planes@.take(k + 1).drop_last() =~= planes@.take(k as int));
            assert(planes@.take(k + 1).last() == planes@[k as int]);
        }
        let ghost before = flags@;
        if pc.len() > 0 {
            assert forall|j: int| 0 <= j < p.links@.len() implies (p.links@[j] as int) < flags@.len() by {
                assert(planes@[k as int].links@[j] == p.links@[j]);
            }
            mark_links(&mut flags, p.links.as_slice());
        }
        proof {
            assert forall|q: int| 0 <= q < n implies #[trigger] flags@[q] == (after_crtcs[q] || exists|a: int|
                0 <= a < k + 1 && spec_plane_diff(&#[trigger] planes@[a], reset).len() > 0 && planes@[a].links@.contains(
                    q as usize,
                )) by {
                if flags@[q] && !before[q] {
                    assert(spec_plane_diff(&planes@[k as int], reset).len() > 0);
                    assert(planes@[k as int].links@.contains(q as usize));
                }
                if exists|a: int|
                    0 <= a < k + 1 && spec_plane_diff(&#[trigger] planes@[a], reset).len() > 0 && planes@[a].links@.contains(
                        q as usize,
                    ) {
                    let a = choose|a: int|
                        0 <= a < k + 1 && spec_plane_diff(&#[trigger] planes@[a], reset).len() > 0 && planes@[a].links@.contains(
                            q as usize,
                        );
                    if a == k {
                        assert(flags@[q]);
                    } else {
                        assert(before[q]);
                    }
                }
            }
        }
        changes.append(&mut pc);
        k += 1;
    }
    assert(planes@.take(planes@.len() as int) =~= planes@);
    ChangeSet { changes, connector_changed: flags }
}

} // verus!
