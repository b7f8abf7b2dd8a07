//! What follows a committed transaction: which CRTC and planes each changed
//! connector now drives, what is repainted, and what the compositor is told.

use vstd::prelude::*;
use crate::backends::metal::video::FrontState;
use crate::backends::metal::video::PlaneType;

verus! {

/// Whether the change is committed once more, now allowing a modeset: a
/// change that is not empty and could not be committed without one.
pub fn retry_with_modeset(change_is_empty: bool, committed_without_modeset: bool) -> (r: bool)
    ensures
        r == (!change_is_empty && !committed_without_modeset),
{
    !change_is_empty && !committed_without_modeset
}

/// A CRTC after the commit: the connector it is assigned to (zero for none)
/// and the size of its mode, if it has one.
#[derive(Copy, Clone, Debug)]
pub struct CrtcApply {
    pub id: u32,
    pub assigned_connector: u32,
    pub mode_size: Option<(i32, i32)>,
}

/// A plane after the commit.
#[derive(Copy, Clone, Debug, PartialEq, Eq, Structural)]
pub struct PlaneApply {
    pub id: u32,
    pub ty: PlaneType,
    /// The CRTC the plane belongs to; zero for none.
    pub assigned_crtc: u32,
    pub fb_id: u32,
    pub buffers: Option<u64>,
}

/// A connector after the commit: its CRTC (zero for none) and whether the
/// transaction changed it.
#[derive(Copy, Clone, Debug, PartialEq, Eq, Structural)]
pub struct ConnectorApply {
    pub id: u32,
    pub crtc_id: u32,
    pub changed: bool,
}

/// A plane a connector drives: the plane, its buffers and its framebuffer.
#[derive(Copy, Clone, Debug, PartialEq, Eq, Structural)]
pub struct PlaneUse {
    pub plane: u32,
    pub buffers: Option<u64>,
    pub fb: u32,
}

/// What a changed connector drives: its CRTC, and its primary and cursor
/// planes where it has them (its framebuffers are those of the planes;
/// none without a plane).
#[derive(Copy, Clone, Debug, PartialEq, Eq, Structural)]
pub struct ConnectorWiring {
    pub crtc: Option<u32>,
    pub primary: Option<PlaneUse>,
    pub cursor: Option<PlaneUse>,
}

/// The index of the CRTC with the id, if any.
pub open spec fn spec_crtc_index(crtcs: Seq<CrtcApply>, id: u32) -> Option<int>
    decreases crtcs.len(),
{
    if crtcs.len() == 0 {
        None
    } else if crtcs.last().id == id {
        Some(crtcs.len() - 1)
    } else {
        spec_crtc_index(crtcs.drop_last(), id)
    }
}

/// The last plane of the type that is assigned to the CRTC, if any.
pub open spec fn spec_crtc_plane(planes: Seq<PlaneApply>, crtc: u32, ty: PlaneType) -> Option<int>
    decreases planes.len(),
{
    if planes.len() == 0 {
        None
    } else if planes.last().assigned_crtc == crtc && planes.last().ty == ty {
        Some(planes.len() - 1)
    } else {
        spec_crtc_plane(planes.drop_last(), crtc, ty)
    }
}

pub open spec fn spec_plane_use(planes: Seq<PlaneApply>, crtc: u32, ty: PlaneType) -> Option<PlaneUse> {
    match spec_crtc_plane(planes, crtc, ty) {
        Some(k) => Some(PlaneUse { plane: planes[k].id, buffers: planes[k].buffers, fb: planes[k].fb_id }),
        None => None,
    }
}

/// What a changed connector drives after the commit.
pub open spec fn spec_wiring(planes: Seq<PlaneApply>, c: ConnectorApply) -> ConnectorWiring {
    if c.crtc_id == 0 {
        ConnectorWiring { crtc: None, primary: None, cursor: None }
    } else {
        ConnectorWiring {
            crtc: Some(c.crtc_id),
            primary: spec_plane_use(planes, c.crtc_id, PlaneType::Primary),
            cursor: spec_plane_use(planes, c.crtc_id, PlaneType::Cursor),
        }
    }
}

/// Whether the CRTC with the id exists and has a connector.
pub open spec fn spec_crtc_has_connector(crtcs: Seq<CrtcApply>, id: u32) -> bool {
    match spec_crtc_index(crtcs, id) {
        Some(c) => crtcs[c].assigned_connector != 0,
        None => false,
    }
}

/// Whether the CRTC with the id exists and has a mode.
pub open spec fn spec_crtc_has_mode(crtcs: Seq<CrtcApply>, id: u32) -> bool {
    match spec_crtc_index(crtcs, id) {
        Some(c) => crtcs[c].mode_size is Some,
        None => false,
    }
}

/// Whether the committed state is consistent: each plane that belongs to a
/// CRTC is a primary or cursor plane of a CRTC that has a mode and a
/// connector, and each changed connector with a CRTC names a CRTC that has
/// a connector.
pub open spec fn spec_apply_ok(crtcs: Seq<CrtcApply>, planes: Seq<PlaneApply>, connectors: Seq<ConnectorApply>) -> bool {
    &&& forall|k: int|
        0 <= k < planes.len() && (#[trigger] planes[k]).assigned_crtc != 0 ==> {
            &&& planes[k].ty != PlaneType::Overlay
            &&& spec_crtc_has_connector(crtcs, planes[k].assigned_crtc)
            &&& spec_crtc_has_mode(crtcs, planes[k].assigned_crtc)
        }
    &&& forall|k: int|
        0 <= k < connectors.len() && (#[trigger] connectors[k]).changed && connectors[k].crtc_id != 0
            ==> spec_crtc_has_connector(crtcs, connectors[k].crtc_id)
}

proof fn lemma_crtc_index(crtcs: Seq<CrtcApply>, id: u32)
    ensures
        spec_crtc_index(crtcs, id) matches Some(c) ==> 0 <= c < crtcs.len() && crtcs[c].id == id,
        spec_crtc_index(crtcs, id) is None ==> forall|k: int| 0 <= k < crtcs.len() ==> (#[trigger] crtcs[k]).id != id,
    decreases crtcs.len(),
{
    if crtcs.len() > 0 {
        lemma_crtc_index(crtcs.drop_last(), id);
        if crtcs.last().id != id {
            assert forall|k: int| 0 <= k < crtcs.len() - 1 implies #[trigger] crtcs[k] == crtcs.drop_last()[k] by {}
        }
    }
}

fn find_crtc(crtcs: &[CrtcApply], id: u32) -> (r: Option<usize>)
    ensures
        match spec_crtc_index(crtcs@, id) {
            Some(c) => r == Some(c as usize),
            None => r is None,
        },
{
    assert(crtcs@.take(crtcs@.len() as int) =~= crtcs@);
    let mut i: usize = crtcs.len();
    while i > 0
        invariant
            i <= crtcs@.len(),
            spec_crtc_index(crtcs@, id) == spec_crtc_index(crtcs@.take(i as int), id),
        decreases i,
    {
        let ghost t = crtcs@.take(i as int);
        assert(t.last() == crtcs@[i - 1]);
        assert(t.drop_last() =~= crtcs@.take(i - 1));
        if crtcs[i - 1].id == id {
            return Some(i - 1);
        }
        i -= 1;
    }
    None
}

fn crtc_plane(planes: &[PlaneApply], crtc: u32, ty: PlaneType) -> (r: Option<PlaneUse>)
    ensures
        r == spec_plane_use(planes@, crtc, ty),
{
    assert(planes@.take(planes@.len() as int) =~= planes@);
    let mut i: usize = planes.len();
    while i > 0
        invariant
            i <= planes@.len(),
            spec_crtc_plane(planes@, crtc, ty) == spec_crtc_plane(planes@.take(i as int), crtc, ty),
        decreases i,
    {
        let ghost t = planes@.take(i as int);
        assert(t.last() == planes@[i - 1]);
        assert(t.drop_last() =~= planes@.take(i - 1));
        let p = planes[i - 1];
        if p.assigned_crtc == crtc && p.ty == ty {
            return Some(PlaneUse { plane: p.id, buffers: p.buffers, fb: p.fb_id });
        }
        i -= 1;
    }
    None
}

/// What the connectors drive after the commit: for each changed connector,
/// its CRTC and the last primary and cursor plane assigned to that CRTC;
/// nothing for the others (they keep what they had).
pub fn connector_wiring(
    crtcs: &[CrtcApply],
    planes: &[PlaneApply],
    connectors: &[ConnectorApply],
) -> (r: Vec<Option<ConnectorWiring>>)
    requires
        spec_apply_ok(crtcs@, planes@, connectors@),
    ensures
        r@.len() == connectors@.len(),
        forall|i: int|
            0 <= i < connectors@.len() ==> #[trigger] r@[i] == (if connectors@[i].changed {
                Some(spec_wiring(planes@, connectors@[i]))
            } else {
                None
            }),
{
    let mut res: Vec<Option<ConnectorWiring>> = Vec::new();
    let mut i: usize = 0;
    while i < connectors.len()
        invariant
            i <= connectors@.len(),
            res@.len() == i,
            forall|k: int|
                0 <= k < i ==> #[trigger] res@[k] == (if connectors@[k].changed {
                    Some(spec_wiring(planes@, connectors@[k]))
                } else {
                    None
                }),
        decreases connectors@.len() - i,
    {
        let c = connectors[i];
        if !c.changed {
            res.push(None);
        } else if c.crtc_id == 0 {
            res.push(Some(ConnectorWiring { crtc: None, primary: None, cursor: None }));
        } else {
            let primary = crtc_plane(planes, c.crtc_id, PlaneType::Primary);
            let cursor = crtc_plane(planes, c.crtc_id, PlaneType::Cursor);
            res.push(Some(ConnectorWiring { crtc: Some(c.crtc_id), primary, cursor }));
        }
        i += 1;
    }
    res
}

/// The mode size each plane takes: that of its CRTC's mode, for planes that
/// belong to a CRTC.
pub fn plane_mode_sizes(crtcs: &[CrtcApply], planes: &[PlaneApply]) -> (r: Vec<Option<(i32, i32)>>)
    requires
        forall|k: int|
            0 <= k < planes@.len() && (#[trigger] planes@[k]).assigned_crtc != 0 ==> spec_crtc_has_mode(
                crtcs@,
                planes@[k].assigned_crtc,
            ),
    ensures
        r@.len() == planes@.len(),
        forall|k: int|
            0 <= k < planes@.len() ==> #[trigger] r@[k] == (if planes@[k].assigned_crtc == 0 {
                None
            } else {
                crtcs@[spec_crtc_index(crtcs@, planes@[k].assigned_crtc)->0].mode_size
            }),
{
    let mut res: Vec<Option<(i32, i32)>> = Vec::new();
    let mut k: usize = 0;
    while k < planes.len()
        invariant
            k <= planes@.len(),
            res@.len() == k,
            forall|q: int|
                0 <= q < planes@.len() && (#[trigger] planes@[q]).assigned_crtc != 0 ==> spec_crtc_has_mode(
                    crtcs@,
                    planes@[q].assigned_crtc,
                ),
            forall|q: int|
                0 <= q < k ==> #[trigger] res@[q] == (if planes@[q].assigned_crtc == 0 {
                    None
                } else {
                    crtcs@[spec_crtc_index(crtcs@, planes@[q].assigned_crtc)->0].mode_size
                }),
        decreases planes@.len() - k,
    {
        let p = planes[k];
        if p.assigned_crtc == 0 {
            res.push(None);
        } else {
            proof {
                lemma_crtc_index(crtcs@, p.assigned_crtc);
            }
            match find_crtc(crtcs, p.assigned_crtc) {
                Some(c) => res.push(crtcs[c].mode_size),
                None => res.push(None),
            }
        }
        k += 1;
    }
    res
}

/// What the compositor is told of a connector after a commit.
#[derive(Copy, Clone, Debug, PartialEq, Eq, Structural)]
pub enum FrontendAction {
    /// The display is announced (this happens only where the compositor
    /// knows the connector as disconnected).
    SendConnected,
    /// The display is announced as gone.
    SendDisconnected,
    SendHardwareCursor,
    SendFormats,
    UpdateDrmFeedback,
    SendState,
}

/// What the compositor is told: a connector with a CRTC is announced where
/// it was disconnected, refreshed where it is a desktop and was changed or
/// asked for, and announced again where it was known as a non-desktop
/// display; a connector without a CRTC that drives a connected non-desktop
/// display is announced, or announced again where it was known as a
/// desktop; any other connector is announced as gone where it was
/// connected.
pub open spec fn spec_frontend_actions(
    has_crtc: bool,
    changed: bool,
    requested: bool,
    connected: bool,
    non_desktop_effective: bool,
    front: FrontState,
) -> Seq<FrontendAction> {
    if has_crtc {
        match front {
            FrontState::Removed | FrontState::Unavailable => Seq::empty(),
            FrontState::Disconnected => seq![FrontendAction::SendConnected],
            FrontState::Connected { non_desktop } => if !non_desktop {
                if changed || requested {
                    seq![
                        FrontendAction::SendHardwareCursor,
                        FrontendAction::SendFormats,
                        FrontendAction::UpdateDrmFeedback,
                        FrontendAction::SendState,
                    ]
                } else {
                    Seq::empty()
                }
            } else {
                seq![FrontendAction::SendDisconnected, FrontendAction::SendConnected]
            },
        }
    } else if connected && non_desktop_effective {
        match front {
            FrontState::Disconnected => seq![FrontendAction::SendConnected],
            FrontState::Connected { non_desktop } => if !non_desktop {
                seq![FrontendAction::SendDisconnected, FrontendAction::SendConnected]
            } else {
                Seq::empty()
            },
            _ => Seq::empty(),
        }
    } else {
        match front {
            FrontState::Connected { .. } => seq![FrontendAction::SendDisconnected],
            _ => Seq::empty(),
        }
    }
}

pub fn frontend_actions(
    has_crtc: bool,
    changed: bool,
    requested: bool,
    connected: bool,
    non_desktop_effective: bool,
    front: FrontState,
) -> (r: Vec<FrontendAction>)
    ensures
        r@ == spec_frontend_actions(has_crtc, changed, requested, connected, non_desktop_effective, front),
{
    let r = if has_crtc {
        match front {
            FrontState::Removed | FrontState::Unavailable => vec![],
            FrontState::Disconnected => vec![FrontendAction::SendConnected],
            FrontState::Connected { non_desktop: false } => {
                if changed || requested {
                    vec![
                        FrontendAction::SendHardwareCursor,
                        FrontendAction::SendFormats,
                        FrontendAction::UpdateDrmFeedback,
                        FrontendAction::SendState,
                    ]
                } else {
                    vec![]
                }
            },
            FrontState::Connected { non_desktop: true } => {
                vec![FrontendAction::SendDisconnected, FrontendAction::SendConnected]
            },
        }
    } else if connected && non_desktop_effective {
        match front {
            FrontState::Disconnected => vec![FrontendAction::SendConnected],
            FrontState::Connected { non_desktop: false } => {
                vec![FrontendAction::SendDisconnected, FrontendAction::SendConnected]
            },
            _ => vec![],
        }
    } else {
        match front {
            FrontState::Connected { .. } => vec![FrontendAction::SendDisconnected],
            _ => vec![],
        }
    };
    assert(r@ =~= spec_frontend_actions(has_crtc, changed, requested, connected, non_desktop_effective, front));
    r
}

/// What a changed connector with a CRTC repaints: its first buffer in full
/// (where it has buffers) and its cursor; a present is scheduled where
/// neither its buffers nor its CRTC are busy.
#[derive(Copy, Clone, Debug, PartialEq, Eq, Structural)]
pub struct ApplyDamage {
    pub damage: bool,
    pub schedule_present: bool,
}

pub fn apply_damage(has_crtc: bool, changed: bool, buffers_idle: bool, crtc_idle: bool) -> (r: ApplyDamage)
    ensures
        r.damage == (has_crtc && changed),
        r.schedule_present == (has_crtc && changed && buffers_idle && crtc_idle),
{
    let damage = has_crtc && changed;
    ApplyDamage { damage, schedule_present: damage && buffers_idle && crtc_idle }
}

} // verus!
