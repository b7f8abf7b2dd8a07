//! Matching a plane path (the operations a color transformation needs) to
//! a color pipeline of a plane: each operation of the pipeline either
//! performs the next step of the path, where its type fits that step, or is
//! bypassed, where it can be; the whole path must be performed and every
//! operation accounted for. Then how a match is programmed: the
//! properties each operation gets, and the key of each blob it needs.

use vstd::prelude::*;
use super::metal_cm_paths::PlaneOpKind;
use super::metal_cm_paths::PlaneOpTarget;
use super::metal_cm_plane::ColorOp;
use super::metal_cm_plane::ColorOpType;
use super::metal_cm_crtc::CurveConfig;

verus! {

/// What an operation of the pipeline does in a match.
#[derive(Copy, Clone, Debug, PartialEq, Eq, Structural)]
pub enum OpMatch {
    /// The operation is bypassed.
    Bypass,
    /// The operation performs the next step of the path.
    Perform,
}

/// What the match needs to know beyond the pipeline and the path: the
/// curve type (by index) that the source and the destination descriptions
/// ask of a fixed curve, where they ask one, and for each step of the path
/// whether a 3x4 matrix for it fits the hardware's range with the
/// multipliers that the step allows.
pub struct MatchContext {
    pub src_curve: Option<usize>,
    pub dst_curve: Option<usize>,
    pub matrix_fits: Vec<bool>,
}

/// Whether an operation of the type can perform the step of the path.
pub open spec fn spec_performs(ty: ColorOpType, step: PlaneOpKind, cx: &MatchContext, j: int) -> bool {
    match (ty, step) {
        (ColorOpType::Curve1d { types, .. }, PlaneOpKind::Curve1d { target }) => {
            let curve = match target {
                PlaneOpTarget::Src => cx.src_curve,
                PlaneOpTarget::Dst => cx.dst_curve,
            };
            match curve {
                Some(t) => t < types@.len() && types@[t as int] is Some,
                None => false,
            }
        },
        (ColorOpType::Lut1d { linear, .. }, PlaneOpKind::Lut1d { .. }) => linear is Some,
        (ColorOpType::Matrix3x4 { .. }, PlaneOpKind::Matrix3x4 { .. }) => 0 <= j < cx.matrix_fits@.len()
            && cx.matrix_fits@[j],
        (ColorOpType::Multiplier { .. }, PlaneOpKind::Multiply { .. }) => true,
        (ColorOpType::Lut3d { tetrahedral, size, .. }, PlaneOpKind::Lut3d { .. }) => tetrahedral is Some && size >= 2,
        _ => false,
    }
}

/// Whether the operations from `i` on can perform the steps of the path
/// from `j` on.
pub open spec fn spec_match_at(
    ops: Seq<ColorOp>,
    next_non_bypass: Seq<Option<usize>>,
    path: Seq<PlaneOpKind>,
    cx: &MatchContext,
    i: int,
    j: int,
) -> bool
    decreases ops.len() - i, 1int,
{
    if i < 0 || i >= ops.len() {
        i == ops.len() && j == path.len()
    } else {
        spec_step_at(ops, next_non_bypass, path, cx, i, j) is Some
    }
}

/// What operation `i` does when the operations from `i` on perform the
/// steps of the path from `j` on, and the operation that comes next: it
/// performs step `j` where its type fits and the rest then matches; else it
/// is bypassed where it can be, and the match goes on with the next
/// operation, or, where its type fitted, with the next one that cannot be
/// bypassed.
pub open spec fn spec_step_at(
    ops: Seq<ColorOp>,
    next_non_bypass: Seq<Option<usize>>,
    path: Seq<PlaneOpKind>,
    cx: &MatchContext,
    i: int,
    j: int,
) -> Option<(int, OpMatch)>
    decreases ops.len() - i, 0int,
{
    if i < 0 || i >= ops.len() {
        None
    } else {
        let fits = 0 <= j < path.len() && spec_performs(ops[i].ty, path[j], cx, j);
        if fits && spec_match_at(ops, next_non_bypass, path, cx, i + 1, j + 1) {
            Some((i + 1, OpMatch::Perform))
        } else {
            let next = if fits {
                if i < next_non_bypass.len() {
                    match next_non_bypass[i] {
                        Some(k) => Some(k as int),
                        None => None,
                    }
                } else {
                    None
                }
            } else {
                Some(i + 1)
            };
            match next {
                Some(k) => if ops[i].bypass is Some && i < k <= ops.len() && spec_match_at(
                    ops,
                    next_non_bypass,
                    path,
                    cx,
                    k,
                    j,
                ) {
                    Some((k, OpMatch::Bypass))
                } else {
                    None
                },
                None => None,
            }
        }
    }
}

/// What each operation from `i` on does in the match found from `(i, j)`:
/// the one at `i`, then those it skips (bypassed), then the rest.
pub open spec fn spec_walk(
    ops: Seq<ColorOp>,
    next_non_bypass: Seq<Option<usize>>,
    path: Seq<PlaneOpKind>,
    cx: &MatchContext,
    i: int,
    j: int,
) -> Seq<OpMatch>
    decreases ops.len() - i,
{
    if i < 0 || i >= ops.len() {
        Seq::empty()
    } else {
        match spec_step_at(ops, next_non_bypass, path, cx, i, j) {
            Some((k, m)) => if i < k <= ops.len() {
                seq![m] + Seq::new((k - i - 1) as nat, |x: int| OpMatch::Bypass) + spec_walk(
                    ops,
                    next_non_bypass,
                    path,
                    cx,
                    k,
                    if m == OpMatch::Perform {
                        j + 1
                    } else {
                        j
                    },
                )
            } else {
                Seq::empty()
            },
            None => Seq::empty(),
        }
    }
}

/// The result of matching the path to the pipeline: what each operation
/// does, where the path can be performed; none where it cannot.
pub open spec fn spec_match_ops(
    ops: Seq<ColorOp>,
    next_non_bypass: Seq<Option<usize>>,
    path: Seq<PlaneOpKind>,
    cx: &MatchContext,
) -> Option<Seq<OpMatch>> {
    if spec_match_at(ops, next_non_bypass, path, cx, 0, 0) {
        Some(spec_walk(ops, next_non_bypass, path, cx, 0, 0))
    } else {
        None
    }
}

fn performs(ty: &ColorOpType, step: PlaneOpKind, cx: &MatchContext, j: usize) -> (r: bool)
    ensures
        r == spec_performs(*ty, step, cx, j as int),
{
    match (ty, step) {
        (ColorOpType::Curve1d { types, .. }, PlaneOpKind::Curve1d { target }) => {
            let curve = match target {
                PlaneOpTarget::Src => cx.src_curve,
                PlaneOpTarget::Dst => cx.dst_curve,
            };
            match curve {
                Some(t) => t < types.len() && types[t].is_some(),
                None => false,
            }
        },
        (ColorOpType::Lut1d { linear, .. }, PlaneOpKind::Lut1d { .. }) => linear.is_some(),
        (ColorOpType::Matrix3x4 { .. }, PlaneOpKind::Matrix3x4 { .. }) => j < cx.matrix_fits.len() && cx.matrix_fits[j],
        (ColorOpType::Multiplier { .. }, PlaneOpKind::Multiply { .. }) => true,
        (ColorOpType::Lut3d { tetrahedral, size, .. }, PlaneOpKind::Lut3d { .. }) => tetrahedral.is_some() && *size >= 2,
        _ => false,
    }
}

fn match_at(
    ops: &Vec<ColorOp>,
    next_non_bypass: &Vec<Option<usize>>,
    path: &[PlaneOpKind],
    cx: &MatchContext,
    i: usize,
    j: usize,
) -> (r: bool)
    requires
        i <= ops@.len(),
        j <= path@.len(),
    ensures
        r == spec_match_at(ops@, next_non_bypass@, path@, cx, i as int, j as int),
    decreases ops@.len() - i, 1int,
{
    if i == ops.len() {
        return j == path.len();
    }
    step_at(ops, next_non_bypass, path, cx, i, j).is_some()
}

fn step_at(
    ops: &Vec<ColorOp>,
    next_non_bypass: &Vec<Option<usize>>,
    path: &[PlaneOpKind],
    cx: &MatchContext,
    i: usize,
    j: usize,
) -> (r: Option<(usize, OpMatch)>)
    requires
        i < ops@.len(),
        j <= path@.len(),
    ensures
        match spec_step_at(ops@, next_non_bypass@, path@, cx, i as int, j as int) {
            Some((k, m)) => r == Some((k as usize, m)) && i < k <= ops@.len(),
            None => r is None,
        },
    decreases ops@.len() - i, 0int,
{
    let n = ops.len();
    let pn = path.len();
    assert(i + 1 <= n);
    let fits = j < pn && performs(&ops[i].ty, path[j], cx, j);
    if fits && match_at(ops, next_non_bypass, path, cx, i + 1, j + 1) {
        return Some((i + 1, OpMatch::Perform));
    }
    let next: Option<usize> = if fits {
        if i < next_non_bypass.len() {
            next_non_bypass[i]
        } else {
            None
        }
    } else {
        Some(i + 1)
    };
    match next {
        Some(k) => {
            if ops[i].bypass.is_some() && i < k && k <= ops.len() && match_at(ops, next_non_bypass, path, cx, k, j) {
                Some((k, OpMatch::Bypass))
            } else {
                None
            }
        },
        None => None,
    }
}

/// Matches the path to the operations of a pipeline (with, for each
/// operation, the next one after it that cannot be bypassed): what each
/// operation does, where the whole path can be performed; none where it
/// cannot.
pub fn match_ops(
    ops: &Vec<ColorOp>,
    next_non_bypass: &Vec<Option<usize>>,
    path: &[PlaneOpKind],
    cx: &MatchContext,
) -> (r: Option<Vec<OpMatch>>)
    ensures
        match spec_match_ops(ops@, next_non_bypass@, path@, cx) {
            Some(s) => r matches Some(v) && v@ == s,
            None => r is None,
        },
{
    if !match_at(ops, next_non_bypass, path, cx, 0, 0) {
        return None;
    }
    let mut res: Vec<OpMatch> = Vec::new();
    let mut i: usize = 0;
    let mut j: usize = 0;
    while i < ops.len()
        invariant
            i <= ops@.len(),
            j <= path@.len(),
            spec_match_at(ops@, next_non_bypass@, path@, cx, i as int, j as int),
            res@ + spec_walk(ops@, next_non_bypass@, path@, cx, i as int, j as int) == spec_walk(
                ops@,
                next_non_bypass@,
                path@,
                cx,
                0,
                0,
            ),
        decreases ops@.len() - i,
    {
        let ghost before = res@;
        let (k, m) = match step_at(ops, next_non_bypass, path, cx, i, j) {
            Some(s) => s,
            None => {
                return None;
            },
        };
        res.push(m);
        let mut x: usize = i + 1;
        while x < k
            invariant
                i < x <= k,
                k <= ops@.len(),
                res@ == before.push(m) + Seq::new((x - i - 1) as nat, |y: int| OpMatch::Bypass),
            decreases k - x,
        {
            res.push(OpMatch::Bypass);
            x += 1;
            assert(res@ =~= before.push(m) + Seq::new((x - i - 1) as nat, |y: int| OpMatch::Bypass));
        }
        let pn = path.len();
        let nj: usize = if m == OpMatch::Perform {
            assert(j < pn);
            j + 1
        } else {
            j
        };
        proof {
            let rest = spec_walk(ops@, next_non_bypass@, path@, cx, k as int, nj as int);
            assert(spec_walk(ops@, next_non_bypass@, path@, cx, i as int, j as int) == seq![m] + Seq::new(
                (k - i - 1) as nat,
                |y: int| OpMatch::Bypass,
            ) + rest);
            assert(before + (seq![m] + Seq::new((k - i - 1) as nat, |y: int| OpMatch::Bypass) + rest) =~= res@ + rest);
        }
        i = k;
        j = nj;
    }
    assert(res@ =~= res@ + spec_walk(ops@, next_non_bypass@, path@, cx, i as int, j as int));
    Some(res)
}

/// The key of a 3x4 matrix's blob: the matrix's entries, row by row, in
/// signed 31.32 fixed point. Equal keys give equal blobs.
#[derive(Copy, Clone, Debug, PartialEq, Eq, Hash)]
pub struct MatrixKey {
    pub matrix: [u64; 12],
}

/// The key of a 1D LUT's blob: the destination description (by its id),
/// the curve, the size, and how the LUT is scaled. Equal keys give equal
/// blobs.
#[derive(Copy, Clone, Debug, PartialEq, Eq, Hash)]
pub struct Lut1dKey {
    pub dst: u64,
    pub eotf: CurveConfig,
    pub size: usize,
    pub scale_for_dst_lut: bool,
    pub input_is_scaled_for_dst_lut: bool,
}

/// The key of a 3D LUT's blob: the matrix it realizes (its entries, row by
/// row, by their bit patterns) and its size. Equal keys give equal blobs.
#[derive(Copy, Clone, Debug, PartialEq, Eq, Hash)]
pub struct Lut3dKey {
    pub matrix: [u64; 12],
    pub size: usize,
}

/// The blob that a data property of an operation is set to, by its key.
#[derive(Copy, Clone, Debug, PartialEq, Eq, Hash)]
pub enum BlobKey {
    Lut1d(Lut1dKey),
    Matrix(MatrixKey),
    Lut3d(Lut3dKey),
}

/// How an operation of a pipeline is used by a match; a property value is
/// a property id with the value it is set to.
#[derive(Copy, Clone, Debug, PartialEq, Eq)]
pub enum PlaneOpMatchType {
    /// The operation is bypassed.
    Bypass,
    /// A fixed curve, selected by the value of its type property.
    Curve1d { ty: (u32, u64) },
    /// A 1D LUT holding the curve, with the interpolation to use and the
    /// data property.
    Lut1d {
        interpolation: (u32, u64),
        blob_id: u32,
        eotf: CurveConfig,
        size: usize,
        scale_for_dst_lut: bool,
        input_is_scaled_for_dst_lut: bool,
    },
    /// A 3D LUT realizing the matrix (its entries by their bit patterns),
    /// with the interpolation to use and the data property.
    Lut3d { interpolation: (u32, u64), blob_id: u32, matrix: [u64; 12], size: usize },
    /// A 3x4 matrix (its entries in signed 31.32 fixed point) and the data
    /// property.
    Matrix3x4 { blob_id: u32, matrix: [u64; 12] },
    /// A multiplier (in signed 31.32 fixed point) and its property.
    Multiply { multiplier_id: u32, multiplier: u64 },
}

/// An operation of a pipeline as a match uses it: its id, the value of its
/// `BYPASS` property where it has one, and what it does.
#[derive(Copy, Clone, Debug, PartialEq, Eq)]
pub struct PlaneOpMatch {
    pub id: u32,
    pub bypass: Option<(u32, u64)>,
    pub ty: PlaneOpMatchType,
}

/// How a plane is programmed: its color pipeline property with the first
/// operation of the pipeline, where the plane has the property.
#[derive(Copy, Clone, Debug, PartialEq, Eq)]
pub struct PlaneProgramming {
    pub plane: u32,
    pub pipeline: Option<(u32, u32)>,
}

/// How an operation is programmed: the properties that are set, each with
/// its value, and the data property with the key of the blob it is set to.
#[derive(Copy, Clone, Debug, PartialEq, Eq)]
pub struct PlaneColorOpProgramming {
    pub op: u32,
    pub bypass: Option<(u32, u64)>,
    pub ty: Option<(u32, u64)>,
    pub interpolation: Option<(u32, u64)>,
    pub data: Option<(u32, BlobKey)>,
    pub multiplier: Option<(u32, u64)>,
}

/// How an operation of a match is programmed, with the destination
/// description (by its id).
pub open spec fn spec_op_programming(m: PlaneOpMatch, dst: u64) -> PlaneColorOpProgramming {
    match m.ty {
        PlaneOpMatchType::Bypass => PlaneColorOpProgramming {
            op: m.id,
            bypass: m.bypass,
            ty: None,
            interpolation: None,
            data: None,
            multiplier: None,
        },
        PlaneOpMatchType::Curve1d { ty } => PlaneColorOpProgramming {
            op: m.id,
            bypass: m.bypass,
            ty: Some(ty),
            interpolation: None,
            data: None,
            multiplier: None,
        },
        PlaneOpMatchType::Lut1d {
            interpolation,
            blob_id,
            eotf,
            size,
            scale_for_dst_lut,
            input_is_scaled_for_dst_lut,
        } => PlaneColorOpProgramming {
            op: m.id,
            bypass: m.bypass,
            ty: None,
            interpolation: Some(interpolation),
            data: Some(
                (
                    blob_id,
                    BlobKey::Lut1d(Lut1dKey { dst, eotf, size, scale_for_dst_lut, input_is_scaled_for_dst_lut }),
                ),
            ),
            multiplier: None,
        },
        PlaneOpMatchType::Lut3d { interpolation, blob_id, matrix, size } => PlaneColorOpProgramming {
            op: m.id,
            bypass: m.bypass,
            ty: None,
            interpolation: Some(interpolation),
            data: Some((blob_id, BlobKey::Lut3d(Lut3dKey { matrix, size }))),
            multiplier: None,
        },
        PlaneOpMatchType::Matrix3x4 { blob_id, matrix } => PlaneColorOpProgramming {
            op: m.id,
            bypass: m.bypass,
            ty: None,
            interpolation: None,
            data: Some((blob_id, BlobKey::Matrix(MatrixKey { matrix }))),
            multiplier: None,
        },
        PlaneOpMatchType::Multiply { multiplier_id, multiplier } => PlaneColorOpProgramming {
            op: m.id,
            bypass: m.bypass,
            ty: None,
            interpolation: None,
            data: None,
            multiplier: Some((multiplier_id, multiplier)),
        },
    }
}

/// How the plane and the operations of a match are programmed: without a
/// pipeline, the plane's pipeline is left unset and no operation is
/// programmed; with one, the plane selects it and each operation of the
/// match is programmed, in order.
pub open spec fn spec_plane_programming_plan(
    plane: u32,
    pipeline: Option<(u32, u32)>,
    matches: Seq<PlaneOpMatch>,
    dst: u64,
) -> (PlaneProgramming, Seq<PlaneColorOpProgramming>) {
    match pipeline {
        None => (PlaneProgramming { plane, pipeline: None }, Seq::empty()),
        Some(p) => (
            PlaneProgramming { plane, pipeline: Some(p) },
            matches.map_values(|m: PlaneOpMatch| spec_op_programming(m, dst)),
        ),
    }
}

fn op_programming(m: PlaneOpMatch, dst: u64) -> (r: PlaneColorOpProgramming)
    ensures
        r == spec_op_programming(m, dst),
{
    let base = PlaneColorOpProgramming {
        op: m.id,
        bypass: m.bypass,
        ty: None,
        interpolation: None,
        data: None,
        multiplier: None,
    };
    match m.ty {
        PlaneOpMatchType::Bypass => base,
        PlaneOpMatchType::Curve1d { ty } => PlaneColorOpProgramming { ty: Some(ty), ..base },
        PlaneOpMatchType::Lut1d {
            interpolation,
            blob_id,
            eotf,
            size,
            scale_for_dst_lut,
            input_is_scaled_for_dst_lut,
        } => {
            let key = Lut1dKey { dst, eotf, size, scale_for_dst_lut, input_is_scaled_for_dst_lut };
            PlaneColorOpProgramming {
                interpolation: Some(interpolation),
                data: Some((blob_id, BlobKey::Lut1d(key))),
                ..base
            }
        },
        PlaneOpMatchType::Lut3d { interpolation, blob_id, matrix, size } => {
            let key = Lut3dKey { matrix, size };
            PlaneColorOpProgramming {
                interpolation: Some(interpolation),
                data: Some((blob_id, BlobKey::Lut3d(key))),
                ..base
            }
        },
        PlaneOpMatchType::Matrix3x4 { blob_id, matrix } => {
            let key = MatrixKey { matrix };
            PlaneColorOpProgramming { data: Some((blob_id, BlobKey::Matrix(key))), ..base }
        },
        PlaneOpMatchType::Multiply { multiplier_id, multiplier } => PlaneColorOpProgramming {
            multiplier: Some((multiplier_id, multiplier)),
            ..base
        },
    }
}

/// How the plane and the operations of a match are programmed, with the
/// destination description (by its id): the plane's pipeline property, and
/// for each operation the properties to set and the key of the blob that
/// its data property is set to.
pub fn plane_programming_plan(
    plane: u32,
    pipeline: Option<(u32, u32)>,
    matches: &[PlaneOpMatch],
    dst: u64,
) -> (r: (PlaneProgramming, Vec<PlaneColorOpProgramming>))
    ensures
        r.0 == spec_plane_programming_plan(plane, pipeline, matches@, dst).0,
        r.1@ == spec_plane_programming_plan(plane, pipeline, matches@, dst).1,
{
    let p = match pipeline {
        None => {
            return (PlaneProgramming { plane, pipeline: None }, Vec::new());
        },
        Some(p) => p,
    };
    let mut res: Vec<PlaneColorOpProgramming> = Vec::new();
    let mut i: usize = 0;
    while i < matches.len()
        invariant
            i <= matches@.len(),
            res@.len() == i,
            forall|k: int| 0 <= k < i ==> #[trigger] res@[k] == spec_op_programming(matches@[k], dst),
        decreases matches@.len() - i,
    {
        res.push(op_programming(matches[i], dst));
        i += 1;
    }
    assert(res@ =~= matches@.map_values(|m: PlaneOpMatch| spec_op_programming(m, dst)));
    (PlaneProgramming { plane, pipeline: Some(p) }, res)
}

} // verus!
