//! The choice of a path for a color transformation: what the transformation
//! needs (its criteria), which paths both the plane's and the CRTC's
//! pipelines can realize, and which of those suit the transformation.

use vstd::prelude::*;
use super::metal_cm_paths::Criteria;
use super::metal_cm_paths::DstEotfCriterion;
use super::metal_cm_paths::Filter;
use super::metal_cm_paths::Path;
use super::metal_cm_paths::PlaneOpTarget;
use super::metal_cm_paths::SrcEotfCriterion;
use super::metal_cm_paths::spec_criteria_index;
use super::metal_cm_paths::BITS;
use super::metal_cm_paths::PATH_GAMMA_LUT_IS_RAW;
use super::metal_cm_paths::PATH_HAS_DST_CURVE;
use super::metal_cm_paths::PATH_HAS_GAMMA_LUT;
use super::metal_cm_paths::PATH_HAS_SRC_CURVE;
use super::metal_cm_paths::PATH_MATRIX_VIA_LUT;
use super::metal_cm_paths::PATH_SUPPORTS_MATRIX;

verus! {

/// The family of an EOTF, as far as the matcher tells them apart.
#[derive(Copy, Clone, Debug, PartialEq, Eq, Structural)]
pub enum EotfKind {
    Linear,
    St2084Pq,
    /// Gamma 2.2, also when written as a power of 2.2.
    Gamma22,
    CompoundPower24,
    Other,
}

/// An EOTF: an identifier that tells EOTFs apart, and its family.
#[derive(Copy, Clone, Debug, PartialEq, Eq, Structural)]
pub struct ColorEotf {
    pub id: u32,
    pub kind: EotfKind,
}

/// A fixed curve that a plane's 1D-curve operation can apply.
#[derive(Copy, Clone, Debug, PartialEq, Eq, Structural)]
pub enum ColorOpCurve1dType {
    SrgbEotf,
    SrgbInverseEotf,
    Pq125Eotf,
    Pq125InverseEotf,
    Bt2020InverseOetf,
    Bt2020Oetf,
    Gamma22,
    Gamma22Inverse,
}

pub open spec fn spec_curve_index(t: ColorOpCurve1dType) -> int {
    match t {
        ColorOpCurve1dType::SrgbEotf => 0,
        ColorOpCurve1dType::SrgbInverseEotf => 1,
        ColorOpCurve1dType::Pq125Eotf => 2,
        ColorOpCurve1dType::Pq125InverseEotf => 3,
        ColorOpCurve1dType::Bt2020InverseOetf => 4,
        ColorOpCurve1dType::Bt2020Oetf => 5,
        ColorOpCurve1dType::Gamma22 => 6,
        ColorOpCurve1dType::Gamma22Inverse => 7,
    }
}

impl ColorOpCurve1dType {
    /// The dense index of the curve type.
    pub fn index(self) -> (r: usize)
        ensures
            r == spec_curve_index(self),
            r < 8,
    {
        match self {
            ColorOpCurve1dType::SrgbEotf => 0,
            ColorOpCurve1dType::SrgbInverseEotf => 1,
            ColorOpCurve1dType::Pq125Eotf => 2,
            ColorOpCurve1dType::Pq125InverseEotf => 3,
            ColorOpCurve1dType::Bt2020InverseOetf => 4,
            ColorOpCurve1dType::Bt2020Oetf => 5,
            ColorOpCurve1dType::Gamma22 => 6,
            ColorOpCurve1dType::Gamma22Inverse => 7,
        }
    }
}

/// The fixed curve that applies the EOTF (for the source) or its inverse
/// (for the destination), where a plane curve exists for it.
pub open spec fn spec_plane_curve_type(eotf: EotfKind, target: PlaneOpTarget) -> Option<ColorOpCurve1dType> {
    match eotf {
        EotfKind::St2084Pq => match target {
            PlaneOpTarget::Src => Some(ColorOpCurve1dType::Pq125Eotf),
            PlaneOpTarget::Dst => Some(ColorOpCurve1dType::Pq125InverseEotf),
        },
        EotfKind::Gamma22 => match target {
            PlaneOpTarget::Src => Some(ColorOpCurve1dType::Gamma22),
            PlaneOpTarget::Dst => Some(ColorOpCurve1dType::Gamma22Inverse),
        },
        EotfKind::CompoundPower24 => match target {
            PlaneOpTarget::Src => Some(ColorOpCurve1dType::SrgbEotf),
            PlaneOpTarget::Dst => Some(ColorOpCurve1dType::SrgbInverseEotf),
        },
        _ => None,
    }
}

pub fn plane_curve_type(eotf: EotfKind, target: PlaneOpTarget) -> (r: Option<ColorOpCurve1dType>)
    ensures
        r == spec_plane_curve_type(eotf, target),
{
    match eotf {
        EotfKind::St2084Pq => match target {
            PlaneOpTarget::Src => Some(ColorOpCurve1dType::Pq125Eotf),
            PlaneOpTarget::Dst => Some(ColorOpCurve1dType::Pq125InverseEotf),
        },
        EotfKind::Gamma22 => match target {
            PlaneOpTarget::Src => Some(ColorOpCurve1dType::Gamma22),
            PlaneOpTarget::Dst => Some(ColorOpCurve1dType::Gamma22Inverse),
        },
        EotfKind::CompoundPower24 => match target {
            PlaneOpTarget::Src => Some(ColorOpCurve1dType::SrgbEotf),
            PlaneOpTarget::Dst => Some(ColorOpCurve1dType::SrgbInverseEotf),
        },
        _ => None,
    }
}

/// Whether a fixed curve decodes (takes encoded values to linear light):
/// an EOTF or an inverse OETF; the others encode.
pub open spec fn spec_curve_decodes(t: ColorOpCurve1dType) -> bool {
    match t {
        ColorOpCurve1dType::SrgbEotf | ColorOpCurve1dType::Pq125Eotf | ColorOpCurve1dType::Bt2020InverseOetf
        | ColorOpCurve1dType::Gamma22 => true,
        _ => false,
    }
}

/// The transfer function a fixed curve belongs to (decoding or encoding),
/// among those an EOTF can be; none for the BT.2020 OETF.
pub open spec fn spec_curve_family(t: ColorOpCurve1dType) -> Option<EotfKind> {
    match t {
        ColorOpCurve1dType::SrgbEotf | ColorOpCurve1dType::SrgbInverseEotf => Some(EotfKind::CompoundPower24),
        ColorOpCurve1dType::Pq125Eotf | ColorOpCurve1dType::Pq125InverseEotf => Some(EotfKind::St2084Pq),
        ColorOpCurve1dType::Gamma22 | ColorOpCurve1dType::Gamma22Inverse => Some(EotfKind::Gamma22),
        _ => None,
    }
}

/// The curve that undoes a fixed curve.
pub open spec fn spec_inverse_curve(t: ColorOpCurve1dType) -> ColorOpCurve1dType {
    match t {
        ColorOpCurve1dType::SrgbEotf => ColorOpCurve1dType::SrgbInverseEotf,
        ColorOpCurve1dType::SrgbInverseEotf => ColorOpCurve1dType::SrgbEotf,
        ColorOpCurve1dType::Pq125Eotf => ColorOpCurve1dType::Pq125InverseEotf,
        ColorOpCurve1dType::Pq125InverseEotf => ColorOpCurve1dType::Pq125Eotf,
        ColorOpCurve1dType::Bt2020InverseOetf => ColorOpCurve1dType::Bt2020Oetf,
        ColorOpCurve1dType::Bt2020Oetf => ColorOpCurve1dType::Bt2020InverseOetf,
        ColorOpCurve1dType::Gamma22 => ColorOpCurve1dType::Gamma22Inverse,
        ColorOpCurve1dType::Gamma22Inverse => ColorOpCurve1dType::Gamma22,
    }
}

/// The source of a transformation is decoded with its EOTF and the
/// destination encoded with the inverse: a plane curve exists for an EOTF
/// exactly when it is PQ, gamma 2.2 or the sRGB compound power, for both
/// sides alike; the source's curve is one of that EOTF that decodes, the
/// destination's one of that EOTF that encodes, and each undoes the other.
pub proof fn lemma_plane_curves_decode_then_encode(e: EotfKind)
    ensures
        ({
            let src = spec_plane_curve_type(e, PlaneOpTarget::Src);
            let dst = spec_plane_curve_type(e, PlaneOpTarget::Dst);
            &&& (src is Some <==> (e == EotfKind::St2084Pq || e == EotfKind::Gamma22 || e
                == EotfKind::CompoundPower24))
            &&& (dst is Some <==> src is Some)
            &&& (src matches Some(t) ==> spec_curve_decodes(t) && spec_curve_family(t) == Some(e))
            &&& (dst matches Some(t) ==> !spec_curve_decodes(t) && spec_curve_family(t) == Some(e))
            &&& (src matches Some(a) ==> dst == Some(spec_inverse_curve(a)))
        }),
{
}

/// What a transformation from `src` to `dst` needs: where a matrix is
/// needed or the EOTFs differ, each non-linear side needs its curve (scaled
/// for PQ, and the PQ destination's LUT input scaled too); a transformation
/// that needs neither a matrix nor a curve needs nothing.
pub open spec fn spec_criteria(needs_matrix: bool, src: ColorEotf, dst: ColorEotf) -> Criteria {
    let converts = needs_matrix || src.id != dst.id;
    let src_c = if converts && src.kind != EotfKind::Linear {
        SrcEotfCriterion::WithEotf { curve_needs_scale: src.kind == EotfKind::St2084Pq }
    } else {
        SrcEotfCriterion::NoEotf
    };
    let dst_c = if converts && dst.kind != EotfKind::Linear {
        DstEotfCriterion::WithEotf {
            curve_needs_scale: dst.kind == EotfKind::St2084Pq,
            scale_lut_input: dst.kind == EotfKind::St2084Pq,
        }
    } else {
        DstEotfCriterion::NoEotf
    };
    if !needs_matrix && src_c == SrcEotfCriterion::NoEotf && dst_c == DstEotfCriterion::NoEotf {
        Criteria::Nothing
    } else {
        Criteria::Needs { src_eotf: src_c, dst_eotf: dst_c }
    }
}

pub fn compute_criteria(needs_matrix: bool, src: ColorEotf, dst: ColorEotf) -> (r: Criteria)
    ensures
        r == spec_criteria(needs_matrix, src, dst),
{
    let converts = needs_matrix || src.id != dst.id;
    let needs_src = converts && src.kind != EotfKind::Linear;
    let needs_dst = converts && dst.kind != EotfKind::Linear;
    let src_c = if needs_src {
        SrcEotfCriterion::WithEotf { curve_needs_scale: src.kind == EotfKind::St2084Pq }
    } else {
        SrcEotfCriterion::NoEotf
    };
    let dst_c = if needs_dst {
        DstEotfCriterion::WithEotf {
            curve_needs_scale: dst.kind == EotfKind::St2084Pq,
            scale_lut_input: dst.kind == EotfKind::St2084Pq,
        }
    } else {
        DstEotfCriterion::NoEotf
    };
    if !needs_matrix && !needs_src && !needs_dst {
        Criteria::Nothing
    } else {
        Criteria::Needs { src_eotf: src_c, dst_eotf: dst_c }
    }
}

/// Proves that a transformation between equal EOTFs that needs no matrix
/// needs nothing, and that one that needs a matrix never needs nothing.
pub proof fn lemma_criteria_nothing(needs_matrix: bool, src: ColorEotf, dst: ColorEotf)
    ensures
        !needs_matrix && src.id == dst.id ==> spec_criteria(needs_matrix, src, dst) == Criteria::Nothing,
        needs_matrix ==> spec_criteria(needs_matrix, src, dst) != Criteria::Nothing,
{
}

/// Whether path `i` of the criteria is in the filter.
pub open spec fn spec_in_filter(f: &Filter, c: Criteria, i: int) -> bool {
    f.spec_contains(spec_criteria_index(c), i)
}

/// The indices of the first `n` paths of the criteria that both the plane's
/// and the CRTC's pipelines can realize, in order.
pub fn viable_paths(plane_filter: &Filter, crtc_filter: &Filter, criteria: Criteria, n: usize) -> (r: Vec<usize>)
    requires
        plane_filter.wf(),
        crtc_filter.wf(),
        n == 0 || (n - 1) / (BITS as int) < plane_filter.filter@[spec_criteria_index(criteria)]@.len(),
        n == 0 || (n - 1) / (BITS as int) < crtc_filter.filter@[spec_criteria_index(criteria)]@.len(),
    ensures
        r@ == Seq::new(n as nat, |i: int| i as usize).filter(
            |i: usize| spec_in_filter(plane_filter, criteria, i as int) && spec_in_filter(crtc_filter, criteria, i as int),
        ),
{
    let ghost all = Seq::new(n as nat, |i: int| i as usize);
    let ghost p = |i: usize| spec_in_filter(plane_filter, criteria, i as int) && spec_in_filter(crtc_filter, criteria, i as int);
    let mut res: Vec<usize> = Vec::new();
    let mut i: usize = 0;
    while i < n
        invariant
            i <= n,
            plane_filter.wf(),
            crtc_filter.wf(),
            n == 0 || (n - 1) / (BITS as int) < plane_filter.filter@[spec_criteria_index(criteria)]@.len(),
            n == 0 || (n - 1) / (BITS as int) < crtc_filter.filter@[spec_criteria_index(criteria)]@.len(),
            all == Seq::new(n as nat, |i: int| i as usize),
            p == (|i: usize| spec_in_filter(plane_filter, criteria, i as int) && spec_in_filter(crtc_filter, criteria, i as int)),
            res@ == all.take(i as int).filter(p),
        decreases n - i,
    {
        proof {
            reveal(Seq::filter);
            assert(all.take(i + 1).drop_last() =~= all.take(i as int));
            assert(all.take(i + 1).last() == i);
            assert((i as int) / 64 <= (n - 1) / 64) by (nonlinear_arith)
                requires
                    i < n,
            ;
        }
        if plane_filter.contains(criteria, i) && crtc_filter.contains(criteria, i) {
            res.push(i);
        }
        i += 1;
    }
    assert(all.take(n as int) =~= all);
    res
}

/// What a transformation asks of the paths, besides their pipelines.
#[derive(Copy, Clone, Debug, PartialEq, Eq, Structural)]
pub struct PathRequirements {
    /// The curve type of each side, where a plane curve exists for it.
    pub src_curve: Option<ColorOpCurve1dType>,
    pub dst_curve: Option<ColorOpCurve1dType>,
    pub needs_matrix: bool,
    /// Whether the source's target color volume lies within its primaries
    /// (a matrix realized through a LUT needs that).
    pub target_contained_in_primary: bool,
    pub has_cursor_plane: bool,
    /// Whether a client gamma LUT is to be applied.
    pub needs_gamma_lut: bool,
}

/// Whether the side's curve, where the path applies one with the plane, is
/// a curve the plane supports.
pub open spec fn spec_curve_ok(path: Path, flag: u8, curve: Option<ColorOpCurve1dType>, supported: Seq<bool>) -> bool {
    path.flags & flag == flag ==> match curve {
        Some(t) => supported[spec_curve_index(t)],
        None => false,
    }
}

/// Whether the path suits the transformation: its plane curves exist and
/// are supported, it supports a matrix where one is needed, it realizes a
/// matrix through a LUT only where the source allows it, and it has a gamma
/// LUT exactly where one is needed, a raw one where a cursor plane exists.
pub open spec fn spec_path_suits(path: Path, req: PathRequirements, supported: Seq<bool>) -> bool {
    &&& spec_curve_ok(path, PATH_HAS_SRC_CURVE, req.src_curve, supported)
    &&& spec_curve_ok(path, PATH_HAS_DST_CURVE, req.dst_curve, supported)
    &&& !(path.flags & PATH_SUPPORTS_MATRIX != PATH_SUPPORTS_MATRIX && req.needs_matrix)
    &&& !(path.flags & PATH_MATRIX_VIA_LUT == PATH_MATRIX_VIA_LUT && !req.target_contained_in_primary)
    &&& if path.flags & PATH_HAS_GAMMA_LUT == PATH_HAS_GAMMA_LUT {
        !(path.flags & PATH_GAMMA_LUT_IS_RAW != PATH_GAMMA_LUT_IS_RAW && req.has_cursor_plane)
    } else {
        !req.needs_gamma_lut
    }
}

fn curve_ok(path: Path, flag: u8, curve: Option<ColorOpCurve1dType>, supported: &[bool]) -> (r: bool)
    requires
        supported@.len() == 8,
    ensures
        r == spec_curve_ok(path, flag, curve, supported@),
{
    if path.has_flag(flag) {
        match curve {
            Some(t) => supported[t.index()],
            None => false,
        }
    } else {
        true
    }
}

/// Whether the path suits the transformation; `supported` says, by curve
/// type index, which curves the plane supports.
pub fn path_suits(path: Path, req: PathRequirements, supported: &[bool]) -> (r: bool)
    requires
        supported@.len() == 8,
    ensures
        r == spec_path_suits(path, req, supported@),
{
    if !curve_ok(path, PATH_HAS_SRC_CURVE, req.src_curve, supported) {
        return false;
    }
    if !curve_ok(path, PATH_HAS_DST_CURVE, req.dst_curve, supported) {
        return false;
    }
    if !path.has_flag(PATH_SUPPORTS_MATRIX) && req.needs_matrix {
        return false;
    }
    if path.has_flag(PATH_MATRIX_VIA_LUT) && !req.target_contained_in_primary {
        return false;
    }
    if path.has_flag(PATH_HAS_GAMMA_LUT) {
        if !path.has_flag(PATH_GAMMA_LUT_IS_RAW) && req.has_cursor_plane {
            return false;
        }
    } else {
        if req.needs_gamma_lut {
            return false;
        }
    }
    true
}

/// Whether a path whose plane part has `plane_path_len` steps may be used:
/// without plane color pipelines only paths without plane steps can.
pub fn plane_path_allowed(plane_path_len: usize, use_plane_color_pipelines: bool) -> (r: bool)
    ensures
        r == (use_plane_color_pipelines || plane_path_len == 0),
{
    use_plane_color_pipelines || plane_path_len == 0
}

/// Whether the path may be tried: it suits the transformation and its plane
/// part may be used.
pub open spec fn spec_candidate_path(path: Path, req: PathRequirements, supported: Seq<bool>, use_plane: bool) -> bool {
    spec_path_suits(path, req, supported) && (use_plane || path.pl_len == 0)
}

/// The viable paths that are tried, in order, against the plane's and the
/// CRTC's pipelines: those that suit the transformation and whose plane
/// part may be used.
pub fn candidate_paths(
    viable: &[usize],
    paths: &[Path],
    req: PathRequirements,
    supported: &[bool],
    use_plane_color_pipelines: bool,
) -> (r: Vec<usize>)
    requires
        supported@.len() == 8,
        forall|k: int| 0 <= k < viable@.len() ==> (#[trigger] viable@[k] as int) < paths@.len(),
    ensures
        r@ == viable@.filter(
            |i: usize| spec_candidate_path(paths@[i as int], req, supported@, use_plane_color_pipelines),
        ),
{
    let ghost p = |i: usize| spec_candidate_path(paths@[i as int], req, supported@, use_plane_color_pipelines);
    let mut res: Vec<usize> = Vec::new();
    let mut k: usize = 0;
    while k < viable.len()
        invariant
            k <= viable@.len(),
            supported@.len() == 8,
            forall|q: int| 0 <= q < viable@.len() ==> (#[trigger] viable@[q] as int) < paths@.len(),
            p == (|i: usize| spec_candidate_path(paths@[i as int], req, supported@, use_plane_color_pipelines)),
            res@ == viable@.take(k as int).filter(p),
        decreases viable@.len() - k,
    {
        let idx = viable[k];
        proof {
            reveal(Seq::filter);
            assert(viable@.take(k + 1).drop_last() =~= viable@.take(k as int));
            assert(viable@.take(k + 1).last() == idx);
        }
        let path = paths[idx];
        if path_suits(path, req, supported) && plane_path_allowed(path.pl_len as usize, use_plane_color_pipelines) {
            res.push(idx);
        }
        k += 1;
    }
    assert(viable@.take(viable@.len() as int) =~= viable@);
    res
}

} // verus!
