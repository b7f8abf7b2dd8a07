//! The color pipelines of a plane, read from the device's color
//! operations: each pipeline is a chain of operations linked by their
//! `NEXT` property; an operation has a type (a 1D curve, a 1D or 3D LUT, a
//! 3x4 matrix or a multiplier) and may be bypassable. The plane's filter is
//! what the plane matchers find for its pipelines.

use vstd::prelude::*;
use crate::backends::metal::video::drm_props::bytes_eq;
use crate::backends::metal::video::drm_props::DrmPropertyType;
use crate::backends::metal::video::drm_props::PropertyDefinition;
use super::metal_cm_crtc::MIN_LUT_SIZE;
use super::metal_cm_paths::create_filter;
use super::metal_cm_paths::Filter;
use super::metal_cm_paths::MatcherImpl;
use super::metal_cm_paths::PlaneOpName;
use super::metal_cm_paths::NUM_CRITERIA;
use super::metal_cm_paths::NUM_PLANE_OP_NAMES;
use super::metal_cm_paths::spec_words;

verus! {

/// `NEXT`.
pub open spec fn spec_name_next() -> Seq<u8> {
    seq![78u8, 69, 88, 84]
}

fn name_next() -> (r: Vec<u8>)
    ensures
        r@ == spec_name_next(),
{
    let r: Vec<u8> = vec![78u8, 69, 88, 84];
    assert(r@ =~= spec_name_next());
    r
}

/// `BYPASS`.
pub open spec fn spec_name_bypass() -> Seq<u8> {
    seq![66u8, 89, 80, 65, 83, 83]
}

fn name_bypass() -> (r: Vec<u8>)
    ensures
        r@ == spec_name_bypass(),
{
    let r: Vec<u8> = vec![66u8, 89, 80, 65, 83, 83];
    assert(r@ =~= spec_name_bypass());
    r
}

/// `TYPE`.
pub open spec fn spec_name_type() -> Seq<u8> {
    seq![84u8, 89, 80, 69]
}

fn name_type() -> (r: Vec<u8>)
    ensures
        r@ == spec_name_type(),
{
    let r: Vec<u8> = vec![84u8, 89, 80, 69];
    assert(r@ =~= spec_name_type());
    r
}

/// `CURVE_1D_TYPE`.
pub open spec fn spec_name_curve_1d_type() -> Seq<u8> {
    seq![67u8, 85, 82, 86, 69, 95, 49, 68, 95, 84, 89, 80, 69]
}

fn name_curve_1d_type() -> (r: Vec<u8>)
    ensures
        r@ == spec_name_curve_1d_type(),
{
    let r: Vec<u8> = vec![67u8, 85, 82, 86, 69, 95, 49, 68, 95, 84, 89, 80, 69];
    assert(r@ =~= spec_name_curve_1d_type());
    r
}

/// `LUT1D_INTERPOLATION`.
pub open spec fn spec_name_lut1d_interpolation() -> Seq<u8> {
    seq![76u8, 85, 84, 49, 68, 95, 73, 78, 84, 69, 82, 80, 79, 76, 65, 84, 73, 79, 78]
}

fn name_lut1d_interpolation() -> (r: Vec<u8>)
    ensures
        r@ == spec_name_lut1d_interpolation(),
{
    let r: Vec<u8> = vec![76u8, 85, 84, 49, 68, 95, 73, 78, 84, 69, 82, 80, 79, 76, 65, 84, 73, 79, 78];
    assert(r@ =~= spec_name_lut1d_interpolation());
    r
}

/// `SIZE`.
pub open spec fn spec_name_size() -> Seq<u8> {
    seq![83u8, 73, 90, 69]
}

fn name_size() -> (r: Vec<u8>)
    ensures
        r@ == spec_name_size(),
{
    let r: Vec<u8> = vec![83u8, 73, 90, 69];
    assert(r@ =~= spec_name_size());
    r
}

/// `DATA`.
pub open spec fn spec_name_data() -> Seq<u8> {
    seq![68u8, 65, 84, 65]
}

fn name_data() -> (r: Vec<u8>)
    ensures
        r@ == spec_name_data(),
{
    let r: Vec<u8> = vec![68u8, 65, 84, 65];
    assert(r@ =~= spec_name_data());
    r
}

/// `MULTIPLIER`.
pub open spec fn spec_name_multiplier() -> Seq<u8> {
    seq![77u8, 85, 76, 84, 73, 80, 76, 73, 69, 82]
}

fn name_multiplier() -> (r: Vec<u8>)
    ensures
        r@ == spec_name_multiplier(),
{
    let r: Vec<u8> = vec![77u8, 85, 76, 84, 73, 80, 76, 73, 69, 82];
    assert(r@ =~= spec_name_multiplier());
    r
}

/// `LUT3D_INTERPOLATION`.
pub open spec fn spec_name_lut3d_interpolation() -> Seq<u8> {
    seq![76u8, 85, 84, 51, 68, 95, 73, 78, 84, 69, 82, 80, 79, 76, 65, 84, 73, 79, 78]
}

fn name_lut3d_interpolation() -> (r: Vec<u8>)
    ensures
        r@ == spec_name_lut3d_interpolation(),
{
    let r: Vec<u8> = vec![76u8, 85, 84, 51, 68, 95, 73, 78, 84, 69, 82, 80, 79, 76, 65, 84, 73, 79, 78];
    assert(r@ =~= spec_name_lut3d_interpolation());
    r
}

/// `1D Curve`.
pub open spec fn spec_name_ty_curve_1d() -> Seq<u8> {
    seq![49u8, 68, 32, 67, 117, 114, 118, 101]
}

fn name_ty_curve_1d() -> (r: Vec<u8>)
    ensures
        r@ == spec_name_ty_curve_1d(),
{
    let r: Vec<u8> = vec![49u8, 68, 32, 67, 117, 114, 118, 101];
    assert(r@ =~= spec_name_ty_curve_1d());
    r
}

/// `1D LUT`.
pub open spec fn spec_name_ty_lut_1d() -> Seq<u8> {
    seq![49u8, 68, 32, 76, 85, 84]
}

fn name_ty_lut_1d() -> (r: Vec<u8>)
    ensures
        r@ == spec_name_ty_lut_1d(),
{
    let r: Vec<u8> = vec![49u8, 68, 32, 76, 85, 84];
    assert(r@ =~= spec_name_ty_lut_1d());
    r
}

/// `3x4 Matrix`.
pub open spec fn spec_name_ty_matrix_3x4() -> Seq<u8> {
    seq![51u8, 120, 52, 32, 77, 97, 116, 114, 105, 120]
}

fn name_ty_matrix_3x4() -> (r: Vec<u8>)
    ensures
        r@ == spec_name_ty_matrix_3x4(),
{
    let r: Vec<u8> = vec![51u8, 120, 52, 32, 77, 97, 116, 114, 105, 120];
    assert(r@ =~= spec_name_ty_matrix_3x4());
    r
}

/// `Multiplier`.
pub open spec fn spec_name_ty_multiplier() -> Seq<u8> {
    seq![77u8, 117, 108, 116, 105, 112, 108, 105, 101, 114]
}

fn name_ty_multiplier() -> (r: Vec<u8>)
    ensures
        r@ == spec_name_ty_multiplier(),
{
    let r: Vec<u8> = vec![77u8, 117, 108, 116, 105, 112, 108, 105, 101, 114];
    assert(r@ =~= spec_name_ty_multiplier());
    r
}

/// `3D LUT`.
pub open spec fn spec_name_ty_lut_3d() -> Seq<u8> {
    seq![51u8, 68, 32, 76, 85, 84]
}

fn name_ty_lut_3d() -> (r: Vec<u8>)
    ensures
        r@ == spec_name_ty_lut_3d(),
{
    let r: Vec<u8> = vec![51u8, 68, 32, 76, 85, 84];
    assert(r@ =~= spec_name_ty_lut_3d());
    r
}

/// `Linear`.
pub open spec fn spec_name_linear() -> Seq<u8> {
    seq![76u8, 105, 110, 101, 97, 114]
}

fn name_linear() -> (r: Vec<u8>)
    ensures
        r@ == spec_name_linear(),
{
    let r: Vec<u8> = vec![76u8, 105, 110, 101, 97, 114];
    assert(r@ =~= spec_name_linear());
    r
}

/// `Tetrahedral`.
pub open spec fn spec_name_tetrahedral() -> Seq<u8> {
    seq![84u8, 101, 116, 114, 97, 104, 101, 100, 114, 97, 108]
}

fn name_tetrahedral() -> (r: Vec<u8>)
    ensures
        r@ == spec_name_tetrahedral(),
{
    let r: Vec<u8> = vec![84u8, 101, 116, 114, 97, 104, 101, 100, 114, 97, 108];
    assert(r@ =~= spec_name_tetrahedral());
    r
}

/// `sRGB EOTF`.
pub open spec fn spec_name_srgb_eotf() -> Seq<u8> {
    seq![115u8, 82, 71, 66, 32, 69, 79, 84, 70]
}

fn name_srgb_eotf() -> (r: Vec<u8>)
    ensures
        r@ == spec_name_srgb_eotf(),
{
    let r: Vec<u8> = vec![115u8, 82, 71, 66, 32, 69, 79, 84, 70];
    assert(r@ =~= spec_name_srgb_eotf());
    r
}

/// `sRGB Inverse EOTF`.
pub open spec fn spec_name_srgb_inverse_eotf() -> Seq<u8> {
    seq![115u8, 82, 71, 66, 32, 73, 110, 118, 101, 114, 115, 101, 32, 69, 79, 84, 70]
}

fn name_srgb_inverse_eotf() -> (r: Vec<u8>)
    ensures
        r@ == spec_name_srgb_inverse_eotf(),
{
    let r: Vec<u8> = vec![115u8, 82, 71, 66, 32, 73, 110, 118, 101, 114, 115, 101, 32, 69, 79, 84, 70];
    assert(r@ =~= spec_name_srgb_inverse_eotf());
    r
}

/// `PQ 125 EOTF`.
pub open spec fn spec_name_pq125_eotf() -> Seq<u8> {
    seq![80u8, 81, 32, 49, 50, 53, 32, 69, 79, 84, 70]
}

fn name_pq125_eotf() -> (r: Vec<u8>)
    ensures
        r@ == spec_name_pq125_eotf(),
{
    let r: Vec<u8> = vec![80u8, 81, 32, 49, 50, 53, 32, 69, 79, 84, 70];
    assert(r@ =~= spec_name_pq125_eotf());
    r
}

/// `PQ 125 Inverse EOTF`.
pub open spec fn spec_name_pq125_inverse_eotf() -> Seq<u8> {
    seq![80u8, 81, 32, 49, 50, 53, 32, 73, 110, 118, 101, 114, 115, 101, 32, 69, 79, 84, 70]
}

fn name_pq125_inverse_eotf() -> (r: Vec<u8>)
    ensures
        r@ == spec_name_pq125_inverse_eotf(),
{
    let r: Vec<u8> = vec![80u8, 81, 32, 49, 50, 53, 32, 73, 110, 118, 101, 114, 115, 101, 32, 69, 79, 84, 70];
    assert(r@ =~= spec_name_pq125_inverse_eotf());
    r
}

/// `BT.2020 Inverse OETF`.
pub open spec fn spec_name_bt2020_inverse_oetf() -> Seq<u8> {
    seq![66u8, 84, 46, 50, 48, 50, 48, 32, 73, 110, 118, 101, 114, 115, 101, 32, 79, 69, 84, 70]
}

fn name_bt2020_inverse_oetf() -> (r: Vec<u8>)
    ensures
        r@ == spec_name_bt2020_inverse_oetf(),
{
    let r: Vec<u8> = vec![66u8, 84, 46, 50, 48, 50, 48, 32, 73, 110, 118, 101, 114, 115, 101, 32, 79, 69, 84, 70];
    assert(r@ =~= spec_name_bt2020_inverse_oetf());
    r
}

/// `BT.2020 OETF`.
pub open spec fn spec_name_bt2020_oetf() -> Seq<u8> {
    seq![66u8, 84, 46, 50, 48, 50, 48, 32, 79, 69, 84, 70]
}

fn name_bt2020_oetf() -> (r: Vec<u8>)
    ensures
        r@ == spec_name_bt2020_oetf(),
{
    let r: Vec<u8> = vec![66u8, 84, 46, 50, 48, 50, 48, 32, 79, 69, 84, 70];
    assert(r@ =~= spec_name_bt2020_oetf());
    r
}

/// `Gamma 2.2`.
pub open spec fn spec_name_gamma22() -> Seq<u8> {
    seq![71u8, 97, 109, 109, 97, 32, 50, 46, 50]
}

fn name_gamma22() -> (r: Vec<u8>)
    ensures
        r@ == spec_name_gamma22(),
{
    let r: Vec<u8> = vec![71u8, 97, 109, 109, 97, 32, 50, 46, 50];
    assert(r@ =~= spec_name_gamma22());
    r
}

/// `Gamma 2.2 Inverse`.
pub open spec fn spec_name_gamma22_inverse() -> Seq<u8> {
    seq![71u8, 97, 109, 109, 97, 32, 50, 46, 50, 32, 73, 110, 118, 101, 114, 115, 101]
}

fn name_gamma22_inverse() -> (r: Vec<u8>)
    ensures
        r@ == spec_name_gamma22_inverse(),
{
    let r: Vec<u8> = vec![71u8, 97, 109, 109, 97, 32, 50, 46, 50, 32, 73, 110, 118, 101, 114, 115, 101];
    assert(r@ =~= spec_name_gamma22_inverse());
    r
}

/// A property of a color operation as read from the device.
#[derive(Clone, Debug)]
pub struct OpProperty {
    pub name: Vec<u8>,
    pub def: PropertyDefinition,
    pub value: u64,
}

/// The properties of an object have distinct names.
pub open spec fn spec_names_distinct(props: Seq<OpProperty>) -> bool {
    forall|a: int, b: int| 0 <= a < b < props.len() ==> props[a].name@ != props[b].name@
}

/// Whether the object has a property of the name.
pub open spec fn spec_has(props: Seq<OpProperty>, name: Seq<u8>) -> bool {
    exists|i: int| 0 <= i < props.len() && (#[trigger] props[i]).name@ == name
}

/// The property of the name.
pub open spec fn spec_prop(props: Seq<OpProperty>, name: Seq<u8>) -> OpProperty {
    props[choose|i: int| 0 <= i < props.len() && (#[trigger] props[i]).name@ == name]
}

fn find_prop(props: &[OpProperty], name: &[u8]) -> (r: Option<usize>)
    requires
        spec_names_distinct(props@),
    ensures
        match r {
            Some(i) => i < props@.len() && props@[i as int].name@ == name@ && spec_has(props@, name@) && props@[i as int]
                == spec_prop(props@, name@),
            None => !spec_has(props@, name@),
        },
{
    let mut i: usize = 0;
    while i < props.len()
        invariant
            i <= props@.len(),
            spec_names_distinct(props@),
            forall|k: int| 0 <= k < i ==> props@[k].name@ != name@,
        decreases props@.len() - i,
    {
        if bytes_eq(props[i].name.as_slice(), name) {
            proof {
                assert(props@[i as int].name@ == name@);
                let j = choose|j: int| 0 <= j < props@.len() && (#[trigger] props@[j]).name@ == name@;
                if j != i as int {
                    if j < i {
                        assert(props@[j].name@ != props@[i as int].name@);
                    } else {
                        assert(props@[i as int].name@ != props@[j].name@);
                    }
                }
            }
            return Some(i);
        }
        i += 1;
    }
    None
}

/// The kinds of color operations.
#[derive(Copy, Clone, Debug, PartialEq, Eq, Structural)]
pub enum OpKind {
    Curve1d,
    Lut1d,
    Matrix3x4,
    Multiplier,
    Lut3d,
}

/// The properties an operation needs, by its kind.
#[derive(Copy, Clone, Debug, PartialEq, Eq, Structural)]
pub enum OpPropName {
    Curve1dType,
    Lut1dInterpolation,
    Size,
    Data,
    Multiplier,
    Lut3dInterpolation,
}

pub open spec fn spec_prop_name(n: OpPropName) -> Seq<u8> {
    match n {
        OpPropName::Curve1dType => spec_name_curve_1d_type(),
        OpPropName::Lut1dInterpolation => spec_name_lut1d_interpolation(),
        OpPropName::Size => spec_name_size(),
        OpPropName::Data => spec_name_data(),
        OpPropName::Multiplier => spec_name_multiplier(),
        OpPropName::Lut3dInterpolation => spec_name_lut3d_interpolation(),
    }
}

fn prop_name(n: OpPropName) -> (r: Vec<u8>)
    ensures
        r@ == spec_prop_name(n),
{
    match n {
        OpPropName::Curve1dType => name_curve_1d_type(),
        OpPropName::Lut1dInterpolation => name_lut1d_interpolation(),
        OpPropName::Size => name_size(),
        OpPropName::Data => name_data(),
        OpPropName::Multiplier => name_multiplier(),
        OpPropName::Lut3dInterpolation => name_lut3d_interpolation(),
    }
}

/// Why a pipeline could not be read; where the device failed, its message
/// is carried.
#[derive(Clone, Debug, PartialEq, Eq)]
pub enum ColorPipelineError {
    DrmError(String),
    NoNext,
    NoType,
    UnknownType(Vec<u8>),
    MissingProperty(OpKind, OpPropName),
    PropertyNotEnum(OpKind, OpPropName),
}

/// The property an operation of the kind needs: its definition id and
/// value, or the error that it is missing.
pub open spec fn spec_get_prop(props: Seq<OpProperty>, kind: OpKind, name: OpPropName) -> Result<
    (u32, u64),
    ColorPipelineError,
> {
    if spec_has(props, spec_prop_name(name)) {
        let p = spec_prop(props, spec_prop_name(name));
        Ok((p.def.id, p.value))
    } else {
        Err(ColorPipelineError::MissingProperty(kind, name))
    }
}

/// The enum property an operation of the kind needs: its definition id and
/// members, or the error that it is missing or not an enum.
pub open spec fn spec_get_enum(props: Seq<OpProperty>, kind: OpKind, name: OpPropName) -> Result<
    (u32, Seq<(Vec<u8>, u64)>),
    ColorPipelineError,
> {
    if spec_has(props, spec_prop_name(name)) {
        let p = spec_prop(props, spec_prop_name(name));
        match p.def.ty {
            DrmPropertyType::Enum { values, .. } => Ok((p.def.id, values@)),
            _ => Err(ColorPipelineError::PropertyNotEnum(kind, name)),
        }
    } else {
        Err(ColorPipelineError::MissingProperty(kind, name))
    }
}

fn get_prop(props: &[OpProperty], kind: OpKind, name: OpPropName) -> (r: Result<(u32, u64), ColorPipelineError>)
    requires
        spec_names_distinct(props@),
    ensures
        r == spec_get_prop(props@, kind, name),
{
    let n = prop_name(name);
    match find_prop(props, n.as_slice()) {
        Some(i) => Ok((props[i].def.id, props[i].value)),
        None => Err(ColorPipelineError::MissingProperty(kind, name)),
    }
}

fn get_enum<'a>(props: &'a [OpProperty], kind: OpKind, name: OpPropName) -> (r: Result<
    (u32, &'a Vec<(Vec<u8>, u64)>),
    ColorPipelineError,
>)
    requires
        spec_names_distinct(props@),
    ensures
        match spec_get_enum(props@, kind, name) {
            Ok((id, values)) => r matches Ok((id2, v)) && id2 == id && v@ == values,
            Err(e) => r == Err::<(u32, &Vec<(Vec<u8>, u64)>), ColorPipelineError>(e),
        },
{
    let n = prop_name(name);
    match find_prop(props, n.as_slice()) {
        Some(i) => match &props[i].def.ty {
            DrmPropertyType::Enum { values, .. } => Ok((props[i].def.id, values)),
            _ => Err(ColorPipelineError::PropertyNotEnum(kind, name)),
        },
        None => Err(ColorPipelineError::MissingProperty(kind, name)),
    }
}

/// The curve type (by its index) that a member of `CURVE_1D_TYPE` names.
pub open spec fn spec_curve_of(name: Seq<u8>) -> Option<int> {
    if name == spec_name_srgb_eotf() {
        Some(0int)
    } else if name == spec_name_srgb_inverse_eotf() {
        Some(1int)
    } else if name == spec_name_pq125_eotf() {
        Some(2int)
    } else if name == spec_name_pq125_inverse_eotf() {
        Some(3int)
    } else if name == spec_name_bt2020_inverse_oetf() {
        Some(4int)
    } else if name == spec_name_bt2020_oetf() {
        Some(5int)
    } else if name == spec_name_gamma22() {
        Some(6int)
    } else if name == spec_name_gamma22_inverse() {
        Some(7int)
    } else {
        None
    }
}

fn curve_of(name: &[u8]) -> (r: Option<usize>)
    ensures
        match r {
            Some(i) => spec_curve_of(name@) == Some(i as int) && i < 8,
            None => spec_curve_of(name@) is None,
        },
{
    let n = name_srgb_eotf();
    if bytes_eq(name, n.as_slice()) {
        return Some(0);
    }
    let n = name_srgb_inverse_eotf();
    if bytes_eq(name, n.as_slice()) {
        return Some(1);
    }
    let n = name_pq125_eotf();
    if bytes_eq(name, n.as_slice()) {
        return Some(2);
    }
    let n = name_pq125_inverse_eotf();
    if bytes_eq(name, n.as_slice()) {
        return Some(3);
    }
    let n = name_bt2020_inverse_oetf();
    if bytes_eq(name, n.as_slice()) {
        return Some(4);
    }
    let n = name_bt2020_oetf();
    if bytes_eq(name, n.as_slice()) {
        return Some(5);
    }
    let n = name_gamma22();
    if bytes_eq(name, n.as_slice()) {
        return Some(6);
    }
    let n = name_gamma22_inverse();
    if bytes_eq(name, n.as_slice()) {
        return Some(7);
    }
    None
}

/// For each curve type, the value of the last member that names it.
pub open spec fn spec_curve_types(values: Seq<(Vec<u8>, u64)>) -> Seq<Option<u64>>
    decreases values.len(),
{
    if values.len() == 0 {
        Seq::new(8, |i: int| None)
    } else {
        let prev = spec_curve_types(values.drop_last());
        match spec_curve_of(values.last().0@) {
            Some(t) => prev.update(t, Some(values.last().1)),
            None => prev,
        }
    }
}

proof fn lemma_curve_types_len(values: Seq<(Vec<u8>, u64)>)
    ensures
        spec_curve_types(values).len() == 8,
    decreases values.len(),
{
    if values.len() > 0 {
        lemma_curve_types_len(values.drop_last());
    }
}

/// The curve types supported after a `CURVE_1D_TYPE` with the members was
/// read: those supported before and those the members name.
pub open spec fn spec_supported(old: Seq<bool>, values: Seq<(Vec<u8>, u64)>) -> Seq<bool> {
    Seq::new(8, |i: int| old[i] || spec_curve_types(values)[i] is Some)
}

/// The value of the last member with the name.
pub open spec fn spec_last_named(values: Seq<(Vec<u8>, u64)>, name: Seq<u8>) -> Option<u64>
    decreases values.len(),
{
    if values.len() == 0 {
        None
    } else if values.last().0@ == name {
        Some(values.last().1)
    } else {
        spec_last_named(values.drop_last(), name)
    }
}

fn last_named(values: &Vec<(Vec<u8>, u64)>, name: &[u8]) -> (r: Option<u64>)
    ensures
        r == spec_last_named(values@, name@),
{
    let mut r: Option<u64> = None;
    let mut k: usize = 0;
    while k < values.len()
        invariant
            k <= values@.len(),
            r == spec_last_named(values@.take(k as int), name@),
        decreases values@.len() - k,
    {
        proof {
            assert(values@.take(k + 1).drop_last() =~= values@.take(k as int));
            assert(values@.take(k + 1).last() == values@[k as int]);
        }
        if bytes_eq(values[k].0.as_slice(), name) {
            r = Some(values[k].1);
        }
        k += 1;
    }
    assert(values@.take(values@.len() as int) =~= values@);
    r
}

fn curve_types(supported: &mut Vec<bool>, values: &Vec<(Vec<u8>, u64)>) -> (r: Vec<Option<u64>>)
    requires
        old(supported)@.len() == 8,
    ensures
        r@ == spec_curve_types(values@),
        final(supported)@ == spec_supported(old(supported)@, values@),
{
    let mut types: Vec<Option<u64>> = Vec::new();
    let mut i: usize = 0;
    while i < 8
        invariant
            i <= 8,
            types@ == Seq::new(i as nat, |j: int| None::<u64>),
        decreases 8 - i,
    {
        types.push(None);
        i += 1;
        assert(types@ =~= Seq::new(i as nat, |j: int| None::<u64>));
    }
    assert(spec_curve_types(values@.take(0)) == Seq::new(8, |j: int| None::<u64>));
    assert(old(supported)@ =~= spec_supported(old(supported)@, values@.take(0)));
    let mut k: usize = 0;
    while k < values.len()
        invariant
            k <= values@.len(),
            old(supported)@.len() == 8,
            types@ == spec_curve_types(values@.take(k as int)),
            types@.len() == 8,
            supported@ == spec_supported(old(supported)@, values@.take(k as int)),
        decreases values@.len() - k,
    {
        proof {
            assert(values@.take(k + 1).drop_last() =~= values@.take(k as int));
            assert(values@.take(k + 1).last() == values@[k as int]);
            lemma_curve_types_len(values@.take(k + 1));
        }
        match curve_of(values[k].0.as_slice()) {
            Some(t) => {
                supported.set(t, true);
                types.set(t, Some(values[k].1));
            },
            None => {},
        }
        proof {
            assert(supported@ =~= spec_supported(old(supported)@, values@.take(k + 1)));
        }
        k += 1;
    }
    assert(values@.take(values@.len() as int) =~= values@);
    types
}

/// The type of a color operation.
#[derive(Clone, Debug)]
pub enum ColorOpType {
    /// A fixed curve: for each curve type, the value that selects it where
    /// the operation has it; the id of the property that selects it.
    Curve1d { types: Vec<Option<u64>>, ty: u32 },
    /// A 1D LUT: the value of linear interpolation where offered, the
    /// interpolation property, the size, and the data property.
    Lut1d { linear: Option<u64>, interpolation: u32, size: u64, data: u32 },
    /// A 1D LUT too small to be used.
    Lut1dToSmall,
    /// A 1D LUT not precise enough to be used.
    Lut1dLowPrecision,
    Matrix3x4 { data: u32 },
    Multiplier { multiplier: u32 },
    /// A 3D LUT: the value of tetrahedral interpolation where offered, the
    /// interpolation property, the size, and the data property.
    Lut3d { tetrahedral: Option<u64>, interpolation: u32, size: u64, data: u32 },
    /// An operation of an unknown type (its name, where it has one); only a
    /// bypassable operation can be.
    Unknown(Option<Vec<u8>>),
}

/// What the device's vendor and the environment decide about LUTs.
#[derive(Copy, Clone, Debug, PartialEq, Eq, Structural)]
pub struct LutQuirks {
    pub is_amd: bool,
    pub is_nvidia: bool,
    /// Whether the first 1D LUT of an AMD pipeline is used.
    pub amd_use_first_lut: bool,
    /// Whether 1D LUTs of NVIDIA are used.
    pub nvidia_use_luts: bool,
}

/// Whether a 1D LUT is too imprecise: the first of an AMD pipeline (unless
/// asked for), or any of NVIDIA (unless asked for).
pub open spec fn spec_low_precision(q: LutQuirks, first_lut: bool) -> bool {
    (q.is_amd && first_lut && !q.amd_use_first_lut) || (q.is_nvidia && !q.nvidia_use_luts)
}

/// A 1D LUT operation: too imprecise where the vendor's quirks say so;
/// else its interpolation enum, its size and its data are needed, and a LUT
/// below the minimum size is too small.
pub open spec fn spec_lut1d_type(props: Seq<OpProperty>, q: LutQuirks, first_lut: bool) -> Result<
    ColorOpType,
    ColorPipelineError,
> {
    if spec_low_precision(q, first_lut) {
        Ok(ColorOpType::Lut1dLowPrecision)
    } else {
        match spec_get_enum(props, OpKind::Lut1d, OpPropName::Lut1dInterpolation) {
            Err(e) => Err(e),
            Ok((interpolation, values)) => match spec_get_prop(props, OpKind::Lut1d, OpPropName::Size) {
                Err(e) => Err(e),
                Ok((_, size)) => match spec_get_prop(props, OpKind::Lut1d, OpPropName::Data) {
                    Err(e) => Err(e),
                    Ok((data, _)) => if size < MIN_LUT_SIZE {
                        Ok(ColorOpType::Lut1dToSmall)
                    } else {
                        Ok(
                            ColorOpType::Lut1d {
                                linear: spec_last_named(values, spec_name_linear()),
                                interpolation,
                                size,
                                data,
                            },
                        )
                    },
                },
            },
        }
    }
}

/// A 3D LUT operation: its interpolation enum, its size and its data are
/// needed.
pub open spec fn spec_lut3d_type(props: Seq<OpProperty>) -> Result<ColorOpType, ColorPipelineError> {
    match spec_get_enum(props, OpKind::Lut3d, OpPropName::Lut3dInterpolation) {
        Err(e) => Err(e),
        Ok((interpolation, values)) => match spec_get_prop(props, OpKind::Lut3d, OpPropName::Size) {
            Err(e) => Err(e),
            Ok((_, size)) => match spec_get_prop(props, OpKind::Lut3d, OpPropName::Data) {
                Err(e) => Err(e),
                Ok((data, _)) => Ok(
                    ColorOpType::Lut3d {
                        tetrahedral: spec_last_named(values, spec_name_tetrahedral()),
                        interpolation,
                        size,
                        data,
                    },
                ),
            },
        },
    }
}

/// A 3x4 matrix operation needs its data.
pub open spec fn spec_matrix_type(props: Seq<OpProperty>) -> Result<ColorOpType, ColorPipelineError> {
    match spec_get_prop(props, OpKind::Matrix3x4, OpPropName::Data) {
        Err(e) => Err(e),
        Ok((data, _)) => Ok(ColorOpType::Matrix3x4 { data }),
    }
}

/// A multiplier operation needs its multiplier.
pub open spec fn spec_multiplier_type(props: Seq<OpProperty>) -> Result<ColorOpType, ColorPipelineError> {
    match spec_get_prop(props, OpKind::Multiplier, OpPropName::Multiplier) {
        Err(e) => Err(e),
        Ok((multiplier, _)) => Ok(ColorOpType::Multiplier { multiplier }),
    }
}

/// How reading the type named `ty` of an operation with the properties
/// turns out: `r` is its result, `first_lut` and `supported` are the
/// pipeline's before and after (see `parse_color_op_type`).
pub open spec fn spec_op_type_ok(
    props: Seq<OpProperty>,
    q: LutQuirks,
    ty: Seq<u8>,
    first_lut: bool,
    supported: Seq<bool>,
    r: Result<ColorOpType, ColorPipelineError>,
    first_lut_after: bool,
    supported_after: Seq<bool>,
) -> bool {
    &&& ty == spec_name_ty_curve_1d() ==> first_lut_after == first_lut && match spec_get_enum(
        props,
        OpKind::Curve1d,
        OpPropName::Curve1dType,
    ) {
        Ok((id, values)) => (r matches Ok(ColorOpType::Curve1d { types, ty: t }) && types@ == spec_curve_types(values)
            && t == id) && supported_after == spec_supported(supported, values),
        Err(e) => r == Err::<ColorOpType, ColorPipelineError>(e) && supported_after == supported,
    }
    &&& ty == spec_name_ty_lut_1d() ==> r == spec_lut1d_type(props, q, first_lut) && !first_lut_after
        && supported_after == supported
    &&& ty == spec_name_ty_matrix_3x4() ==> r == spec_matrix_type(props) && first_lut_after == first_lut
        && supported_after == supported
    &&& ty == spec_name_ty_multiplier() ==> r == spec_multiplier_type(props) && first_lut_after == first_lut
        && supported_after == supported
    &&& ty == spec_name_ty_lut_3d() ==> r == spec_lut3d_type(props) && first_lut_after == first_lut
        && supported_after == supported
    &&& ty != spec_name_ty_curve_1d() && ty != spec_name_ty_lut_1d() && ty != spec_name_ty_matrix_3x4() && ty
        != spec_name_ty_multiplier() && ty != spec_name_ty_lut_3d() ==> (r matches Err(
        ColorPipelineError::UnknownType(v),
    ) && v@ == ty) && first_lut_after == first_lut && supported_after == supported
}

/// Reads the type of a color operation from the name of its `TYPE` and its
/// properties. A 1D curve adds the curve types it offers to `supported`; a
/// 1D LUT is no longer the first of the pipeline afterwards.
pub fn parse_color_op_type(
    supported: &mut Vec<bool>,
    q: LutQuirks,
    props: &[OpProperty],
    ty: &[u8],
    first_lut: &mut bool,
) -> (r: Result<ColorOpType, ColorPipelineError>)
    requires
        old(supported)@.len() == 8,
        spec_names_distinct(props@),
    ensures
        final(supported)@.len() == 8,
        spec_op_type_ok(
            props@,
            q,
            ty@,
            *old(first_lut),
            old(supported)@,
            r,
            *final(first_lut),
            final(supported)@,
        ),
{
    let curve = name_ty_curve_1d();
    let lut1d = name_ty_lut_1d();
    let matrix = name_ty_matrix_3x4();
    let multiplier = name_ty_multiplier();
    let lut3d = name_ty_lut_3d();
    if bytes_eq(ty, curve.as_slice()) {
        let (id, values) = get_enum(props, OpKind::Curve1d, OpPropName::Curve1dType)?;
        let types = curve_types(supported, values);
        return Ok(ColorOpType::Curve1d { types, ty: id });
    }
    if bytes_eq(ty, lut1d.as_slice()) {
        let was_first = *first_lut;
        *first_lut = false;
        if (q.is_amd && was_first && !q.amd_use_first_lut) || (q.is_nvidia && !q.nvidia_use_luts) {
            return Ok(ColorOpType::Lut1dLowPrecision);
        }
        let (interpolation, values) = get_enum(props, OpKind::Lut1d, OpPropName::Lut1dInterpolation)?;
        let linear_name = name_linear();
        let linear = last_named(values, linear_name.as_slice());
        let (_, size) = get_prop(props, OpKind::Lut1d, OpPropName::Size)?;
        let (data, _) = get_prop(props, OpKind::Lut1d, OpPropName::Data)?;
        if size < MIN_LUT_SIZE as u64 {
            return Ok(ColorOpType::Lut1dToSmall);
        }
        return Ok(ColorOpType::Lut1d { linear, interpolation, size, data });
    }
    if bytes_eq(ty, matrix.as_slice()) {
        let (data, _) = get_prop(props, OpKind::Matrix3x4, OpPropName::Data)?;
        return Ok(ColorOpType::Matrix3x4 { data });
    }
    if bytes_eq(ty, multiplier.as_slice()) {
        let (m, _) = get_prop(props, OpKind::Multiplier, OpPropName::Multiplier)?;
        return Ok(ColorOpType::Multiplier { multiplier: m });
    }
    if bytes_eq(ty, lut3d.as_slice()) {
        let (interpolation, values) = get_enum(props, OpKind::Lut3d, OpPropName::Lut3dInterpolation)?;
        let tetrahedral_name = name_tetrahedral();
        let tetrahedral = last_named(values, tetrahedral_name.as_slice());
        let (_, size) = get_prop(props, OpKind::Lut3d, OpPropName::Size)?;
        let (data, _) = get_prop(props, OpKind::Lut3d, OpPropName::Data)?;
        return Ok(ColorOpType::Lut3d { tetrahedral, interpolation, size, data });
    }
    Err(ColorPipelineError::UnknownType(slice_to_vec(ty)))
}

fn slice_to_vec(s: &[u8]) -> (r: Vec<u8>)
    ensures
        r@ == s@,
{
    let mut r: Vec<u8> = Vec::new();
    let mut i: usize = 0;
    while i < s.len()
        invariant
            i <= s@.len(),
            r@ == s@.take(i as int),
        decreases s@.len() - i,
    {
        r.push(s[i]);
        i += 1;
        assert(r@ =~= s@.take(i as int));
    }
    assert(s@.take(s@.len() as int) =~= s@);
    r
}

/// A color operation of a pipeline.
#[derive(Clone, Debug)]
pub struct ColorOp {
    pub op: u32,
    /// The `BYPASS` property, where the operation can be bypassed.
    pub bypass: Option<u32>,
    pub ty: ColorOpType,
}

/// The `BYPASS` property of an operation, where it is a range from 0 to
/// more than 0.
pub open spec fn spec_bypass(props: Seq<OpProperty>) -> Option<u32> {
    if spec_has(props, spec_name_bypass()) {
        let p = spec_prop(props, spec_name_bypass());
        match p.def.ty {
            DrmPropertyType::Range { min, max } => if min == 0 && max > 0 {
                Some(p.def.id)
            } else {
                None
            },
            _ => None,
        }
    } else {
        None
    }
}

fn bypass_of(props: &[OpProperty]) -> (r: Option<u32>)
    requires
        spec_names_distinct(props@),
    ensures
        r == spec_bypass(props@),
{
    let n = name_bypass();
    match find_prop(props, n.as_slice()) {
        Some(i) => match &props[i].def.ty {
            DrmPropertyType::Range { min, max } => if *min == 0 && *max > 0 {
                Some(props[i].def.id)
            } else {
                None
            },
            _ => None,
        },
        None => None,
    }
}

/// The index of the first member with the value.
pub open spec fn spec_value_index(values: Seq<(Vec<u8>, u64)>, v: u64) -> Option<int>
    decreases values.len(),
{
    if values.len() == 0 {
        None
    } else if values[0].1 == v {
        Some(0)
    } else {
        match spec_value_index(values.drop_first(), v) {
            Some(k) => Some(k + 1),
            None => None,
        }
    }
}

fn value_index(values: &Vec<(Vec<u8>, u64)>, v: u64) -> (r: Option<usize>)
    ensures
        match spec_value_index(values@, v) {
            Some(k) => (r matches Some(kk) && kk as int == k) && 0 <= k < values@.len(),
            None => r is None,
        },
{
    let mut k: usize = 0;
    assert(values@.skip(0) =~= values@);
    while k < values.len()
        invariant
            k <= values@.len(),
            spec_value_index(values@, v) == match spec_value_index(values@.skip(k as int), v) {
                Some(j) => Some(j + k),
                None => None::<int>,
            },
            forall|j: int| 0 <= j < k ==> values@[j].1 != v,
        decreases values@.len() - k,
    {
        proof {
            assert(values@.skip(k as int).drop_first() =~= values@.skip(k + 1));
            assert(values@.skip(k as int)[0] == values@[k as int]);
        }
        if values[k].1 == v {
            proof {
                lemma_value_index_in_bounds(values@, v);
            }
            return Some(k);
        }
        k += 1;
    }
    assert(values@.skip(k as int).len() == 0);
    None
}

proof fn lemma_value_index_in_bounds(values: Seq<(Vec<u8>, u64)>, v: u64)
    ensures
        spec_value_index(values, v) matches Some(k) ==> 0 <= k < values.len() && values[k].1 == v,
    decreases values.len(),
{
    if values.len() > 0 && values[0].1 != v {
        lemma_value_index_in_bounds(values.drop_first(), v);
    }
}

/// The name of an operation's type: the member of its `TYPE` enum with the
/// property's value; none where it has no such property or member.
pub open spec fn spec_type_name(props: Seq<OpProperty>) -> Option<Seq<u8>> {
    if spec_has(props, spec_name_type()) {
        let p = spec_prop(props, spec_name_type());
        match p.def.ty {
            DrmPropertyType::Enum { values, .. } => match spec_value_index(values@, p.value) {
                Some(k) => Some(values@[k].0@),
                None => None,
            },
            _ => None,
        }
    } else {
        None
    }
}

fn op_type_name<'a>(props: &'a [OpProperty]) -> (r: Option<&'a Vec<u8>>)
    requires
        spec_names_distinct(props@),
    ensures
        match spec_type_name(props@) {
            Some(n) => r matches Some(v) && v@ == n,
            None => r is None,
        },
{
    let n = name_type();
    match find_prop(props, n.as_slice()) {
        Some(i) => {
            let p = &props[i];
            assert(*p == spec_prop(props@, spec_name_type()));
            match &p.def.ty {
                DrmPropertyType::Enum { values, .. } => match value_index(values, p.value) {
                    Some(k) => {
                        assert(spec_value_index(values@, p.value) == Some(k as int));
                        Some(&values[k].0)
                    },
                    None => None,
                },
                _ => None,
            }
        },
        None => None,
    }
}

/// How reading an operation with the properties turns out (see
/// `parse_color_op`).
pub open spec fn spec_color_op_ok(
    props: Seq<OpProperty>,
    q: LutQuirks,
    op: u32,
    first_lut: bool,
    supported: Seq<bool>,
    r: Result<(ColorOp, u64), ColorPipelineError>,
    first_lut_after: bool,
    supported_after: Seq<bool>,
) -> bool {
    if !spec_has(props, spec_name_next()) {
        r == Err::<(ColorOp, u64), ColorPipelineError>(ColorPipelineError::NoNext) && first_lut_after == first_lut
            && supported_after == supported
    } else {
        let next = spec_prop(props, spec_name_next()).value;
        let bypass = spec_bypass(props);
        match spec_type_name(props) {
            None => first_lut_after == first_lut && supported_after == supported && if bypass is Some {
                r matches Ok((o, n)) && n == next && o.op == op && o.bypass == bypass && o.ty matches ColorOpType::Unknown(
                    None,
                )
            } else {
                r == Err::<(ColorOp, u64), ColorPipelineError>(ColorPipelineError::NoType)
            },
            Some(name) => exists|t: Result<ColorOpType, ColorPipelineError>|
                spec_op_type_ok(props, q, name, first_lut, supported, t, first_lut_after, supported_after) && match t {
                    Ok(ty) => r matches Ok((o, n)) && n == next && o.op == op && o.bypass == bypass && o.ty == ty,
                    Err(e) => if bypass is Some {
                        r matches Ok((o, n)) && n == next && o.op == op && o.bypass == bypass && (o.ty matches ColorOpType::Unknown(
                            Some(v),
                        ) && v@ == name)
                    } else {
                        r == Err::<(ColorOp, u64), ColorPipelineError>(e)
                    },
                },
        }
    }
}

/// Reads one operation of a pipeline from its properties: the operation
/// and the next one's id (`NEXT`, which it must have). An operation
/// without a type, or whose type cannot be read, is kept as of an unknown
/// type where it can be bypassed; else the pipeline cannot be read.
pub fn parse_color_op(
    supported: &mut Vec<bool>,
    q: LutQuirks,
    op: u32,
    props: &[OpProperty],
    first_lut: &mut bool,
) -> (r: Result<(ColorOp, u64), ColorPipelineError>)
    requires
        old(supported)@.len() == 8,
        spec_names_distinct(props@),
    ensures
        final(supported)@.len() == 8,
        spec_color_op_ok(props@, q, op, *old(first_lut), old(supported)@, r, *final(first_lut), final(supported)@),
{
    let next_name = name_next();
    let next = match find_prop(props, next_name.as_slice()) {
        Some(i) => props[i].value,
        None => {
            return Err(ColorPipelineError::NoNext);
        },
    };
    let bypass = bypass_of(props);
    let name = match op_type_name(props) {
        Some(n) => n,
        None => {
            if bypass.is_some() {
                return Ok((ColorOp { op, bypass, ty: ColorOpType::Unknown(None) }, next));
            } else {
                return Err(ColorPipelineError::NoType);
            }
        },
    };
    let t = parse_color_op_type(supported, q, props, name.as_slice(), first_lut);
    proof {
        assert(spec_op_type_ok(props@, q, name@, *old(first_lut), old(supported)@, t, *first_lut, supported@));
    }
    match t {
        Ok(ty) => Ok((ColorOp { op, bypass, ty }, next)),
        Err(e) => {
            if bypass.is_some() {
                Ok((ColorOp { op, bypass, ty: ColorOpType::Unknown(Some(name.clone())) }, next))
            } else {
                Err(e)
            }
        },
    }
}

/// The kind of operation the plane matchers see for a type.
pub open spec fn spec_op_name(t: ColorOpType) -> usize {
    match t {
        ColorOpType::Curve1d { .. } => 1,
        ColorOpType::Lut1d { .. } => 2,
        ColorOpType::Lut3d { .. } => 3,
        ColorOpType::Matrix3x4 { .. } => 4,
        ColorOpType::Multiplier { .. } => 5,
        _ => 0,
    }
}

fn op_name(t: &ColorOpType) -> (r: usize)
    ensures
        r == spec_op_name(*t),
        r < NUM_PLANE_OP_NAMES,
{
    match t {
        ColorOpType::Curve1d { .. } => PlaneOpName::Curve1d.index(),
        ColorOpType::Lut1d { .. } => PlaneOpName::Lut1d.index(),
        ColorOpType::Lut3d { .. } => PlaneOpName::Lut3d.index(),
        ColorOpType::Matrix3x4 { .. } => PlaneOpName::Matrix3x4.index(),
        ColorOpType::Multiplier { .. } => PlaneOpName::Multiply.index(),
        _ => PlaneOpName::Other.index(),
    }
}

/// What the plane matchers see of a pipeline: for each operation its kind
/// and whether it can be bypassed.
pub open spec fn spec_names(ops: Seq<ColorOp>) -> Seq<(usize, bool)> {
    ops.map_values(|o: ColorOp| (spec_op_name(o.ty), o.bypass is Some))
}

/// The first operation from index `i` on that cannot be bypassed.
pub open spec fn spec_first_non_bypass(ops: Seq<ColorOp>, i: int) -> Option<usize>
    decreases ops.len() - i,
{
    if i < 0 || i >= ops.len() {
        None
    } else if ops[i].bypass is None {
        Some(i as usize)
    } else {
        spec_first_non_bypass(ops, i + 1)
    }
}

/// A pipeline of a plane.
pub struct ColorPipeline {
    pub id: u32,
    pub ops: Vec<ColorOp>,
    /// For each operation, the next one after it that cannot be bypassed.
    pub next_non_bypass: Vec<Option<usize>>,
    /// The paths the pipeline realizes.
    pub filter: Filter,
}

/// The pipelines of a plane.
pub struct PlaneColorPipelines {
    pub plane: u32,
    /// The `COLOR_PIPELINE` property, where the plane has one.
    pub prop: Option<u32>,
    pub pipelines: Vec<ColorPipeline>,
    /// The paths some pipeline realizes.
    pub filter: Filter,
    /// For each curve type, whether some operation offers it.
    pub supported_curves: Vec<bool>,
}

/// The roots of the pipelines: the nonzero values of the enum's members,
/// in order.
pub open spec fn spec_roots(values: Seq<(Vec<u8>, u64)>) -> Seq<u64>
    decreases values.len(),
{
    if values.len() == 0 {
        Seq::empty()
    } else {
        spec_roots(values.drop_last()) + if values.last().1 != 0 {
            seq![values.last().1]
        } else {
            Seq::empty()
        }
    }
}

impl PlaneColorPipelines {
    /// The curve table has an entry per curve type and the filter a word
    /// vector per criteria, sized for the matchers.
    pub open spec fn wf(&self, matchers: Seq<MatcherImpl>) -> bool {
        &&& self.supported_curves@.len() == 8
        &&& self.filter.wf()
        &&& matchers.len() == NUM_CRITERIA
        &&& forall|c: int|
            0 <= c < NUM_CRITERIA ==> (#[trigger] self.filter.filter@[c])@.len() == spec_words(
                matchers[c].num_paths() as int,
            )
    }

    /// No pipeline of the plane read yet: the plane's `COLOR_PIPELINE`
    /// property (where it has one that is an enum) and the roots of the
    /// pipelines to read.
    pub fn new(plane: u32, color_pipeline: Option<&PropertyDefinition>, matchers: &[MatcherImpl]) -> (r: (
        Self,
        Vec<u64>,
    ))
        requires
            matchers@.len() == NUM_CRITERIA,
        ensures
            r.0.wf(matchers@),
            r.0.plane == plane,
            r.0.pipelines@.len() == 0,
            forall|t: int| 0 <= t < 8 ==> !(#[trigger] r.0.supported_curves@[t]),
            forall|c: int, w: int|
                0 <= c < NUM_CRITERIA && 0 <= w < r.0.filter.filter@[c]@.len() ==> #[trigger] r.0.filter.filter@[c]@[w]
                    == 0,
            match color_pipeline {
                Some(d) => match d.ty {
                    DrmPropertyType::Enum { values, .. } => r.0.prop == Some(d.id) && r.1@ == spec_roots(values@),
                    _ => r.0.prop is None && r.1@.len() == 0,
                },
                None => r.0.prop is None && r.1@.len() == 0,
            },
    {
        let mut counts: Vec<usize> = Vec::new();
        let mut c: usize = 0;
        while c < NUM_CRITERIA
            invariant
                c <= NUM_CRITERIA,
                matchers@.len() == NUM_CRITERIA,
                counts@.len() == c,
                forall|k: int| 0 <= k < c ==> #[trigger] counts@[k] == matchers@[k].num_paths(),
            decreases NUM_CRITERIA - c,
        {
            counts.push(matchers[c].len.len());
            c += 1;
        }
        let filter = Filter::new(counts.as_slice());
        let supported_curves: Vec<bool> = vec![false, false, false, false, false, false, false, false];
        let mut roots: Vec<u64> = Vec::new();
        let mut prop: Option<u32> = None;
        match color_pipeline {
            Some(d) => match &d.ty {
                DrmPropertyType::Enum { values, .. } => {
                    prop = Some(d.id);
                    let mut k: usize = 0;
                    while k < values.len()
                        invariant
                            k <= values@.len(),
                            roots@ == spec_roots(values@.take(k as int)),
                        decreases values@.len() - k,
                    {
                        proof {
                            assert(values@.take(k + 1).drop_last() =~= values@.take(k as int));
                            assert(values@.take(k + 1).last() == values@[k as int]);
                        }
                        if values[k].1 != 0 {
                            roots.push(values[k].1);
                        }
                        k += 1;
                        proof {
                            assert(roots@ =~= spec_roots(values@.take(k as int)));
                        }
                    }
                    assert(values@.take(values@.len() as int) =~= values@);
                },
                _ => {},
            },
            None => {},
        }
        (PlaneColorPipelines { plane, prop, pipelines: Vec::new(), filter, supported_curves }, roots)
    }

    /// Adds a pipeline that was read: its operations, for each the next one
    /// that cannot be bypassed, and the paths it realizes, which the plane's
    /// filter gains.
    pub fn add_pipeline(&mut self, id: u32, ops: Vec<ColorOp>, matchers: &[MatcherImpl])
        requires
            old(self).wf(matchers@),
            forall|c: int| 0 <= c < NUM_CRITERIA ==> (#[trigger] matchers@[c]).wf(),
            forall|c: int| 0 <= c < NUM_CRITERIA ==> (#[trigger] matchers@[c]).num_ops >= NUM_PLANE_OP_NAMES,
        ensures
            final(self).wf(matchers@),
            final(self).plane == old(self).plane,
            final(self).prop == old(self).prop,
            final(self).supported_curves@ == old(self).supported_curves@,
            final(self).pipelines@.len() == old(self).pipelines@.len() + 1,
            forall|k: int|
                0 <= k < old(self).pipelines@.len() ==> #[trigger] final(self).pipelines@[k] == old(self).pipelines@[k],
            ({
                let p = final(self).pipelines@[old(self).pipelines@.len() as int];
                &&& p.id == id
                &&& p.ops@ == ops@
                &&& p.next_non_bypass@.len() == ops@.len()
                &&& forall|k: int|
                    0 <= k < ops@.len() ==> #[trigger] p.next_non_bypass@[k] == spec_first_non_bypass(ops@, k + 1)
                &&& forall|c: int, i: int|
                    0 <= c < NUM_CRITERIA && 0 <= i < matchers@[c].num_paths() ==> #[trigger] p.filter.spec_contains(c, i)
                        == matchers@[c].spec_matches(i, spec_names(ops@))
                &&& forall|c: int, w: int|
                    0 <= c < NUM_CRITERIA && 0 <= w < old(self).filter.filter@[c]@.len() ==> #[trigger] final(self).filter.filter@[c]@[w]
                        == old(self).filter.filter@[c]@[w] | p.filter.filter@[c]@[w]
            }),
    {
        let n = ops.len();
        let mut nnb: Vec<Option<usize>> = Vec::new();
        let mut k: usize = 0;
        while k < n
            invariant
                k <= n,
                n == ops@.len(),
                nnb@.len() == k,
            decreases n - k,
        {
            nnb.push(None);
            k += 1;
        }
        let mut next: Option<usize> = None;
        let mut i: usize = n;
        while i > 0
            invariant
                i <= n,
                n == ops@.len(),
                nnb@.len() == n,
                next == spec_first_non_bypass(ops@, i as int),
                forall|j: int| i <= j < n ==> #[trigger] nnb@[j] == spec_first_non_bypass(ops@, j + 1),
            decreases i,
        {
            i -= 1;
            nnb.set(i, next);
            if ops[i].bypass.is_none() {
                next = Some(i);
            }
        }
        let mut names: Vec<(usize, bool)> = Vec::new();
        let mut j: usize = 0;
        while j < n
            invariant
                j <= n,
                n == ops@.len(),
                names@ == spec_names(ops@.take(j as int)),
                forall|q: int| 0 <= q < names@.len() ==> (#[trigger] names@[q]).0 < NUM_PLANE_OP_NAMES,
            decreases n - j,
        {
            let name = op_name(&ops[j].ty);
            names.push((name, ops[j].bypass.is_some()));
            j += 1;
            proof {
                assert(names@ =~= spec_names(ops@.take(j as int)));
            }
        }
        assert(ops@.take(n as int) =~= ops@);
        let filter = create_filter(&mut self.filter, names.as_slice(), matchers);
        self.pipelines.push(ColorPipeline { id, ops, next_non_bypass: nnb, filter });
    }
}

} // verus!
