use jay_compositor::backends::metal::video::metal_cm::metal_cm_crtc::CurveConfig;
use jay_compositor::backends::metal::video::metal_cm::metal_cm_plane_matcher::plane_programming_plan;
use jay_compositor::backends::metal::video::metal_cm::metal_cm_plane_matcher::BlobKey;
use jay_compositor::backends::metal::video::metal_cm::metal_cm_plane_matcher::Lut1dKey;
use jay_compositor::backends::metal::video::metal_cm::metal_cm_plane_matcher::Lut3dKey;
use jay_compositor::backends::metal::video::metal_cm::metal_cm_plane_matcher::MatrixKey;
use jay_compositor::backends::metal::video::metal_cm::metal_cm_plane_matcher::PlaneColorOpProgramming;
use jay_compositor::backends::metal::video::metal_cm::metal_cm_plane_matcher::PlaneOpMatch;
use jay_compositor::backends::metal::video::metal_cm::metal_cm_plane_matcher::PlaneOpMatchType;
use jay_compositor::backends::metal::video::metal_cm::metal_cm_plane_matcher::PlaneProgramming;
use jay_compositor::backends::metal::video::drm_props::DrmPropertyType;
use jay_compositor::backends::metal::video::drm_props::PropertyDefinition;
use jay_compositor::backends::metal::video::metal_cm::metal_cm_paths::MatcherImpl;
use jay_compositor::backends::metal::video::metal_cm::metal_cm_plane::parse_color_op;
use jay_compositor::backends::metal::video::metal_cm::metal_cm_plane::parse_color_op_type;
use jay_compositor::backends::metal::video::metal_cm::metal_cm_plane::ColorOp;
use jay_compositor::backends::metal::video::metal_cm::metal_cm_plane::ColorOpType;
use jay_compositor::backends::metal::video::metal_cm::metal_cm_plane::ColorPipelineError;
use jay_compositor::backends::metal::video::metal_cm::metal_cm_plane::LutQuirks;
use jay_compositor::backends::metal::video::metal_cm::metal_cm_plane::OpKind;
use jay_compositor::backends::metal::video::metal_cm::metal_cm_plane::OpPropName;
use jay_compositor::backends::metal::video::metal_cm::metal_cm_plane::OpProperty;
use jay_compositor::backends::metal::video::metal_cm::metal_cm_plane::PlaneColorPipelines;

const PLAIN: LutQuirks = LutQuirks { is_amd: false, is_nvidia: false, amd_use_first_lut: false, nvidia_use_luts: false };

fn prop(name: &str, id: u32, ty: DrmPropertyType, value: u64) -> OpProperty {
    OpProperty { name: name.as_bytes().to_vec(), def: PropertyDefinition { id, ty }, value }
}

fn members(names: &[(&str, u64)]) -> DrmPropertyType {
    DrmPropertyType::Enum { values: names.iter().map(|(n, v)| (n.as_bytes().to_vec(), *v)).collect(), bitmask: false }
}

fn parse(ty: &str, props: &[OpProperty], q: LutQuirks, first: bool) -> (Result<ColorOpType, ColorPipelineError>, Vec<bool>, bool) {
    let mut supported = vec![false; 8];
    let mut first_lut = first;
    let r = parse_color_op_type(&mut supported, q, props, ty.as_bytes(), &mut first_lut);
    (r, supported, first_lut)
}

#[test]
fn curves_record_the_types_they_offer() {
    let props = [prop("CURVE_1D_TYPE", 7, members(&[("sRGB EOTF", 0), ("Gamma 2.2", 1), ("Unknown", 2)]), 0)];
    let (r, supported, first) = parse("1D Curve", &props, PLAIN, true);
    match r {
        Ok(ColorOpType::Curve1d { types, ty }) => {
            assert_eq!(ty, 7);
            assert_eq!(types, vec![Some(0), None, None, None, None, None, Some(1), None]);
        }
        _ => panic!("not a curve"),
    }
    assert_eq!(supported, vec![true, false, false, false, false, false, true, false]);
    assert!(first);
    let props = [prop("CURVE_1D_TYPE", 7, DrmPropertyType::Other, 0)];
    let (r, supported, _) = parse("1D Curve", &props, PLAIN, true);
    assert_eq!(r.err(), Some(ColorPipelineError::PropertyNotEnum(OpKind::Curve1d, OpPropName::Curve1dType)));
    assert_eq!(supported, vec![false; 8]);
}

#[test]
fn luts_need_their_properties_and_size() {
    let lut = |size: u64| {
        vec![
            prop("LUT1D_INTERPOLATION", 3, members(&[("Linear", 0)]), 0),
            prop("SIZE", 4, DrmPropertyType::Other, size),
            prop("DATA", 5, DrmPropertyType::Other, 0),
        ]
    };
    let (r, _, first) = parse("1D LUT", &lut(4096), PLAIN, true);
    assert!(matches!(r, Ok(ColorOpType::Lut1d { linear: Some(0), interpolation: 3, size: 4096, data: 5 })));
    assert!(!first);
    let (r, _, _) = parse("1D LUT", &lut(16), PLAIN, true);
    assert!(matches!(r, Ok(ColorOpType::Lut1dToSmall)));
    let amd = LutQuirks { is_amd: true, ..PLAIN };
    let (r, _, first) = parse("1D LUT", &lut(4096), amd, true);
    assert!(matches!(r, Ok(ColorOpType::Lut1dLowPrecision)));
    assert!(!first);
    let (r, _, _) = parse("1D LUT", &lut(4096), amd, false);
    assert!(matches!(r, Ok(ColorOpType::Lut1d { .. })));
    let nvidia = LutQuirks { is_nvidia: true, ..PLAIN };
    let (r, _, _) = parse("1D LUT", &lut(4096), nvidia, false);
    assert!(matches!(r, Ok(ColorOpType::Lut1dLowPrecision)));
    let mut missing = lut(4096);
    missing.pop();
    let (r, _, _) = parse("1D LUT", &missing, PLAIN, false);
    assert_eq!(r.err(), Some(ColorPipelineError::MissingProperty(OpKind::Lut1d, OpPropName::Data)));
}

#[test]
fn other_operation_types() {
    let props = [
        prop("DATA", 5, DrmPropertyType::Other, 0),
        prop("MULTIPLIER", 6, DrmPropertyType::Other, 0),
        prop("LUT3D_INTERPOLATION", 8, members(&[("Tetrahedral", 2)]), 0),
        prop("SIZE", 9, DrmPropertyType::Other, 17),
    ];
    assert!(matches!(parse("3x4 Matrix", &props, PLAIN, true).0, Ok(ColorOpType::Matrix3x4 { data: 5 })));
    assert!(matches!(parse("Multiplier", &props, PLAIN, true).0, Ok(ColorOpType::Multiplier { multiplier: 6 })));
    assert!(matches!(
        parse("3D LUT", &props, PLAIN, true).0,
        Ok(ColorOpType::Lut3d { tetrahedral: Some(2), interpolation: 8, size: 17, data: 5 })
    ));
    assert_eq!(parse("Blur", &props, PLAIN, true).0.err(), Some(ColorPipelineError::UnknownType(b"Blur".to_vec())));
}

fn op(props: &[OpProperty]) -> Result<(ColorOp, u64), ColorPipelineError> {
    let mut supported = vec![false; 8];
    let mut first = true;
    parse_color_op(&mut supported, PLAIN, 40, props, &mut first)
}

#[test]
fn operations_of_a_pipeline() {
    let next = prop("NEXT", 1, DrmPropertyType::Other, 41);
    let bypass = prop("BYPASS", 2, DrmPropertyType::Range { min: 0, max: 1 }, 0);
    let ty = |name: &str| prop("TYPE", 3, members(&[("3x4 Matrix", 0), (name, 1)]), 1);
    assert_eq!(op(&[]).err(), Some(ColorPipelineError::NoNext));
    assert_eq!(op(&[next.clone()]).err(), Some(ColorPipelineError::NoType));
    let (o, n) = op(&[next.clone(), bypass.clone()]).ok().unwrap();
    assert_eq!((o.op, o.bypass, n), (40, Some(2), 41));
    assert!(matches!(o.ty, ColorOpType::Unknown(None)));
    // A type that cannot be read is unknown where the operation can be bypassed.
    let (o, _) = op(&[next.clone(), bypass.clone(), ty("Blur")]).ok().unwrap();
    assert!(matches!(o.ty, ColorOpType::Unknown(Some(ref v)) if v == b"Blur"));
    assert_eq!(op(&[next.clone(), ty("Blur")]).err(), Some(ColorPipelineError::UnknownType(b"Blur".to_vec())));
    // A bypass range that does not start at 0 does not count.
    let odd = prop("BYPASS", 2, DrmPropertyType::Range { min: 1, max: 2 }, 0);
    assert_eq!(op(&[next.clone(), odd]).err(), Some(ColorPipelineError::NoType));
    let data = prop("DATA", 9, DrmPropertyType::Other, 0);
    let (o, _) = op(&[next, ty("3x4 Matrix"), data]).ok().unwrap();
    assert!(matches!(o.ty, ColorOpType::Matrix3x4 { data: 9 }));
    assert_eq!(o.bypass, None);
}

fn matchers() -> Vec<MatcherImpl> {
    (0..16).map(|_| MatcherImpl { num_ops: 6, tt: vec![], len: vec![] }).collect()
}

#[test]
fn planes_collect_their_pipelines() {
    let m = matchers();
    let def = PropertyDefinition { id: 30, ty: members(&[("Bypass", 0), ("Color Pipeline 5", 5), ("Color Pipeline 9", 9)]) };
    let (mut p, roots) = PlaneColorPipelines::new(12, Some(&def), &m);
    assert_eq!(p.prop, Some(30));
    assert_eq!(roots, vec![5, 9]);
    let (none, roots) = PlaneColorPipelines::new(12, None, &m);
    assert_eq!(none.prop, None);
    assert!(roots.is_empty());
    let mk = |bypass: Option<u32>| ColorOp { op: 1, bypass, ty: ColorOpType::Multiplier { multiplier: 3 } };
    p.add_pipeline(5, vec![mk(Some(1)), mk(None), mk(Some(1)), mk(Some(1)), mk(None)], &m);
    assert_eq!(p.pipelines.len(), 1);
    assert_eq!(p.pipelines[0].id, 5);
    assert_eq!(p.pipelines[0].next_non_bypass, vec![Some(1), Some(4), Some(4), Some(4), None]);
}

fn plane_match(id: u32, bypass: Option<(u32, u64)>, ty: PlaneOpMatchType) -> PlaneOpMatch {
    PlaneOpMatch { id, bypass, ty }
}

#[test]
fn plane_programming_without_pipeline_programs_no_operation() {
    let m = plane_match(5, Some((6, 1)), PlaneOpMatchType::Bypass);
    let (plane, ops) = plane_programming_plan(31, None, &[m], 9);
    assert_eq!(plane, PlaneProgramming { plane: 31, pipeline: None });
    assert!(ops.is_empty());
}

#[test]
fn plane_programming_with_empty_pipeline_selects_it() {
    let (plane, ops) = plane_programming_plan(31, Some((40, 0)), &[], 9);
    assert_eq!(plane, PlaneProgramming { plane: 31, pipeline: Some((40, 0)) });
    assert!(ops.is_empty());
}

#[test]
fn plane_programming_sets_the_properties_of_each_kind() {
    let matrix: [u64; 12] = [1, 0, 0, 0, 0, 1, 0, 0, 0, 0, 1, 0];
    let lut3d_bits: [u64; 12] = [7; 12];
    let matches = [
        plane_match(1, Some((101, 1)), PlaneOpMatchType::Bypass),
        plane_match(2, Some((102, 0)), PlaneOpMatchType::Curve1d { ty: (202, 3) }),
        plane_match(
            3,
            None,
            PlaneOpMatchType::Lut1d {
                interpolation: (203, 0),
                blob_id: 303,
                eotf: CurveConfig::Both(1, 2),
                size: 4096,
                scale_for_dst_lut: true,
                input_is_scaled_for_dst_lut: false,
            },
        ),
        plane_match(4, Some((104, 0)), PlaneOpMatchType::Matrix3x4 { blob_id: 304, matrix }),
        plane_match(5, None, PlaneOpMatchType::Multiply { multiplier_id: 405, multiplier: 1u64 << 32 }),
        plane_match(
            6,
            Some((106, 0)),
            PlaneOpMatchType::Lut3d { interpolation: (206, 1), blob_id: 306, matrix: lut3d_bits, size: 17 },
        ),
    ];
    let (plane, ops) = plane_programming_plan(31, Some((40, 1)), &matches, 77);
    assert_eq!(plane, PlaneProgramming { plane: 31, pipeline: Some((40, 1)) });
    assert_eq!(ops.len(), 6);
    let none = PlaneColorOpProgramming {
        op: 0,
        bypass: None,
        ty: None,
        interpolation: None,
        data: None,
        multiplier: None,
    };
    assert_eq!(ops[0], PlaneColorOpProgramming { op: 1, bypass: Some((101, 1)), ..none });
    assert_eq!(ops[1], PlaneColorOpProgramming { op: 2, bypass: Some((102, 0)), ty: Some((202, 3)), ..none });
    assert_eq!(
        ops[2],
        PlaneColorOpProgramming {
            op: 3,
            interpolation: Some((203, 0)),
            data: Some((
                303,
                BlobKey::Lut1d(Lut1dKey {
                    dst: 77,
                    eotf: CurveConfig::Both(1, 2),
                    size: 4096,
                    scale_for_dst_lut: true,
                    input_is_scaled_for_dst_lut: false,
                }),
            )),
            ..none
        }
    );
    assert_eq!(
        ops[3],
        PlaneColorOpProgramming {
            op: 4,
            bypass: Some((104, 0)),
            data: Some((304, BlobKey::Matrix(MatrixKey { matrix }))),
            ..none
        }
    );
    assert_eq!(ops[4], PlaneColorOpProgramming { op: 5, multiplier: Some((405, 1u64 << 32)), ..none });
    assert_eq!(
        ops[5],
        PlaneColorOpProgramming {
            op: 6,
            bypass: Some((106, 0)),
            interpolation: Some((206, 1)),
            data: Some((306, BlobKey::Lut3d(Lut3dKey { matrix: lut3d_bits, size: 17 }))),
            ..none
        }
    );
}

#[test]
fn plane_programming_keys_of_equal_luts_are_equal() {
    let lut = PlaneOpMatchType::Lut1d {
        interpolation: (203, 0),
        blob_id: 303,
        eotf: CurveConfig::Eotf(1),
        size: 1024,
        scale_for_dst_lut: false,
        input_is_scaled_for_dst_lut: false,
    };
    let (_, a) = plane_programming_plan(1, Some((40, 1)), &[plane_match(3, None, lut)], 5);
    let (_, b) = plane_programming_plan(2, Some((41, 2)), &[plane_match(8, None, lut)], 5);
    let (_, c) = plane_programming_plan(2, Some((41, 2)), &[plane_match(8, None, lut)], 6);
    assert_eq!(a[0].data, b[0].data);
    assert_ne!(a[0].data, c[0].data);
}
