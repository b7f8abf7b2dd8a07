use jay_compositor::backends::metal::video::metal_cm::metal_cm_crtc::crtc_programming_plan;
use jay_compositor::backends::metal::video::metal_cm::metal_cm_crtc::parse_color_pipelines;
use jay_compositor::backends::metal::video::metal_cm::metal_cm_crtc::ColorOpMatch;
use jay_compositor::backends::metal::video::metal_cm::metal_cm_crtc::ColorOpMatchType;
use jay_compositor::backends::metal::video::metal_cm::metal_cm_crtc::CrtcColorOp;
use jay_compositor::backends::metal::video::metal_cm::metal_cm_crtc::CrtcColorPipeline;
use jay_compositor::backends::metal::video::metal_cm::metal_cm_crtc::CrtcColorPipelines;
use jay_compositor::backends::metal::video::metal_cm::metal_cm_crtc::CrtcOpProgramming;
use jay_compositor::backends::metal::video::metal_cm::metal_cm_crtc::CurveConfig;
use jay_compositor::backends::metal::video::metal_cm::metal_cm_crtc::LutSource;
use jay_compositor::backends::metal::video::metal_cm::metal_cm_crtc::MIN_LUT_SIZE;
use jay_compositor::backends::metal::video::metal_cm::metal_cm_matcher::compute_criteria;
use jay_compositor::backends::metal::video::metal_cm::metal_cm_matcher::path_suits;
use jay_compositor::backends::metal::video::metal_cm::metal_cm_matcher::plane_curve_type;
use jay_compositor::backends::metal::video::metal_cm::metal_cm_matcher::plane_path_allowed;
use jay_compositor::backends::metal::video::metal_cm::metal_cm_matcher::viable_paths;
use jay_compositor::backends::metal::video::metal_cm::metal_cm_matcher::ColorEotf;
use jay_compositor::backends::metal::video::metal_cm::metal_cm_matcher::ColorOpCurve1dType;
use jay_compositor::backends::metal::video::metal_cm::metal_cm_matcher::EotfKind;
use jay_compositor::backends::metal::video::metal_cm::metal_cm_matcher::PathRequirements;
use jay_compositor::backends::metal::video::metal_cm::metal_cm_paths::create_filter;
use jay_compositor::backends::metal::video::metal_cm::metal_cm_paths::Criteria;
use jay_compositor::backends::metal::video::metal_cm::metal_cm_paths::CrtcOpKind;
use jay_compositor::backends::metal::video::metal_cm::metal_cm_paths::CrtcOpName;
use jay_compositor::backends::metal::video::metal_cm::metal_cm_paths::DstEotfCriterion;
use jay_compositor::backends::metal::video::metal_cm::metal_cm_paths::Filter;
use jay_compositor::backends::metal::video::metal_cm::metal_cm_paths::LutEotf;
use jay_compositor::backends::metal::video::metal_cm::metal_cm_paths::MatcherImpl;
use jay_compositor::backends::metal::video::metal_cm::metal_cm_paths::Path;
use jay_compositor::backends::metal::video::metal_cm::metal_cm_paths::PlaneOpName;
use jay_compositor::backends::metal::video::metal_cm::metal_cm_paths::PlaneOpTarget;
use jay_compositor::backends::metal::video::metal_cm::metal_cm_paths::SrcEotfCriterion;
use jay_compositor::backends::metal::video::metal_cm::metal_cm_paths::NUM_CRITERIA;
use jay_compositor::backends::metal::video::metal_cm::metal_cm_paths::PATH_GAMMA_LUT_IS_RAW;
use jay_compositor::backends::metal::video::metal_cm::metal_cm_paths::PATH_HAS_GAMMA_LUT;
use jay_compositor::backends::metal::video::metal_cm::metal_cm_paths::PATH_HAS_SRC_CURVE;
use jay_compositor::backends::metal::video::metal_cm::metal_cm_paths::PATH_MATRIX_VIA_LUT;
use jay_compositor::backends::metal::video::metal_cm::metal_cm_paths::PATH_SUPPORTS_MATRIX;
use jay_compositor::backends::metal::video::metal_cm::programming_key;
use jay_compositor::backends::metal::video::metal_cm::same_key;
use jay_compositor::backends::metal::video::metal_cm::CacheAnswer;
use jay_compositor::backends::metal::video::metal_cm::MetalCmConnector;
use jay_compositor::backends::metal::video::metal_cm::RegistryAnswer;

/// A matcher of two paths over two operation kinds: path 0 is one step
/// that takes operation 1, path 1 has no steps.
fn two_path_matcher() -> MatcherImpl {
    MatcherImpl { num_ops: 2, tt: vec![vec![0, 1], vec![0, 0]], len: vec![1, 0] }
}

fn filter_with(criteria: Criteria, path: usize) -> Filter {
    let mut f = Filter::new(&[64; NUM_CRITERIA]);
    f.filter[criteria.index()][path / 64] |= 1 << (path % 64);
    f
}

fn curve_step() -> CrtcOpKind {
    CrtcOpKind::GammaLut { eotf: Some(LutEotf::Eotf), input_is_scaled_for_dst_lut: false }
}

#[test]
fn criteria_indices_are_dense() {
    assert_eq!(Criteria::Nothing.index(), 0);
    let last = Criteria::Needs {
        src_eotf: SrcEotfCriterion::WithEotf { curve_needs_scale: true },
        dst_eotf: DstEotfCriterion::WithEotf { curve_needs_scale: true, scale_lut_input: true },
    };
    assert_eq!(last.index(), NUM_CRITERIA - 1);
    let first = Criteria::Needs { src_eotf: SrcEotfCriterion::NoEotf, dst_eotf: DstEotfCriterion::NoEotf };
    assert_eq!(first.index(), 1);
    assert_eq!(PlaneOpName::Multiply.index(), 5);
    assert_eq!(CrtcOpName::GammaLut.index(), 1);
}

#[test]
fn matcher_finds_paths_with_bypass() {
    // One path of two steps: step 0 takes operation 0, step 1 takes operation 1.
    let m = MatcherImpl { num_ops: 3, tt: vec![vec![0b01, 0b10, 0]], len: vec![2] };
    let mut res = vec![0u64];
    m.find(&[(0, false), (1, false)], &mut res);
    assert_eq!(res[0] & 1, 1);
    m.find(&[(1, false), (0, false)], &mut res);
    assert_eq!(res[0] & 1, 0);
    m.find(&[(0, false), (2, true), (1, false)], &mut res);
    assert_eq!(res[0] & 1, 1);
    m.find(&[(0, false), (2, false), (1, false)], &mut res);
    assert_eq!(res[0] & 1, 0);
    m.find(&[(0, false)], &mut res);
    assert_eq!(res[0] & 1, 0);
}

#[test]
fn matcher_leaves_words_beyond_its_paths() {
    let m = two_path_matcher();
    let mut res = vec![u64::MAX, 77];
    m.find(&[(1, true)], &mut res);
    // Both paths match; bits past the last path are cleared; the second
    // word is not touched.
    assert_eq!(res, vec![0b11, 77]);
    m.find(&[], &mut res);
    assert_eq!(res, vec![0b10, 77]);
}

#[test]
fn filters_collect_matches_per_criteria() {
    let matchers: Vec<MatcherImpl> = (0..NUM_CRITERIA).map(|_| two_path_matcher()).collect();
    let mut all = Filter::new(&[2; NUM_CRITERIA]);
    let f = create_filter(&mut all, &[], &matchers);
    assert!(!f.contains(Criteria::Nothing, 0));
    assert!(f.contains(Criteria::Nothing, 1));
    let g = create_filter(&mut all, &[(1, false)], &matchers);
    assert!(g.contains(Criteria::Nothing, 0));
    assert!(!g.contains(Criteria::Nothing, 1));
    assert!(all.contains(Criteria::Nothing, 0));
    assert!(all.contains(Criteria::Nothing, 1));
}

#[test]
fn parse_pipelines_with_and_without_gamma_lut() {
    let matchers: Vec<MatcherImpl> = (0..NUM_CRITERIA).map(|_| two_path_matcher()).collect();
    let p = parse_color_pipelines(5, Some(11), Some(4096), &matchers);
    assert_eq!(p.pipelines.len(), 1);
    assert_eq!(p.pipelines[0].crtc, 5);
    assert_eq!(p.pipelines[0].ops, vec![CrtcColorOp { size: 4096, gamma_lut: 11 }]);
    assert!(p.filter.contains(Criteria::Nothing, 0));
    assert!(p.filter.contains(Criteria::Nothing, 1));
    let q = parse_color_pipelines(5, Some(11), None, &matchers);
    assert_eq!(q.pipelines[0].ops, Vec::<CrtcColorOp>::new());
    assert!(!q.filter.contains(Criteria::Nothing, 0));
    assert!(q.pipelines[0].filter.contains(Criteria::Nothing, 1));
}

#[test]
fn crtc_pipeline_realizes_a_curve_with_a_large_lut() {
    let p = CrtcColorPipeline {
        crtc: 3,
        ops: vec![CrtcColorOp { size: MIN_LUT_SIZE, gamma_lut: 7 }],
        filter: filter_with(Criteria::Nothing, 0),
    };
    assert_eq!(
        p.find_match(Criteria::Nothing, 0, &[curve_step()], 1, 2),
        Some(vec![ColorOpMatch {
            crtc: 3,
            ty: ColorOpMatchType::GammaLut {
                gamma_lut: 7,
                eotf: Some(CurveConfig::Eotf(1)),
                size: MIN_LUT_SIZE,
                input_is_scaled_for_dst_lut: false,
            },
        }])
    );
    // A path the filter does not hold is not matched.
    assert_eq!(p.find_match(Criteria::Nothing, 1, &[curve_step()], 1, 2), None);
    // An empty path bypasses the operation.
    assert_eq!(
        p.find_match(Criteria::Nothing, 0, &[], 1, 2),
        Some(vec![ColorOpMatch { crtc: 3, ty: ColorOpMatchType::Bypass { gamma_lut: 7 } }])
    );
}

#[test]
fn crtc_pipeline_small_lut_takes_no_curve() {
    let p = CrtcColorPipeline {
        crtc: 3,
        ops: vec![CrtcColorOp { size: 256, gamma_lut: 7 }],
        filter: filter_with(Criteria::Nothing, 0),
    };
    assert_eq!(p.find_match(Criteria::Nothing, 0, &[curve_step()], 1, 2), None);
    let plain = CrtcOpKind::GammaLut { eotf: None, input_is_scaled_for_dst_lut: true };
    assert_eq!(
        p.find_match(Criteria::Nothing, 0, &[plain], 1, 2),
        Some(vec![ColorOpMatch {
            crtc: 3,
            ty: ColorOpMatchType::GammaLut { gamma_lut: 7, eotf: None, size: 256, input_is_scaled_for_dst_lut: true },
        }])
    );
    // Two steps cannot be realized by one operation.
    assert_eq!(p.find_match(Criteria::Nothing, 0, &[plain, plain], 1, 2), None);
}

#[test]
fn crtc_pipelines_take_the_first_match() {
    let small = CrtcColorPipeline {
        crtc: 1,
        ops: vec![CrtcColorOp { size: 16, gamma_lut: 7 }],
        filter: filter_with(Criteria::Nothing, 0),
    };
    let large = CrtcColorPipeline {
        crtc: 2,
        ops: vec![CrtcColorOp { size: 4096, gamma_lut: 8 }],
        filter: filter_with(Criteria::Nothing, 0),
    };
    let pipelines = CrtcColorPipelines { pipelines: vec![small, large], filter: filter_with(Criteria::Nothing, 0) };
    let m = pipelines.find_match(Criteria::Nothing, 0, &[curve_step()], 4, 5).unwrap();
    assert_eq!(m.matches.len(), 1);
    assert_eq!(m.matches[0].crtc, 2);
    let none = CrtcColorPipelines { pipelines: vec![], filter: filter_with(Criteria::Nothing, 0) };
    assert!(none.find_match(Criteria::Nothing, 0, &[curve_step()], 4, 5).is_none());
}

#[test]
fn crtc_programming_of_each_use() {
    let matches = [
        ColorOpMatch { crtc: 1, ty: ColorOpMatchType::Bypass { gamma_lut: 9 } },
        ColorOpMatch {
            crtc: 1,
            ty: ColorOpMatchType::GammaLut {
                gamma_lut: 9,
                eotf: Some(CurveConfig::Both(3, 4)),
                size: 4096,
                input_is_scaled_for_dst_lut: true,
            },
        },
        ColorOpMatch {
            crtc: 1,
            ty: ColorOpMatchType::GammaLut { gamma_lut: 9, eotf: None, size: 256, input_is_scaled_for_dst_lut: false },
        },
        ColorOpMatch {
            crtc: 1,
            ty: ColorOpMatchType::GammaLut { gamma_lut: 9, eotf: None, size: 128, input_is_scaled_for_dst_lut: false },
        },
    ];
    let plan = crtc_programming_plan(&matches, 42, Some(([6; 32], 256)));
    assert_eq!(plan.len(), 4);
    assert!(matches!(plan[0], CrtcOpProgramming::ClearLut { crtc: 1, gamma_lut: 9 }));
    match plan[1] {
        CrtcOpProgramming::SetLut { key, source, .. } => {
            assert_eq!(key.dst, Some(42));
            assert_eq!(key.client_gamma_lut, Some([6; 32]));
            assert_eq!(source, LutSource::Curve(CurveConfig::Both(3, 4)));
        },
        _ => panic!("expected a LUT"),
    }
    match plan[2] {
        CrtcOpProgramming::SetLut { key, source, .. } => {
            assert_eq!(key.dst, None);
            assert_eq!(source, LutSource::ClientRaw);
        },
        _ => panic!("expected a LUT"),
    }
    match plan[3] {
        CrtcOpProgramming::SetLut { source, .. } => assert_eq!(source, LutSource::Sized(128)),
        _ => panic!("expected a LUT"),
    }
    let identity = crtc_programming_plan(&matches[2..3], 42, None);
    match identity[0] {
        CrtcOpProgramming::SetLut { key, source, .. } => {
            assert_eq!(key.client_gamma_lut, None);
            assert_eq!(source, LutSource::Sized(256));
        },
        _ => panic!("expected a LUT"),
    }
}

#[test]
fn criteria_of_transformations() {
    let srgb = ColorEotf { id: 1, kind: EotfKind::CompoundPower24 };
    let pq = ColorEotf { id: 2, kind: EotfKind::St2084Pq };
    let linear = ColorEotf { id: 3, kind: EotfKind::Linear };
    assert_eq!(compute_criteria(false, srgb, srgb), Criteria::Nothing);
    assert_eq!(
        compute_criteria(true, srgb, srgb),
        Criteria::Needs {
            src_eotf: SrcEotfCriterion::WithEotf { curve_needs_scale: false },
            dst_eotf: DstEotfCriterion::WithEotf { curve_needs_scale: false, scale_lut_input: false },
        }
    );
    assert_eq!(
        compute_criteria(false, linear, pq),
        Criteria::Needs {
            src_eotf: SrcEotfCriterion::NoEotf,
            dst_eotf: DstEotfCriterion::WithEotf { curve_needs_scale: true, scale_lut_input: true },
        }
    );
    assert_eq!(
        compute_criteria(true, linear, linear),
        Criteria::Needs { src_eotf: SrcEotfCriterion::NoEotf, dst_eotf: DstEotfCriterion::NoEotf }
    );
}

#[test]
fn plane_curve_types() {
    assert_eq!(plane_curve_type(EotfKind::St2084Pq, PlaneOpTarget::Src), Some(ColorOpCurve1dType::Pq125Eotf));
    assert_eq!(plane_curve_type(EotfKind::Gamma22, PlaneOpTarget::Dst), Some(ColorOpCurve1dType::Gamma22Inverse));
    assert_eq!(plane_curve_type(EotfKind::CompoundPower24, PlaneOpTarget::Dst), Some(ColorOpCurve1dType::SrgbInverseEotf));
    assert_eq!(plane_curve_type(EotfKind::Linear, PlaneOpTarget::Src), None);
    assert_eq!(ColorOpCurve1dType::Gamma22Inverse.index(), 7);
}

#[test]
fn viable_paths_are_in_both_filters() {
    let mut plane = Filter::new(&[70; NUM_CRITERIA]);
    let mut crtc = Filter::new(&[70; NUM_CRITERIA]);
    plane.filter[0][0] = 0b1011;
    plane.filter[0][1] = 0b1;
    crtc.filter[0][0] = 0b0110;
    crtc.filter[0][1] = 0b1;
    assert_eq!(viable_paths(&plane, &crtc, Criteria::Nothing, 70), vec![1, 64]);
    assert_eq!(viable_paths(&plane, &crtc, Criteria::Nothing, 2), vec![1]);
}

#[test]
fn paths_suit_transformations() {
    let supported = [true, true, false, false, false, false, false, false];
    let req = PathRequirements {
        src_curve: Some(ColorOpCurve1dType::SrgbEotf),
        dst_curve: None,
        needs_matrix: true,
        target_contained_in_primary: false,
        has_cursor_plane: true,
        needs_gamma_lut: false,
    };
    let path = |flags: u8| Path { flags, pl_lo: 0, pl_len: 0, cl_lo: 0, cl_len: 0 };
    assert!(path_suits(path(PATH_SUPPORTS_MATRIX | PATH_HAS_SRC_CURVE), req, &supported));
    assert!(!path_suits(path(PATH_HAS_SRC_CURVE), req, &supported));
    assert!(!path_suits(path(PATH_SUPPORTS_MATRIX | PATH_MATRIX_VIA_LUT), req, &supported));
    assert!(!path_suits(path(PATH_SUPPORTS_MATRIX | PATH_HAS_GAMMA_LUT), req, &supported));
    assert!(path_suits(path(PATH_SUPPORTS_MATRIX | PATH_HAS_GAMMA_LUT | PATH_GAMMA_LUT_IS_RAW), req, &supported));
    let pq = PathRequirements { src_curve: Some(ColorOpCurve1dType::Pq125Eotf), ..req };
    assert!(!path_suits(path(PATH_SUPPORTS_MATRIX | PATH_HAS_SRC_CURVE), pq, &supported));
    let lut = PathRequirements { needs_gamma_lut: true, ..req };
    assert!(!path_suits(path(PATH_SUPPORTS_MATRIX), lut, &supported));
    assert!(plane_path_allowed(0, false));
    assert!(!plane_path_allowed(2, false));
    assert!(plane_path_allowed(2, true));
}

#[test]
fn amd_cursor_disables_plane_pipelines() {
    let k = programming_key(1, 2, 3, 4, 5, None, true, true, true, false);
    assert!(!k.use_plane_color_pipelines);
    let k = programming_key(1, 2, 3, 4, 5, None, true, true, true, true);
    assert!(k.use_plane_color_pipelines);
    let k = programming_key(1, 2, 3, 4, 5, None, true, true, false, false);
    assert!(k.use_plane_color_pipelines);
    let k = programming_key(1, 2, 3, 4, 5, None, false, true, true, false);
    assert!(k.use_plane_color_pipelines);
    let a = programming_key(1, 2, 3, 4, 5, Some([1; 32]), false, true, false, false);
    let b = programming_key(1, 2, 3, 4, 5, Some([1; 32]), false, true, false, false);
    let c = programming_key(1, 2, 3, 4, 5, Some([2; 32]), false, true, false, false);
    assert!(same_key(&a, &b));
    assert!(!same_key(&a, &c));
}

#[test]
fn connector_remembers_programmings_and_failures() {
    let key = programming_key(1, 2, 3, 4, 5, None, false, true, false, false);
    let other = programming_key(1, 2, 3, 9, 5, None, false, true, false, false);
    let mut c = MetalCmConnector::new();
    assert!(matches!(c.find_cached(&key), CacheAnswer::Miss));
    assert!(matches!(c.on_registry(key, None), RegistryAnswer::Compute));
    let p = c.on_computed(key, 10, false).unwrap();
    assert!(c.is_different(&p));
    c.apply(p);
    assert!(!c.is_different(&p));
    assert!(matches!(c.find_cached(&key), CacheAnswer::Hit(h) if h.id == 10));
    // A failed key is answered without asking the registry.
    assert!(c.on_computed(other, 11, true).is_none());
    assert!(matches!(c.find_cached(&other), CacheAnswer::KnownFailed));
    // After invalidation the programming in use becomes the previous one.
    c.invalidate();
    assert!(c.current.is_none());
    assert!(matches!(c.find_cached(&key), CacheAnswer::Hit(h) if h.id == 10));
    assert!(matches!(c.find_cached(&other), CacheAnswer::Miss));
    assert!(matches!(c.on_registry(other, Some((12, true))), RegistryAnswer::Failed));
    assert!(matches!(c.find_cached(&other), CacheAnswer::KnownFailed));
    assert!(matches!(c.on_registry(other, Some((13, false))), RegistryAnswer::Use(u) if u.id == 13));
}

#[test]
fn candidate_paths_keep_viable_order() {
    let supported = [true, true, false, false, false, false, false, false];
    let req = PathRequirements {
        src_curve: None,
        dst_curve: None,
        needs_matrix: true,
        target_contained_in_primary: true,
        has_cursor_plane: false,
        needs_gamma_lut: false,
    };
    let path = |flags: u8, pl_len: u8| Path { flags, pl_lo: 0, pl_len, cl_lo: 0, cl_len: 0 };
    let paths = [
        path(PATH_SUPPORTS_MATRIX, 0),
        path(0, 0),
        path(PATH_SUPPORTS_MATRIX, 2),
        path(PATH_SUPPORTS_MATRIX, 0),
    ];
    let r = jay_compositor::backends::metal::video::metal_cm::metal_cm_matcher::candidate_paths(
        &[3, 2, 1, 0],
        &paths,
        req,
        &supported,
        false,
    );
    assert_eq!(r, vec![3, 0]);
    let r = jay_compositor::backends::metal::video::metal_cm::metal_cm_matcher::candidate_paths(
        &[3, 2, 1, 0],
        &paths,
        req,
        &supported,
        true,
    );
    assert_eq!(r, vec![3, 2, 0]);
}
