use jay_compositor::backends::metal::video::metal_cm::metal_cm_plane_matcher::match_ops;
use jay_compositor::backends::metal::video::metal_cm::metal_cm_plane_matcher::MatchContext;
use jay_compositor::backends::metal::video::metal_cm::metal_cm_plane_matcher::OpMatch;
use jay_compositor::backends::metal::video::metal_cm::metal_cm_plane::ColorOp;
use jay_compositor::backends::metal::video::metal_cm::metal_cm_plane::ColorOpType;
use jay_compositor::backends::metal::video::metal_cm::metal_cm_paths::PlaneOpKind;
use jay_compositor::backends::metal::video::metal_cm::metal_cm_paths::PlaneOpTarget;
use jay_compositor::backends::metal::input::tablet_pad_info;
use jay_compositor::backends::metal::input::PadGroupDesc;
use jay_compositor::backend::BackendGammaLut;
use jay_compositor::async_engine::ae_fd::AsyncFdData;
use jay_compositor::async_engine::ae_fd::FdStatus;
use jay_compositor::async_engine::ae_fd::EPOLLHUP;
use jay_compositor::async_engine::ae_fd::EPOLLIN;
use jay_compositor::async_engine::ae_task::TaskState;
use jay_compositor::async_engine::ae_task::RUNNING;
use jay_compositor::async_engine::ae_task::RUN_AGAIN;
use jay_compositor::backend::transaction::ApplyRun;
use jay_compositor::backend::AxisSource;
use jay_compositor::backend::ScrollAxis;
use jay_compositor::backends::metal::allocator::error_text::scanout_buffer_error_text;
use jay_compositor::backends::metal::allocator::error_text::scanout_buffer_errors_text;
use jay_compositor::backends::metal::allocator::PrimeMethod;
use jay_compositor::backends::metal::allocator::RenderBufferAllocationDebug;
use jay_compositor::backends::metal::allocator::ScanoutBufferError;
use jay_compositor::backends::metal::allocator::ScanoutBufferErrorKind;
use jay_compositor::backends::metal::allocator::ScanoutBufferErrors;
use jay_compositor::backends::metal::input::lazy_id;
use jay_compositor::backends::metal::input::pointer_axis_events;
use jay_compositor::backends::metal::input::AxisEventKind;
use jay_compositor::backends::metal::input::AxisEventPlan;
use jay_compositor::backends::metal::input::AxisReading;

#[test]
fn waking_a_running_task_marks_it_to_run_again() {
    let mut t = TaskState::new();
    assert!(t.schedule_run());
    assert_eq!(t.state, RUNNING);
    assert!(!t.schedule_run());
    assert_eq!(t.state, RUNNING | RUN_AGAIN);
    assert_eq!(t.ref_count, 2);
}

#[test]
fn fd_event_wakes_readers_and_unregisters_when_nobody_waits() {
    let mut d = AsyncFdData::new();
    d.register(true);
    let mut readers = vec![1, 2];
    let mut writers = vec![3];
    let r: Result<_, ()> = d.dispatch_waiters(&mut readers, &mut writers, EPOLLIN, None);
    assert_eq!(r, Ok((FdStatus::Normal, vec![1, 2], None)));
    assert!(readers.is_empty());
    assert_eq!(writers, vec![3]);
    let mut none: Vec<u32> = vec![];
    let mut none2: Vec<u32> = vec![];
    let r: Result<_, ()> = d.dispatch_waiters(&mut none, &mut none2, EPOLLIN, None);
    assert_eq!(r, Ok((FdStatus::Normal, vec![], Some(0))));
    assert!(!d.read_registered);
}

#[test]
fn failed_fd_removal_wakes_nobody() {
    let mut d = AsyncFdData::new();
    let mut readers = vec![1];
    let mut writers = vec![2];
    let r = d.dispatch_waiters(&mut readers, &mut writers, EPOLLHUP, Some(Err("gone")));
    assert_eq!(r, Err("gone"));
    assert_eq!(readers, vec![1]);
    let r: Result<_, &str> = d.dispatch_waiters(&mut readers, &mut writers, EPOLLHUP, Some(Ok(())));
    assert_eq!(r, Ok((FdStatus::Failed, vec![1, 2], None)));
}

#[test]
fn apply_stops_at_first_failed_part() {
    let mut run = ApplyRun::new(3);
    assert_eq!(run.next_part(), Some(0));
    run.part_applied();
    assert_eq!(run.next_part(), Some(1));
    run.part_applied();
    assert_eq!(run.next_part(), Some(2));
    assert_eq!(run.part_failed(), vec![1, 0]);
    assert_eq!(run.next_part(), None);
}

#[test]
fn pointer_axis_event_list() {
    let h = AxisReading { present: true, zero: false };
    let v = AxisReading { present: true, zero: true };
    assert_eq!(
        pointer_axis_events(AxisSource::Wheel, h, v, Some(true)),
        vec![
            AxisEventPlan::Source(AxisSource::Wheel),
            AxisEventPlan::Axis { axis: ScrollAxis::Horizontal, kind: AxisEventKind::Axis120, inverted: true },
            AxisEventPlan::Axis { axis: ScrollAxis::Vertical, kind: AxisEventKind::Stop, inverted: true },
            AxisEventPlan::Frame,
        ]
    );
    let absent = AxisReading { present: false, zero: false };
    assert_eq!(
        pointer_axis_events(AxisSource::Finger, absent, h, None),
        vec![
            AxisEventPlan::Source(AxisSource::Finger),
            AxisEventPlan::Axis { axis: ScrollAxis::Vertical, kind: AxisEventKind::AxisPx, inverted: false },
            AxisEventPlan::Frame,
        ]
    );
}

#[test]
fn pad_id_is_kept() {
    let (id, taken) = lazy_id(None, 5);
    assert_eq!((id, taken), (5, true));
    assert_eq!(lazy_id(Some(id), 9), (5, false));
}

fn error(prime: Option<PrimeMethod>) -> ScanoutBufferError {
    let mut dbg = RenderBufferAllocationDebug::new();
    dbg.dev_modifier = Some(0x1f);
    dbg.render_copy_src_modifiers = Some(vec![0, 0xab]);
    ScanoutBufferError {
        dev: "/dev/dri/card0".to_string(),
        render_name: Some("/dev/dri/renderD128".to_string()),
        format: "XRGB8888".to_string(),
        plane_modifiers: vec![0, 0x100000000000001],
        width: -3,
        height: 1080,
        cursor: false,
        dbg,
        kind: ScanoutBufferErrorKind::UdmabufNotAvailable,
        prime,
    }
}

#[test]
fn scanout_error_report() {
    let text = scanout_buffer_error_text(&error(Some(PrimeMethod::Udmabuf)));
    assert_eq!(
        text,
        "\nprime type: udmabuf\nscanout device: /dev/dri/card0\nformat: XRGB8888\n\
         plane modifiers: {0, 100000000000001}\nsize: -3x1080\ncursor: false\n\
         scanout dev modifier: 1f\nrender device: /dev/dri/renderD128\n\
         render copy src modifiers: [0, ab]\n"
    );
    let both = scanout_buffer_errors_text(&ScanoutBufferErrors { errors: vec![error(None), error(None)] });
    let one = scanout_buffer_error_text(&error(None));
    assert_eq!(both, format!("{}\n------\n{}", one, one));
}

#[test]
fn scanout_error_report_with_empty_plane_set() {
    let mut dbg = RenderBufferAllocationDebug::new();
    dbg.dev_usage = Some(255);
    dbg.dev_gfx_read_modifiers = Some(vec![]);
    dbg.render_gfx_read_modifiers = Some(vec![]);
    let e = ScanoutBufferError {
        dev: "c1".to_string(),
        render_name: Some("r1".to_string()),
        format: "XRGB8888".to_string(),
        plane_modifiers: vec![],
        width: 2,
        height: 3,
        cursor: false,
        dbg,
        kind: ScanoutBufferErrorKind::UdmabufNotAvailable,
        prime: Some(PrimeMethod::Udmabuf),
    };
    assert_eq!(
        scanout_buffer_error_text(&e),
        "\nprime type: udmabuf\nscanout device: c1\nformat: XRGB8888\nplane modifiers: {}\nsize: 2x3\ncursor: false\n\
         scanout dev gbm usage: ff\nrender device: r1\nrender gfx readable modifiers: []\n\
         scanout gfx readable modifiers: []\n"
    );
}

#[test]
fn pad_info_keeps_its_id_and_lists_members() {
    let groups = vec![PadGroupDesc {
        buttons: vec![true, false, true],
        rings: vec![false],
        strips: vec![],
        dials: vec![true],
        modes: 2,
        mode: 1,
    }];
    let mut slot = None;
    let a = tablet_pad_info(&mut slot, true, Some(7), 3, 0, 1, 1, &groups).unwrap();
    let b = tablet_pad_info(&mut slot, true, None, 3, 0, 1, 1, &groups).unwrap();
    assert_eq!((a.id, b.id, slot), (7, 7, Some(7)));
    assert_eq!(a.groups[0].buttons, vec![0, 2]);
    assert_eq!(a.groups[0].rings, Vec::<u32>::new());
    assert_eq!(a.groups[0].dials, vec![0]);
    assert!(tablet_pad_info(&mut slot, false, None, 3, 0, 1, 1, &groups).is_none());
}

#[test]
fn gamma_lut_ids_ignore_reserved_words() {
    let a = BackendGammaLut::new(vec![[1, 2, 3, 4]]);
    let b = BackendGammaLut::new(vec![[1, 2, 3, 9]]);
    assert_eq!(*a.gamma_lut(), vec![[1, 2, 3, 0]]);
    assert_eq!(*b.gamma_lut(), vec![[1, 2, 3, 0]]);
    assert_eq!(a.id(), b.id());
}

fn curve_op(op: u32) -> ColorOp {
    ColorOp { op, bypass: Some(op + 100), ty: ColorOpType::Curve1d { types: vec![Some(3)], ty: 1 } }
}

#[test]
fn plane_path_matches_pipeline() {
    let ops = vec![
        curve_op(1),
        ColorOp { op: 2, bypass: Some(102), ty: ColorOpType::Matrix3x4 { data: 9 } },
        ColorOp { op: 3, bypass: Some(103), ty: ColorOpType::Lut1d { linear: None, interpolation: 4, size: 4096, data: 5 } },
    ];
    let nnb = vec![None, None, None];
    let matrix = PlaneOpKind::Matrix3x4 {
        apply_src_curve_scale: false,
        apply_dst_curve_scale: false,
        scale_for_dst_lut: false,
        has_multiply_before: false,
        has_multiply_after: false,
    };
    let path = vec![PlaneOpKind::Curve1d { target: PlaneOpTarget::Src }, matrix];
    let cx = MatchContext { src_curve: Some(0), dst_curve: None, matrix_fits: vec![true, true] };
    assert_eq!(match_ops(&ops, &nnb, &path, &cx), Some(vec![OpMatch::Perform, OpMatch::Perform, OpMatch::Bypass]));
    // A matrix that does not fit cannot be performed, and the path then fails.
    let cx = MatchContext { src_curve: Some(0), dst_curve: None, matrix_fits: vec![true, false] };
    assert_eq!(match_ops(&ops, &nnb, &path, &cx), None);
    // The empty path is met by bypassing everything.
    assert_eq!(match_ops(&ops, &nnb, &[], &cx), Some(vec![OpMatch::Bypass, OpMatch::Bypass, OpMatch::Bypass]));
    // An operation that cannot be bypassed must perform a step.
    let strict = vec![ColorOp { op: 1, bypass: None, ty: ColorOpType::Curve1d { types: vec![Some(3)], ty: 1 } }];
    assert_eq!(match_ops(&strict, &vec![None], &[], &cx), None);
}
