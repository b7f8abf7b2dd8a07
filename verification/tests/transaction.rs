use ahash::AHashMap;
use indexmap::IndexSet;
use jay_compositor::backend::BackendColorSpace;
use jay_compositor::backend::BackendConnectorState;
use jay_compositor::backend::BackendEotfs;
use jay_compositor::backend::ConnectorKernelId;
use jay_compositor::backend::Mode;
use jay_compositor::backends::dummy::XRGB8888;
use jay_compositor::backends::metal::transaction::tx_apply::apply_damage;
use jay_compositor::backends::metal::transaction::tx_apply::connector_wiring;
use jay_compositor::backends::metal::transaction::tx_apply::frontend_actions;
use jay_compositor::backends::metal::transaction::tx_apply::plane_mode_sizes;
use jay_compositor::backends::metal::transaction::tx_apply::retry_with_modeset;
use jay_compositor::backends::metal::transaction::tx_apply::ConnectorApply;
use jay_compositor::backends::metal::transaction::tx_apply::ConnectorWiring;
use jay_compositor::backends::metal::transaction::tx_apply::CrtcApply;
use jay_compositor::backends::metal::transaction::tx_apply::FrontendAction;
use jay_compositor::backends::metal::transaction::tx_apply::PlaneApply;
use jay_compositor::backends::metal::transaction::tx_apply::PlaneUse;
use jay_compositor::backends::metal::transaction::tx_change::calculate_change;
use jay_compositor::backends::metal::transaction::tx_change::connector_changes;
use jay_compositor::backends::metal::transaction::tx_change::crtc_changes;
use jay_compositor::backends::metal::transaction::tx_change::plane_changes;
use jay_compositor::backends::metal::transaction::tx_change::ConnectorDiff;
use jay_compositor::backends::metal::transaction::tx_change::ConnectorProps;
use jay_compositor::backends::metal::transaction::tx_change::CrtcDiff;
use jay_compositor::backends::metal::transaction::tx_change::CrtcProps;
use jay_compositor::backends::metal::transaction::tx_change::CrtcValues;
use jay_compositor::backends::metal::transaction::tx_change::PlaneDiff;
use jay_compositor::backends::metal::transaction::tx_change::PlaneProps;
use jay_compositor::backends::metal::transaction::tx_change::PropChange;
use jay_compositor::backends::metal::transaction::tx_plan::calculate_drm_state;
use jay_compositor::backends::metal::transaction::tx_plan::checked_calculate_drm_state;
use jay_compositor::backends::metal::transaction::tx_plan::inputs_ok;
use jay_compositor::backends::metal::transaction::tx_plan::ConnectorChoice;
use jay_compositor::backends::metal::transaction::tx_plan::TxAction;
use jay_compositor::backends::metal::transaction::tx_plan::TxConnectorInfo;
use jay_compositor::backends::metal::transaction::tx_plan::TxCrtcInfo;
use jay_compositor::backends::metal::transaction::tx_plan::TxDevice;
use jay_compositor::backends::metal::transaction::tx_plan::TxPlaneInfo;
use jay_compositor::backends::metal::transaction::tx_plan::TxState;
use jay_compositor::backends::metal::transaction::tx_rules::buffers_reusable;
use jay_compositor::backends::metal::transaction::tx_rules::check_capabilities;
use jay_compositor::backends::metal::transaction::tx_rules::choose_fb;
use jay_compositor::backends::metal::transaction::tx_rules::drives_display;
use jay_compositor::backends::metal::transaction::tx_rules::hdr_update;
use jay_compositor::backends::metal::transaction::tx_rules::initial_hdr_metadata;
use jay_compositor::backends::metal::transaction::tx_rules::BackendConnectorTransactionError;
use jay_compositor::backends::metal::transaction::tx_rules::FbChoice;
use jay_compositor::backends::metal::transaction::tx_rules::HdrUpdate;
use jay_compositor::backends::metal::transaction::tx_rules::TxBuffers;
use jay_compositor::backends::metal::transaction::tx_rules::ARGB8888;
use jay_compositor::backends::metal::transaction::DrmConnectorState;
use jay_compositor::backends::metal::transaction::DrmCrtcState;
use jay_compositor::backends::metal::transaction::DrmModeInfo;
use jay_compositor::backends::metal::transaction::DrmPlaneState;
use jay_compositor::backends::metal::transaction::HdrMetadata;
use jay_compositor::backends::metal::video::DefaultProperty;
use jay_compositor::backends::metal::video::FrontState;
use jay_compositor::backends::metal::video::PlaneType;

fn state(enabled: bool, mode: Mode) -> BackendConnectorState {
    BackendConnectorState {
        serial: 1,
        enabled,
        active: true,
        mode,
        non_desktop_override: None,
        vrr: false,
        tearing: false,
        format: XRGB8888,
        color_space: BackendColorSpace::Default,
        eotf: BackendEotfs::Default,
        gamma_lut: None,
    }
}

fn drm_mode() -> DrmModeInfo {
    DrmModeInfo {
        clock: 148_500,
        hdisplay: 1920,
        hsync_start: 2008,
        hsync_end: 2052,
        htotal: 2200,
        hskew: 0,
        vdisplay: 1080,
        vsync_start: 1084,
        vsync_end: 1089,
        vtotal: 1125,
        vscan: 0,
        vrefresh: 60,
        flags: 5,
        ty: 0x48,
        name: [0; 32],
    }
}

fn formats(format: u32, mods: &[u64]) -> AHashMap<u32, IndexSet<u64>> {
    let mut m = AHashMap::new();
    m.insert(format, mods.iter().copied().collect());
    m
}

fn connector(id: u32, enabled: bool, crtcs: Vec<u32>, vrr: bool) -> TxConnectorInfo {
    let mode = Mode { width: 1920, height: 1080, refresh_rate_millihz: 60_000 };
    let mut s = state(enabled, mode);
    s.vrr = vrr;
    TxConnectorInfo {
        id,
        kernel_id: ConnectorKernelId { ty: 11, idx: id },
        state: s,
        connected: true,
        non_desktop: false,
        crtcs,
        modes: vec![drm_mode()],
        backend_modes: vec![mode],
        vrr_capable: false,
        supports_bt2020: false,
        supports_pq: false,
        has_hdr_metadata: false,
        buffers: None,
        cursor_buffers: None,
        direct_scanout_active: false,
        buffers_idle: true,
    }
}

fn device() -> TxDevice {
    TxDevice {
        session_locked: false,
        supports_async_commit: false,
        allow_direct_scanout: true,
        cursor_width: 64,
        cursor_height: 64,
    }
}

fn setup() -> (Vec<TxCrtcInfo>, Vec<TxPlaneInfo>) {
    let crtcs = vec![
        TxCrtcInfo { id: 10, possible_planes: vec![20, 21] },
        TxCrtcInfo { id: 11, possible_planes: vec![22] },
    ];
    let planes = vec![
        TxPlaneInfo { id: 20, ty: PlaneType::Primary, formats: formats(XRGB8888, &[0]) },
        TxPlaneInfo { id: 21, ty: PlaneType::Cursor, formats: formats(ARGB8888, &[0]) },
        TxPlaneInfo { id: 22, ty: PlaneType::Primary, formats: formats(XRGB8888, &[0]) },
    ];
    (crtcs, planes)
}

fn fresh_state(conn_crtcs: &[u32]) -> TxState {
    TxState {
        crtcs: vec![DrmCrtcState::new(), DrmCrtcState::new()],
        planes: vec![DrmPlaneState::new(), DrmPlaneState::new(), DrmPlaneState::new()],
        connectors: conn_crtcs
            .iter()
            .map(|&c| {
                let mut s = DrmConnectorState::new();
                s.crtc_id = c;
                s
            })
            .collect(),
        changed: vec![false; conn_crtcs.len()],
    }
}

#[test]
fn planner_assigns_a_crtc_planes_and_buffers() {
    let (crtcs, planes) = setup();
    let conns = vec![connector(30, true, vec![10, 11], false), connector(31, false, vec![11], false)];
    let mut st = fresh_state(&[0, 11]);
    let plan = calculate_drm_state(&device(), &crtcs, &planes, &conns, &mut st);
    assert_eq!(plan.result, Ok(()));
    assert_eq!(plan.choices, vec![Some(ConnectorChoice { crtc: 0, primary: 0, cursor: Some(1), mode: 0 }), None]);
    assert_eq!(
        plan.actions,
        vec![
            TxAction::CreateModeBlob { crtc: 0 },
            TxAction::AllocateBuffers { connector: 0, plane: 0, format: XRGB8888, width: 1920, height: 1080, cursor: false },
            TxAction::ShowNewBuffer { connector: 0, plane: 0, copy_from: None },
            TxAction::AllocateBuffers { connector: 0, plane: 1, format: ARGB8888, width: 64, height: 64, cursor: true },
        ]
    );
    assert!(st.changed[0]);
    assert!(!st.changed[1]);
    assert!(st.crtcs[0].active);
    assert_eq!(st.crtcs[0].assigned_connector, 30);
    assert!(st.crtcs[0].mode.is_some());
    // The CRTC of the disabled connector is released and reset.
    assert_eq!(st.crtcs[1].assigned_connector, 0);
    assert!(st.crtcs[1].mode.is_none());
    assert_eq!(st.connectors[1], DrmConnectorState::new());
    assert_eq!(st.connectors[0].crtc_id, 10);
    assert_eq!(st.connectors[0].src_w, 1920 << 16);
    assert_eq!(st.connectors[0].crtc_h, 1080);
    assert_eq!(st.planes[0].crtc_id, 10);
    assert_eq!(st.planes[0].assigned_crtc, 10);
    // The cursor plane belongs to the CRTC but shows nothing.
    assert_eq!(st.planes[1].assigned_crtc, 10);
    assert_eq!(st.planes[1].crtc_id, 0);
    assert_eq!(st.planes[2], DrmPlaneState::new());
    assert_eq!(plan.crtc_links, vec![(1, 1), (0, 0)]);
}

#[test]
fn planner_keeps_fitting_buffers() {
    let (crtcs, planes) = setup();
    let mut c = connector(30, true, vec![10], false);
    c.buffers = Some(TxBuffers {
        handle: 7,
        width: 1920,
        height: 1080,
        format: XRGB8888,
        render_ctx_current: true,
        dev_ctx_current: true,
        modifiers: vec![0, 0],
        fbs: vec![100, 101],
        locked: vec![false, false],
    });
    let mut st = fresh_state(&[10]);
    st.connectors[0].fb = 101;
    st.connectors[0].fb_idx = 1;
    let plan = calculate_drm_state(&device(), &crtcs, &planes, &[c], &mut st);
    assert_eq!(plan.result, Ok(()));
    assert_eq!(st.planes[0].fb_id, 101);
    assert_eq!(st.planes[0].buffers, Some(7));
    assert!(!plan.actions.iter().any(|a| matches!(a, TxAction::AllocateBuffers { plane: 0, .. })));
}

#[test]
fn planner_reports_missing_crtcs_and_capabilities() {
    let (crtcs, planes) = setup();
    // Both connectors can only use CRTC 10.
    let conns = vec![connector(30, true, vec![10], false), connector(31, true, vec![10], false)];
    let mut st = fresh_state(&[0, 0]);
    let plan = calculate_drm_state(&device(), &crtcs, &planes, &conns, &mut st);
    assert_eq!(
        plan.result,
        Err(BackendConnectorTransactionError::NoCrtcForConnector(ConnectorKernelId { ty: 11, idx: 31 }))
    );
    let conns = vec![connector(30, true, vec![10], true)];
    let mut st = fresh_state(&[0]);
    let plan = calculate_drm_state(&device(), &crtcs, &planes, &conns, &mut st);
    assert_eq!(plan.result, Err(BackendConnectorTransactionError::NotVrrCapable(ConnectorKernelId { ty: 11, idx: 30 })));
    // The buffers were asked for before VRR was found missing.
    assert!(plan.actions.iter().any(|a| matches!(a, TxAction::AllocateBuffers { plane: 0, .. })));
    let mut c = connector(30, true, vec![10], false);
    c.state.mode = Mode { width: 1, height: 1, refresh_rate_millihz: 1 };
    let mut st = fresh_state(&[0]);
    let plan = calculate_drm_state(&device(), &crtcs, &planes, &[c], &mut st);
    assert_eq!(
        plan.result,
        Err(BackendConnectorTransactionError::UnsupportedMode(
            ConnectorKernelId { ty: 11, idx: 30 },
            Mode { width: 1, height: 1, refresh_rate_millihz: 1 }
        ))
    );
}

#[test]
fn planner_needs_a_primary_plane_with_the_format() {
    let (crtcs, planes) = setup();
    let mut c = connector(30, true, vec![10], false);
    c.state.format = 0x1234;
    let mut st = fresh_state(&[0]);
    let plan = calculate_drm_state(&device(), &crtcs, &planes, &[c], &mut st);
    assert_eq!(
        plan.result,
        Err(BackendConnectorTransactionError::NoPrimaryPlaneForConnector(ConnectorKernelId { ty: 11, idx: 30 }))
    );
}

#[test]
fn rules_for_displays_buffers_and_capabilities() {
    let mut s = state(true, Mode::default());
    assert!(drives_display(&s, true, false));
    assert!(!drives_display(&s, true, true));
    s.non_desktop_override = Some(false);
    assert!(drives_display(&s, true, true));
    assert!(!drives_display(&s, false, false));
    s.enabled = false;
    assert!(!drives_display(&s, true, false));
    let b = TxBuffers {
        handle: 1,
        width: 10,
        height: 20,
        format: XRGB8888,
        render_ctx_current: true,
        dev_ctx_current: true,
        modifiers: vec![5, 6],
        fbs: vec![1, 2],
        locked: vec![false, false],
    };
    let mods: IndexSet<u64> = [5u64, 6].into_iter().collect();
    assert!(buffers_reusable(&b, 10, 20, XRGB8888, &mods));
    assert!(!buffers_reusable(&b, 11, 20, XRGB8888, &mods));
    let fewer: IndexSet<u64> = [5u64].into_iter().collect();
    assert!(!buffers_reusable(&b, 10, 20, XRGB8888, &fewer));
    let id = ConnectorKernelId { ty: 1, idx: 2 };
    let mut s = state(true, Mode::default());
    s.tearing = true;
    assert_eq!(check_capabilities(id, &s, false, false, false, false), Err(BackendConnectorTransactionError::TearingNotSupported(id)));
    assert_eq!(check_capabilities(id, &s, false, true, false, false), Ok(()));
    s.eotf = BackendEotfs::Pq;
    s.color_space = BackendColorSpace::Bt2020;
    assert_eq!(
        check_capabilities(id, &s, false, true, false, false),
        Err(BackendConnectorTransactionError::ColorSpaceNotSupported(id, BackendColorSpace::Bt2020))
    );
    assert_eq!(
        check_capabilities(id, &s, false, true, true, false),
        Err(BackendConnectorTransactionError::EotfNotSupported(id, BackendEotfs::Pq))
    );
}

#[test]
fn rules_for_framebuffers() {
    // A cursor plane without a cursor image shows nothing.
    assert_eq!(choose_fb(false, 0, 0, true, false, &[1, 2], false, None, false), FbChoice::Off);
    assert_eq!(choose_fb(true, 9, 0, true, true, &[1, 2], false, None, false), FbChoice::Direct(9));
    assert_eq!(choose_fb(true, 2, 0, true, false, &[1, 2], false, None, false), FbChoice::Keep(2));
    assert_eq!(choose_fb(true, 9, 3, true, false, &[1, 2], false, None, false), FbChoice::Current(1));
    // While locked, the next buffer is blanked.
    assert_eq!(choose_fb(true, 2, 3, false, false, &[1, 2], false, None, false), FbChoice::Blank(0));
    assert_eq!(
        choose_fb(true, 8, 3, true, false, &[], true, Some(&[7u32, 8][..]), true),
        FbChoice::NewBuffer { copy_from: Some(1) }
    );
    assert_eq!(
        choose_fb(true, 8, 3, true, false, &[], true, Some(&[7u32, 8][..]), false),
        FbChoice::NewBuffer { copy_from: None }
    );
}

#[test]
fn rules_for_hdr_metadata() {
    assert_eq!(hdr_update(false, BackendEotfs::Pq, None), HdrUpdate::Keep);
    assert_eq!(hdr_update(true, BackendEotfs::Pq, None), HdrUpdate::Create(2));
    assert_eq!(hdr_update(true, BackendEotfs::Pq, Some(HdrMetadata::Eotf(2))), HdrUpdate::Keep);
    assert_eq!(hdr_update(true, BackendEotfs::Pq, Some(HdrMetadata::Custom)), HdrUpdate::Create(2));
    assert_eq!(hdr_update(true, BackendEotfs::Default, Some(HdrMetadata::Eotf(2))), HdrUpdate::Clear);
    assert_eq!(hdr_update(true, BackendEotfs::Default, None), HdrUpdate::Clear);
    assert_eq!(initial_hdr_metadata(true, None), Some(HdrMetadata::Eotf(0)));
    assert_eq!(initial_hdr_metadata(true, Some(HdrMetadata::Custom)), Some(HdrMetadata::Custom));
    assert_eq!(initial_hdr_metadata(false, Some(HdrMetadata::Custom)), None);
}

fn plane_props() -> PlaneProps {
    PlaneProps {
        fb_id: 1,
        in_fence_fd: 2,
        crtc_id: 3,
        src_x: 4,
        src_y: 5,
        src_w: 6,
        src_h: 7,
        crtc_x: 8,
        crtc_y: 9,
        crtc_w: 10,
        crtc_h: 11,
    }
}

#[test]
fn changes_of_objects() {
    let props = ConnectorProps { crtc_id: 1, colorspace: Some(2), hdr_metadata: Some(3) };
    let o = DrmConnectorState::new();
    let mut n = o;
    n.crtc_id = 40;
    n.hdr_metadata_blob_id = 5;
    let mut untyped = AHashMap::new();
    untyped.insert(50u32, 1u64);
    let defaults = vec![
        DefaultProperty { name: "dither".to_string(), prop: 50, value: 0 },
        DefaultProperty { name: "max bpc".to_string(), prop: 51, value: 0 },
        DefaultProperty { name: "content type".to_string(), prop: 52, value: 4 },
    ];
    assert_eq!(
        connector_changes(9, props, &o, &n, true, &untyped, &defaults),
        vec![
            PropChange { object: 9, prop: 1, value: 40 },
            PropChange { object: 9, prop: 3, value: 5 },
            PropChange { object: 9, prop: 50, value: 0 },
            PropChange { object: 9, prop: 52, value: 4 },
        ]
    );
    assert_eq!(connector_changes(9, props, &o, &o, false, &untyped, &defaults), vec![]);
    let cprops = CrtcProps { active: 1, vrr_enabled: 2, mode_id: 3 };
    let a = CrtcValues { active: false, vrr_enabled: true, mode_blob_id: 7 };
    let b = CrtcValues { active: true, vrr_enabled: true, mode_blob_id: 8 };
    assert_eq!(
        crtc_changes(4, cprops, a, b, false, &untyped, &defaults),
        vec![PropChange { object: 4, prop: 1, value: 1 }, PropChange { object: 4, prop: 3, value: 8 }]
    );
    let po = DrmPlaneState::new();
    let mut pn = po;
    pn.fb_id = 77;
    pn.crtc_x = -1;
    assert_eq!(
        plane_changes(6, plane_props(), &po, &pn, false, &untyped, &[]),
        vec![
            PropChange { object: 6, prop: 1, value: 77 },
            PropChange { object: 6, prop: 2, value: u64::MAX },
            PropChange { object: 6, prop: 8, value: u64::MAX },
        ]
    );
}

#[test]
fn change_set_marks_linked_connectors() {
    let o = DrmConnectorState::new();
    let conns = vec![
        ConnectorDiff {
            id: 1,
            props: ConnectorProps { crtc_id: 1, colorspace: None, hdr_metadata: None },
            old: o,
            new: o,
            untyped: AHashMap::new(),
            defaults: vec![],
        },
        ConnectorDiff {
            id: 2,
            props: ConnectorProps { crtc_id: 1, colorspace: None, hdr_metadata: None },
            old: o,
            new: o,
            untyped: AHashMap::new(),
            defaults: vec![],
        },
    ];
    let crtcs = vec![CrtcDiff {
        id: 3,
        props: CrtcProps { active: 1, vrr_enabled: 2, mode_id: 3 },
        old: CrtcValues { active: false, vrr_enabled: false, mode_blob_id: 0 },
        new: CrtcValues { active: true, vrr_enabled: false, mode_blob_id: 0 },
        untyped: AHashMap::new(),
        defaults: vec![],
        links: vec![1],
    }];
    let p = DrmPlaneState::new();
    let planes = vec![PlaneDiff {
        id: 4,
        props: plane_props(),
        old: p,
        new: p,
        untyped: AHashMap::new(),
        defaults: vec![],
        links: vec![0],
    }];
    let set = calculate_change(&conns, &crtcs, &planes, false, vec![false, false]);
    assert_eq!(set.changes, vec![PropChange { object: 3, prop: 1, value: 1 }]);
    assert_eq!(set.connector_changed, vec![false, true]);
    let set = calculate_change(&conns, &crtcs, &planes, false, vec![true, false]);
    assert_eq!(set.connector_changed, vec![true, true]);
}

#[test]
fn apply_wires_changed_connectors() {
    let crtcs = [
        CrtcApply { id: 10, assigned_connector: 30, mode_size: Some((1920, 1080)) },
        CrtcApply { id: 11, assigned_connector: 0, mode_size: None },
    ];
    let planes = [
        PlaneApply { id: 20, ty: PlaneType::Primary, assigned_crtc: 10, fb_id: 100, buffers: Some(7) },
        PlaneApply { id: 21, ty: PlaneType::Cursor, assigned_crtc: 10, fb_id: 0, buffers: Some(8) },
        PlaneApply { id: 22, ty: PlaneType::Primary, assigned_crtc: 0, fb_id: 0, buffers: None },
    ];
    let conns = [
        ConnectorApply { id: 30, crtc_id: 10, changed: true },
        ConnectorApply { id: 31, crtc_id: 0, changed: true },
        ConnectorApply { id: 32, crtc_id: 0, changed: false },
    ];
    let w = connector_wiring(&crtcs, &planes, &conns);
    assert_eq!(
        w[0],
        Some(ConnectorWiring {
            crtc: Some(10),
            primary: Some(PlaneUse { plane: 20, buffers: Some(7), fb: 100 }),
            cursor: Some(PlaneUse { plane: 21, buffers: Some(8), fb: 0 }),
        })
    );
    assert_eq!(w[1], Some(ConnectorWiring { crtc: None, primary: None, cursor: None }));
    assert_eq!(w[2], None);
    assert_eq!(plane_mode_sizes(&crtcs, &planes), vec![Some((1920, 1080)), Some((1920, 1080)), None]);
    assert!(retry_with_modeset(false, false));
    assert!(!retry_with_modeset(true, false));
    assert!(!retry_with_modeset(false, true));
}

#[test]
fn apply_tells_the_compositor() {
    let desktop = FrontState::Connected { non_desktop: false };
    let non_desktop = FrontState::Connected { non_desktop: true };
    assert_eq!(frontend_actions(true, false, false, true, false, FrontState::Disconnected), vec![FrontendAction::SendConnected]);
    assert_eq!(
        frontend_actions(true, true, false, true, false, desktop),
        vec![FrontendAction::SendHardwareCursor, FrontendAction::SendFormats, FrontendAction::UpdateDrmFeedback, FrontendAction::SendState]
    );
    assert_eq!(frontend_actions(true, false, false, true, false, desktop), vec![]);
    assert_eq!(frontend_actions(true, false, false, true, false, non_desktop), vec![FrontendAction::SendDisconnected, FrontendAction::SendConnected]);
    assert_eq!(frontend_actions(false, true, true, true, true, desktop), vec![FrontendAction::SendDisconnected, FrontendAction::SendConnected]);
    assert_eq!(frontend_actions(false, true, true, true, true, non_desktop), vec![]);
    assert_eq!(frontend_actions(false, true, true, false, false, desktop), vec![FrontendAction::SendDisconnected]);
    assert_eq!(frontend_actions(false, true, true, false, false, FrontState::Removed), vec![]);
    let d = apply_damage(true, true, true, false);
    assert!(d.damage && !d.schedule_present);
    let d = apply_damage(true, true, true, true);
    assert!(d.schedule_present);
    assert!(!apply_damage(false, true, true, true).damage);
}

#[test]
fn planner_serves_each_connector_from_its_own_crtc() {
    let (crtcs, planes) = setup();
    let conns = vec![connector(30, true, vec![10, 11], false), connector(31, true, vec![10, 11], false)];
    let mut st = fresh_state(&[11, 0]);
    let plan = calculate_drm_state(&device(), &crtcs, &planes, &conns, &mut st);
    assert_eq!(plan.result, Ok(()));
    assert_eq!(st.connectors[0].crtc_id, 11);
    assert_eq!(st.connectors[1].crtc_id, 10);
    assert_eq!(st.crtcs[0].assigned_connector, 31);
    assert_eq!(st.crtcs[1].assigned_connector, 30);
    assert!(st.crtcs[0].active && st.crtcs[1].active);
}

#[test]
fn planner_keeps_a_crtc_that_two_connectors_start_on() {
    let (crtcs, planes) = setup();
    let conns = vec![connector(30, true, vec![10, 11], false), connector(31, true, vec![10, 11], false)];
    let mut st = fresh_state(&[10, 10]);
    let plan = calculate_drm_state(&device(), &crtcs, &planes, &conns, &mut st);
    assert_eq!(plan.result, Ok(()));
    assert_eq!(st.connectors[0].crtc_id, 10);
    assert_eq!(st.connectors[1].crtc_id, 10);
}

#[test]
fn planner_plans_a_connector_that_holds_its_crtc() {
    let (crtcs, planes) = setup();
    let conns = vec![connector(30, true, vec![10], false)];
    let mut st = fresh_state(&[10]);
    let plan = calculate_drm_state(&device(), &crtcs, &planes, &conns, &mut st);
    assert_eq!(plan.result, Ok(()));
    assert_eq!(plan.choices, vec![Some(ConnectorChoice { crtc: 0, primary: 0, cursor: Some(1), mode: 0 })]);
}

#[test]
fn checked_planner_refuses_inconsistent_inputs() {
    let (crtcs, planes) = setup();
    let conns = vec![connector(30, true, vec![10], false)];
    let st = fresh_state(&[10]);
    assert!(inputs_ok(&crtcs, &planes, &conns, &st));
    // A connector on a CRTC that does not exist.
    let mut st = fresh_state(&[99]);
    assert!(!inputs_ok(&crtcs, &planes, &conns, &st));
    assert!(checked_calculate_drm_state(&device(), &crtcs, &planes, &conns, &mut st).is_none());
    assert_eq!(st.connectors[0].crtc_id, 99);
    // Two CRTCs with the same id.
    let dup = vec![TxCrtcInfo { id: 10, possible_planes: vec![20] }, TxCrtcInfo { id: 10, possible_planes: vec![22] }];
    assert!(!inputs_ok(&dup, &planes, &conns, &fresh_state(&[0])));
    let mut st = fresh_state(&[0]);
    let plan = checked_calculate_drm_state(&device(), &crtcs, &planes, &conns, &mut st);
    assert_eq!(plan.map(|p| p.result), Some(Ok(())));
}
