use ahash::AHashMap;
use indexmap::IndexSet;
use jay_compositor::backends::metal::present::direct_scanout_format;
use jay_compositor::backend::BackendColorSpace;
use jay_compositor::backend::BackendConnectorState;
use jay_compositor::backend::BackendEotfs;
use jay_compositor::backend::Mode;
use jay_compositor::backends::dummy::XRGB8888;
use jay_compositor::backends::metal::present::commit_failure;
use jay_compositor::backends::metal::present::cursor_changed;
use jay_compositor::backends::metal::present::cursor_programming;
use jay_compositor::backends::metal::present::frame_start;
use jay_compositor::backends::metal::present::latch_time;
use jay_compositor::backends::metal::present::next_buffer_index;
use jay_compositor::backends::metal::present::present_done;
use jay_compositor::backends::metal::present::program_connector;
use jay_compositor::backends::metal::present::scanout_source;
use jay_compositor::backends::metal::present::try_async_flip;
use jay_compositor::backends::metal::present::CommitFailure;
use jay_compositor::backends::metal::present::CursorFlip;
use jay_compositor::backends::metal::present::CursorProgrammingType;
use jay_compositor::backends::metal::present::DirectScanoutPosition;
use jay_compositor::backends::metal::present::FrameStart;
use jay_compositor::backends::metal::present::PresentedFb;
use jay_compositor::backends::metal::present::ScanoutSource;
use jay_compositor::backends::metal::transaction::tx_change::PlaneProps;
use jay_compositor::backends::metal::transaction::tx_change::PropChange;
use jay_compositor::backends::metal::transaction::DrmConnectorState;
use jay_compositor::backends::metal::transaction::DrmPlaneState;
use jay_compositor::backends::metal::video::connector::connector_changes;
use jay_compositor::backends::metal::video::connector::front_transition;
use jay_compositor::backends::metal::video::connector::is_desktop;
use jay_compositor::backends::metal::video::connector::monitor_modes;
use jay_compositor::backends::metal::video::connector::removal_events;
use jay_compositor::backends::metal::video::connector::sanitize_state;
use jay_compositor::backends::metal::video::connector::should_disconnect;
use jay_compositor::backends::metal::video::connector::supported_color_spaces;
use jay_compositor::backends::metal::video::connector::supported_eotfs;
use jay_compositor::backends::metal::video::connector::vrr_refresh_max_nsec;
use jay_compositor::backends::metal::video::connector::ConnectorEventKind;
use jay_compositor::backends::metal::video::connector::DisplayCapabilities;
use jay_compositor::backends::metal::video::FrontState;

fn props(base: u32) -> PlaneProps {
    PlaneProps {
        fb_id: base,
        in_fence_fd: base + 1,
        crtc_id: base + 2,
        src_x: base + 3,
        src_y: base + 4,
        src_w: base + 5,
        src_h: base + 6,
        crtc_x: base + 7,
        crtc_y: base + 8,
        crtc_w: base + 9,
        crtc_h: base + 10,
    }
}

#[test]
fn frames_wait_for_the_next_vblank() {
    assert_eq!(frame_start(true, 5, 100, 10, 10, 7), FrameStart { wait_until: None, expected_sequence: None });
    assert_eq!(
        frame_start(false, 5, 100, 10, 10, 7),
        FrameStart { wait_until: Some(80), expected_sequence: Some(8) }
    );
    // Too late for the next vblank: the frame starts at once and aims at
    // the one after.
    assert_eq!(frame_start(false, 90, 100, 10, 10, 7), FrameStart { wait_until: None, expected_sequence: Some(9) });
    // The margins never go below zero.
    assert_eq!(frame_start(false, 0, 15, 10, 10, 7), FrameStart { wait_until: None, expected_sequence: Some(9) });
    assert_eq!(latch_time(true, 3, 9), 3);
    assert_eq!(latch_time(false, 3, 9), 9);
    assert!(try_async_flip(true, true));
    assert!(!try_async_flip(true, false));
}

#[test]
fn cursor_programming_follows_changes() {
    assert_eq!(next_buffer_index(0, 2), 1);
    assert_eq!(next_buffer_index(1, 2), 0);
    assert!(cursor_changed(true, true, false, 1, 2, 3, 3));
    assert!(!cursor_changed(true, true, false, 1, 1, 3, 3));
    assert!(cursor_changed(true, false, false, 1, 1, 3, 3));
    assert_eq!(cursor_programming(false, true, true, false, 0, 2, 1, 1), None);
    assert_eq!(cursor_programming(true, false, true, false, 0, 2, 1, 1), None);
    assert_eq!(
        cursor_programming(true, true, true, true, 4, 2, 7, 8),
        Some(CursorProgrammingType::Enable { buffer: 1, x: 7, y: 8, swap: true })
    );
    assert_eq!(
        cursor_programming(true, true, true, false, 4, 2, 7, 8),
        Some(CursorProgrammingType::Enable { buffer: 0, x: 7, y: 8, swap: false })
    );
    assert_eq!(cursor_programming(true, true, false, false, 4, 2, 7, 8), Some(CursorProgrammingType::Disable));
}

#[test]
fn flips_change_only_what_differs() {
    let mut ps = DrmPlaneState::new();
    ps.src_w = 1920 << 16;
    ps.src_h = 1080 << 16;
    ps.crtc_w = 1920;
    ps.crtc_h = 1080;
    let conn = DrmConnectorState::new();
    let fb = PresentedFb { fb: 55, locked: false, direct: None };
    let plan = program_connector(3, 20, props(100), ps, 1920, 1080, Some(fb), None, conn, true, true, false, true);
    assert_eq!(plan.changes, vec![PropChange { object: 20, prop: 100, value: 55 }]);
    assert!(plan.try_async);
    assert!(plan.in_fence_on_primary);
    assert!(plan.out_fence);
    assert_eq!(plan.connector_state.fb, 55);
    assert_eq!(plan.connector_state.fb_idx, 1);
    assert_eq!(plan.primary_state.unwrap().fb_id, 55);
    // A directly scanned-out buffer at another position changes the
    // rectangle, which rules out tearing, and keeps the buffer index.
    let direct = DirectScanoutPosition {
        src_width: 800,
        src_height: 600,
        crtc_x: 10,
        crtc_y: 20,
        crtc_width: 800,
        crtc_height: 600,
    };
    let fb = PresentedFb { fb: 56, locked: true, direct: Some(direct) };
    let plan = program_connector(3, 20, props(100), ps, 1920, 1080, Some(fb), None, conn, true, true, true, true);
    assert_eq!(
        plan.changes,
        vec![
            PropChange { object: 20, prop: 100, value: 56 },
            PropChange { object: 20, prop: 105, value: 800 << 16 },
            PropChange { object: 20, prop: 106, value: 600 << 16 },
            PropChange { object: 20, prop: 107, value: 10 },
            PropChange { object: 20, prop: 108, value: 20 },
            PropChange { object: 20, prop: 109, value: 800 },
            PropChange { object: 20, prop: 110, value: 600 },
        ]
    );
    assert!(!plan.try_async);
    assert!(!plan.out_fence);
    assert!(!plan.in_fence_on_primary);
    assert_eq!(plan.connector_state.fb_idx, 0);
    assert!(plan.connector_state.locked);
    assert_eq!(plan.connector_state.crtc_x, 10);
}

#[test]
fn flips_program_the_cursor() {
    let conn = DrmConnectorState::new();
    let cursor = CursorFlip {
        plane: 21,
        props: props(200),
        state: DrmPlaneState::new(),
        fb: 77,
        width: 64,
        height: 64,
        ty: CursorProgrammingType::Enable { buffer: 1, x: -5, y: 6, swap: true },
    };
    let plan = program_connector(3, 20, props(100), DrmPlaneState::new(), 1920, 1080, None, Some(cursor), conn, true, true, false, true);
    assert_eq!(plan.changes.len(), 10);
    assert_eq!(plan.changes[0], PropChange { object: 21, prop: 200, value: 77 });
    assert_eq!(plan.changes[1], PropChange { object: 21, prop: 202, value: 3 });
    assert_eq!(plan.changes[2], PropChange { object: 21, prop: 207, value: -5i32 as u64 });
    assert_eq!(plan.changes[8], PropChange { object: 21, prop: 205, value: 64 << 16 });
    assert!(!plan.try_async);
    assert!(plan.in_fence_on_cursor);
    assert_eq!(plan.connector_state.cursor_fb, 77);
    assert_eq!(plan.connector_state.cursor_fb_idx, 1);
    assert_eq!(plan.connector_state.cursor_x, -5);
    assert!(plan.primary_state.is_none());
    let off = CursorFlip { ty: CursorProgrammingType::Disable, ..cursor };
    let plan = program_connector(3, 20, props(100), DrmPlaneState::new(), 1920, 1080, None, Some(off), conn, false, false, false, true);
    assert_eq!(
        plan.changes,
        vec![PropChange { object: 21, prop: 200, value: 0 }, PropChange { object: 21, prop: 202, value: 0 }]
    );
    assert_eq!(plan.connector_state.cursor_fb, 0);
    assert!(!plan.in_fence_on_cursor);
}

#[test]
fn commits_and_their_aftermath() {
    assert_eq!(commit_failure(true, false, true), CommitFailure::RetryWithoutDirectScanout);
    assert_eq!(commit_failure(true, true, true), CommitFailure::Ignore);
    assert_eq!(commit_failure(false, false, false), CommitFailure::Fail);
    let d = present_done(Some(true), Some(CursorProgrammingType::Enable { buffer: 0, x: 0, y: 0, swap: true }), Some(3));
    assert!(d.zero_copy && d.reset_damage && !d.clear_buffer_damage && d.cursor_swapped);
    assert_eq!(d.consumed_damage, 3);
    let d = present_done(Some(false), Some(CursorProgrammingType::Disable), None);
    assert!(!d.zero_copy && !d.reset_damage && d.clear_buffer_damage && !d.cursor_swapped);
    assert_eq!(d.consumed_damage, 0);
    let d = present_done(None, None, None);
    assert!(!d.clear_buffer_damage);
    assert_eq!(scanout_source(true, false, true, true), Some(ScanoutSource::Client));
    assert_eq!(scanout_source(false, true, false, true), Some(ScanoutSource::Texture));
    assert_eq!(scanout_source(false, true, true, true), None);
    assert_eq!(scanout_source(false, false, false, true), None);
    assert_eq!(scanout_source(true, true, false, false), None);
}

#[test]
fn connector_event_states() {
    let desktop = FrontState::Connected { non_desktop: false };
    let nd = FrontState::Connected { non_desktop: true };
    assert_eq!(
        front_transition(FrontState::Disconnected, ConnectorEventKind::Connected { non_desktop_effective: true }),
        (true, nd)
    );
    assert_eq!(front_transition(desktop, ConnectorEventKind::Connected { non_desktop_effective: false }), (false, desktop));
    assert_eq!(front_transition(desktop, ConnectorEventKind::State), (true, desktop));
    assert_eq!(front_transition(nd, ConnectorEventKind::State), (false, nd));
    assert_eq!(front_transition(nd, ConnectorEventKind::Unavailable), (true, FrontState::Unavailable));
    assert_eq!(front_transition(FrontState::Unavailable, ConnectorEventKind::Available), (true, nd));
    assert_eq!(front_transition(FrontState::Unavailable, ConnectorEventKind::Disconnected), (true, FrontState::Disconnected));
    assert_eq!(front_transition(FrontState::Disconnected, ConnectorEventKind::Removed), (true, FrontState::Removed));
    assert_eq!(front_transition(FrontState::Removed, ConnectorEventKind::Disconnected), (false, FrontState::Removed));
    assert!(is_desktop(desktop));
    assert!(!is_desktop(nd));
    assert_eq!(removal_events(desktop), vec![ConnectorEventKind::Disconnected, ConnectorEventKind::Removed]);
    assert_eq!(removal_events(FrontState::Disconnected), vec![ConnectorEventKind::Removed]);
}

#[test]
fn connectors_that_appear_and_disappear() {
    let (new, removed) = connector_changes(&[1, 2, 3, 3], &[2, 4]);
    assert_eq!(new, vec![1, 3]);
    assert_eq!(removed, vec![4]);
    assert!(should_disconnect(false, true, true, false, false, false));
    // A display that became a non-desktop display while it has a primary
    // plane is disconnected.
    assert!(should_disconnect(true, true, true, true, false, false));
    assert!(!should_disconnect(true, true, true, false, false, false));
    assert!(should_disconnect(true, false, true, false, false, false));
    // A leased connector survives intermittent disconnects.
    assert!(!should_disconnect(true, false, true, false, true, true));
    assert!(should_disconnect(true, true, true, false, false, true));
}

#[test]
fn monitor_descriptions() {
    let a = Mode { width: 1920, height: 1080, refresh_rate_millihz: 60_000 };
    let b = Mode { width: 1280, height: 720, refresh_rate_millihz: 60_000 };
    assert_eq!(monitor_modes(&[a, a, b, a]), vec![a, b, a]);
    assert_eq!(monitor_modes(&[]), Vec::<Mode>::new());
    assert_eq!(supported_eotfs(true), vec![BackendEotfs::Pq]);
    assert_eq!(supported_eotfs(false), Vec::<BackendEotfs>::new());
    assert_eq!(supported_color_spaces(true), vec![BackendColorSpace::Bt2020]);
    assert_eq!(vrr_refresh_max_nsec(48), 20_833_333);
    assert_eq!(vrr_refresh_max_nsec(0), u64::MAX);
}

#[test]
fn desired_states_are_sanitized() {
    let first = Mode { width: 1920, height: 1080, refresh_rate_millihz: 60_000 };
    let other = Mode { width: 800, height: 600, refresh_rate_millihz: 60_000 };
    let mut s = BackendConnectorState {
        serial: 1,
        enabled: true,
        active: true,
        mode: Mode::default(),
        non_desktop_override: None,
        vrr: true,
        tearing: false,
        format: XRGB8888,
        color_space: BackendColorSpace::Bt2020,
        eotf: BackendEotfs::Pq,
        gamma_lut: None,
    };
    let caps = DisplayCapabilities { vrr_capable: false, supports_pq: false, supports_bt2020: true };
    sanitize_state(&mut s, first, &[first, other], caps);
    assert_eq!(s.mode, first);
    assert!(!s.vrr);
    assert_eq!(s.eotf, BackendEotfs::Default);
    assert_eq!(s.color_space, BackendColorSpace::Bt2020);
    s.mode = other;
    sanitize_state(&mut s, first, &[first, other], caps);
    assert_eq!(s.mode, other);
    sanitize_state(&mut s, first, &[first], caps);
    assert_eq!(s.mode, first);
    // Sanitizing again changes nothing.
    let before = s.clone();
    sanitize_state(&mut s, first, &[first], caps);
    assert_eq!(s.mode, before.mode);
    assert_eq!(s.vrr, before.vrr);
    assert_eq!(s.eotf, before.eotf);
    assert_eq!(s.color_space, before.color_space);
}

#[test]
fn pausing_and_resuming_a_device() {
    let nd = FrontState::Connected { non_desktop: true };
    let e = jay_compositor::backends::metal::video::connector::pause_event(nd);
    assert_eq!(e, Some(ConnectorEventKind::Unavailable));
    let (sent, paused) = front_transition(nd, e.unwrap());
    assert!(sent);
    assert_eq!(paused, FrontState::Unavailable);
    let e = jay_compositor::backends::metal::video::connector::resume_event(paused, false);
    assert_eq!(e, Some(ConnectorEventKind::Available));
    assert_eq!(front_transition(paused, e.unwrap()), (true, nd));
    // A leased connector stays unavailable.
    assert_eq!(jay_compositor::backends::metal::video::connector::resume_event(paused, true), None);
    let desktop = FrontState::Connected { non_desktop: false };
    assert_eq!(jay_compositor::backends::metal::video::connector::pause_event(desktop), None);
    assert_eq!(jay_compositor::backends::metal::video::connector::resume_event(desktop, false), None);
}

#[test]
fn direct_scanout_format_prefers_the_dmabufs_own_format() {
    const ARGB: u32 = 0x34325241;
    const XRGB: u32 = 0x34325258;
    let mut formats: AHashMap<u32, IndexSet<u64>> = AHashMap::new();
    formats.insert(XRGB, [0u64, 5].into_iter().collect());
    assert_eq!(direct_scanout_format(&formats, XRGB, None, 5), Some(XRGB));
    assert_eq!(direct_scanout_format(&formats, ARGB, Some(XRGB), 0), Some(XRGB));
    assert_eq!(direct_scanout_format(&formats, ARGB, Some(XRGB), 7), None);
    assert_eq!(direct_scanout_format(&formats, ARGB, None, 0), None);
    formats.insert(ARGB, [7u64].into_iter().collect());
    assert_eq!(direct_scanout_format(&formats, ARGB, Some(XRGB), 0), None);
    assert_eq!(direct_scanout_format(&formats, ARGB, Some(XRGB), 7), Some(ARGB));
}
