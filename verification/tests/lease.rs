use jay_compositor::backends::metal::video::lease::lease_check;
use jay_compositor::backends::metal::video::lease::LeaseCrtc;
use jay_compositor::backends::metal::video::lease::LeaseError;
use jay_compositor::backends::metal::video::lease::LeasePlan;
use jay_compositor::backends::metal::video::lease::LeasePlane;
use jay_compositor::backends::metal::video::FrontState;
use jay_compositor::backends::metal::video::PlaneType;

fn crtc(id: u32, has_connector: bool, leased: bool, possible_planes: Vec<usize>) -> LeaseCrtc {
    LeaseCrtc { id, has_connector, leased, possible_planes }
}

fn plane(id: u32, assigned: bool, ty: PlaneType) -> LeasePlane {
    LeasePlane { id, assigned, leased: false, ty }
}

#[test]
fn only_non_desktop_displays_are_leased() {
    assert_eq!(lease_check(FrontState::Connected { non_desktop: true }, None), Ok(None));
    assert_eq!(lease_check(FrontState::Connected { non_desktop: true }, Some(4)), Ok(Some(4)));
    for s in [
        FrontState::Connected { non_desktop: false },
        FrontState::Removed,
        FrontState::Disconnected,
        FrontState::Unavailable,
    ] {
        assert_eq!(lease_check(s, None), Err(LeaseError::InvalidState(s)));
    }
}

#[test]
fn lease_takes_unused_crtcs_and_primary_planes_once() {
    let crtcs = vec![
        crtc(40, true, false, vec![0]),
        crtc(41, false, false, vec![1, 2, 3]),
        crtc(42, false, false, vec![2, 3]),
    ];
    let planes = vec![
        plane(50, false, PlaneType::Primary),
        plane(51, false, PlaneType::Cursor),
        plane(52, false, PlaneType::Primary),
        plane(53, false, PlaneType::Primary),
    ];
    let mut plan = LeasePlan::new();
    assert_eq!(plan.add_connector(7, false, &[0, 1, 2], &crtcs, &planes), Ok(()));
    assert_eq!(plan.add_connector(8, false, &[0, 1, 2], &crtcs, &planes), Ok(()));
    assert_eq!(plan.crtcs, vec![1, 2]);
    assert_eq!(plan.planes, vec![2, 3]);
    assert_eq!(plan.ids, vec![7, 41, 52, 8, 42, 53]);
    // Every usable CRTC is taken now.
    assert_eq!(plan.add_connector(9, false, &[0, 1, 2], &crtcs, &planes), Err(LeaseError::NoUnusedCrtc));
    assert_eq!(plan.add_connector(9, true, &[0, 1, 2], &crtcs, &planes), Err(LeaseError::AlreadyLeased));
    assert_eq!(plan.ids.len(), 6);
}

#[test]
fn lease_needs_a_free_primary_plane() {
    let crtcs = vec![crtc(41, false, false, vec![0, 1])];
    let planes = vec![plane(50, true, PlaneType::Primary), plane(51, false, PlaneType::Overlay)];
    let mut plan = LeasePlan::new();
    assert_eq!(plan.add_connector(7, false, &[0], &crtcs, &planes), Err(LeaseError::NoUnusedPlane));
    assert!(plan.crtcs.is_empty() && plan.planes.is_empty() && plan.ids.is_empty());
}
