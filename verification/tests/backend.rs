use jay_compositor::backend::AxisSource;
use jay_compositor::backend::BackendColorSpace;
use jay_compositor::backend::BackendEotfs;
use jay_compositor::backend::BackendGammaLut;
use jay_compositor::backend::InputDeviceAccelProfile;
use jay_compositor::backend::InputDeviceCapability;
use jay_compositor::backend::InputDeviceClickMethod;
use jay_compositor::backend::InputDeviceScrollMethod;
use jay_compositor::backend::Mode;
use jay_compositor::backend::ScrollAxis;

#[test]
fn mode_refresh_nsec_of_60hz() {
    let m = Mode { width: 1920, height: 1080, refresh_rate_millihz: 60_000 };
    assert_eq!(m.refresh_nsec(), 16_666_666);
    assert_eq!(m.size(), (1920, 1080));
}

#[test]
fn mode_refresh_nsec_of_zero_rate_never_refreshes() {
    let m = Mode { width: 1, height: 1, refresh_rate_millihz: 0 };
    assert_eq!(m.refresh_nsec(), u64::MAX);
}

#[test]
fn mode_refresh_nsec_of_144hz() {
    let m = Mode { width: 2560, height: 1440, refresh_rate_millihz: 143_999 };
    assert_eq!(m.refresh_nsec(), 1_000_000_000_000 / 143_999);
}

#[test]
fn capability_libinput_values() {
    assert_eq!(InputDeviceCapability::Keyboard.to_libinput(), 0);
    assert_eq!(InputDeviceCapability::Pointer.to_libinput(), 1);
    assert_eq!(InputDeviceCapability::Touch.to_libinput(), 2);
    assert_eq!(InputDeviceCapability::TabletTool.to_libinput(), 3);
    assert_eq!(InputDeviceCapability::TabletPad.to_libinput(), 4);
    assert_eq!(InputDeviceCapability::Gesture.to_libinput(), 5);
    assert_eq!(InputDeviceCapability::Switch.to_libinput(), 6);
    assert_eq!(InputDeviceCapability::TabletTool.text(), "tablet tool");
}

#[test]
fn scroll_method_round_trip() {
    for m in [
        InputDeviceScrollMethod::NoScroll,
        InputDeviceScrollMethod::TwoFingers,
        InputDeviceScrollMethod::Edge,
        InputDeviceScrollMethod::OnButtonDown,
    ] {
        assert_eq!(InputDeviceScrollMethod::from_libinput(m.to_libinput()), Some(m));
    }
    assert_eq!(InputDeviceScrollMethod::OnButtonDown.to_libinput(), 4);
    assert_eq!(InputDeviceScrollMethod::from_libinput(3), None);
    assert_eq!(InputDeviceScrollMethod::TwoFingers.text(), "Two Fingers");
}

#[test]
fn profile_and_click_method_texts() {
    assert_eq!(InputDeviceAccelProfile::Flat.text(), "Flat");
    assert_eq!(InputDeviceAccelProfile::Adaptive.text(), "Adaptive");
    assert_eq!(InputDeviceClickMethod::NoClick.text(), "none");
    assert_eq!(InputDeviceClickMethod::ButtonAreas.text(), "button-areas");
    assert_eq!(InputDeviceClickMethod::Clickfinger.text(), "clickfinger");
}

#[test]
fn wayland_axis_and_source_values() {
    assert_eq!(ScrollAxis::Vertical.wayland_axis(), 0);
    assert_eq!(ScrollAxis::Horizontal.wayland_axis(), 1);
    assert_eq!(AxisSource::Wheel.wayland_source(), 0);
    assert_eq!(AxisSource::Finger.wayland_source(), 1);
    assert_eq!(AxisSource::Continuous.wayland_source(), 2);
}

#[test]
fn eotf_and_color_space_drm_values() {
    assert_eq!(BackendEotfs::Default.to_drm(), 0);
    assert_eq!(BackendEotfs::Pq.to_drm(), 2);
    assert_eq!(BackendEotfs::Default.name(), "default");
    assert_eq!(BackendEotfs::Pq.name(), "pq");
    assert_eq!(BackendColorSpace::Default.to_drm(), 0);
    assert_eq!(BackendColorSpace::Bt2020.to_drm(), 9);
    assert_eq!(BackendColorSpace::Default.name(), "default");
    assert_eq!(BackendColorSpace::Bt2020.name(), "bt2020");
    assert_eq!(BackendEotfs::default(), BackendEotfs::Default);
    assert_eq!(BackendColorSpace::default(), BackendColorSpace::Default);
}

#[test]
fn gamma_lut_id_is_blake3_of_cleared_little_endian_words() {
    let lut = BackendGammaLut::new(vec![[0x0102, 0x0304, 0x0506, 0xffff], [1, 2, 3, 4]]);
    assert_eq!(*lut.gamma_lut(), vec![[0x0102, 0x0304, 0x0506, 0], [1, 2, 3, 0]]);
    let bytes: Vec<u8> = vec![2, 1, 4, 3, 6, 5, 0, 0, 1, 0, 2, 0, 3, 0, 0, 0];
    assert_eq!(lut.id(), *blake3::hash(&bytes).as_bytes());
}

#[test]
fn gamma_lut_id_ignores_reserved_words() {
    let a = BackendGammaLut::new(vec![[10, 20, 30, 0]]);
    let b = BackendGammaLut::new(vec![[10, 20, 30, 77]]);
    let c = BackendGammaLut::new(vec![[10, 20, 31, 0]]);
    assert!(a.same_lut(&b));
    assert_eq!(a.id(), b.id());
    assert!(!a.same_lut(&c));
}

#[test]
fn gamma_lut_of_nothing() {
    let lut = BackendGammaLut::new(vec![]);
    assert_eq!(lut.id(), *blake3::hash(&[]).as_bytes());
}
