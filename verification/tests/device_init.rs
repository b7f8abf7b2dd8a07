use jay_compositor::backend::Mode;
use jay_compositor::backends::dummy::XRGB8888;
use jay_compositor::backends::metal::video::device_init::ConnectorInit;
use jay_compositor::backends::metal::video::device_init::InitFallback;
use jay_compositor::backends::metal::video::device_init::InitQuirk;

const FIRST: Mode = Mode { width: 1920, height: 1080, refresh_rate_millihz: 60_000 };
const OTHER: Mode = Mode { width: 1280, height: 720, refresh_rate_millihz: 60_000 };
const ARGB: u32 = 0x34325241;

#[test]
fn features_are_given_up_one_at_a_time() {
    let cs = [
        ConnectorInit { mode: OTHER, first_mode: FIRST, format: XRGB8888, direct_scanout_active: false },
        ConnectorInit { mode: FIRST, first_mode: FIRST, format: ARGB, direct_scanout_active: true },
    ];
    let mut f = InitFallback::new(&cs);
    assert_eq!(f.quirks, vec![InitQuirk::NonDefaultMode, InitQuirk::NonDefaultFormat, InitQuirk::DirectScanout]);
    assert_eq!(f.adjusted(cs[0]), None);
    assert!(f.after_failure());
    assert!(f.disable_direct_scanout);
    assert_eq!(f.adjusted(cs[1]), None);
    assert!(f.after_failure());
    assert_eq!(f.adjusted(cs[1]), Some((FIRST, XRGB8888)));
    assert_eq!(f.adjusted(cs[0]), None);
    assert!(f.after_failure());
    assert_eq!(f.adjusted(cs[0]), Some((FIRST, XRGB8888)));
    assert!(!f.after_failure());
}

#[test]
fn plain_devices_have_nothing_to_give_up() {
    let cs = [ConnectorInit { mode: FIRST, first_mode: FIRST, format: XRGB8888, direct_scanout_active: false }];
    let mut f = InitFallback::new(&cs);
    assert!(f.quirks.is_empty());
    assert!(!f.after_failure());
}
