use jay_compositor::acceptor::require_xrd;
use jay_compositor::acceptor::socket_paths;
use jay_compositor::acceptor::stale_path_action;
use jay_compositor::acceptor::Acceptor;
use jay_compositor::acceptor::AcceptorError;
use jay_compositor::acceptor::SocketSearch;
use jay_compositor::acceptor::END_DISPLAY;
use jay_compositor::backend::BackendColorSpace;
use jay_compositor::backend::BackendEotfs;
use jay_compositor::backend::Mode;
use jay_compositor::backends::dummy::DummyOutput;
use jay_compositor::backends::dummy::XRGB8888;
use jay_compositor::backends::headless::check_monitor_poll;
use jay_compositor::backends::headless::choose_drm_node;
use jay_compositor::backends::headless::finish_gfx_api_change;
use jay_compositor::backends::headless::is_add_action;
use jay_compositor::backends::headless::is_primary_node;
use jay_compositor::backends::headless::plan_gfx_api_change;
use jay_compositor::backends::headless::plan_make_render_device;
use jay_compositor::backends::headless::should_add_device;
use jay_compositor::backends::headless::GfxApi;
use jay_compositor::backends::headless::GfxApiChange;
use jay_compositor::backends::headless::HeadlessBackendError;
use jay_compositor::backends::headless::HeadlessDeviceState;
use jay_compositor::backends::headless::RenderDeviceChange;
use jay_compositor::backends::metal::transaction::modes_equal;
use jay_compositor::backends::metal::transaction::DrmConnectorState;
use jay_compositor::backends::metal::transaction::DrmCrtcState;
use jay_compositor::backends::metal::transaction::DrmModeInfo;
use jay_compositor::backends::metal::video::display_refresh;
use jay_compositor::backends::metal::video::extend_sequence;
use jay_compositor::backends::metal::video::flip_time_ns;
use jay_compositor::backends::metal::video::non_desktop_effective;
use jay_compositor::backends::metal::video::post_commit_margin_update;
use jay_compositor::backends::metal::video::presentation_flags;
use jay_compositor::backends::metal::video::MarginUpdate;
use jay_compositor::backends::metal::video::TypedProperty;
use jay_compositor::bugs;
use jay_compositor::bugs::BugTable;

#[test]
fn known_clients_have_workarounds() {
    let chromium = bugs::get("chromium");
    assert!(chromium.respect_min_max_size);
    assert_eq!(chromium.min_size, None);
    let alacritty = bugs::get("Alacritty");
    assert!(!alacritty.respect_min_max_size);
    assert_eq!(alacritty.min_size, Some((100, 100)));
    let other = bugs::get("firefox");
    assert!(!other.respect_min_max_size);
    assert_eq!(other.min_size, None);
    // Application ids are compared exactly.
    assert!(!bugs::get("Chromium").respect_min_max_size);
    let table = BugTable::new();
    assert_eq!(table.get("Alacritty").min_size, Some((100, 100)));
    assert_eq!(table.get("").min_size, None);
}

#[test]
fn dummy_output_state() {
    let o = DummyOutput { id: 3 };
    assert_eq!(o.id(), 3);
    assert_eq!(o.kernel_id().ty, 0);
    assert_eq!(o.kernel_id().idx, 0);
    assert_eq!(o.drm_dev(), None);
    assert!(o.effectively_locked());
    let s = o.state();
    assert!(s.enabled);
    assert!(!s.active);
    assert_eq!(s.mode, Mode { width: 0, height: 0, refresh_rate_millihz: 40_000 });
    assert_eq!(s.format, XRGB8888);
    assert_eq!(XRGB8888, u32::from_le_bytes(*b"XR24"));
    assert_eq!(s.color_space, BackendColorSpace::Default);
    assert_eq!(s.eotf, BackendEotfs::Default);
    assert!(s.gamma_lut.is_none());
}

#[test]
fn headless_device_discovery() {
    assert!(is_primary_node(b"card0"));
    assert!(is_primary_node(b"card12"));
    assert!(is_primary_node(b"card"));
    assert!(!is_primary_node(b"card0-DP-1"));
    assert!(!is_primary_node(b"renderD128"));
    assert!(!is_primary_node(b"car"));
    assert!(should_add_device(Some(b"drm"), Some(b"card1"), false));
    assert!(!should_add_device(Some(b"drm"), Some(b"card1"), true));
    assert!(!should_add_device(Some(b"usb"), Some(b"card1"), false));
    assert!(!should_add_device(Some(b"drm"), None, false));
    assert!(!should_add_device(None, Some(b"card1"), false));
    assert!(is_add_action(Some(b"add")));
    assert!(!is_add_action(Some(b"remove")));
    assert!(!is_add_action(None));
}

#[test]
fn headless_node_choice() {
    let r = choose_drm_node(Some(b"/dev/dri/renderD128".to_vec()), Some(b"/dev/dri/card0".to_vec()));
    assert_eq!(r.unwrap(), b"/dev/dri/renderD128".to_vec());
    let r = choose_drm_node(None, Some(b"/dev/dri/card0".to_vec()));
    assert_eq!(r.unwrap(), b"/dev/dri/card0".to_vec());
    assert!(matches!(choose_drm_node(None, None), Err(HeadlessBackendError::NoDrmNodes)));
}

#[test]
fn headless_monitor_poll() {
    assert!(check_monitor_poll(1).is_ok());
    assert!(matches!(check_monitor_poll(8), Err(HeadlessBackendError::MonitorFdFailed)));
    assert!(matches!(check_monitor_poll(0x10 | 1), Err(HeadlessBackendError::MonitorFdFailed)));
}

#[test]
fn headless_gfx_api_changes() {
    let mut dev = HeadlessDeviceState { api: GfxApi::OpenGl, has_ctx: true, is_render_device: true };
    assert_eq!(plan_gfx_api_change(&dev, GfxApi::OpenGl), GfxApiChange::Nothing);
    assert_eq!(plan_gfx_api_change(&dev, GfxApi::Vulkan), GfxApiChange::CreateContext);
    let no_ctx = HeadlessDeviceState { has_ctx: false, ..dev };
    assert_eq!(plan_gfx_api_change(&no_ctx, GfxApi::Vulkan), GfxApiChange::Record);
    assert_eq!(finish_gfx_api_change(&mut dev, GfxApi::Vulkan, false), (false, false));
    assert_eq!(dev.api, GfxApi::OpenGl);
    assert_eq!(finish_gfx_api_change(&mut dev, GfxApi::Vulkan, true), (true, true));
    assert_eq!(dev.api, GfxApi::Vulkan);
    assert_eq!(plan_make_render_device(&dev), RenderDeviceChange::Nothing);
    let other = HeadlessDeviceState { is_render_device: false, ..dev };
    assert_eq!(plan_make_render_device(&other), RenderDeviceChange::UseContext);
    let bare = HeadlessDeviceState { is_render_device: false, ..no_ctx };
    assert_eq!(plan_make_render_device(&bare), RenderDeviceChange::CreateContext);
}

fn mode(clock: u32, name: &[u8], ty: u32) -> DrmModeInfo {
    let mut n = [0u8; 32];
    n[..name.len()].copy_from_slice(name);
    DrmModeInfo {
        clock,
        hdisplay: 1920,
        hsync_start: 2008,
        hsync_end: 2052,
        htotal: 2200,
        hskew: 0,
        vdisplay: 1080,
        vsync_start: 1084,
        vsync_end: 1089,
        vtotal: 1125,
        vscan: 0,
        vrefresh: 60,
        flags: 5,
        ty,
        name: n,
    }
}

#[test]
fn modes_compare_by_timings() {
    let a = mode(148_500, b"1920x1080", 0x48);
    let b = mode(148_500, b"other", 0x40);
    let c = mode(148_352, b"1920x1080", 0x48);
    assert!(modes_equal(&a, &a));
    assert!(modes_equal(&a, &b));
    assert!(modes_equal(&b, &a));
    assert!(!modes_equal(&a, &c));
    let crtc = DrmCrtcState::new();
    assert!(!crtc.active);
    assert!(crtc.mode.is_none());
    assert_eq!(crtc.assigned_connector, 0);
    let conn = DrmConnectorState::new();
    assert_eq!(conn.crtc_id, 0);
    assert!(!conn.locked);
}

#[test]
fn display_refresh_periods() {
    assert_eq!(display_refresh(true, Some(60_000)), 16_666_666);
    assert_eq!(display_refresh(true, Some(0)), 0);
    assert_eq!(display_refresh(true, None), 0);
    assert_eq!(display_refresh(false, Some(60_000)), 0);
    // A rate under one hertz gives a period that does not fit 32 bits; it
    // is truncated to them.
    assert_eq!(display_refresh(true, Some(1)), (1_000_000_000_000u64 as u32));
}

#[test]
fn non_desktop_rules() {
    assert!(non_desktop_effective(false, Some(false), false));
    assert!(non_desktop_effective(true, Some(true), false));
    assert!(!non_desktop_effective(true, Some(false), true));
    assert!(non_desktop_effective(true, None, true));
    assert!(!non_desktop_effective(true, None, false));
}

#[test]
fn sequences_extend_to_64_bits() {
    let old: u64 = 0x5_0000_0010;
    assert_eq!(extend_sequence(old, 0x20), Some(0x5_0000_0020));
    assert_eq!(extend_sequence(old, 0x10), Some(old));
    // The low bits went back: the sequence wrapped into the next 2^32.
    let near_end: u64 = 0x5_ffff_fff0;
    assert_eq!(extend_sequence(near_end, 0x5), Some(0x6_0000_0005));
    // A value more than 2^31 ahead is stepped back, which would go back.
    assert_eq!(extend_sequence(old, 0x9000_0000), None);
    // Near the start the step back cannot happen.
    assert_eq!(extend_sequence(0, 0x9000_0000), Some(0));
}

#[test]
fn flip_timing_and_flags() {
    assert_eq!(flip_time_ns(2, 500), 2_000_500_000);
    assert_eq!(flip_time_ns(u32::MAX, u32::MAX), u32::MAX as u64 * 1_000_000_000 + u32::MAX as u64 * 1000);
    assert_eq!(presentation_flags(false, false), 4);
    assert_eq!(presentation_flags(true, false), 5);
    assert_eq!(presentation_flags(false, true), 12);
    assert_eq!(presentation_flags(true, true), 13);
}

#[test]
fn post_commit_margin_updates() {
    assert_eq!(post_commit_margin_update(1, 1_000_000, 16_000_000, 500_000), MarginUpdate::Grow(1_500_000));
    assert_eq!(post_commit_margin_update(3, 15_800_000, 16_000_000, 500_000), MarginUpdate::Grow(16_000_000));
    assert_eq!(post_commit_margin_update(3, 16_000_000, 16_000_000, 500_000), MarginUpdate::Keep);
    assert_eq!(post_commit_margin_update(0, 1_000_000, 16_000_000, 500_000), MarginUpdate::Decay(500_000));
    assert_eq!(post_commit_margin_update(0, 400_000, 16_000_000, 500_000), MarginUpdate::Keep);
}

#[test]
fn typed_property_map_keeps_the_id() {
    let p = TypedProperty { id: 4, value: 21u64 };
    let q = p.map(|v| v * 2);
    assert_eq!(q.id, 4);
    assert_eq!(q.value, 42);
}

#[test]
fn socket_paths_of_a_display() {
    let p = socket_paths("/run/user/1000", 1).unwrap();
    assert_eq!(p.name, b"wayland-1".to_vec());
    assert_eq!(p.path, b"/run/user/1000/wayland-1".to_vec());
    assert_eq!(p.jay_path, b"/run/user/1000/wayland-1.jay".to_vec());
    assert_eq!(p.lock_path, b"/run/user/1000/wayland-1.lock".to_vec());
    let p = socket_paths("/tmp", 999).unwrap();
    assert_eq!(p.name, b"wayland-999".to_vec());
    let acceptor = Acceptor { paths: p };
    assert_eq!(acceptor.socket_name(), &b"wayland-999".to_vec());
    assert_eq!(acceptor.secure_path(), &b"/tmp/wayland-999.jay".to_vec());
}

#[test]
fn socket_paths_too_long() {
    // 93 + "/wayland-1.jay" (14) + NUL = 108 fits; one more byte does not.
    let fits = "x".repeat(93);
    assert!(socket_paths(&fits, 1).is_ok());
    let long = "x".repeat(94);
    assert_eq!(socket_paths(&long, 1).err(), Some(AcceptorError::XrdTooLong(long.clone())));
}

#[test]
fn runtime_dir_and_stale_paths() {
    assert_eq!(require_xrd(None), Err(AcceptorError::XrdNotSet));
    assert_eq!(require_xrd(Some("/run".to_string())), Ok("/run".to_string()));
    assert_eq!(stale_path_action(Ok(())), Ok(true));
    assert_eq!(stale_path_action(Err(2)), Ok(false));
    assert_eq!(stale_path_action(Err(13)), Err(AcceptorError::SocketStat(13)));
}

#[test]
fn socket_search_tries_each_display_once() {
    let mut s = SocketSearch::new();
    let mut tried = Vec::new();
    loop {
        match s.next_id() {
            Ok(id) => tried.push(id),
            Err(e) => {
                assert_eq!(e, AcceptorError::AddressesInUse);
                break;
            },
        }
    }
    assert_eq!(tried, (0..END_DISPLAY).collect::<Vec<u32>>());
    assert_eq!(tried[0], 0);
    assert_eq!(s.next_id(), Err(AcceptorError::AddressesInUse));
}
