use jay_compositor::backends::metal::monitor::classify_added_device;
use jay_compositor::backends::metal::monitor::pause_action;
use jay_compositor::backends::metal::monitor::AddedDevice;
use jay_compositor::backends::metal::monitor::PauseAction;

#[test]
fn added_devices_are_classified() {
    assert_eq!(classify_added_device(Some(b"input"), Some(b"event3")), AddedDevice::Input);
    assert_eq!(classify_added_device(Some(b"input"), Some(b"mouse0")), AddedDevice::Other);
    assert_eq!(classify_added_device(Some(b"input"), Some(b"even")), AddedDevice::Other);
    assert_eq!(classify_added_device(Some(b"drm"), Some(b"card1")), AddedDevice::Drm);
    assert_eq!(classify_added_device(Some(b"drm"), Some(b"renderD128")), AddedDevice::Other);
    assert_eq!(classify_added_device(Some(b"drm"), Some(b"card1-HDMI-A-1")), AddedDevice::Other);
    assert_eq!(classify_added_device(Some(b"sound"), Some(b"card0")), AddedDevice::Other);
    assert_eq!(classify_added_device(None, Some(b"card0")), AddedDevice::Other);
    assert_eq!(classify_added_device(Some(b"drm"), None), AddedDevice::Other);
}

#[test]
fn pauses_of_the_session() {
    assert_eq!(pause_action(b"pause"), PauseAction { acknowledge: true, removed: false });
    assert_eq!(pause_action(b"gone"), PauseAction { acknowledge: false, removed: true });
    assert_eq!(pause_action(b"force"), PauseAction { acknowledge: false, removed: false });
}
