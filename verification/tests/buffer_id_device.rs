use jay_compositor::buffer_id_device::check_device;
use jay_compositor::buffer_id_device::find_device;
use jay_compositor::buffer_id_device::is_on_device;
use jay_compositor::buffer_id_device::BufferIdDeviceError;
use jay_compositor::buffer_id_device::DeviceExtension;
use jay_compositor::buffer_id_device::DrmNodes;
use jay_compositor::buffer_id_device::API_VERSION_1_1;

fn nodes(primary: Option<(i64, i64)>, render: Option<(i64, i64)>) -> DrmNodes {
    DrmNodes {
        has_primary: primary.is_some(),
        primary_major: primary.map_or(0, |p| p.0),
        primary_minor: primary.map_or(0, |p| p.1),
        has_render: render.is_some(),
        render_major: render.map_or(0, |p| p.0),
        render_minor: render.map_or(0, |p| p.1),
    }
}

#[test]
fn the_vulkan_device_of_a_drm_device() {
    let devices = [
        None,
        Some(nodes(Some((226, 0)), Some((226, 128)))),
        Some(nodes(Some((226, 1)), Some((226, 129)))),
    ];
    assert_eq!(find_device(&devices, 226, 1), Ok(2));
    assert_eq!(find_device(&devices, 226, 128), Ok(1));
    assert_eq!(find_device(&devices, 226, 2), Err(BufferIdDeviceError::NoVulkanDevice));
    // A node that the device does not have does not match.
    let devices = [Some(nodes(None, Some((226, 128))))];
    assert_eq!(find_device(&devices, 0, 0), Err(BufferIdDeviceError::NoVulkanDevice));
}

#[test]
fn devices_need_vulkan_1_1_and_the_extensions() {
    assert_eq!(check_device(API_VERSION_1_1 - 1, &[true; 3]), Err(BufferIdDeviceError::NoVulkan11));
    assert_eq!(check_device(API_VERSION_1_1, &[true; 3]), Ok(()));
    assert_eq!(
        check_device(API_VERSION_1_1, &[true, false, false]),
        Err(BufferIdDeviceError::MissingDeviceExtensions(DeviceExtension::ExternalMemoryDmaBuf))
    );
    assert_eq!(
        check_device(API_VERSION_1_1, &[true, true, false]),
        Err(BufferIdDeviceError::MissingDeviceExtensions(DeviceExtension::Maintenance9))
    );
}

#[test]
fn buffers_on_device_local_memory() {
    let local = [false, true, false];
    assert!(is_on_device(&[0b010, 0b110], false, &local));
    assert!(!is_on_device(&[0b010, 0b100], false, &local));
    // With one file only the first plane is asked about.
    assert!(is_on_device(&[0b010, 0b100], true, &local));
    assert!(!is_on_device(&[0b101], true, &local));
    assert!(is_on_device(&[], false, &local));
}
