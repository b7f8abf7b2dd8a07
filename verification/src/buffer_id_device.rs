//! Telling whether a dma-buf lives in a device's own memory: the Vulkan
//! device of a DRM device is the one whose primary or render node has the
//! device's number; it must support Vulkan 1.1 and the extensions for
//! importing dma-bufs; a buffer is on the device when each of its memory
//! objects can be bound to a device-local memory type.

use vstd::prelude::*;

verus! {

/// `VK_API_VERSION_1_1`.
pub const API_VERSION_1_1: u32 = 4198400;

/// `VK_MAX_MEMORY_TYPES`.
pub const MAX_MEMORY_TYPES: usize = 32;

/// The device extensions needed, in the order they are checked.
#[derive(Copy, Clone, Debug, PartialEq, Eq, Structural)]
pub enum DeviceExtension {
    ExternalMemoryFd,
    ExternalMemoryDmaBuf,
    Maintenance9,
}

/// Why no buffer-id device could be made for a DRM device; where Vulkan
/// failed, its message is carried.
#[derive(Clone, Debug, PartialEq, Eq)]
pub enum BufferIdDeviceError {
    Core(String),
    EnumeratePhysicalDevice(String),
    NoVulkanDevice,
    NoVulkan11,
    MissingDeviceExtensions(DeviceExtension),
    CreateDevice(String),
    GetMemoryFdProperties(String),
}

/// The DRM nodes of a physical device (`VkPhysicalDeviceDrmPropertiesEXT`).
#[derive(Copy, Clone, Debug, PartialEq, Eq, Structural)]
pub struct DrmNodes {
    pub has_primary: bool,
    pub primary_major: i64,
    pub primary_minor: i64,
    pub has_render: bool,
    pub render_major: i64,
    pub render_minor: i64,
}

/// Whether the physical device is the DRM device with the number.
pub open spec fn spec_nodes_match(n: DrmNodes, major: i64, minor: i64) -> bool {
    (n.has_primary && n.primary_major == major && n.primary_minor == minor) || (n.has_render && n.render_major
        == major && n.render_minor == minor)
}

/// The physical device that is the DRM device with the number: the first
/// of `devices` that can tell its DRM nodes (the others are `None`) and
/// whose primary or render node has the number.
pub fn find_device(devices: &[Option<DrmNodes>], major: i64, minor: i64) -> (r: Result<usize, BufferIdDeviceError>)
    ensures
        match r {
            Ok(i) => i < devices@.len() && (devices@[i as int] matches Some(n) && spec_nodes_match(n, major, minor))
                && forall|j: int|
                0 <= j < i ==> !(#[trigger] devices@[j] matches Some(n) && spec_nodes_match(n, major, minor)),
            Err(e) => e == BufferIdDeviceError::NoVulkanDevice && forall|j: int|
                0 <= j < devices@.len() ==> !(#[trigger] devices@[j] matches Some(n) && spec_nodes_match(n, major, minor)),
        },
{
    let mut i: usize = 0;
    while i < devices.len()
        invariant
            i <= devices@.len(),
            forall|j: int|
                0 <= j < i ==> !(#[trigger] devices@[j] matches Some(n) && spec_nodes_match(n, major, minor)),
        decreases devices@.len() - i,
    {
        if let Some(n) = devices[i] {
            if (n.has_primary && n.primary_major == major && n.primary_minor == minor) || (n.has_render
                && n.render_major == major && n.render_minor == minor) {
                return Ok(i);
            }
        }
        i += 1;
    }
    Err(BufferIdDeviceError::NoVulkanDevice)
}

/// Whether the device can be used: Vulkan 1.1 at least, then each needed
/// extension, in order (`extensions` tells for each whether the device has it).
pub fn check_device(api_version: u32, extensions: &[bool; 3]) -> (r: Result<(), BufferIdDeviceError>)
    ensures
        api_version < API_VERSION_1_1 ==> r == Err::<(), BufferIdDeviceError>(BufferIdDeviceError::NoVulkan11),
        api_version >= API_VERSION_1_1 ==> r == (if !extensions@[0] {
            Err::<(), BufferIdDeviceError>(
                BufferIdDeviceError::MissingDeviceExtensions(DeviceExtension::ExternalMemoryFd),
            )
        } else if !extensions@[1] {
            Err(BufferIdDeviceError::MissingDeviceExtensions(DeviceExtension::ExternalMemoryDmaBuf))
        } else if !extensions@[2] {
            Err(BufferIdDeviceError::MissingDeviceExtensions(DeviceExtension::Maintenance9))
        } else {
            Ok(())
        }),
{
    if api_version < API_VERSION_1_1 {
        return Err(BufferIdDeviceError::NoVulkan11);
    }
    if !extensions[0] {
        return Err(BufferIdDeviceError::MissingDeviceExtensions(DeviceExtension::ExternalMemoryFd));
    }
    if !extensions[1] {
        return Err(BufferIdDeviceError::MissingDeviceExtensions(DeviceExtension::ExternalMemoryDmaBuf));
    }
    if !extensions[2] {
        return Err(BufferIdDeviceError::MissingDeviceExtensions(DeviceExtension::Maintenance9));
    }
    Ok(())
}

/// Whether memory with the type bits can be bound to a device-local type.
pub open spec fn spec_bits_device_local(bits: u32, device_local: Seq<bool>) -> bool {
    exists|k: int| 0 <= k < device_local.len() && device_local[k] && #[trigger] spec_bit(bits, k)
}

/// Whether bit `k` of the bits is set.
pub open spec fn spec_bit(bits: u32, k: int) -> bool {
    bits & (1u32 << (k as u32)) != 0
}

fn bits_device_local(bits: u32, device_local: &[bool]) -> (r: bool)
    requires
        device_local@.len() <= MAX_MEMORY_TYPES,
    ensures
        r == spec_bits_device_local(bits, device_local@),
{
    let mut k: usize = 0;
    while k < device_local.len()
        invariant
            k <= device_local@.len() <= MAX_MEMORY_TYPES,
            forall|j: int| 0 <= j < k ==> !(device_local@[j] && #[trigger] spec_bit(bits, j)),
        decreases device_local@.len() - k,
    {
        let kk = k as u32;
        if bits & (1u32 << kk) != 0 && device_local[k] {
            assert(spec_bit(bits, k as int));
            return true;
        }
        assert(!(device_local@[k as int] && spec_bit(bits, k as int)));
        k += 1;
    }
    false
}

/// Whether a buffer whose memory objects have the type bits (the first
/// only, where all planes share one file) lives on the device, whose
/// memory types are device-local or not.
pub open spec fn spec_is_on_device(plane_bits: Seq<u32>, one_file: bool, device_local: Seq<bool>) -> bool {
    forall|i: int|
        0 <= i < plane_bits.len() && (!one_file || i == 0) ==> spec_bits_device_local(
            #[trigger] plane_bits[i],
            device_local,
        )
}

/// Whether the buffer lives on the device (see `spec_is_on_device`).
pub fn is_on_device(plane_bits: &[u32], one_file: bool, device_local: &[bool]) -> (r: bool)
    requires
        device_local@.len() <= MAX_MEMORY_TYPES,
    ensures
        r == spec_is_on_device(plane_bits@, one_file, device_local@),
{
    let n = if one_file && plane_bits.len() > 0 {
        1
    } else {
        plane_bits.len()
    };
    let mut i: usize = 0;
    while i < n
        invariant
            i <= n <= plane_bits@.len(),
            n == (if one_file && plane_bits@.len() > 0 { 1 } else { plane_bits@.len() as int }),
            device_local@.len() <= MAX_MEMORY_TYPES,
            forall|j: int| 0 <= j < i ==> spec_bits_device_local(#[trigger] plane_bits@[j], device_local@),
        decreases n - i,
    {
        if !bits_device_local(plane_bits[i], device_local) {
            return false;
        }
        i += 1;
    }
    true
}

} // verus!
