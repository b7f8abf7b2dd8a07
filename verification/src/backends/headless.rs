//! The headless backend: it renders with the DRM devices it finds but
//! drives no display; it adds each device by its primary node and opens
//! the device's render node where there is one.

use vstd::prelude::*;

verus! {

/// Why the headless backend failed; where a system call or a library
/// failed, its message is carried.
#[derive(Clone, Debug)]
pub enum HeadlessBackendError {
    CreateUdev(String),
    CreateUdevMonitor(String),
    AddUdevSubsystemMatch(String),
    EnableUdevReceiving(String),
    DupUdevMonitorFd(String),
    CreateUdevEnumerator(String),
    ScanUdevDevices(String),
    GetUdevEntry(String),
    GetDrmNodes(String),
    NoDrmNodes,
    OpenDrmNode(String),
    CreateDrm(String),
    MonitorFdReadable(String),
    MonitorFdFailed,
}

/// The udev subsystem of DRM devices.
pub open spec fn spec_drm_subsystem() -> Seq<u8> {
    seq![100u8, 114u8, 109u8]
}

/// Whether a device name is that of a primary node: `card` followed by
/// digits only.
pub open spec fn spec_is_primary_node(n: Seq<u8>) -> bool {
    &&& n.len() >= 4
    &&& n.take(4) == seq![99u8, 97u8, 114u8, 100u8]
    &&& forall|i: int| 4 <= i < n.len() ==> 48 <= #[trigger] n[i] <= 57
}

/// Whether a device name is that of a primary node.
pub fn is_primary_node(n: &[u8]) -> (r: bool)
    ensures
        r == spec_is_primary_node(n@),
{
    if n.len() < 4 || n[0] != 99 || n[1] != 97 || n[2] != 114 || n[3] != 100 {
        proof {
            if n@.len() >= 4 {
                assert(n@.take(4)[0] == n@[0]);
                assert(n@.take(4)[1] == n@[1]);
                assert(n@.take(4)[2] == n@[2]);
                assert(n@.take(4)[3] == n@[3]);
            }
        }
        return false;
    }
    assert(n@.take(4) =~= seq![99u8, 97u8, 114u8, 100u8]);
    let mut i: usize = 4;
    while i < n.len()
        invariant
            4 <= i <= n@.len(),
            forall|k: int| 4 <= k < i ==> 48 <= #[trigger] n@[k] <= 57,
        decreases n@.len() - i,
    {
        if n[i] < 48 || n[i] > 57 {
            return false;
        }
        i += 1;
    }
    true
}

/// Whether a device that udev reports is to be added: a DRM device whose
/// name is a primary node that is not known yet.
pub fn should_add_device(subsystem: Option<&[u8]>, sysname: Option<&[u8]>, known: bool) -> (r: bool)
    ensures
        r == (match (subsystem, sysname) {
            (Some(s), Some(n)) => s@ == spec_drm_subsystem() && spec_is_primary_node(n@) && !known,
            _ => false,
        }),
{
    let s = match subsystem {
        Some(s) => s,
        None => {
            return false;
        },
    };
    let is_drm = s.len() == 3 && s[0] == 100 && s[1] == 114 && s[2] == 109;
    proof {
        if s@ == spec_drm_subsystem() {
            assert(s@[0] == 100 && s@[1] == 114 && s@[2] == 109);
        }
        if is_drm {
            assert(s@ =~= spec_drm_subsystem());
        }
    }
    if !is_drm {
        return false;
    }
    let n = match sysname {
        Some(n) => n,
        None => {
            return false;
        },
    };
    if !is_primary_node(n) {
        return false;
    }
    !known
}

/// The node a device is opened through: its render node where it has one,
/// else its primary node.
pub fn choose_drm_node(render: Option<Vec<u8>>, primary: Option<Vec<u8>>) -> (r: Result<Vec<u8>, HeadlessBackendError>)
    ensures
        match render {
            Some(n) => r matches Ok(x) && x@ == n@,
            None => match primary {
                Some(n) => r matches Ok(x) && x@ == n@,
                None => r matches Err(HeadlessBackendError::NoDrmNodes),
            },
        },
{
    match render {
        Some(n) => Ok(n),
        None => match primary {
            Some(n) => Ok(n),
            None => Err(HeadlessBackendError::NoDrmNodes),
        },
    }
}

/// Whether a udev event announces a new device.
pub fn is_add_action(action: Option<&[u8]>) -> (r: bool)
    ensures
        r == (match action {
            Some(a) => a@ == seq![97u8, 100u8, 100u8],
            None => false,
        }),
{
    match action {
        Some(a) => {
            let r = a.len() == 3 && a[0] == 97 && a[1] == 100 && a[2] == 100;
            proof {
                if a@ == seq![97u8, 100u8, 100u8] {
                    assert(a@[0] == 97 && a@[1] == 100 && a@[2] == 100);
                }
                if r {
                    assert(a@ =~= seq![97u8, 100u8, 100u8]);
                }
            }
            r
        },
        None => false,
    }
}

/// `POLLERR` and `POLLHUP`.
pub const POLLERR: u32 = 0x8;
pub const POLLHUP: u32 = 0x10;

/// Checks the poll result of the udev monitor: an error or a hang-up ends
/// the backend.
pub fn check_monitor_poll(revents: u32) -> (r: Result<(), HeadlessBackendError>)
    ensures
        (revents & (POLLERR | POLLHUP)) != 0 <==> r matches Err(HeadlessBackendError::MonitorFdFailed),
        (revents & (POLLERR | POLLHUP)) == 0 <==> r is Ok,
{
    if revents & (POLLERR | POLLHUP) != 0 {
        return Err(HeadlessBackendError::MonitorFdFailed);
    }
    Ok(())
}

/// A graphics API.
#[derive(Copy, Clone, Debug, PartialEq, Eq, Structural)]
pub enum GfxApi {
    OpenGl,
    Vulkan,
}

/// The state of a headless DRM device: its graphics API, whether it has a
/// gfx context, and whether it is the render device.
#[derive(Copy, Clone, Debug, PartialEq, Eq, Structural)]
pub struct HeadlessDeviceState {
    pub api: GfxApi,
    pub has_ctx: bool,
    pub is_render_device: bool,
}

/// What changing a device's graphics API takes.
#[derive(Copy, Clone, Debug, PartialEq, Eq, Structural)]
pub enum GfxApiChange {
    /// The device already uses the API.
    Nothing,
    /// The device has no context yet: only the API is recorded.
    Record,
    /// A context of the API is created; see [`finish_gfx_api_change`].
    CreateContext,
}

/// Decides what changing the device's graphics API takes.
pub fn plan_gfx_api_change(dev: &HeadlessDeviceState, api: GfxApi) -> (r: GfxApiChange)
    ensures
        r == (if dev.api == api {
            GfxApiChange::Nothing
        } else if !dev.has_ctx {
            GfxApiChange::Record
        } else {
            GfxApiChange::CreateContext
        }),
{
    if dev.api == api {
        GfxApiChange::Nothing
    } else if !dev.has_ctx {
        GfxApiChange::Record
    } else {
        GfxApiChange::CreateContext
    }
}

/// What follows the creation of a context for a new API: where it
/// succeeded, the device takes the API, announces the change, and, as the
/// render device, hands the context to the compositor (the second part of
/// the result); where it failed, nothing changes.
pub fn finish_gfx_api_change(dev: &mut HeadlessDeviceState, api: GfxApi, created: bool) -> (r: (bool, bool))
    ensures
        created ==> final(dev).api == api && final(dev).has_ctx && final(dev).is_render_device == old(dev).is_render_device
            && r == (true, old(dev).is_render_device),
        !created ==> *final(dev) == *old(dev) && r == (false, false),
{
    if !created {
        return (false, false);
    }
    dev.api = api;
    dev.has_ctx = true;
    (true, dev.is_render_device)
}

/// What making a device the render device takes.
#[derive(Copy, Clone, Debug, PartialEq, Eq, Structural)]
pub enum RenderDeviceChange {
    /// It already is.
    Nothing,
    /// Its context is handed to the compositor.
    UseContext,
    /// A context is created first (with the device's API); where that
    /// fails, nothing changes.
    CreateContext,
}

pub fn plan_make_render_device(dev: &HeadlessDeviceState) -> (r: RenderDeviceChange)
    ensures
        r == (if dev.is_render_device {
            RenderDeviceChange::Nothing
        } else if dev.has_ctx {
            RenderDeviceChange::UseContext
        } else {
            RenderDeviceChange::CreateContext
        }),
{
    if dev.is_render_device {
        RenderDeviceChange::Nothing
    } else if dev.has_ctx {
        RenderDeviceChange::UseContext
    } else {
        RenderDeviceChange::CreateContext
    }
}

} // verus!
