//! The dummy backend and its output, which stand in where no real output
//! exists.

use vstd::prelude::*;
use crate::backend::BackendColorSpace;
use crate::backend::BackendConnectorState;
use crate::backend::BackendEotfs;
use crate::backend::ConnectorKernelId;
use crate::backend::Mode;

verus! {

/// The DRM fourcc code of the XRGB8888 format (`'XR24'`).
pub const XRGB8888: u32 = 0x34325258;

/// The DRM connector type of connectors of unknown type.
pub const DRM_MODE_CONNECTOR_UNKNOWN: u32 = 0;

/// A backend that runs nothing.
pub struct DummyBackend;

/// An output that shows nothing.
pub struct DummyOutput {
    pub id: u64,
}

impl DummyOutput {
    pub fn id(&self) -> (r: u64)
        ensures
            r == self.id,
    {
        self.id
    }

    /// The output has no kernel connector: it is connector 0 of unknown type.
    pub fn kernel_id(&self) -> (r: ConnectorKernelId)
        ensures
            r.ty == DRM_MODE_CONNECTOR_UNKNOWN,
            r.idx == 0,
    {
        ConnectorKernelId { ty: DRM_MODE_CONNECTOR_UNKNOWN, idx: 0 }
    }

    /// The output belongs to no DRM device.
    pub fn drm_dev(&self) -> (r: Option<u64>)
        ensures
            r is None,
    {
        None
    }

    /// The output is always locked.
    pub fn effectively_locked(&self) -> (r: bool)
        ensures
            r,
    {
        true
    }

    /// The output's state: enabled but inactive, with an empty 40 Hz mode
    /// and the default XRGB8888 configuration.
    pub fn state(&self) -> (r: BackendConnectorState)
        ensures
            r.serial == 0,
            r.enabled,
            !r.active,
            r.mode == (Mode { width: 0, height: 0, refresh_rate_millihz: 40_000 }),
            r.non_desktop_override is None,
            !r.vrr,
            !r.tearing,
            r.format == XRGB8888,
            r.color_space == BackendColorSpace::Default,
            r.eotf == BackendEotfs::Default,
            r.gamma_lut is None,
    {
        let mode = Mode { width: 0, height: 0, refresh_rate_millihz: 40_000 };
        BackendConnectorState {
            serial: 0,
            enabled: true,
            active: false,
            mode,
            non_desktop_override: None,
            vrr: false,
            tearing: false,
            format: XRGB8888,
            color_space: BackendColorSpace::Default,
            eotf: BackendEotfs::Default,
            gamma_lut: None,
        }
    }
}

} // verus!
