//! The DRM state of CRTCs, planes and connectors that a transaction
//! computes, and the comparison of display modes.

pub mod tx_apply;
pub mod tx_change;
pub mod tx_plan;
pub mod tx_rules;

use vstd::prelude::*;

verus! {

/// A display mode as the kernel describes it (`struct drm_mode_modeinfo`).
#[derive(Copy, Clone, Debug)]
pub struct DrmModeInfo {
    pub clock: u32,
    pub hdisplay: u16,
    pub hsync_start: u16,
    pub hsync_end: u16,
    pub htotal: u16,
    pub hskew: u16,
    pub vdisplay: u16,
    pub vsync_start: u16,
    pub vsync_end: u16,
    pub vtotal: u16,
    pub vscan: u16,
    pub vrefresh: u32,
    pub flags: u32,
    pub ty: u32,
    pub name: [u8; 32],
}

/// Whether two modes drive the display the same way: all timings, the
/// refresh and the flags agree (the type and the name do not matter).
pub open spec fn spec_modes_equal(a: &DrmModeInfo, b: &DrmModeInfo) -> bool {
    a.clock == b.clock && a.hdisplay == b.hdisplay && a.hsync_start == b.hsync_start && a.hsync_end
        == b.hsync_end && a.htotal == b.htotal && a.hskew == b.hskew && a.vdisplay == b.vdisplay
        && a.vsync_start == b.vsync_start && a.vsync_end == b.vsync_end && a.vtotal == b.vtotal
        && a.vscan == b.vscan && a.vrefresh == b.vrefresh && a.flags == b.flags
}

pub fn modes_equal(a: &DrmModeInfo, b: &DrmModeInfo) -> (r: bool)
    ensures
        r == spec_modes_equal(a, b),
{
    a.clock == b.clock && a.hdisplay == b.hdisplay && a.hsync_start == b.hsync_start && a.hsync_end
        == b.hsync_end && a.htotal == b.htotal && a.hskew == b.hskew && a.vdisplay == b.vdisplay
        && a.vsync_start == b.vsync_start && a.vsync_end == b.vsync_end && a.vtotal == b.vtotal
        && a.vscan == b.vscan && a.vrefresh == b.vrefresh && a.flags == b.flags
}

/// Proves that mode equality is an equivalence.
pub proof fn lemma_modes_equal_is_equivalence(a: &DrmModeInfo, b: &DrmModeInfo, c: &DrmModeInfo)
    ensures
        spec_modes_equal(a, a),
        spec_modes_equal(a, b) ==> spec_modes_equal(b, a),
        spec_modes_equal(a, b) && spec_modes_equal(b, c) ==> spec_modes_equal(a, c),
{
}

/// The DRM state of a CRTC.
#[derive(Copy, Clone, Debug)]
pub struct DrmCrtcState {
    pub active: bool,
    pub mode: Option<DrmModeInfo>,
    /// The blob that holds the mode; zero for none.
    pub mode_blob_id: u32,
    pub vrr_enabled: bool,
    /// The connector the CRTC drives; zero for none.
    pub assigned_connector: u32,
}

impl DrmCrtcState {
    /// The state of an unused CRTC.
    pub fn new() -> (r: Self)
        ensures
            !r.active,
            r.mode is None,
            r.mode_blob_id == 0,
            !r.vrr_enabled,
            r.assigned_connector == 0,
    {
        DrmCrtcState { active: false, mode: None, mode_blob_id: 0, vrr_enabled: false, assigned_connector: 0 }
    }
}

/// The HDR metadata of a connector, as far as transactions compare it: the
/// metadata that announces an EOTF (`hdr_output_metadata::from_eotf`), or
/// metadata read from the device that has another form.
#[derive(Copy, Clone, Debug, PartialEq, Eq, Structural)]
pub enum HdrMetadata {
    Eotf(u8),
    Custom,
}

/// The DRM state of a connector and of the planes it drives.
#[derive(Copy, Clone, Debug, PartialEq, Eq, Structural)]
pub struct DrmConnectorState {
    /// The CRTC the connector is driven by; zero for none.
    pub crtc_id: u32,
    pub color_space: Option<u64>,
    pub hdr_metadata: Option<HdrMetadata>,
    /// The blob that holds the HDR metadata; zero for none.
    pub hdr_metadata_blob_id: u32,
    pub locked: bool,
    pub fb: u32,
    pub fb_idx: u64,
    pub cursor_fb: u32,
    pub cursor_fb_idx: u64,
    pub cursor_x: i32,
    pub cursor_y: i32,
    /// Whether the last commit handed out a sync file that signals its
    /// completion.
    pub has_out_fd: bool,
    pub src_w: u32,
    pub src_h: u32,
    pub crtc_x: i32,
    pub crtc_y: i32,
    pub crtc_w: i32,
    pub crtc_h: i32,
}

/// The state of a connector that drives nothing.
pub open spec fn spec_default_connector_state() -> DrmConnectorState {
    DrmConnectorState {
        crtc_id: 0,
        color_space: None,
        hdr_metadata: None,
        hdr_metadata_blob_id: 0,
        locked: false,
        fb: 0,
        fb_idx: 0,
        cursor_fb: 0,
        cursor_fb_idx: 0,
        cursor_x: 0,
        cursor_y: 0,
        has_out_fd: false,
        src_w: 0,
        src_h: 0,
        crtc_x: 0,
        crtc_y: 0,
        crtc_w: 0,
        crtc_h: 0,
    }
}

impl DrmConnectorState {
    /// The state of a connector that drives nothing.
    pub fn new() -> (r: Self)
        ensures
            r == spec_default_connector_state(),
    {
        DrmConnectorState {
            crtc_id: 0,
            color_space: None,
            hdr_metadata: None,
            hdr_metadata_blob_id: 0,
            locked: false,
            fb: 0,
            fb_idx: 0,
            cursor_fb: 0,
            cursor_fb_idx: 0,
            cursor_x: 0,
            cursor_y: 0,
            has_out_fd: false,
            src_w: 0,
            src_h: 0,
            crtc_x: 0,
            crtc_y: 0,
            crtc_w: 0,
            crtc_h: 0,
        }
    }
}

/// The DRM state of a plane. Its scanout buffers are named by a handle of
/// the pair they form.
#[derive(Copy, Clone, Debug, PartialEq, Eq, Structural)]
pub struct DrmPlaneState {
    pub fb_id: u32,
    pub src_x: u32,
    pub src_y: u32,
    pub src_w: u32,
    pub src_h: u32,
    /// The CRTC the plane belongs to, also while it shows nothing.
    pub assigned_crtc: u32,
    /// The CRTC the plane shows on; zero for none.
    pub crtc_id: u32,
    pub crtc_x: i32,
    pub crtc_y: i32,
    pub crtc_w: i32,
    pub crtc_h: i32,
    pub buffers: Option<u64>,
}

/// The state of a plane that is not used.
pub open spec fn spec_default_plane_state() -> DrmPlaneState {
    DrmPlaneState {
        fb_id: 0,
        src_x: 0,
        src_y: 0,
        src_w: 0,
        src_h: 0,
        assigned_crtc: 0,
        crtc_id: 0,
        crtc_x: 0,
        crtc_y: 0,
        crtc_w: 0,
        crtc_h: 0,
        buffers: None,
    }
}

impl DrmPlaneState {
    /// The state of a plane that is not used.
    pub fn new() -> (r: Self)
        ensures
            r == spec_default_plane_state(),
    {
        DrmPlaneState {
            fb_id: 0,
            src_x: 0,
            src_y: 0,
            src_w: 0,
            src_h: 0,
            assigned_crtc: 0,
            crtc_id: 0,
            crtc_x: 0,
            crtc_y: 0,
            crtc_w: 0,
            crtc_h: 0,
            buffers: None,
        }
    }
}

} // verus!
