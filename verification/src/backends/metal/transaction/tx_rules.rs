//! The rules by which a transaction computes the DRM state of a connector:
//! which connectors drive a display, whether scanout buffers can be kept,
//! which framebuffer a plane shows, what a connector must support, and how
//! its HDR metadata changes.

use vstd::prelude::*;
use indexmap::IndexSet;
use crate::backend::BackendColorSpace;
use crate::backend::BackendConnectorState;
use crate::backend::BackendEotfs;
use crate::backend::ConnectorKernelId;
use crate::backend::Mode;
use crate::backend::HDMI_EOTF_SMPTE_ST2084;
use crate::backend::HDMI_EOTF_TRADITIONAL_GAMMA_SDR;
use crate::backends::metal::allocator::modifier_set_contains;
use crate::backends::metal::allocator::modifier_set_items;
use super::HdrMetadata;

verus! {

/// The DRM fourcc code of the ARGB8888 format (`'AR24'`), the format of
/// cursor planes.
pub const ARGB8888: u32 = 0x34325241;

/// Why a connector transaction failed. Where a device call failed, its
/// message is carried.
#[derive(Clone, Debug, PartialEq, Eq)]
pub enum BackendConnectorTransactionError {
    MissingDrmDevice(ConnectorKernelId),
    TransactionsNotSupported(ConnectorKernelId),
    UnsupportedConnectorType(ConnectorKernelId),
    LeasedConnector(ConnectorKernelId),
    UnknownConnector(ConnectorKernelId),
    NoCrtcForConnector(ConnectorKernelId),
    NoPrimaryPlaneForConnector(ConnectorKernelId),
    UnsupportedMode(ConnectorKernelId, Mode),
    NotVrrCapable(ConnectorKernelId),
    TearingNotSupported(ConnectorKernelId),
    ColorSpaceNotSupported(ConnectorKernelId, BackendColorSpace),
    EotfNotSupported(ConnectorKernelId, BackendEotfs),
    CreateHdrMetadataBlob(String),
    CreateModeBlob(String),
    AllocateScanoutBuffers(ConnectorKernelId, String),
    AtomicTestFailed(String),
    AtomicCommitFailed(String),
}

/// Whether a connector drives a display: it is enabled, a display is
/// connected, and the display is not a non-desktop display (the override
/// decides where set).
pub open spec fn spec_drives_display(s: BackendConnectorState, connected: bool, non_desktop: bool) -> bool {
    &&& s.enabled
    &&& connected
    &&& !match s.non_desktop_override {
        Some(o) => o,
        None => non_desktop,
    }
}

pub fn drives_display(s: &BackendConnectorState, connected: bool, non_desktop: bool) -> (r: bool)
    ensures
        r == spec_drives_display(*s, connected, non_desktop),
{
    let nd = match s.non_desktop_override {
        Some(o) => o,
        None => non_desktop,
    };
    s.enabled && connected && !nd
}

/// A pair of scanout buffers as a transaction sees it: its size and format,
/// whether it was made with the current render and device contexts, the
/// modifiers of its buffers, their framebuffers, and whether each is
/// blanked for the lock screen.
#[derive(Clone, Debug)]
pub struct TxBuffers {
    pub handle: u64,
    pub width: i32,
    pub height: i32,
    pub format: u32,
    pub render_ctx_current: bool,
    pub dev_ctx_current: bool,
    pub modifiers: Vec<u64>,
    pub fbs: Vec<u32>,
    pub locked: Vec<bool>,
}

/// Whether buffers can be kept for a plane that needs the size and format,
/// with the modifiers the plane supports for that format: they have the
/// size and format, belong to the current contexts, and each buffer has a
/// supported modifier.
pub open spec fn spec_buffers_reusable(b: &TxBuffers, width: i32, height: i32, format: u32, mods: Seq<u64>) -> bool {
    &&& b.width == width
    &&& b.height == height
    &&& b.format == format
    &&& b.render_ctx_current
    &&& b.dev_ctx_current
    &&& forall|i: int| 0 <= i < b.modifiers@.len() ==> mods.contains(#[trigger] b.modifiers@[i])
}

pub fn buffers_reusable(b: &TxBuffers, width: i32, height: i32, format: u32, mods: &IndexSet<u64>) -> (r: bool)
    ensures
        r == spec_buffers_reusable(b, width, height, format, modifier_set_items(*mods)),
{
    if b.width != width || b.height != height || b.format != format {
        return false;
    }
    if !b.render_ctx_current || !b.dev_ctx_current {
        return false;
    }
    let mut i: usize = 0;
    while i < b.modifiers.len()
        invariant
            i <= b.modifiers@.len(),
            forall|k: int| 0 <= k < i ==> modifier_set_items(*mods).contains(#[trigger] b.modifiers@[k]),
        decreases b.modifiers@.len() - i,
    {
        if !modifier_set_contains(mods, b.modifiers[i]) {
            return false;
        }
        i += 1;
    }
    true
}

/// Which framebuffer a plane shows.
#[derive(Copy, Clone, Debug, PartialEq, Eq, Structural)]
pub enum FbChoice {
    /// The plane shows nothing: a cursor plane without a cursor image.
    Off,
    /// The client buffer that is scanned out directly keeps being shown, in
    /// the connector's rectangle.
    Direct(u32),
    /// The framebuffer shown now, which is one of the plane's buffers.
    Keep(u32),
    /// The first of the newly allocated buffers, filled from the old buffer
    /// with the given index where the old framebuffer may stay visible,
    /// else cleared.
    NewBuffer { copy_from: Option<usize> },
    /// The plane's buffer with the index.
    Current(usize),
    /// The plane's next buffer, which is blanked unless it already is.
    Blank(usize),
}

/// Whether what is on screen may stay visible: the CRTC is off, the
/// connector shows lock-screen content, the session is not locked, or the
/// plane is a cursor plane.
pub open spec fn spec_may_show(primary: bool, crtc_active: bool, conn_locked: bool, session_locked: bool) -> bool {
    !crtc_active || conn_locked || !session_locked || !primary
}

/// Which framebuffer a plane shows, from what the connector shows now
/// (`fb_id`, the index `fb_idx` of its buffer), the plane's buffers
/// (`current`, empty where new buffers were allocated), and the old buffers
/// with whether they share the device context of new ones.
pub open spec fn spec_choose_fb(
    primary: bool,
    fb_id: u32,
    fb_idx: u64,
    may_show: bool,
    direct_scanout: bool,
    current: Seq<u32>,
    new_buffers: bool,
    old: Option<Seq<u32>>,
    old_same_dev_ctx: bool,
) -> FbChoice {
    if !(primary || fb_id != 0) {
        FbChoice::Off
    } else if primary && direct_scanout && may_show {
        FbChoice::Direct(fb_id)
    } else if current.contains(fb_id) && may_show {
        FbChoice::Keep(fb_id)
    } else if new_buffers {
        FbChoice::NewBuffer {
            copy_from: match old {
                Some(o) => if o.contains(fb_id) && old_same_dev_ctx && may_show {
                    Some(spec_first_index(o, fb_id) as usize)
                } else {
                    None
                },
                None => None,
            },
        }
    } else if may_show {
        FbChoice::Current((fb_idx % (current.len() as u64)) as usize)
    } else {
        FbChoice::Blank((((fb_idx + 1) as u64) % (current.len() as u64)) as usize)
    }
}

/// The first index at which the value occurs.
pub open spec fn spec_first_index(s: Seq<u32>, x: u32) -> int {
    choose|i: int| 0 <= i < s.len() && s[i] == x && forall|j: int| 0 <= j < i ==> s[j] != x
}

fn index_of(v: &[u32], x: u32) -> (r: Option<usize>)
    ensures
        match r {
            Some(i) => v@.contains(x) && i == spec_first_index(v@, x),
            None => !v@.contains(x),
        },
{
    let mut i: usize = 0;
    while i < v.len()
        invariant
            i <= v@.len(),
            forall|k: int| 0 <= k < i ==> v@[k] != x,
        decreases v@.len() - i,
    {
        if v[i] == x {
            proof {
                assert(v@[i as int] == x);
                assert(v@.contains(x));
                let c = spec_first_index(v@, x);
                assert(0 <= c < v@.len() && v@[c] == x && forall|j: int| 0 <= j < c ==> v@[j] != x);
                if c < i {
                    assert(v@[c] != x);
                }
                if c > i {
                    assert(v@[i as int] != x);
                }
            }
            return Some(i);
        }
        i += 1;
    }
    None
}

pub fn choose_fb(
    primary: bool,
    fb_id: u32,
    fb_idx: u64,
    may_show: bool,
    direct_scanout: bool,
    current: &[u32],
    new_buffers: bool,
    old: Option<&[u32]>,
    old_same_dev_ctx: bool,
) -> (r: FbChoice)
    requires
        !new_buffers ==> current@.len() > 0,
        fb_idx < u64::MAX,
    ensures
        r == spec_choose_fb(
            primary,
            fb_id,
            fb_idx,
            may_show,
            direct_scanout,
            current@,
            new_buffers,
            match old {
                Some(o) => Some(o@),
                None => None,
            },
            old_same_dev_ctx,
        ),
{
    if !(primary || fb_id != 0) {
        return FbChoice::Off;
    }
    if primary && direct_scanout && may_show {
        return FbChoice::Direct(fb_id);
    }
    if index_of(current, fb_id).is_some() && may_show {
        return FbChoice::Keep(fb_id);
    }
    if new_buffers {
        let copy_from = match old {
            Some(o) => match index_of(o, fb_id) {
                Some(j) => if old_same_dev_ctx && may_show {
                    Some(j)
                } else {
                    None
                },
                None => None,
            },
            None => None,
        };
        return FbChoice::NewBuffer { copy_from };
    }
    let n = current.len() as u64;
    if may_show {
        FbChoice::Current((fb_idx % n) as usize)
    } else {
        FbChoice::Blank(((fb_idx + 1) % n) as usize)
    }
}

/// What a connector must support of the desired state, checked in this
/// order: VRR, tearing (asynchronous commits), the color space, the EOTF.
pub open spec fn spec_check_capabilities(
    id: ConnectorKernelId,
    s: BackendConnectorState,
    vrr_capable: bool,
    supports_async_commit: bool,
    supports_bt2020: bool,
    supports_pq: bool,
) -> Result<(), BackendConnectorTransactionError> {
    if s.vrr && !vrr_capable {
        Err(BackendConnectorTransactionError::NotVrrCapable(id))
    } else if s.tearing && !supports_async_commit {
        Err(BackendConnectorTransactionError::TearingNotSupported(id))
    } else if s.color_space == BackendColorSpace::Bt2020 && !supports_bt2020 {
        Err(BackendConnectorTransactionError::ColorSpaceNotSupported(id, s.color_space))
    } else if s.eotf == BackendEotfs::Pq && !supports_pq {
        Err(BackendConnectorTransactionError::EotfNotSupported(id, s.eotf))
    } else {
        Ok(())
    }
}

pub fn check_capabilities(
    id: ConnectorKernelId,
    s: &BackendConnectorState,
    vrr_capable: bool,
    supports_async_commit: bool,
    supports_bt2020: bool,
    supports_pq: bool,
) -> (r: Result<(), BackendConnectorTransactionError>)
    ensures
        r == spec_check_capabilities(id, *s, vrr_capable, supports_async_commit, supports_bt2020, supports_pq),
{
    if s.vrr && !vrr_capable {
        return Err(BackendConnectorTransactionError::NotVrrCapable(id));
    }
    if s.tearing && !supports_async_commit {
        return Err(BackendConnectorTransactionError::TearingNotSupported(id));
    }
    match s.color_space {
        BackendColorSpace::Default => {},
        BackendColorSpace::Bt2020 => {
            if !supports_bt2020 {
                return Err(BackendConnectorTransactionError::ColorSpaceNotSupported(id, s.color_space));
            }
        },
    }
    match s.eotf {
        BackendEotfs::Default => {},
        BackendEotfs::Pq => {
            if !supports_pq {
                return Err(BackendConnectorTransactionError::EotfNotSupported(id, s.eotf));
            }
        },
    }
    Ok(())
}

/// A desired state is accepted exactly when the connector supports every
/// feature it asks for (VRR, tearing, the BT.2020 color space, the PQ
/// EOTF), each independently of the others; a refusal names the connector
/// and the first unsupported request, in the order VRR, tearing, color
/// space, EOTF.
pub proof fn lemma_capabilities_checked(
    id: ConnectorKernelId,
    s: BackendConnectorState,
    vrr_capable: bool,
    supports_async_commit: bool,
    supports_bt2020: bool,
    supports_pq: bool,
)
    ensures
        ({
            let r = spec_check_capabilities(id, s, vrr_capable, supports_async_commit, supports_bt2020, supports_pq);
            let vrr_ok = !s.vrr || vrr_capable;
            let tearing_ok = !s.tearing || supports_async_commit;
            let color_ok = s.color_space != BackendColorSpace::Bt2020 || supports_bt2020;
            let eotf_ok = s.eotf != BackendEotfs::Pq || supports_pq;
            &&& (r is Ok <==> vrr_ok && tearing_ok && color_ok && eotf_ok)
            &&& !vrr_ok ==> r == Err::<(), BackendConnectorTransactionError>(
                BackendConnectorTransactionError::NotVrrCapable(id),
            )
            &&& vrr_ok && !tearing_ok ==> r == Err::<(), BackendConnectorTransactionError>(
                BackendConnectorTransactionError::TearingNotSupported(id),
            )
            &&& vrr_ok && tearing_ok && !color_ok ==> r == Err::<(), BackendConnectorTransactionError>(
                BackendConnectorTransactionError::ColorSpaceNotSupported(id, BackendColorSpace::Bt2020),
            )
            &&& vrr_ok && tearing_ok && color_ok && !eotf_ok ==> r == Err::<(), BackendConnectorTransactionError>(
                BackendConnectorTransactionError::EotfNotSupported(id, BackendEotfs::Pq),
            )
        }),
{
}

/// How a connector's HDR metadata changes.
#[derive(Copy, Clone, Debug, PartialEq, Eq, Structural)]
pub enum HdrUpdate {
    /// Nothing changes.
    Keep,
    /// A blob with the metadata that announces the EOTF is created and
    /// becomes the connector's metadata.
    Create(u8),
    /// The connector has no metadata and no blob.
    Clear,
}

/// The metadata the EOTF needs: none for the default one.
pub open spec fn spec_wanted_metadata(eotf: BackendEotfs) -> Option<HdrMetadata> {
    match eotf {
        BackendEotfs::Default => None,
        BackendEotfs::Pq => Some(HdrMetadata::Eotf(HDMI_EOTF_SMPTE_ST2084)),
    }
}

/// How the HDR metadata of a connector with the property changes: metadata
/// that differs from what the EOTF needs is replaced by a new blob, or
/// cleared where none is needed; where none is needed the blob is cleared
/// in any case.
pub open spec fn spec_hdr_update(has_prop: bool, eotf: BackendEotfs, old: Option<HdrMetadata>) -> HdrUpdate {
    if !has_prop {
        HdrUpdate::Keep
    } else {
        match spec_wanted_metadata(eotf) {
            Some(HdrMetadata::Eotf(e)) => if old != spec_wanted_metadata(eotf) {
                HdrUpdate::Create(e)
            } else {
                HdrUpdate::Keep
            },
            _ => HdrUpdate::Clear,
        }
    }
}

pub fn hdr_update(has_prop: bool, eotf: BackendEotfs, old: Option<HdrMetadata>) -> (r: HdrUpdate)
    ensures
        r == spec_hdr_update(has_prop, eotf, old),
{
    if !has_prop {
        return HdrUpdate::Keep;
    }
    match eotf {
        BackendEotfs::Default => HdrUpdate::Clear,
        BackendEotfs::Pq => {
            let wanted = Some(HdrMetadata::Eotf(HDMI_EOTF_SMPTE_ST2084));
            if old != wanted {
                HdrUpdate::Create(HDMI_EOTF_SMPTE_ST2084)
            } else {
                HdrUpdate::Keep
            }
        },
    }
}

/// The metadata a connector starts with where it has the property: that of
/// the traditional SDR EOTF, unless the blob it names could be read.
pub fn initial_hdr_metadata(has_prop: bool, read: Option<HdrMetadata>) -> (r: Option<HdrMetadata>)
    ensures
        r == (if !has_prop {
            None
        } else {
            match read {
                Some(m) => Some(m),
                None => Some(HdrMetadata::Eotf(HDMI_EOTF_TRADITIONAL_GAMMA_SDR)),
            }
        }),
{
    if !has_prop {
        return None;
    }
    match read {
        Some(m) => Some(m),
        None => Some(HdrMetadata::Eotf(HDMI_EOTF_TRADITIONAL_GAMMA_SDR)),
    }
}

} // verus!
