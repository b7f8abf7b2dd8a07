//! Common backend types: display modes, input-device capabilities and
//! settings, HDR color configuration, gamma LUTs and connector state.

pub mod transaction;

use vstd::prelude::*;

verus! {

/// Libinput device capability codes (`enum libinput_device_capability`).
pub const LIBINPUT_DEVICE_CAP_KEYBOARD: u32 = 0;
pub const LIBINPUT_DEVICE_CAP_POINTER: u32 = 1;
pub const LIBINPUT_DEVICE_CAP_TOUCH: u32 = 2;
pub const LIBINPUT_DEVICE_CAP_TABLET_TOOL: u32 = 3;
pub const LIBINPUT_DEVICE_CAP_TABLET_PAD: u32 = 4;
pub const LIBINPUT_DEVICE_CAP_GESTURE: u32 = 5;
pub const LIBINPUT_DEVICE_CAP_SWITCH: u32 = 6;

/// Libinput scroll-method codes (`enum libinput_config_scroll_method`).
pub const LIBINPUT_CONFIG_SCROLL_NO_SCROLL: u32 = 0;
pub const LIBINPUT_CONFIG_SCROLL_2FG: u32 = 1;
pub const LIBINPUT_CONFIG_SCROLL_EDGE: u32 = 2;
pub const LIBINPUT_CONFIG_SCROLL_ON_BUTTON_DOWN: u32 = 4;

/// EOTF codes of the HDMI static metadata block.
pub const HDMI_EOTF_TRADITIONAL_GAMMA_SDR: u8 = 0;
pub const HDMI_EOTF_SMPTE_ST2084: u8 = 2;

/// Values of the DRM `Colorspace` connector property.
pub const DRM_MODE_COLORIMETRY_DEFAULT: u64 = 0;
pub const DRM_MODE_COLORIMETRY_BT2020_RGB: u64 = 9;

/// Wayland `wl_pointer.axis` values.
pub const VERTICAL_SCROLL: u32 = 0;
pub const HORIZONTAL_SCROLL: u32 = 1;

/// Wayland `wl_pointer.axis_source` values.
pub const WHEEL: u32 = 0;
pub const FINGER: u32 = 1;
pub const CONTINUOUS: u32 = 2;

/// One notch of a high-resolution scroll wheel.
pub const AXIS_120: i32 = 120;

/// Picoseconds in one second: dividing it by a rate in millihertz gives the
/// period in nanoseconds.
pub const PICOS_PER_SEC: u64 = 1_000_000_000_000;

/// A display mode.
#[derive(Copy, Clone, Debug, Default, PartialEq, Eq, Hash, Structural)]
pub struct Mode {
    pub width: i32,
    pub height: i32,
    pub refresh_rate_millihz: u32,
}

/// The duration of one refresh cycle of a mode with the given refresh rate,
/// in nanoseconds; a rate of zero never refreshes.
pub open spec fn spec_refresh_nsec(refresh_rate_millihz: u32) -> u64 {
    if refresh_rate_millihz == 0 {
        u64::MAX
    } else {
        (PICOS_PER_SEC / (refresh_rate_millihz as u64)) as u64
    }
}

impl Mode {
    pub fn refresh_nsec(&self) -> (r: u64)
        ensures
            r == spec_refresh_nsec(self.refresh_rate_millihz),
    {
        match self.refresh_rate_millihz {
            0 => u64::MAX,
            n => PICOS_PER_SEC / (n as u64),
        }
    }

    pub fn size(&self) -> (r: (i32, i32))
        ensures
            r == (self.width, self.height),
    {
        (self.width, self.height)
    }
}

/// The kernel's name of a connector: its type code (`DRM_MODE_CONNECTOR_*`)
/// and its index among the connectors of that type.
#[derive(Copy, Clone, Debug, PartialEq, Eq, Structural)]
pub struct ConnectorKernelId {
    pub ty: u32,
    pub idx: u32,
}

/// Capabilities that an input device can have.
#[derive(Debug, Copy, Clone, PartialEq, Eq, Hash, Structural)]
pub enum InputDeviceCapability {
    Keyboard,
    Pointer,
    Touch,
    TabletTool,
    TabletPad,
    Gesture,
    Switch,
}

pub open spec fn spec_capability_to_libinput(c: InputDeviceCapability) -> u32 {
    match c {
        InputDeviceCapability::Keyboard => LIBINPUT_DEVICE_CAP_KEYBOARD,
        InputDeviceCapability::Pointer => LIBINPUT_DEVICE_CAP_POINTER,
        InputDeviceCapability::Touch => LIBINPUT_DEVICE_CAP_TOUCH,
        InputDeviceCapability::TabletTool => LIBINPUT_DEVICE_CAP_TABLET_TOOL,
        InputDeviceCapability::TabletPad => LIBINPUT_DEVICE_CAP_TABLET_PAD,
        InputDeviceCapability::Gesture => LIBINPUT_DEVICE_CAP_GESTURE,
        InputDeviceCapability::Switch => LIBINPUT_DEVICE_CAP_SWITCH,
    }
}

impl InputDeviceCapability {
    pub fn text(&self) -> (r: &'static str)
        ensures
            r@ == match *self {
                InputDeviceCapability::Keyboard => "keyboard"@,
                InputDeviceCapability::Pointer => "pointer"@,
                InputDeviceCapability::Touch => "touch"@,
                InputDeviceCapability::TabletTool => "tablet tool"@,
                InputDeviceCapability::TabletPad => "tablet pad"@,
                InputDeviceCapability::Gesture => "gesture"@,
                InputDeviceCapability::Switch => "switch"@,
            },
    {
        match self {
            InputDeviceCapability::Keyboard => "keyboard",
            InputDeviceCapability::Pointer => "pointer",
            InputDeviceCapability::Touch => "touch",
            InputDeviceCapability::TabletTool => "tablet tool",
            InputDeviceCapability::TabletPad => "tablet pad",
            InputDeviceCapability::Gesture => "gesture",
            InputDeviceCapability::Switch => "switch",
        }
    }

    pub fn to_libinput(self) -> (r: u32)
        ensures
            r == spec_capability_to_libinput(self),
    {
        match self {
            InputDeviceCapability::Keyboard => LIBINPUT_DEVICE_CAP_KEYBOARD,
            InputDeviceCapability::Pointer => LIBINPUT_DEVICE_CAP_POINTER,
            InputDeviceCapability::Touch => LIBINPUT_DEVICE_CAP_TOUCH,
            InputDeviceCapability::TabletTool => LIBINPUT_DEVICE_CAP_TABLET_TOOL,
            InputDeviceCapability::TabletPad => LIBINPUT_DEVICE_CAP_TABLET_PAD,
            InputDeviceCapability::Gesture => LIBINPUT_DEVICE_CAP_GESTURE,
            InputDeviceCapability::Switch => LIBINPUT_DEVICE_CAP_SWITCH,
        }
    }
}

/// Distinct capabilities map to distinct libinput codes.
pub proof fn lemma_capability_to_libinput_injective(a: InputDeviceCapability, b: InputDeviceCapability)
    ensures
        spec_capability_to_libinput(a) == spec_capability_to_libinput(b) ==> a == b,
{
}

#[derive(Debug, Copy, Clone, PartialEq, Eq, Structural)]
pub enum InputDeviceAccelProfile {
    Flat,
    Adaptive,
}

impl InputDeviceAccelProfile {
    pub fn text(&self) -> (r: &'static str)
        ensures
            r@ == match *self {
                InputDeviceAccelProfile::Flat => "Flat"@,
                InputDeviceAccelProfile::Adaptive => "Adaptive"@,
            },
    {
        match self {
            InputDeviceAccelProfile::Flat => "Flat",
            InputDeviceAccelProfile::Adaptive => "Adaptive",
        }
    }
}

#[derive(Debug, Copy, Clone, PartialEq, Eq, Structural)]
pub enum InputDeviceClickMethod {
    NoClick,
    ButtonAreas,
    Clickfinger,
}

impl InputDeviceClickMethod {
    pub fn text(&self) -> (r: &'static str)
        ensures
            r@ == match *self {
                InputDeviceClickMethod::NoClick => "none"@,
                InputDeviceClickMethod::ButtonAreas => "button-areas"@,
                InputDeviceClickMethod::Clickfinger => "clickfinger"@,
            },
    {
        match self {
            InputDeviceClickMethod::NoClick => "none",
            InputDeviceClickMethod::ButtonAreas => "button-areas",
            InputDeviceClickMethod::Clickfinger => "clickfinger",
        }
    }
}

#[derive(Debug, Copy, Clone, PartialEq, Eq, Structural)]
pub enum InputDeviceScrollMethod {
    NoScroll,
    TwoFingers,
    Edge,
    OnButtonDown,
}

pub open spec fn spec_scroll_method_to_libinput(m: InputDeviceScrollMethod) -> u32 {
    match m {
        InputDeviceScrollMethod::NoScroll => LIBINPUT_CONFIG_SCROLL_NO_SCROLL,
        InputDeviceScrollMethod::TwoFingers => LIBINPUT_CONFIG_SCROLL_2FG,
        InputDeviceScrollMethod::Edge => LIBINPUT_CONFIG_SCROLL_EDGE,
        InputDeviceScrollMethod::OnButtonDown => LIBINPUT_CONFIG_SCROLL_ON_BUTTON_DOWN,
    }
}

impl InputDeviceScrollMethod {
    pub fn text(&self) -> (r: &'static str)
        ensures
            r@ == match *self {
                InputDeviceScrollMethod::NoScroll => "No Scroll"@,
                InputDeviceScrollMethod::TwoFingers => "Two Fingers"@,
                InputDeviceScrollMethod::Edge => "Edge"@,
                InputDeviceScrollMethod::OnButtonDown => "On Button Down"@,
            },
    {
        match self {
            InputDeviceScrollMethod::NoScroll => "No Scroll",
            InputDeviceScrollMethod::TwoFingers => "Two Fingers",
            InputDeviceScrollMethod::Edge => "Edge",
            InputDeviceScrollMethod::OnButtonDown => "On Button Down",
        }
    }

    pub fn to_libinput(self) -> (r: u32)
        ensures
            r == spec_scroll_method_to_libinput(self),
    {
        match self {
            InputDeviceScrollMethod::NoScroll => LIBINPUT_CONFIG_SCROLL_NO_SCROLL,
            InputDeviceScrollMethod::TwoFingers => LIBINPUT_CONFIG_SCROLL_2FG,
            InputDeviceScrollMethod::Edge => LIBINPUT_CONFIG_SCROLL_EDGE,
            InputDeviceScrollMethod::OnButtonDown => LIBINPUT_CONFIG_SCROLL_ON_BUTTON_DOWN,
        }
    }

    pub fn from_libinput(v: u32) -> (r: Option<Self>)
        ensures
            match r {
                Some(m) => spec_scroll_method_to_libinput(m) == v,
                None => forall|m: InputDeviceScrollMethod| spec_scroll_method_to_libinput(m) != v,
            },
    {
        let m = if v == LIBINPUT_CONFIG_SCROLL_NO_SCROLL {
            InputDeviceScrollMethod::NoScroll
        } else if v == LIBINPUT_CONFIG_SCROLL_2FG {
            InputDeviceScrollMethod::TwoFingers
        } else if v == LIBINPUT_CONFIG_SCROLL_EDGE {
            InputDeviceScrollMethod::Edge
        } else if v == LIBINPUT_CONFIG_SCROLL_ON_BUTTON_DOWN {
            InputDeviceScrollMethod::OnButtonDown
        } else {
            return None;
        };
        Some(m)
    }
}

/// Converting a scroll method to libinput and back yields the method.
pub proof fn lemma_scroll_method_round_trip(m: InputDeviceScrollMethod)
    ensures
        forall|n: InputDeviceScrollMethod|
            spec_scroll_method_to_libinput(n) == spec_scroll_method_to_libinput(m) ==> n == m,
{
}

#[derive(Debug, Copy, Clone, Eq, PartialEq, Structural)]
pub enum KeyState {
    Released,
    Pressed,
    Repeated,
}

#[derive(Debug, Copy, Clone, Eq, PartialEq, Structural)]
pub enum ButtonState {
    Released,
    Pressed,
}

#[derive(Debug, Copy, Clone, Eq, PartialEq, Structural)]
pub enum ScrollAxis {
    Horizontal,
    Vertical,
}

impl ScrollAxis {
    /// The `wl_pointer.axis` value of this axis.
    pub fn wayland_axis(self) -> (r: u32)
        ensures
            r == (match self {
                ScrollAxis::Horizontal => HORIZONTAL_SCROLL,
                ScrollAxis::Vertical => VERTICAL_SCROLL,
            }),
    {
        match self {
            ScrollAxis::Horizontal => HORIZONTAL_SCROLL,
            ScrollAxis::Vertical => VERTICAL_SCROLL,
        }
    }
}

#[derive(Debug, Copy, Clone, Eq, PartialEq, Structural)]
pub enum AxisSource {
    Wheel,
    Finger,
    Continuous,
}

impl AxisSource {
    /// The `wl_pointer.axis_source` value of this source.
    pub fn wayland_source(self) -> (r: u32)
        ensures
            r == (match self {
                AxisSource::Wheel => WHEEL,
                AxisSource::Finger => FINGER,
                AxisSource::Continuous => CONTINUOUS,
            }),
    {
        match self {
            AxisSource::Wheel => WHEEL,
            AxisSource::Finger => FINGER,
            AxisSource::Continuous => CONTINUOUS,
        }
    }
}

/// Events that a DRM device reports.
#[derive(Debug, Copy, Clone, Eq, PartialEq, Structural)]
pub enum DrmEvent {
    Removed,
    GfxApiChanged,
}

#[derive(Copy, Clone, Debug, Eq, PartialEq, Default, Structural)]
pub enum BackendEotfs {
    #[default]
    Default,
    Pq,
}

impl BackendEotfs {
    pub fn to_drm(self) -> (r: u8)
        ensures
            r == (match self {
                BackendEotfs::Default => HDMI_EOTF_TRADITIONAL_GAMMA_SDR,
                BackendEotfs::Pq => HDMI_EOTF_SMPTE_ST2084,
            }),
    {
        match self {
            BackendEotfs::Default => HDMI_EOTF_TRADITIONAL_GAMMA_SDR,
            BackendEotfs::Pq => HDMI_EOTF_SMPTE_ST2084,
        }
    }

    pub fn name(self) -> (r: &'static str)
        ensures
            r@ == (match self {
                BackendEotfs::Default => "default"@,
                BackendEotfs::Pq => "pq"@,
            }),
    {
        match self {
            BackendEotfs::Default => "default",
            BackendEotfs::Pq => "pq",
        }
    }
}

#[derive(Copy, Clone, Debug, Eq, PartialEq, Default, Structural)]
pub enum BackendColorSpace {
    #[default]
    Default,
    Bt2020,
}

impl BackendColorSpace {
    pub fn to_drm(self) -> (r: u64)
        ensures
            r == (match self {
                BackendColorSpace::Default => DRM_MODE_COLORIMETRY_DEFAULT,
                BackendColorSpace::Bt2020 => DRM_MODE_COLORIMETRY_BT2020_RGB,
            }),
    {
        match self {
            BackendColorSpace::Default => DRM_MODE_COLORIMETRY_DEFAULT,
            BackendColorSpace::Bt2020 => DRM_MODE_COLORIMETRY_BT2020_RGB,
        }
    }

    pub fn name(self) -> (r: &'static str)
        ensures
            r@ == (match self {
                BackendColorSpace::Default => "default"@,
                BackendColorSpace::Bt2020 => "bt2020"@,
            }),
    {
        match self {
            BackendColorSpace::Default => "default",
            BackendColorSpace::Bt2020 => "bt2020",
        }
    }
}


/// One element of a gamma LUT as the kernel takes it (`struct drm_color_lut`):
/// red, green, blue and a reserved word.
pub type BackendGammaLutElement = [u16; 4];

/// What `blake3::hash` computes from a byte string.
pub uninterp spec fn blake3_digest(data: Seq<u8>) -> Seq<u8>;

/// Calls `blake3::hash` and returns the bytes of the digest. The contract
/// claims only that the digest is the BLAKE3 hash of the bytes (so equal
/// inputs give equal digests) and that it has 32 bytes.
#[verifier::external_body]
fn blake3_hash(data: &[u8]) -> (r: [u8; 32])
    ensures
        r@ == blake3_digest(data@),
        r@.len() == 32,
{
    *blake3::hash(data).as_bytes()
}

/// The element with its reserved word cleared.
pub open spec fn spec_clear_reserved(e: BackendGammaLutElement) -> BackendGammaLutElement {
    [e[0], e[1], e[2], 0]
}

/// The byte string that identifies a LUT: each word of each element in
/// little-endian order, the same on every machine.
pub open spec fn spec_lut_bytes(lut: Seq<BackendGammaLutElement>) -> Seq<u8>
    decreases lut.len(),
{
    if lut.len() == 0 {
        Seq::empty()
    } else {
        spec_lut_bytes(lut.drop_last()) + spec_element_bytes(lut.last())
    }
}

pub open spec fn spec_word_bytes(v: u16) -> Seq<u8> {
    seq![(v % 256) as u8, (v / 256) as u8]
}

pub open spec fn spec_element_bytes(e: BackendGammaLutElement) -> Seq<u8> {
    spec_word_bytes(e[0]) + spec_word_bytes(e[1]) + spec_word_bytes(e[2]) + spec_word_bytes(e[3])
}

fn push_word(out: &mut Vec<u8>, v: u16)
    ensures
        final(out)@ == old(out)@ + spec_word_bytes(v),
{
    out.push((v % 256) as u8);
    out.push((v / 256) as u8);
    assert(final(out)@ =~= old(out)@ + spec_word_bytes(v)) by {
        assert(out@ =~= old(out)@ + spec_word_bytes(v));
    }
}

fn lut_bytes(lut: &Vec<BackendGammaLutElement>) -> (r: Vec<u8>)
    ensures
        r@ == spec_lut_bytes(lut@),
{
    let mut out: Vec<u8> = Vec::new();
    let mut i: usize = 0;
    while i < lut.len()
        invariant
            i <= lut@.len(),
            out@ == spec_lut_bytes(lut@.take(i as int)),
        decreases lut@.len() - i,
    {
        let e = lut[i];
        let ghost before = out@;
        push_word(&mut out, e[0]);
        push_word(&mut out, e[1]);
        push_word(&mut out, e[2]);
        push_word(&mut out, e[3]);
        proof {
            assert(lut@.take(i + 1).drop_last() =~= lut@.take(i as int));
            assert(lut@.take(i + 1).last() == lut@[i as int]);
            assert(out@ =~= before + spec_element_bytes(e));
        }
        i += 1;
    }
    assert(lut@.take(lut@.len() as int) =~= lut@);
    out
}

/// A gamma LUT with an identity derived from its contents.
#[derive(Debug)]
pub struct BackendGammaLut {
    id: [u8; 32],
    gamma_lut: Vec<BackendGammaLutElement>,
}

impl BackendGammaLut {
    pub closed spec fn spec_id(&self) -> Seq<u8> {
        self.id@
    }

    pub closed spec fn spec_contents(&self) -> Seq<BackendGammaLutElement> {
        self.gamma_lut@
    }

    /// Clears the reserved word of each element and derives the identity
    /// from the resulting contents.
    pub fn new(gamma_lut: Vec<BackendGammaLutElement>) -> (r: Self)
        ensures
            r.spec_contents() == gamma_lut@.map_values(|e: BackendGammaLutElement| spec_clear_reserved(e)),
            r.spec_id() == blake3_digest(spec_lut_bytes(r.spec_contents())),
    {
        let mut gamma_lut = gamma_lut;
        let ghost orig = gamma_lut@;
        let mut i: usize = 0;
        while i < gamma_lut.len()
            invariant
                gamma_lut@.len() == orig.len(),
                i <= orig.len(),
                forall|j: int| 0 <= j < i ==> gamma_lut@[j] == spec_clear_reserved(#[trigger] orig[j]),
                forall|j: int| i <= j < orig.len() ==> gamma_lut@[j] == orig[j],
            decreases orig.len() - i,
        {
            let e = gamma_lut[i];
            gamma_lut.set(i, [e[0], e[1], e[2], 0]);
            i += 1;
        }
        assert(gamma_lut@ =~= orig.map_values(|e: BackendGammaLutElement| spec_clear_reserved(e)));
        let bytes = lut_bytes(&gamma_lut);
        let id = blake3_hash(bytes.as_slice());
        BackendGammaLut { id, gamma_lut }
    }

    /// The LUT's elements.
    pub fn gamma_lut(&self) -> (r: &Vec<BackendGammaLutElement>)
        ensures
            r@ == self.spec_contents(),
    {
        &self.gamma_lut
    }

    /// The identity of the LUT.
    pub fn id(&self) -> (r: [u8; 32])
        ensures
            r@ == self.spec_id(),
    {
        self.id
    }

    /// Two LUTs are equal exactly when their identities are.
    pub fn same_lut(&self, other: &Self) -> (r: bool)
        ensures
            r == (self.spec_id() == other.spec_id()),
    {
        let mut i: usize = 0;
        while i < 32
            invariant
                i <= 32,
                self.id@.len() == 32,
                other.id@.len() == 32,
                forall|j: int| 0 <= j < i ==> self.id@[j] == other.id@[j],
            decreases 32 - i,
        {
            if self.id[i] != other.id[i] {
                return false;
            }
            i += 1;
        }
        assert(self.id@ =~= other.id@);
        true
    }
}

/// Two LUTs built from contents that agree in their color channels have the
/// same identity, whatever their reserved words held.
pub proof fn lemma_gamma_lut_id_ignores_reserved(
    a: Seq<BackendGammaLutElement>,
    b: Seq<BackendGammaLutElement>,
)
    requires
        a.len() == b.len(),
        forall|i: int| 0 <= i < a.len() ==> #[trigger] spec_clear_reserved(a[i]) == spec_clear_reserved(b[i]),
    ensures
        blake3_digest(spec_lut_bytes(a.map_values(|e: BackendGammaLutElement| spec_clear_reserved(e))))
            == blake3_digest(spec_lut_bytes(b.map_values(|e: BackendGammaLutElement| spec_clear_reserved(e)))),
{
    assert(a.map_values(|e: BackendGammaLutElement| spec_clear_reserved(e)) =~= b.map_values(
        |e: BackendGammaLutElement| spec_clear_reserved(e),
    ));
}

/// The state that the compositor requests of a connector.
#[derive(Clone, Debug)]
pub struct BackendConnectorState {
    pub serial: u64,
    pub enabled: bool,
    pub active: bool,
    pub mode: Mode,
    pub non_desktop_override: Option<bool>,
    pub vrr: bool,
    pub tearing: bool,
    /// The DRM fourcc code of the framebuffer format.
    pub format: u32,
    pub color_space: BackendColorSpace,
    pub eotf: BackendEotfs,
    pub gamma_lut: Option<std::rc::Rc<BackendGammaLut>>,
}

/// Updates of a hardware cursor plane.
pub trait HardwareCursorUpdate {
    fn set_enabled(&mut self, enabled: bool);
    fn set_position(&mut self, x: i32, y: i32);
    fn swap_buffer(&mut self);
    fn size(&self) -> (i32, i32);
}

/// A hardware cursor that can be told that its image changed.
pub trait HardwareCursor {
    fn damage(&self);
}

} // verus!
