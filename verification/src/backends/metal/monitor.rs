//! How the metal backend reacts to devices coming and going: which devices
//! udev reports are taken, and what a pause of a device by the session
//! means.

use vstd::prelude::*;
use crate::backends::headless::is_primary_node;
use crate::backends::headless::spec_drm_subsystem;
use crate::backends::headless::spec_is_primary_node;
use crate::backends::metal::video::drm_props::bytes_eq;

verus! {

/// The subsystem of input devices: `input`.
pub open spec fn spec_input_subsystem() -> Seq<u8> {
    seq![105u8, 110u8, 112u8, 117u8, 116u8]
}

/// The prefix of the names of input event devices: `event`.
pub open spec fn spec_event_prefix() -> Seq<u8> {
    seq![101u8, 118u8, 101u8, 110u8, 116u8]
}

/// What an added device is.
#[derive(Copy, Clone, Debug, PartialEq, Eq, Structural)]
pub enum AddedDevice {
    /// An input event device.
    Input,
    /// The primary node of a DRM device.
    Drm,
    /// Anything else, which is ignored.
    Other,
}

/// What an added device with the subsystem and name is: an input device
/// whose name starts with `event`, or a DRM device whose name is a primary
/// node; devices without either are ignored.
pub fn classify_added_device(subsystem: Option<&[u8]>, sysname: Option<&[u8]>) -> (r: AddedDevice)
    ensures
        r == (match (subsystem, sysname) {
            (Some(s), Some(n)) => if s@ == spec_input_subsystem() && n@.len() >= 5 && n@.take(5)
                == spec_event_prefix() {
                AddedDevice::Input
            } else if s@ == spec_drm_subsystem() && spec_is_primary_node(n@) {
                AddedDevice::Drm
            } else {
                AddedDevice::Other
            },
            _ => AddedDevice::Other,
        }),
{
    let (s, n) = match (subsystem, sysname) {
        (Some(s), Some(n)) => (s, n),
        _ => {
            return AddedDevice::Other;
        },
    };
    let input: [u8; 5] = [105, 110, 112, 117, 116];
    let event: [u8; 5] = [101, 118, 101, 110, 116];
    let drm: [u8; 3] = [100, 114, 109];
    assert(input@ =~= spec_input_subsystem());
    assert(event@ =~= spec_event_prefix());
    assert(drm@ =~= spec_drm_subsystem());
    if bytes_eq(s, input.as_slice()) {
        if n.len() >= 5 {
            let head = slice_head(n, 5);
            if bytes_eq(head.as_slice(), event.as_slice()) {
                return AddedDevice::Input;
            }
        }
        return AddedDevice::Other;
    }
    if bytes_eq(s, drm.as_slice()) && is_primary_node(n) {
        AddedDevice::Drm
    } else {
        AddedDevice::Other
    }
}

fn slice_head(s: &[u8], n: usize) -> (r: Vec<u8>)
    requires
        n <= s@.len(),
    ensures
        r@ == s@.take(n as int),
{
    let mut r: Vec<u8> = Vec::new();
    let mut i: usize = 0;
    while i < n
        invariant
            i <= n,
            n <= s@.len(),
            r@ == s@.take(i as int),
        decreases n - i,
    {
        r.push(s[i]);
        i += 1;
        assert(r@ =~= s@.take(i as int));
    }
    r
}

/// What the session's pause of a device asks for.
#[derive(Copy, Clone, Debug, PartialEq, Eq, Structural)]
pub struct PauseAction {
    /// Whether the pause is acknowledged to the session: only a `pause`.
    pub acknowledge: bool,
    /// Whether the device is gone (`gone`) rather than paused.
    pub removed: bool,
}

/// What a pause of the type (`pause`, `force` or `gone`) asks for.
pub fn pause_action(ty: &[u8]) -> (r: PauseAction)
    ensures
        r.acknowledge == (ty@ == seq![112u8, 97u8, 117u8, 115u8, 101u8]),
        r.removed == (ty@ == seq![103u8, 111u8, 110u8, 101u8]),
{
    let pause: [u8; 5] = [112, 97, 117, 115, 101];
    let gone: [u8; 4] = [103, 111, 110, 101];
    assert(pause@ =~= seq![112u8, 97u8, 117u8, 115u8, 101u8]);
    assert(gone@ =~= seq![103u8, 111u8, 110u8, 101u8]);
    PauseAction { acknowledge: bytes_eq(ty, pause.as_slice()), removed: bytes_eq(ty, gone.as_slice()) }
}

} // verus!
