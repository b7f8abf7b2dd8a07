//! The metal backend: DRM devices, scanout buffers and libinput devices.

pub mod allocator;
pub mod input;
pub mod monitor;
pub mod present;
pub mod transaction;
pub mod video;

use vstd::prelude::*;

verus! {

/// Why a scanout buffer could not be allocated on a device without prime;
/// where a device API failed, its message is carried.
#[derive(Clone, Debug)]
pub enum ScanoutBufferErrorKind {
    SodUnsupportedFormat,
    SodNoWritableModifier,
    SodBufferAllocation(String),
    SodAddfb2(String),
    SodImportSodImage(String),
    SodImportFb(String),
    SodClear(String),
    SodImportSodTexture(String),
    RenderUnsupportedFormat,
    RenderNoWritableModifier,
    RenderBufferAllocation(String),
    RenderImportImage(String),
    RenderImportFb(String),
    RenderClear(String),
    RenderImportRenderTexture(String),
    SodImportRenderImage(String),
    SodImportRenderTexture(String),
}

} // verus!
