//! The backends: the metal (DRM/libinput) backend, the headless backend and
//! the dummy backend.

pub mod dummy;
pub mod headless;
pub mod metal;
pub mod xorgng;
