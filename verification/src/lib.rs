//! Backend-side logic of the Jay wayland compositor: display modes, input
//! device settings, the dispatch and task machinery of the async engine,
//! connector transactions, scanout-buffer modifier negotiation, the
//! reading and matching of color pipelines, DRM leases, device bring-up,
//! the X11 backend's present and input rules, and the placement of
//! dma-bufs in device memory.

pub mod backend;
pub mod async_engine;
pub mod acceptor;
pub mod backends;
pub mod bugs;
pub mod buffer_id_device;
pub mod cli;
