//! Frame-loop logic for rendering through gfx-hal: surface format choice,
//! memory-type selection, buffer filling, per-frame command lists and the
//! swapchain lifecycle with its synchronisation.

pub mod format;
pub mod memory;
pub mod frame;
pub mod record;
pub mod upload;
