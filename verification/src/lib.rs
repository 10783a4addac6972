//! Verified core of a screenshot tool: cropping and re-encoding captured
//! images, the pending-capture slot, overlay window naming, window lists
//! and tray dispatch.

pub mod text;
pub mod overlay;
pub mod pending;
pub mod windows;
pub mod base64_text;
pub mod raster;
pub mod codec;
pub mod save;
pub mod capture;
pub mod tray;
