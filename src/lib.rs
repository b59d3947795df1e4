//! A deferred drawing surface: drawing is recorded into command lists, snapshots
//! turn the recording into immutable pages, and pages are flattened and planned for
//! export to raster, vector or raw output.

pub mod geometry;
pub mod recording;
pub mod page;
pub mod surface;
pub mod text;
pub mod export;
pub mod sequence;
pub mod dpi;
