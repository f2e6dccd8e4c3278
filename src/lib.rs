//! Turns a stream of video-chip pixel events into an RGBA raster.
//!
//! `colors` builds palettes out of packed `0xRRGGBB` values; `frame_renderer`
//! clips pixel events to a viewport and paints them into a `raster` image.
pub mod colors;
pub mod frame_renderer;
pub mod raster;
