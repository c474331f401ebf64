//! A verified core for a tile-based frame-rate display.
//!
//! The library holds the logic of a small real-time renderer: pacing redraws
//! to a fixed target cadence, keeping a sliding window of frame-time samples,
//! formatting the smoothed frame rate as text, encoding that text as glyph
//! indices into a fixed-size tile grid, and serializing the grid for upload
//! to a graphics device. Window and device work stays outside the library;
//! callers hand in plain measurements and take plain bytes and decisions back.

pub mod clock;
pub mod frame;
pub mod glyphs;
pub mod history;
pub mod surface;
pub mod tiles;
