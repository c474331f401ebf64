//! The renderer's per-frame core: record the realized frame duration,
//! average the window, format the smoothed rate, encode it into the tile
//! grid, and hand back the byte block to upload — strictly in that order,
//! with the grid fully cleared first so no stale glyph survives.

use crate::glyphs::encode_glyphs;
use crate::glyphs::format_rate_centi;
use crate::glyphs::frame_rate_centi;
use crate::glyphs::glyphs_of_bytes;
use crate::glyphs::rate_centi_of_avg;
use crate::glyphs::rate_text;
use crate::history::slide;
use crate::history::sum_nanos;
use crate::history::FrameTimeHistory;
use crate::tiles::grid_bytes;
use crate::tiles::TileEntry;
use crate::tiles::TileGrid;
use crate::tiles::TILE_COUNT;
use vstd::prelude::*;

verus! {

/// The default frame duration, one second, used as the very first sample
/// so the first average never runs on an empty window.
pub const FIRST_FRAME_NANOS: u64 = 1_000_000_000;

/// The mean of a window of durations, rounded toward zero.
pub open spec fn mean_nanos(h: Seq<u64>) -> int
    recommends
        h.len() > 0,
{
    sum_nanos(h) / h.len() as int
}

/// The glyph run a history window puts on screen: the reciprocal of its
/// mean, in hundredths of a frame per second, formatted as decimal text
/// and mapped byte-for-byte to glyph indices.
pub open spec fn rate_glyphs(h: Seq<u64>) -> Seq<u32>
    recommends
        h.len() > 0,
{
    glyphs_of_bytes(rate_text(rate_centi_of_avg(mean_nanos(h)) as nat))
}

/// The grid shows exactly the glyph run `g` from tile 0 on, every later
/// tile blank.
pub open spec fn grid_shows(tiles: Seq<TileEntry>, g: Seq<u32>) -> bool {
    &&& tiles.len() == TILE_COUNT
    &&& forall|i: int| 0 <= i < g.len() ==> tiles[i].glyph == g[i]
    &&& forall|i: int| g.len() <= i < tiles.len() ==> tiles[i].glyph == 0
}

/// The state the renderer mutates once per frame: the frame-time window
/// and the tile grid it encodes into.
pub struct FrameCore {
    /// Sliding window of realized frame durations.
    pub history: FrameTimeHistory,
    /// The grid mirrored to the device each frame.
    pub tiles: TileGrid,
}

impl FrameCore {
    /// Both parts well formed.
    pub open spec fn wf(&self) -> bool {
        &&& self.history.wf()
        &&& self.tiles.wf()
    }

    /// A fresh core: empty history, blank grid.
    pub fn new() -> (c: FrameCore)
        ensures
            c.wf(),
            c.history@ == Seq::<u64>::empty(),
            grid_shows(c.tiles@, Seq::<u32>::empty()),
    {
        FrameCore { history: FrameTimeHistory::new(), tiles: TileGrid::new() }
    }

    /// One frame's CPU side, in order: slide the realized duration into
    /// the history, clear the grid, encode the new smoothed rate from
    /// tile 0 on, and return the serialized grid — the whole buffer, for
    /// one full upload.
    pub fn prepare_frame(&mut self, frame_nanos: u64) -> (upload: Vec<u8>)
        requires
            old(self).wf(),
            frame_nanos > 0,
        ensures
            final(self).wf(),
            final(self).history@ == slide(old(self).history@, frame_nanos),
            grid_shows(final(self).tiles@, rate_glyphs(final(self).history@)),
            upload@ == grid_bytes(final(self).tiles@),
            upload@.len() == 16 * TILE_COUNT,
    {
        self.history.record(frame_nanos);
        let avg = self.history.average_nanos();
        let rc = frame_rate_centi(avg);
        let text = format_rate_centi(rc);
        let glyphs = encode_glyphs(&text);
        self.tiles.clear();
        self.tiles.write_glyphs(&glyphs);
        self.tiles.to_bytes()
    }
}

} // verus!
