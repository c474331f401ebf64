//! The fixed-size grid of tile descriptors that mirrors the device-visible
//! uniform buffer: exactly 1024 entries of four 32-bit fields each, and its
//! serialization as one contiguous little-endian byte block.

use vstd::prelude::*;

verus! {

/// Number of tiles in the grid, always.
pub const TILE_COUNT: usize = 1024;

/// Bytes one serialized tile occupies: four 32-bit fields.
pub const TILE_STRIDE: usize = 16;

/// One tile: the glyph it shows plus three reserved fields that are kept
/// and transmitted so the per-tile stride stays fixed.
#[derive(Clone, Copy, Debug, PartialEq, Eq, Structural)]
pub struct TileEntry {
    /// Index into the glyph atlas of the character this tile shows.
    pub glyph: u32,
    /// Reserved for forward extension; always transmitted.
    pub reserved1: u32,
    /// Reserved for forward extension; always transmitted.
    pub reserved2: u32,
    /// Reserved for forward extension; always transmitted.
    pub reserved3: u32,
}

/// A tile showing nothing.
pub open spec fn blank_tile() -> TileEntry {
    TileEntry { glyph: 0, reserved1: 0, reserved2: 0, reserved3: 0 }
}

/// The four bytes of a 32-bit field, least significant first.
pub open spec fn le_bytes_u32(x: u32) -> Seq<u8> {
    seq![
        (x % 256) as u8,
        ((x / 256) % 256) as u8,
        ((x / 65536) % 256) as u8,
        ((x / 16777216) % 256) as u8,
    ]
}

/// The sixteen bytes of one tile: each field little-endian, in order.
pub open spec fn tile_bytes(t: TileEntry) -> Seq<u8> {
    le_bytes_u32(t.glyph) + le_bytes_u32(t.reserved1) + le_bytes_u32(t.reserved2) + le_bytes_u32(
        t.reserved3,
    )
}

/// The byte block of a whole sequence of tiles, in order.
pub open spec fn grid_bytes(s: Seq<TileEntry>) -> Seq<u8>
    decreases s.len(),
{
    if s.len() == 0 {
        Seq::empty()
    } else {
        grid_bytes(s.drop_last()) + tile_bytes(s.last())
    }
}

/// The byte block of `n` tiles is `16 * n` bytes long.
pub proof fn lemma_grid_bytes_len(s: Seq<TileEntry>)
    ensures
        grid_bytes(s).len() == TILE_STRIDE * s.len(),
    decreases s.len(),
{
    if s.len() > 0 {
        lemma_grid_bytes_len(s.drop_last());
    }
}

/// The grid of tiles the renderer owns and mirrors to the device each
/// frame. Its length is always exactly `TILE_COUNT`.
pub struct TileGrid {
    entries: Vec<TileEntry>,
}

impl View for TileGrid {
    type V = Seq<TileEntry>;

    closed spec fn view(&self) -> Seq<TileEntry> {
        self.entries@
    }
}

impl TileGrid {
    /// The one invariant of the grid: its length never changes.
    pub open spec fn wf(&self) -> bool {
        self@.len() == TILE_COUNT
    }

    /// A grid of blank tiles.
    pub fn new() -> (g: TileGrid)
        ensures
            g.wf(),
            forall|i: int| 0 <= i < TILE_COUNT ==> g@[i] == blank_tile(),
    {
        let mut entries: Vec<TileEntry> = Vec::new();
        let mut i: usize = 0;
        while i < TILE_COUNT
            invariant
                i <= TILE_COUNT,
                entries@.len() == i,
                forall|j: int| 0 <= j < i ==> entries@[j] == blank_tile(),
            decreases TILE_COUNT - i,
        {
            entries.push(TileEntry { glyph: 0, reserved1: 0, reserved2: 0, reserved3: 0 });
            i = i + 1;
        }
        TileGrid { entries }
    }

    /// The glyph index shown at position `i`.
    pub fn glyph_at(&self, i: usize) -> (g: u32)
        requires
            self.wf(),
            i < TILE_COUNT,
        ensures
            g == self@[i as int].glyph,
    {
        self.entries[i].glyph
    }

    /// Blank every tile's glyph, keeping the reserved fields: the full
    /// per-frame reset that lets no stale glyph survive.
    pub fn clear(&mut self)
        requires
            old(self).wf(),
        ensures
            final(self).wf(),
            forall|i: int| 0 <= i < TILE_COUNT ==> {
                &&& final(self)@[i].glyph == 0
                &&& final(self)@[i].reserved1 == old(self)@[i].reserved1
                &&& final(self)@[i].reserved2 == old(self)@[i].reserved2
                &&& final(self)@[i].reserved3 == old(self)@[i].reserved3
            },
    {
        let mut i: usize = 0;
        while i < TILE_COUNT
            invariant
                old(self).wf(),
                self@.len() == TILE_COUNT,
                i <= TILE_COUNT,
                forall|j: int| 0 <= j < i ==> {
                    &&& self@[j].glyph == 0
                    &&& self@[j].reserved1 == old(self)@[j].reserved1
                    &&& self@[j].reserved2 == old(self)@[j].reserved2
                    &&& self@[j].reserved3 == old(self)@[j].reserved3
                },
                forall|j: int| i <= j < TILE_COUNT ==> self@[j] == old(self)@[j],
            decreases TILE_COUNT - i,
        {
            let mut e = self.entries[i];
            e.glyph = 0;
            self.entries.set(i, e);
            i = i + 1;
        }
    }

    /// Write a run of glyph indices into the grid, contiguous from tile 0,
    /// leaving every later tile as it was. The run must fit the grid.
    pub fn write_glyphs(&mut self, glyphs: &Vec<u32>)
        requires
            old(self).wf(),
            glyphs@.len() <= TILE_COUNT,
        ensures
            final(self).wf(),
            forall|i: int| 0 <= i < glyphs@.len() ==> {
                &&& final(self)@[i].glyph == glyphs@[i]
                &&& final(self)@[i].reserved1 == old(self)@[i].reserved1
                &&& final(self)@[i].reserved2 == old(self)@[i].reserved2
                &&& final(self)@[i].reserved3 == old(self)@[i].reserved3
            },
            forall|i: int| glyphs@.len() <= i < TILE_COUNT ==> final(self)@[i] == old(self)@[i],
    {
        let mut i: usize = 0;
        while i < glyphs.len()
            invariant
                old(self).wf(),
                self@.len() == TILE_COUNT,
                glyphs@.len() <= TILE_COUNT,
                i <= glyphs@.len(),
                forall|j: int| 0 <= j < i ==> {
                    &&& self@[j].glyph == glyphs@[j]
                    &&& self@[j].reserved1 == old(self)@[j].reserved1
                    &&& self@[j].reserved2 == old(self)@[j].reserved2
                    &&& self@[j].reserved3 == old(self)@[j].reserved3
                },
                forall|j: int| i <= j < TILE_COUNT ==> self@[j] == old(self)@[j],
            decreases glyphs@.len() - i,
        {
            let mut e = self.entries[i];
            e.glyph = glyphs[i];
            self.entries.set(i, e);
            i = i + 1;
        }
    }

    /// Serialize the whole grid as one contiguous block: all 1024 tiles,
    /// sixteen bytes each, fields little-endian.
    pub fn to_bytes(&self) -> (bytes: Vec<u8>)
        requires
            self.wf(),
        ensures
            bytes@ == grid_bytes(self@),
            bytes@.len() == TILE_STRIDE * TILE_COUNT,
    {
        let mut bytes: Vec<u8> = Vec::new();
        let mut i: usize = 0;
        while i < TILE_COUNT
            invariant
                self.wf(),
                i <= TILE_COUNT,
                bytes@ == grid_bytes(self@.subrange(0, i as int)),
                bytes@.len() == TILE_STRIDE * i,
            decreases TILE_COUNT - i,
        {
            let ghost prefix = self@.subrange(0, i as int);
            let e = self.entries[i];
            push_le_u32(&mut bytes, e.glyph);
            push_le_u32(&mut bytes, e.reserved1);
            push_le_u32(&mut bytes, e.reserved2);
            push_le_u32(&mut bytes, e.reserved3);
            proof {
                let next = self@.subrange(0, i + 1);
                assert(next.drop_last() =~= prefix);
                assert(next.last() == self@[i as int]);
                assert(bytes@ =~= grid_bytes(prefix) + tile_bytes(self@[i as int]));
            }
            i = i + 1;
        }
        proof {
            assert(self@.subrange(0, TILE_COUNT as int) =~= self@);
        }
        bytes
    }
}

/// Append the four little-endian bytes of one 32-bit field.
fn push_le_u32(bytes: &mut Vec<u8>, x: u32)
    ensures
        final(bytes)@ == old(bytes)@ + le_bytes_u32(x),
{
    bytes.push((x % 256) as u8);
    bytes.push(((x / 256) % 256) as u8);
    bytes.push(((x / 65536) % 256) as u8);
    bytes.push(((x / 16777216) % 256) as u8);
    assert(bytes@ =~= old(bytes)@ + le_bytes_u32(x));
}

} // verus!
