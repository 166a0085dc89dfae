use vstd::prelude::*;

verus! {

/// First address of video RAM.
pub const VRAM_BEGIN: usize = 0x8000;
/// Last address of video RAM.
pub const VRAM_END: usize = 0x97FF;
/// Number of bytes of video RAM.
pub const VRAM_SIZE: usize = VRAM_END - VRAM_BEGIN + 1;
/// Number of tiles the tile set holds.
pub const MAX_TILE_NUMBER: usize = 384;

/// The shade of one pixel of a tile.
#[derive(Copy, Clone, Debug, PartialEq, Eq, Structural)]
pub enum TilePixelValue {
    /// white
    Zero,
    /// dark gray
    One,
    /// light gray
    Two,
    /// black
    Three,
}

/// An 8x8 tile, row by row.
pub type Tile = [[TilePixelValue; 8]; 8];

/// Whether every pixel of `t` is white.
pub open spec fn is_empty_tile(t: Tile) -> bool {
    forall|i: int, j: int| 0 <= i < 8 && 0 <= j < 8 ==> #[trigger] t[i][j] == TilePixelValue::Zero
}

/// A tile whose every pixel is white.
pub fn empty_tile() -> (t: Tile)
    ensures
        is_empty_tile(t),
{
    [[TilePixelValue::Zero; 8]; 8]
}

/// The video RAM and the decoded tile set.
pub struct GPU {
    vram: [u8; VRAM_SIZE],
    tile_set: [Tile; MAX_TILE_NUMBER],
}

impl GPU {
    /// The bytes of video RAM.
    pub closed spec fn vram(&self) -> Seq<u8> {
        self.vram@
    }

    /// The tiles of the tile set.
    pub closed spec fn tiles(&self) -> Seq<Tile> {
        self.tile_set@
    }

    /// Zeroed video RAM and a tile set of white tiles.
    pub fn new() -> (gpu: GPU)
        ensures
            gpu.vram() == Seq::new(VRAM_SIZE as nat, |i: int| 0u8),
            gpu.tiles().len() == MAX_TILE_NUMBER,
            forall|i: int| 0 <= i < MAX_TILE_NUMBER ==> is_empty_tile(#[trigger] gpu.tiles()[i]),
    {
        let gpu = GPU { vram: [0u8; VRAM_SIZE], tile_set: [empty_tile(); MAX_TILE_NUMBER] };
        assert(gpu.vram() =~= Seq::new(VRAM_SIZE as nat, |i: int| 0u8));
        gpu
    }

    /// The byte of video RAM at offset `addr`.
    pub fn read_vram(&self, addr: usize) -> (v: u8)
        requires
            addr < VRAM_SIZE,
        ensures
            v == self.vram()[addr as int],
    {
        self.vram[addr]
    }

    /// Writing video RAM is not modelled yet: nothing changes.
    pub fn write_vram(&mut self, addr: u16, v: u8)
        ensures
            final(self).vram() == old(self).vram(),
            final(self).tiles() == old(self).tiles(),
    {
    }
}

} // verus!
