use vstd::prelude::*;

verus! {

/// Number of tiles per row and per column of the square atlas.
pub const TILES_PER_ATLAS: u32 = 32;

/// Row of the atlas cell that a tile index refers to (row-major addressing).
pub open spec fn atlas_row(index: int) -> int {
    index / (TILES_PER_ATLAS as int)
}

/// Column of the atlas cell that a tile index refers to.
pub open spec fn atlas_col(index: int) -> int {
    index % (TILES_PER_ATLAS as int)
}

/// A tile index addresses a cell of the atlas.
pub open spec fn valid_tile_index(index: int) -> bool {
    0 <= index < (TILES_PER_ATLAS as int) * (TILES_PER_ATLAS as int)
}

/// A position in the atlas grid, in whole tiles.
#[derive(Clone, Copy, Debug, PartialEq, Eq, Structural)]
pub struct AtlasCell {
    pub row: u32,
    pub col: u32,
}

/// Resolves a tile index to its atlas cell; indices outside the atlas are
/// rejected.
pub fn atlas_cell(index: u32) -> (r: Option<AtlasCell>)
    ensures
        r.is_some() <==> valid_tile_index(index as int),
        r.is_some() ==> r->Some_0.row as int == atlas_row(index as int)
            && r->Some_0.col as int == atlas_col(index as int),
{
    if index >= TILES_PER_ATLAS * TILES_PER_ATLAS {
        None
    } else {
        Some(AtlasCell { row: index / TILES_PER_ATLAS, col: index % TILES_PER_ATLAS })
    }
}

/// A grid of tile indices, stored row by row.
pub struct TileMap {
    width: u32,
    height: u32,
    cells: Vec<u32>,
}

/// A point in the atlas image, in atlas pixels.
#[derive(Clone, Copy, Debug, PartialEq, Eq, Structural)]
pub struct AtlasTexel {
    pub x: u64,
    pub y: u64,
}

/// The atlas pixel that layer pixel (`px`, `py`) shows, for a map of
/// `width` x `height` cells, tiles of `tile` pixels and a scroll offset of
/// (`ox`, `oy`) pixels. A pixel past the map's edge takes the cell at the
/// same position modulo the map size: the map repeats in both directions,
/// like a texture sampled with a repeat wrap mode. `None` when the map cell
/// holds an index outside the atlas.
pub open spec fn resolve_spec(
    cells: Seq<u32>,
    width: int,
    height: int,
    tile: int,
    ox: int,
    oy: int,
    px: int,
    py: int,
) -> Option<(int, int)> {
    let tx = px + ox;
    let ty = py + oy;
    let mx = (tx / tile) % width;
    let my = (ty / tile) % height;
    let index = cells[my * width + mx] as int;
    if valid_tile_index(index) {
        Some((atlas_col(index) * tile + tx % tile, atlas_row(index) * tile + ty % tile))
    } else {
        None
    }
}

impl TileMap {
    pub closed spec fn spec_width(&self) -> int {
        self.width as int
    }

    pub closed spec fn spec_height(&self) -> int {
        self.height as int
    }

    pub closed spec fn spec_cells(&self) -> Seq<u32> {
        self.cells@
    }

    /// The grid is non-empty and holds one index per cell.
    pub closed spec fn wf(&self) -> bool {
        &&& self.width > 0
        &&& self.height > 0
        &&& self.cells@.len() == self.width as int * self.height as int
    }

    /// Makes a map of `width` x `height` cells from its indices, row by row;
    /// `None` unless the grid is non-empty and `cells` has one index per cell.
    pub fn new(width: u32, height: u32, cells: Vec<u32>) -> (r: Option<TileMap>)
        ensures
            r.is_some() <==> (width > 0 && height > 0 && cells@.len() == width as int * height as int),
            r.is_some() ==> ({
                let m = r->Some_0;
                &&& m.wf()
                &&& m.spec_width() == width as int
                &&& m.spec_height() == height as int
                &&& m.spec_cells() == cells@
            }),
    {
        if width == 0 || height == 0 {
            return None;
        }
        proof {
            assert(width as int * height as int <= u32::MAX as int * u32::MAX as int) by (nonlinear_arith)
                requires width <= u32::MAX, height <= u32::MAX;
        }
        let n: u64 = width as u64 * height as u64;
        if cells.len() as u64 != n {
            return None;
        }
        Some(TileMap { width, height, cells })
    }

    /// The tile index of cell (`x`, `y`).
    pub fn tile_at(&self, x: u32, y: u32) -> (r: u32)
        requires
            self.wf(),
            x < self.spec_width(),
            y < self.spec_height(),
        ensures
            r == self.spec_cells()[y * self.spec_width() + x],
    {
        proof {
            let w = self.width as int;
            let h = self.height as int;
            assert((y as int) * w + (x as int) < w * h) by (nonlinear_arith)
                requires (x as int) < w, (y as int) < h, x >= 0, y >= 0;
            assert((y as int) * w >= 0) by (nonlinear_arith)
                requires y >= 0, w >= 0;
        }
        let len: usize = self.cells.len();
        let i: usize = (y as usize) * (self.width as usize) + (x as usize);
        assert(i < len);
        self.cells[i]
    }

    /// Resolves layer pixel (`px`, `py`) to the atlas pixel it shows, with
    /// tiles of `tile` pixels scrolled by (`ox`, `oy`) pixels; `None` when the
    /// cell's tile index lies outside the atlas.
    pub fn resolve(&self, tile: u32, ox: u32, oy: u32, px: u32, py: u32) -> (r: Option<AtlasTexel>)
        requires
            self.wf(),
            tile > 0,
        ensures
            r.is_some() <==> resolve_spec(self.spec_cells(), self.spec_width(), self.spec_height(),
                tile as int, ox as int, oy as int, px as int, py as int).is_some(),
            r.is_some() ==> resolve_spec(self.spec_cells(), self.spec_width(), self.spec_height(),
                tile as int, ox as int, oy as int, px as int, py as int)
                == Some((r->Some_0.x as int, r->Some_0.y as int)),
    {
        let tx: u64 = px as u64 + ox as u64;
        let ty: u64 = py as u64 + oy as u64;
        let t: u64 = tile as u64;
        let mx: u64 = (tx / t) % (self.width as u64);
        let my: u64 = (ty / t) % (self.height as u64);
        let index = self.tile_at(mx as u32, my as u32);
        match atlas_cell(index) {
            Some(cell) => {
                let fx: u64 = tx % t;
                let fy: u64 = ty % t;
                proof {
                    assert(cell.col as u64 * t + fx < 32 * t + t) by (nonlinear_arith)
                        requires cell.col < 32, fx < t;
                    assert(cell.row as u64 * t + fy < 32 * t + t) by (nonlinear_arith)
                        requires cell.row < 32, fy < t;
                }
                Some(AtlasTexel { x: cell.col as u64 * t + fx, y: cell.row as u64 * t + fy })
            },
            None => None,
        }
    }
}

/// Row-major addressing round-trips: a valid tile index names a cell inside
/// the atlas grid, and that cell's row and column give the index back.
pub proof fn lemma_atlas_cell_round_trip(index: int)
    requires
        valid_tile_index(index),
    ensures
        0 <= atlas_row(index) < TILES_PER_ATLAS as int,
        0 <= atlas_col(index) < TILES_PER_ATLAS as int,
        atlas_row(index) * (TILES_PER_ATLAS as int) + atlas_col(index) == index,
{
}

/// An index at or past the atlas's cell count names no atlas cell, and
/// `atlas_cell` rejects it.
pub proof fn lemma_out_of_atlas_rejected(index: int)
    requires
        index >= (TILES_PER_ATLAS as int) * (TILES_PER_ATLAS as int),
    ensures
        !valid_tile_index(index),
        atlas_row(index) >= TILES_PER_ATLAS as int,
{
}

} // verus!
