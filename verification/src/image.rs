//! Pixel-buffer descriptors and the row-band tiling that splits a mutable
//! image for parallel processing.

use vstd::prelude::*;
use vstd::arithmetic::div_mod::{lemma_div_by_self, lemma_div_is_ordered, lemma_fundamental_div_mod};
use crate::types::{Int, PtrVal, RectI};

verus! {

/// A read-only pixel-buffer descriptor: the image bounds, the byte stride
/// between rows (which the host may make negative for bottom-up layouts),
/// and the base address of the pixel data.
#[derive(Copy, Clone, Debug, PartialEq, Eq, Structural)]
pub struct ImageDescriptor {
    pub bounds: RectI,
    pub row_bytes: Int,
    pub data: PtrVal,
}

impl ImageDescriptor {
    pub fn new(bounds: RectI, row_bytes: Int, data: PtrVal) -> (r: Self)
        ensures
            r == (ImageDescriptor { bounds, row_bytes, data }),
    {
        ImageDescriptor { bounds, row_bytes, data }
    }
}

/// A pixel-buffer descriptor handed out for exclusive writing. It carries the
/// same three readings as `ImageDescriptor`; exclusivity is a promise of the
/// wrapper that holds it, not extra state.
#[derive(Copy, Clone, Debug, PartialEq, Eq, Structural)]
pub struct ImageDescriptorMut {
    pub bounds: RectI,
    pub row_bytes: Int,
    pub data: PtrVal,
}

/// One tile of a mutable image: a contiguous band of whole rows. `bounds` is
/// the tile's own rectangle (full width, a sub-range of rows); `byte_offset`
/// is where the tile's first row starts, in bytes relative to the image base
/// address `data`, already scaled by the row stride.
#[derive(Copy, Clone, Debug, PartialEq, Eq, Structural)]
pub struct ImageTileMut {
    pub bounds: RectI,
    pub row_bytes: Int,
    pub data: PtrVal,
    pub byte_offset: i64,
}

/// Row offset of the start of tile `i`, when `h` rows are split into `n`
/// tiles of `h / n` rows each and the first `h % n` tiles take one extra row.
pub open spec fn spec_tile_start(i: int, base: int, rem: int) -> int
    decreases i,
{
    if i <= 0 {
        0
    } else {
        spec_tile_start(i - 1, base, rem) + base + (if i - 1 < rem {
            1int
        } else {
            0int
        })
    }
}

proof fn lemma_tile_start_closed_form(i: int, base: int, rem: int)
    requires
        0 <= i,
        0 <= rem,
        0 <= base,
    ensures
        spec_tile_start(i, base, rem) == i * base + (if i <= rem {
            i
        } else {
            rem
        }),
    decreases i,
{
    if i > 0 {
        lemma_tile_start_closed_form(i - 1, base, rem);
        assert((i - 1) * base + base == i * base) by (nonlinear_arith);
    } else {
        assert(0 * base == 0) by (nonlinear_arith);
    }
}

impl ImageDescriptorMut {
    pub fn new(bounds: RectI, row_bytes: Int, data: PtrVal) -> (r: Self)
        ensures
            r == (ImageDescriptorMut { bounds, row_bytes, data }),
    {
        ImageDescriptorMut { bounds, row_bytes, data }
    }

    /// Whether one tile is a well-formed piece of this image: full width, a
    /// non-empty row band inside the bounds, the image's stride and base, and
    /// the byte offset of its first row.
    pub open spec fn spec_tile_wf(self, t: ImageTileMut) -> bool {
        &&& t.bounds.x1 == self.bounds.x1
        &&& t.bounds.x2 == self.bounds.x2
        &&& self.bounds.y1 <= t.bounds.y1 < t.bounds.y2 <= self.bounds.y2
        &&& t.row_bytes == self.row_bytes
        &&& t.data == self.data
        &&& t.byte_offset == (t.bounds.y1 - self.bounds.y1) * self.row_bytes
    }

    /// How many tiles a request for `count` produces: one per row when there
    /// are fewer rows than requested, else `count`.
    pub open spec fn spec_tile_count(self, count: int) -> int {
        if count <= self.bounds.spec_height() {
            count
        } else {
            self.bounds.spec_height()
        }
    }

    /// Splits the image into `count` disjoint bands of whole rows that cover
    /// the bounds exactly once, for parallel processing: consecutive tiles
    /// meet edge to edge, the first starts at the top row of the bounds and
    /// the last ends at the bottom. An image with fewer rows than `count`
    /// yields one tile per row.
    pub fn into_tiles(self, count: usize) -> (r: Vec<ImageTileMut>)
        ensures
            r.len() == self.spec_tile_count(count as int),
            forall|i: int| 0 <= i < r.len() ==> self.spec_tile_wf(#[trigger] r[i]),
            r.len() > 0 ==> r[0].bounds.y1 == self.bounds.y1,
            r.len() > 0 ==> r[r.len() - 1].bounds.y2 == self.bounds.y2,
            forall|i: int| 0 < i < r.len() ==> #[trigger] r[i].bounds.y1 == r[i - 1].bounds.y2,
    {
        let h: u32 = self.bounds.height();
        let n: u32 = if count >= h as usize {
            h
        } else {
            count as u32
        };
        let mut tiles: Vec<ImageTileMut> = Vec::new();
        if n == 0 {
            return tiles;
        }
        let base: u32 = h / n;
        let rem: u32 = h % n;
        proof {
            lemma_div_is_ordered(n as int, h as int, n as int);
            lemma_div_by_self(n as int);
            lemma_fundamental_div_mod(h as int, n as int);
        }
        let mut i: u32 = 0;
        let mut start_rel: u32 = 0;
        while i < n
            invariant
                0 < n <= h,
                i <= n,
                base == h as int / n as int,
                rem == h as int % n as int,
                1 <= base,
                rem < n,
                h as int == n as int * base as int + rem as int,
                self.bounds.spec_height() == h,
                start_rel == spec_tile_start(i as int, base as int, rem as int),
                start_rel <= h,
                tiles.len() == i,
                forall|j: int| 0 <= j < i ==> self.spec_tile_wf(#[trigger] tiles[j]),
                i > 0 ==> tiles[0].bounds.y1 == self.bounds.y1,
                i > 0 ==> tiles[i - 1].bounds.y2 == self.bounds.y1 + start_rel,
                forall|j: int| 0 < j < i ==> #[trigger] tiles[j].bounds.y1 == tiles[j
                    - 1].bounds.y2,
            decreases n - i,
        {
            proof {
                lemma_tile_start_closed_form(i as int, base as int, rem as int);
                lemma_tile_start_closed_form(i as int + 1, base as int, rem as int);
                lemma_tile_start_closed_form(n as int, base as int, rem as int);
                assert((i as int + 1) * base as int <= n as int * base as int) by (nonlinear_arith)
                    requires
                        0 <= i as int + 1 <= n as int,
                        base as int >= 0,
                ;
            }
            let height_i: u32 = if i < rem {
                base + 1
            } else {
                base
            };
            let y_start: Int = (((self.bounds.y1 as i64) + (start_rel as i64))) as Int;
            let y_end: Int = (((self.bounds.y1 as i64) + (start_rel as i64) + (height_i
                as i64))) as Int;
            let rel_off: i64 = start_rel as i64;
            proof {
                assert(rel_off * self.row_bytes as i64 <= 0x7fff_ffff_ffff_ffff
                    && rel_off * self.row_bytes as i64 >= -0x7fff_ffff_ffff_ffff)
                    by (nonlinear_arith)
                    requires
                        0 <= rel_off <= 0xffff_ffffi64,
                        -0x8000_0000i64 <= self.row_bytes as i64 <= 0x7fff_ffffi64,
                ;
            }
            let byte_offset: i64 = rel_off * (self.row_bytes as i64);
            let tile = ImageTileMut {
                bounds: RectI { x1: self.bounds.x1, y1: y_start, x2: self.bounds.x2, y2: y_end },
                row_bytes: self.row_bytes,
                data: self.data,
                byte_offset,
            };
            tiles.push(tile);
            start_rel = start_rel + height_i;
            i = i + 1;
        }
        proof {
            lemma_tile_start_closed_form(n as int, base as int, rem as int);
        }
        tiles
    }
}


/// Bands earlier in a contiguous run end no later than later bands begin.
proof fn lemma_band_order(d: ImageDescriptorMut, tiles: Seq<ImageTileMut>, i: int, j: int)
    requires
        forall|k: int| 0 <= k < tiles.len() ==> d.spec_tile_wf(#[trigger] tiles[k]),
        forall|k: int| 0 < k < tiles.len() ==> #[trigger] tiles[k].bounds.y1 == tiles[k
            - 1].bounds.y2,
        0 <= i < j < tiles.len(),
    ensures
        tiles[i].bounds.y2 <= tiles[j].bounds.y1,
    decreases j - i,
{
    if j == i + 1 {
    } else {
        lemma_band_order(d, tiles, i, j - 1);
    }
}

/// A row below the end of band `k` and not above the top of the bounds lies
/// in one of the first `k + 1` bands.
proof fn lemma_band_find(d: ImageDescriptorMut, tiles: Seq<ImageTileMut>, y: int, k: int)
    requires
        forall|i: int| 0 <= i < tiles.len() ==> d.spec_tile_wf(#[trigger] tiles[i]),
        forall|i: int| 0 < i < tiles.len() ==> #[trigger] tiles[i].bounds.y1 == tiles[i
            - 1].bounds.y2,
        0 <= k < tiles.len(),
        tiles[0].bounds.y1 <= y < tiles[k].bounds.y2,
    ensures
        exists|i: int|
            0 <= i <= k && (#[trigger] tiles[i]).bounds.y1 <= y < tiles[i].bounds.y2,
    decreases k,
{
    if y >= tiles[k].bounds.y1 {
        assert(tiles[k].bounds.y1 <= y < tiles[k].bounds.y2);
    } else {
        lemma_band_find(d, tiles, y, k - 1);
    }
}

/// Law: row bands that meet edge to edge, start at the top of the bounds and
/// end at the bottom — exactly what `into_tiles` guarantees — cover every
/// row of the bounds exactly once: each row lies in one band and only one.
pub proof fn lemma_tiles_partition_rows(d: ImageDescriptorMut, tiles: Seq<ImageTileMut>, y: int)
    requires
        tiles.len() > 0,
        tiles[0].bounds.y1 == d.bounds.y1,
        tiles[tiles.len() - 1].bounds.y2 == d.bounds.y2,
        forall|i: int| 0 <= i < tiles.len() ==> d.spec_tile_wf(#[trigger] tiles[i]),
        forall|i: int| 0 < i < tiles.len() ==> #[trigger] tiles[i].bounds.y1 == tiles[i
            - 1].bounds.y2,
        d.bounds.y1 <= y < d.bounds.y2,
    ensures
        exists|i: int|
            0 <= i < tiles.len() && (#[trigger] tiles[i]).bounds.y1 <= y < tiles[i].bounds.y2,
        forall|i: int, j: int|
            0 <= i < tiles.len() && 0 <= j < tiles.len() && (#[trigger] tiles[i]).bounds.y1 <= y
                < tiles[i].bounds.y2 && (#[trigger] tiles[j]).bounds.y1 <= y < tiles[j].bounds.y2
                ==> i == j,
{
    lemma_band_find(d, tiles, y, tiles.len() - 1);
    assert forall|i: int, j: int|
        0 <= i < tiles.len() && 0 <= j < tiles.len() && (#[trigger] tiles[i]).bounds.y1 <= y
            < tiles[i].bounds.y2 && (#[trigger] tiles[j]).bounds.y1 <= y
            < tiles[j].bounds.y2 implies i == j by {
        if i < j {
            lemma_band_order(d, tiles, i, j);
        } else if j < i {
            lemma_band_order(d, tiles, j, i);
        }
    }
}
} // verus!
