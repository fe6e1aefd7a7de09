//! Tile bookkeeping of the radar view: zoom levels, the 3×3 block of tiles
//! around the centre.
use vstd::prelude::*;

verus! {

/// Highest zoom level of the background map tiles.
pub const MAP_MAX_ZOOM: u8 = 13;
/// Highest zoom level of the JMA rain tiles.
pub const RAIN_MAX_ZOOM: u8 = 10;

/// Zoom levels of the map tiles and of the rain tiles for a requested zoom:
/// each source is capped at the finest level it serves.
pub fn zoom_levels(zoom: u8) -> (r: (u8, u8))
    ensures
        r.0 == (if zoom < MAP_MAX_ZOOM { zoom } else { MAP_MAX_ZOOM }),
        r.1 == (if zoom < RAIN_MAX_ZOOM { zoom } else { RAIN_MAX_ZOOM }),
{
    let map_z = if zoom < MAP_MAX_ZOOM { zoom } else { MAP_MAX_ZOOM };
    let rain_z = if zoom < RAIN_MAX_ZOOM { zoom } else { RAIN_MAX_ZOOM };
    (map_z, rain_z)
}

/// The offsets of the 3×3 block, row by row from the north-west corner.
pub open spec fn block_offset(k: int) -> (i32, i32) {
    (((k % 3) - 1) as i32, ((k / 3) - 1) as i32)
}

/// The tiles of the 3×3 block around tile `(cx, cy)` that exist (no negative
/// index), each with its offset from the centre, in the order of `block_offset`.
pub open spec fn block_tiles(cx: int, cy: int, upto: int) -> Seq<((i32, i32), (u32, u32))>
    decreases upto,
{
    if upto <= 0 {
        seq![]
    } else {
        let rest = block_tiles(cx, cy, upto - 1);
        let (dx, dy) = block_offset(upto - 1);
        if cx + dx >= 0 && cy + dy >= 0 {
            rest.push(((dx, dy), ((cx + dx) as u32, (cy + dy) as u32)))
        } else {
            rest
        }
    }
}

/// Tiles to fetch around the centre tile `(cx, cy)`: the 3×3 block without the
/// tiles that would lie west of column 0 or north of row 0.
pub fn neighbor_tiles(cx: u32, cy: u32) -> (r: Vec<((i32, i32), (u32, u32))>)
    requires
        cx < 0x7fff_ffff,
        cy < 0x7fff_ffff,
    ensures
        r@ == block_tiles(cx as int, cy as int, 9),
{
    let mut out: Vec<((i32, i32), (u32, u32))> = Vec::new();
    let mut dy: i32 = -1;
    while dy <= 1
        invariant
            -1 <= dy <= 2,
            cx < 0x7fff_ffff,
            cy < 0x7fff_ffff,
            out@ == block_tiles(cx as int, cy as int, 3 * (dy + 1)),
        decreases 2 - dy,
    {
        let mut dx: i32 = -1;
        while dx <= 1
            invariant
                -1 <= dy <= 1,
                -1 <= dx <= 2,
                cx < 0x7fff_ffff,
                cy < 0x7fff_ffff,
                out@ == block_tiles(cx as int, cy as int, 3 * (dy + 1) + dx + 1),
            decreases 2 - dx,
        {
            let ghost k: int = 3 * (dy + 1) + dx + 1;
            assert(block_offset(k) == (dx, dy));
            let tx = cx as i64 + dx as i64;
            let ty = cy as i64 + dy as i64;
            if tx >= 0 && ty >= 0 {
                out.push(((dx, dy), (tx as u32, ty as u32)));
            }
            dx = dx + 1;
        }
        dy = dy + 1;
    }
    out
}

/// Side of the grid the JMA radar view is resampled to.
pub const VIEW_SIDE: usize = 128;

} // verus!
