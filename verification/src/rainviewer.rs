//! RainViewer radar frames and tiles, used for places outside Japan.
use vstd::prelude::*;
use crate::text::{decimal, push_decimal};

verus! {

/// Finest zoom level of the RainViewer tiles taken.
pub const RAINVIEWER_MAX_ZOOM: u8 = 7;

/// Zoom level of the RainViewer tiles for the map's zoom level.
pub fn rainviewer_zoom(map_z: u8) -> (r: u8)
    ensures
        r == (if map_z < RAINVIEWER_MAX_ZOOM { map_z } else { RAINVIEWER_MAX_ZOOM }),
{
    if map_z < RAINVIEWER_MAX_ZOOM { map_z } else { RAINVIEWER_MAX_ZOOM }
}

/// One past radar frame of RainViewer: its time (seconds since the Unix epoch)
/// and the path of its tiles.
#[derive(Debug, Clone)]
pub struct RadarFrame {
    pub time: i64,
    pub path: String,
}

/// The frame shown for a time offset over `count` past frames (oldest first):
/// offset 0 is the newest, each step back one frame earlier, stopping at the
/// oldest; a positive offset stays at the newest. `None` without frames.
pub open spec fn frame_index(count: int, offset: int) -> Option<int> {
    if count <= 0 {
        None
    } else if offset >= 0 {
        Some(count - 1)
    } else if count - 1 + offset < 0 {
        Some(0)
    } else {
        Some(count - 1 + offset)
    }
}

/// Picks the past frame for a radar time offset (see `frame_index`).
pub fn rainviewer_frame(count: usize, offset: i32) -> (r: Option<usize>)
    ensures
        r matches Some(i) ==> frame_index(count as int, offset as int) == Some(i as int) && i < count,
        r is None <==> frame_index(count as int, offset as int) is None,
{
    if count == 0 {
        return None;
    }
    if offset >= 0 {
        return Some(count - 1);
    }
    let back: u64 = (0 - (offset as i64)) as u64;
    if back > (count - 1) as u64 {
        Some(0)
    } else {
        Some(count - 1 - back as usize)
    }
}

/// Address of a RainViewer radar tile: 256-pixel tiles, colour scheme 2
/// (universal blue), smoothed, with snow: `{host}{path}/256/{z}/{x}/{y}/2/1_1.png`.
pub open spec fn tile_url_spec(host: Seq<char>, path: Seq<char>, z: u8, x: u32, y: u32) -> Seq<char> {
    host + path + "/256/"@ + decimal(z as nat) + "/"@ + decimal(x as nat) + "/"@ + decimal(y as nat)
        + "/2/1_1.png"@
}

/// Builds the address of a RainViewer radar tile.
pub fn rainviewer_tile_url(host: &str, path: &str, z: u8, x: u32, y: u32) -> (r: String)
    ensures
        r@ == tile_url_spec(host@, path@, z, x, y),
{
    let mut s = String::from_str(host);
    s.append(path);
    s.append("/256/");
    push_decimal(&mut s, z as u64);
    s.append("/");
    push_decimal(&mut s, x as u64);
    s.append("/");
    push_decimal(&mut s, y as u64);
    s.append("/2/1_1.png");
    s
}

/// Tile `k` of the block of tiles from `(x0, y0)` to `(x1, y1)` (corners
/// included), listed row by row, `w` tiles per row.
pub open spec fn block_tile(x0: int, y0: int, w: int, k: int) -> (u32, u32) {
    ((x0 + k % w) as u32, (y0 + k / w) as u32)
}

/// The tiles covering the view: every tile from column `x0` to `x1` and row
/// `y0` to `y1`, row by row from the north-west; none when a range is empty.
pub fn tiles_in_range(x0: u32, y0: u32, x1: u32, y1: u32) -> (r: Vec<(u32, u32)>)
    ensures
        (x0 > x1 || y0 > y1) ==> r@.len() == 0,
        (x0 <= x1 && y0 <= y1) ==> {
            &&& r@.len() == (x1 - x0 + 1) * (y1 - y0 + 1)
            &&& forall|k: int| 0 <= k < r@.len() ==> #[trigger] r@[k] == block_tile(x0 as int, y0 as int, (x1 - x0 + 1) as int, k)
        },
{
    let mut out: Vec<(u32, u32)> = Vec::new();
    if x0 > x1 || y0 > y1 {
        return out;
    }
    let ghost w: int = (x1 - x0 + 1) as int;
    let mut y: u64 = y0 as u64;
    while y <= y1 as u64
        invariant
            x0 <= x1,
            y0 <= y1,
            w == x1 - x0 + 1,
            y0 <= y <= y1 as int + 1,
            out@.len() == (y - y0) * w,
            forall|k: int| 0 <= k < out@.len() ==> #[trigger] out@[k] == block_tile(x0 as int, y0 as int, w, k),
        decreases y1 as int + 1 - y,
    {
        let mut x: u64 = x0 as u64;
        while x <= x1 as u64
            invariant
                x0 <= x1,
                y0 <= y <= y1,
                w == x1 - x0 + 1,
                x0 <= x <= x1 as int + 1,
                out@.len() == (y - y0) * w + (x - x0),
                forall|k: int| 0 <= k < out@.len() ==> #[trigger] out@[k] == block_tile(x0 as int, y0 as int, w, k),
            decreases x1 as int + 1 - x,
        {
            proof {
                let k = (y - y0) * w + (x - x0);
                vstd::arithmetic::div_mod::lemma_fundamental_div_mod_converse(k, w, (y - y0) as int, (x - x0) as int);
                assert(block_tile(x0 as int, y0 as int, w, k) == (x as u32, y as u32));
            }
            out.push((x as u32, y as u32));
            x = x + 1;
        }
        proof {
            assert((y - y0) * w + w == (y + 1 - y0) * w) by (nonlinear_arith);
        }
        y = y + 1;
    }
    assert((y1 + 1 - y0) * w == (x1 - x0 + 1) * (y1 - y0 + 1)) by (nonlinear_arith)
        requires w == x1 - x0 + 1;
    out
}

} // verus!
