//! Decoded map and radar tiles as plain RGBA rasters, and what is computed from them.
use vstd::prelude::*;
use crate::palette::{legend_stops, legend_stops_spec, nowcast_color_to_mmh, nowcast_tenths, Rgba};

verus! {

/// Side of the coarse grids that one tile is reduced to.
pub const GRID_SIDE: usize = 128;

/// An RGBA raster, row by row, four bytes per pixel.
pub struct Pixels {
    pub width: u32,
    pub height: u32,
    pub data: Vec<u8>,
}

/// The abstract content of a raster: its size and its bytes.
pub ghost struct RasterView {
    pub width: u32,
    pub height: u32,
    pub bytes: Seq<u8>,
}

impl View for Pixels {
    type V = RasterView;

    open spec fn view(&self) -> RasterView {
        RasterView { width: self.width, height: self.height, bytes: self.data@ }
    }
}

impl RasterView {
    /// The buffer holds every pixel of the raster.
    pub open spec fn wf(&self) -> bool {
        self.bytes.len() >= self.width as int * self.height as int * 4
    }

    /// Offset of the first byte of pixel `(x, y)`.
    pub open spec fn offset(&self, x: int, y: int) -> int {
        (y * self.width + x) * 4
    }

    /// The pixel at column `x`, row `y`.
    pub open spec fn pixel(&self, x: int, y: int) -> Rgba {
        let o = self.offset(x, y);
        (self.bytes[o], self.bytes[o + 1], self.bytes[o + 2], self.bytes[o + 3])
    }
}

/// Why an image could not be turned into a raster.
#[derive(Debug, Clone, Copy, PartialEq, Eq, Structural)]
pub enum DecodeError {
    /// The bytes are not an image in a supported format.
    Undecodable,
    /// The image has no pixels.
    Empty,
}

/// The raster that the bytes decode to, if any.
pub open spec fn decoded_view(bytes: Seq<u8>) -> Option<RasterView> {
    match decoded_rgba(bytes) {
        Some((w, h, d)) => Some(RasterView { width: w, height: h, bytes: d }),
        None => None,
    }
}

/// What the `image` crate decodes from a byte buffer (format guessed from the
/// bytes) once converted to 8-bit RGBA: width, height and the pixel bytes.
pub uninterp spec fn decoded_rgba(bytes: Seq<u8>) -> Option<(u32, u32, Seq<u8>)>;

/// Decodes an encoded image (PNG, JPEG) with `image::load_from_memory` and converts
/// it with `DynamicImage::to_rgba8`. The result is `decoded_rgba` of the bytes;
/// the raster buffer of an `image::ImageBuffer` always holds all its pixels.
#[verifier::external_body]
fn decode_rgba8(bytes: &[u8]) -> (r: Result<Pixels, DecodeError>)
    ensures
        match decoded_rgba(bytes@) {
            None => r == Err::<Pixels, DecodeError>(DecodeError::Undecodable),
            Some((w, h, d)) => r matches Ok(p) && p.width == w && p.height == h && p.data@ == d,
        },
        r matches Ok(p) ==> p@.wf(),
{
    match image::load_from_memory(bytes) {
        Ok(img) => {
            let rgba = img.to_rgba8();
            let (width, height) = rgba.dimensions();
            Ok(Pixels { width, height, data: rgba.into_raw() })
        },
        Err(_) => Err(DecodeError::Undecodable),
    }
}

/// Decodes a map or radar tile image into a raster.
pub fn decode_tile(bytes: &[u8]) -> (r: Result<Pixels, DecodeError>)
    ensures
        match decoded_view(bytes@) {
            None => r == Err::<Pixels, DecodeError>(DecodeError::Undecodable),
            Some(v) => r matches Ok(p) && p@ == v,
        },
        r matches Ok(p) ==> p@.wf(),
{
    decode_rgba8(bytes)
}

proof fn lemma_offset_bound(w: int, h: int, x: int, y: int)
    requires
        0 <= x < w,
        0 <= y < h,
    ensures
        0 <= (y * w + x) * 4,
        (y * w + x) * 4 + 4 <= w * h * 4,
{
    assert(y * w + x < w * h) by (nonlinear_arith)
        requires
            0 <= x < w,
            0 <= y < h,
    ;
    assert(0 <= y * w) by (nonlinear_arith)
        requires
            0 <= y,
            0 <= w,
    ;
}

/// Reads pixel `(x, y)` of a raster.
pub fn pixel_at(p: &Pixels, x: u32, y: u32) -> (r: Rgba)
    requires
        p@.wf(),
        x < p.width,
        y < p.height,
    ensures
        r == p@.pixel(x as int, y as int),
{
    let n = p.data.len();
    proof {
        lemma_offset_bound(p.width as int, p.height as int, x as int, y as int);
        assert(p.data@.len() == n);
        assert(y as int * p.width as int >= 0) by (nonlinear_arith)
            requires
                y >= 0,
                p.width >= 0,
        ;
    }
    let yw: u64 = y as u64 * p.width as u64;
    let o: usize = ((yw + x as u64) * 4) as usize;
    (p.data[o], p.data[o + 1], p.data[o + 2], p.data[o + 3])
}

/// Column (or row) of the source raster that sample `d` of grid cell `i` reads,
/// for a source side of `side` pixels: the cell's first pixel plus `d`, kept inside.
pub open spec fn sample_index(side: int, i: int, d: int) -> int {
    let p = i * side / GRID_SIDE as int + d;
    if p < side - 1 { p } else { side - 1 }
}

fn sample_index_exec(side: u32, i: usize, d: u32) -> (r: u32)
    requires
        side >= 1,
        i < GRID_SIDE,
        d < 2,
    ensures
        r == sample_index(side as int, i as int, d as int),
        r < side,
{
    assert(i as int * side as int / 128 <= side as int) by (nonlinear_arith)
        requires
            0 <= i < 128,
            side >= 1,
    ;
    let p: u64 = i as u64 * side as u64 / 128 + d as u64;
    if p < side as u64 - 1 {
        p as u32
    } else {
        side - 1
    }
}

/// Rain intensity of one sample pixel.
pub open spec fn sample_rate(img: RasterView, i: int, j: int, dx: int, dy: int) -> u32 {
    let c = img.pixel(
        sample_index(img.width as int, i, dx),
        sample_index(img.height as int, j, dy),
    );
    nowcast_tenths(c.0, c.1, c.2, c.3)
}

/// Larger of two intensities.
pub open spec fn max_u32(a: u32, b: u32) -> u32 {
    if a >= b { a } else { b }
}

/// Intensity of grid cell `(i, j)`: the strongest of its 2x2 sample pixels.
pub open spec fn cell_rate(img: RasterView, i: int, j: int) -> u32 {
    max_u32(
        max_u32(sample_rate(img, i, j, 0, 0), sample_rate(img, i, j, 1, 0)),
        max_u32(sample_rate(img, i, j, 0, 1), sample_rate(img, i, j, 1, 1)),
    )
}

fn sample_rate_exec(img: &Pixels, i: usize, j: usize, dx: u32, dy: u32) -> (r: u32)
    requires
        img@.wf(),
        img.width >= 1,
        img.height >= 1,
        i < GRID_SIDE,
        j < GRID_SIDE,
        dx < 2,
        dy < 2,
    ensures
        r == sample_rate(img@, i as int, j as int, dx as int, dy as int),
{
    let px = sample_index_exec(img.width, i, dx);
    let py = sample_index_exec(img.height, j, dy);
    let c = pixel_at(img, px, py);
    nowcast_color_to_mmh(c.0, c.1, c.2, c.3)
}

/// Reduces a nowcast tile raster to a 128x128 grid of rain intensities (tenths of
/// mm/h), each cell holding the strongest of its 2x2 sample pixels.
pub fn downsample_tile(img: &Pixels) -> (grid: Vec<Vec<u32>>)
    requires
        img@.wf(),
        img.width >= 1,
        img.height >= 1,
    ensures
        grid@.len() == GRID_SIDE,
        forall|j: int| 0 <= j < GRID_SIDE ==> #[trigger] grid@[j]@.len() == GRID_SIDE,
        forall|j: int, i: int|
            0 <= j < GRID_SIDE && 0 <= i < GRID_SIDE ==> #[trigger] grid@[j]@[i] == cell_rate(img@, i, j),
{
    let mut grid: Vec<Vec<u32>> = Vec::new();
    let mut j: usize = 0;
    while j < GRID_SIDE
        invariant
            j <= GRID_SIDE,
            img@.wf(),
            img.width >= 1,
            img.height >= 1,
            grid@.len() == j,
            forall|jj: int| 0 <= jj < j ==> #[trigger] grid@[jj]@.len() == GRID_SIDE,
            forall|jj: int, i: int|
                0 <= jj < j && 0 <= i < GRID_SIDE ==> #[trigger] grid@[jj]@[i] == cell_rate(img@, i, jj),
        decreases GRID_SIDE - j,
    {
        let mut row: Vec<u32> = Vec::new();
        let mut i: usize = 0;
        while i < GRID_SIDE
            invariant
                i <= GRID_SIDE,
                j < GRID_SIDE,
                img@.wf(),
                img.width >= 1,
                img.height >= 1,
                row@.len() == i,
                forall|ii: int| 0 <= ii < i ==> #[trigger] row@[ii] == cell_rate(img@, ii, j as int),
            decreases GRID_SIDE - i,
        {
            let a = sample_rate_exec(img, i, j, 0, 0);
            let b = sample_rate_exec(img, i, j, 1, 0);
            let c = sample_rate_exec(img, i, j, 0, 1);
            let d = sample_rate_exec(img, i, j, 1, 1);
            let ab = if a >= b { a } else { b };
            let cd = if c >= d { c } else { d };
            row.push(if ab >= cd { ab } else { cd });
            i = i + 1;
        }
        grid.push(row);
        j = j + 1;
    }
    grid
}

/// Brightness of a pixel (ITU-R BT.601 weights, integer thousandths).
pub open spec fn luminance(c: Rgba) -> int {
    (299 * c.0 + 587 * c.1 + 114 * c.2) / 1000
}

/// Brightness below which a pale-map pixel counts as a line or a letter.
pub const DOT_THRESHOLD: u32 = 220;

/// Whether sample `(dx, dy)` of grid cell `(i, j)` is dark.
pub open spec fn sample_dark(img: RasterView, i: int, j: int, dx: int, dy: int) -> bool {
    luminance(img.pixel(sample_index(img.width as int, i, dx), sample_index(img.height as int, j, dy)))
        < DOT_THRESHOLD
}

/// A map-dot cell is set when any of its 2x2 sample pixels is dark, so thin lines
/// stay connected after the reduction.
pub open spec fn cell_dot(img: RasterView, i: int, j: int) -> bool {
    sample_dark(img, i, j, 0, 0) || sample_dark(img, i, j, 1, 0) || sample_dark(img, i, j, 0, 1)
        || sample_dark(img, i, j, 1, 1)
}

fn sample_dark_exec(img: &Pixels, i: usize, j: usize, dx: u32, dy: u32) -> (r: bool)
    requires
        img@.wf(),
        img.width >= 1,
        img.height >= 1,
        i < GRID_SIDE,
        j < GRID_SIDE,
        dx < 2,
        dy < 2,
    ensures
        r == sample_dark(img@, i as int, j as int, dx as int, dy as int),
{
    let px = sample_index_exec(img.width, i, dx);
    let py = sample_index_exec(img.height, j, dy);
    let c = pixel_at(img, px, py);
    let lum: u32 = (299 * c.0 as u32 + 587 * c.1 as u32 + 114 * c.2 as u32) / 1000;
    lum < DOT_THRESHOLD
}

/// Reduces a pale-map tile raster to a 128x128 grid of dots (lines and letters).
pub fn binarize_map_tile(img: &Pixels) -> (dots: Vec<Vec<bool>>)
    requires
        img@.wf(),
        img.width >= 1,
        img.height >= 1,
    ensures
        dots@.len() == GRID_SIDE,
        forall|j: int| 0 <= j < GRID_SIDE ==> #[trigger] dots@[j]@.len() == GRID_SIDE,
        forall|j: int, i: int|
            0 <= j < GRID_SIDE && 0 <= i < GRID_SIDE ==> #[trigger] dots@[j]@[i] == cell_dot(img@, i, j),
{
    let mut dots: Vec<Vec<bool>> = Vec::new();
    let mut j: usize = 0;
    while j < GRID_SIDE
        invariant
            j <= GRID_SIDE,
            img@.wf(),
            img.width >= 1,
            img.height >= 1,
            dots@.len() == j,
            forall|jj: int| 0 <= jj < j ==> #[trigger] dots@[jj]@.len() == GRID_SIDE,
            forall|jj: int, i: int|
                0 <= jj < j && 0 <= i < GRID_SIDE ==> #[trigger] dots@[jj]@[i] == cell_dot(img@, i, jj),
        decreases GRID_SIDE - j,
    {
        let mut row: Vec<bool> = Vec::new();
        let mut i: usize = 0;
        while i < GRID_SIDE
            invariant
                i <= GRID_SIDE,
                j < GRID_SIDE,
                img@.wf(),
                img.width >= 1,
                img.height >= 1,
                row@.len() == i,
                forall|ii: int| 0 <= ii < i ==> #[trigger] row@[ii] == cell_dot(img@, ii, j as int),
            decreases GRID_SIDE - i,
        {
            let hit = sample_dark_exec(img, i, j, 0, 0) || sample_dark_exec(img, i, j, 1, 0)
                || sample_dark_exec(img, i, j, 0, 1) || sample_dark_exec(img, i, j, 1, 1);
            row.push(hit);
            i = i + 1;
        }
        dots.push(row);
        j = j + 1;
    }
    dots
}


proof fn lemma_offset_injective(w: int, x1: int, y1: int, x2: int, y2: int)
    requires
        0 <= x1 < w,
        0 <= x2 < w,
        0 <= y1,
        0 <= y2,
        x1 != x2 || y1 != y2,
    ensures
        (y1 * w + x1) * 4 + 4 <= (y2 * w + x2) * 4 || (y2 * w + x2) * 4 + 4 <= (y1 * w + x1) * 4,
{
    if y1 == y2 {
    } else if y1 < y2 {
        assert(y1 * w + w <= y2 * w) by (nonlinear_arith)
            requires
                y1 < y2,
                0 <= w,
        ;
    } else {
        assert(y2 * w + w <= y1 * w) by (nonlinear_arith)
            requires
                y2 < y1,
                0 <= w,
        ;
    }
}

/// `q` is `p` with pixel `(x, y)` set to `c` and every other pixel kept.
pub open spec fn one_pixel_changed(p: RasterView, q: RasterView, x: int, y: int, c: Rgba) -> bool {
    &&& q.width == p.width
    &&& q.height == p.height
    &&& q.bytes.len() == p.bytes.len()
    &&& forall|xx: int, yy: int|
        0 <= xx < p.width && 0 <= yy < p.height ==> #[trigger] q.pixel(xx, yy) == if xx == x && yy == y {
            c
        } else {
            p.pixel(xx, yy)
        }
}

impl Pixels {
    /// Sets pixel `(x, y)` to `c`.
    pub fn put_pixel(&mut self, x: u32, y: u32, c: Rgba)
        requires
            old(self)@.wf(),
            x < old(self).width,
            y < old(self).height,
        ensures
            final(self)@.wf(),
            one_pixel_changed(old(self)@, final(self)@, x as int, y as int, c),
    {
        let n = self.data.len();
        proof {
            lemma_offset_bound(self.width as int, self.height as int, x as int, y as int);
            assert(y as int * self.width as int >= 0) by (nonlinear_arith)
                requires
                    y >= 0,
                    self.width >= 0,
            ;
        }
        let ghost before = *self;
        let yw: u64 = y as u64 * self.width as u64;
        let o: usize = ((yw + x as u64) * 4) as usize;
        self.data.set(o, c.0);
        self.data.set(o + 1, c.1);
        self.data.set(o + 2, c.2);
        self.data.set(o + 3, c.3);
        proof {
            assert forall|xx: int, yy: int|
                0 <= xx < before.width && 0 <= yy < before.height implies #[trigger] self@.pixel(xx, yy)
                == if xx == x && yy == y {
                c
            } else {
                before@.pixel(xx, yy)
            } by {
                lemma_offset_bound(before.width as int, before.height as int, xx, yy);
                if !(xx == x && yy == y) {
                    lemma_offset_injective(before.width as int, xx, yy, x as int, y as int);
                }
            }
        }
    }
}

/// Fills the rectangle of width `rw` and height `rh` at `(x0, y0)` with `c`,
/// clipped to the raster.
pub fn fill_rect(img: &mut Pixels, x0: u32, y0: u32, rw: u32, rh: u32, c: Rgba)
    requires
        old(img)@.wf(),
        x0 as int + rw as int <= u32::MAX,
        y0 as int + rh as int <= u32::MAX,
    ensures
        final(img)@.wf(),
        final(img).width == old(img).width,
        final(img).height == old(img).height,
        forall|x: int, y: int|
            0 <= x < old(img).width && 0 <= y < old(img).height ==> #[trigger] final(img)@.pixel(x, y)
                == if x0 <= x < x0 + rw && y0 <= y < y0 + rh {
                c
            } else {
                old(img)@.pixel(x, y)
            },
{
    let ghost start = *img;
    let mut dy: u32 = 0;
    while dy < rh
        invariant
            dy <= rh,
            y0 as int + rh as int <= u32::MAX,
            x0 as int + rw as int <= u32::MAX,
            img@.wf(),
            img.width == start.width,
            img.height == start.height,
            forall|x: int, y: int|
                0 <= x < start.width && 0 <= y < start.height ==> #[trigger] img@.pixel(x, y)
                    == if x0 <= x < x0 + rw && y0 <= y < y0 + dy {
                    c
                } else {
                    start@.pixel(x, y)
                },
        decreases rh - dy,
    {
        let mut dx: u32 = 0;
        while dx < rw
            invariant
                dx <= rw,
                dy < rh,
                y0 as int + rh as int <= u32::MAX,
                x0 as int + rw as int <= u32::MAX,
                img@.wf(),
                img.width == start.width,
                img.height == start.height,
                forall|x: int, y: int|
                    0 <= x < start.width && 0 <= y < start.height ==> #[trigger] img@.pixel(x, y)
                        == if (x0 <= x < x0 + rw && y0 <= y < y0 + dy) || (x0 <= x < x0 + dx && y
                        == y0 + dy) {
                        c
                    } else {
                        start@.pixel(x, y)
                    },
            decreases rw - dx,
        {
            let px = x0 + dx;
            let py = y0 + dy;
            if px < img.width && py < img.height {
                img.put_pixel(px, py, c);
            }
            dx = dx + 1;
        }
        dy = dy + 1;
    }
}

/// Whether `(x, y)` lies on the "+" of the given centre and arm length.
pub open spec fn on_cross(x: int, y: int, cx: int, cy: int, radius: int) -> bool {
    (y == cy && cx - radius <= x <= cx + radius) || (x == cx && cy - radius <= y <= cy + radius)
}

/// Draws a "+" mark centred on `(cx, cy)` with arms of `radius` pixels, clipped to
/// the raster (the centre may lie outside it); a negative radius draws nothing.
pub fn draw_cross(img: &mut Pixels, cx: i32, cy: i32, radius: i32, color: Rgba)
    requires
        old(img)@.wf(),
        cx as int - radius as int >= i32::MIN,
        cx as int + radius as int <= i32::MAX,
        cy as int - radius as int >= i32::MIN,
        cy as int + radius as int <= i32::MAX,
    ensures
        final(img)@.wf(),
        final(img).width == old(img).width,
        final(img).height == old(img).height,
        forall|x: int, y: int|
            0 <= x < old(img).width && 0 <= y < old(img).height ==> #[trigger] final(img)@.pixel(x, y)
                == if on_cross(x, y, cx as int, cy as int, radius as int) {
                color
            } else {
                old(img)@.pixel(x, y)
            },
{
    if radius < 0 {
        return;
    }
    let ghost start = *img;
    let w = img.width;
    let h = img.height;
    let mut d: i64 = -(radius as i64);
    while d <= radius as i64
        invariant
            -radius <= d <= radius + 1,
            radius >= 0,
            cx as int - radius as int >= i32::MIN,
            cx as int + radius as int <= i32::MAX,
            cy as int - radius as int >= i32::MIN,
            cy as int + radius as int <= i32::MAX,
            w == start.width,
            h == start.height,
            img@.wf(),
            img.width == start.width,
            img.height == start.height,
            forall|x: int, y: int|
                0 <= x < start.width && 0 <= y < start.height ==> #[trigger] img@.pixel(x, y)
                    == if (y == cy && cx - radius <= x < cx + d) || (x == cx && cy - radius <= y < cy
                    + d) {
                    color
                } else {
                    start@.pixel(x, y)
                },
        decreases radius + 1 - d,
    {
        let px: i64 = cx as i64 + d;
        if 0 <= px && px < (w as i64) && 0 <= cy && (cy as i64) < (h as i64) {
            img.put_pixel(px as u32, cy as u32, color);
        }
        let py: i64 = cy as i64 + d;
        if 0 <= cx && (cx as i64) < (w as i64) && 0 <= py && py < (h as i64) {
            img.put_pixel(cx as u32, py as u32, color);
        }
        d = d + 1;
    }
}


/// Number of steps of the legend bar.
pub const LEGEND_STEPS: u32 = 14;

/// Geometry of the legend bar on a `w` by `h` raster with bar height `bar_h`
/// and side margin `pad`: top row of the bar, its full width, and one step's width.
pub open spec fn legend_geometry(w: int, h: int, bar_h: int, pad: int) -> (int, int, int) {
    let bar_y0 = h - bar_h - 4;
    let bar_w = w - 2 * pad;
    (bar_y0, bar_w, bar_w / LEGEND_STEPS as int)
}

/// Colour of pixel `(x, y)` after the legend bar is drawn over `old`.
pub open spec fn legend_pixel(old: RasterView, bar_h: int, pad: int, x: int, y: int) -> Rgba {
    let (bar_y0, bar_w, seg) = legend_geometry(old.width as int, old.height as int, bar_h, pad);
    if bar_y0 > 0 && y == bar_y0 - 1 && pad <= x < pad + bar_w {
        (255, 255, 255, 200)
    } else if bar_y0 <= y < bar_y0 + bar_h {
        if seg > 0 && pad <= x < pad + LEGEND_STEPS as int * seg {
            let k = (x - pad) / seg;
            if k > 0 && x == pad + k * seg {
                (255, 255, 255, 255)
            } else {
                let c = legend_stops_spec()[k].1;
                (c.0, c.1, c.2, 230)
            }
        } else if seg == 0 && x == pad {
            (255, 255, 255, 255)
        } else {
            old.pixel(x, y)
        }
    } else {
        old.pixel(x, y)
    }
}

/// The same picture after only the first `n` steps are drawn.
pub open spec fn legend_partial(old: RasterView, bar_h: int, pad: int, n: int, x: int, y: int) -> Rgba {
    let (bar_y0, bar_w, seg) = legend_geometry(old.width as int, old.height as int, bar_h, pad);
    if bar_y0 <= y < bar_y0 + bar_h {
        if seg > 0 && pad <= x < pad + n * seg {
            let k = (x - pad) / seg;
            if k > 0 && x == pad + k * seg {
                (255, 255, 255, 255)
            } else {
                let c = legend_stops_spec()[k].1;
                (c.0, c.1, c.2, 230)
            }
        } else if seg == 0 && n >= 2 && x == pad {
            (255, 255, 255, 255)
        } else {
            old.pixel(x, y)
        }
    } else {
        old.pixel(x, y)
    }
}

proof fn lemma_step_of(x: int, pad: int, seg: int, idx: int)
    requires
        seg > 0,
        0 <= idx,
        pad + idx * seg <= x < pad + (idx + 1) * seg,
    ensures
        (x - pad) / seg == idx,
{
    let q = x - pad - idx * seg;
    assert(0 <= q < seg) by (nonlinear_arith)
        requires
            q == x - pad - idx * seg,
            pad + idx * seg <= x < pad + (idx + 1) * seg,
    ;
    assert(x - pad == idx * seg + q);
    vstd::arithmetic::div_mod::lemma_fundamental_div_mod_converse(x - pad, seg, idx, q);
}

/// Draws the fourteen-step colour legend along the bottom of a radar image:
/// a bar `bar_h` pixels high ending four pixels above the bottom edge, `pad`
/// pixels in from each side, with white separators between the steps and a thin
/// white line above it.
pub fn draw_legend_bar(img: &mut Pixels, bar_h: u32, pad: u32)
    requires
        old(img)@.wf(),
        old(img).height as int >= bar_h as int + 4,
        2 * pad as int <= old(img).width,
    ensures
        final(img)@.wf(),
        final(img).width == old(img).width,
        final(img).height == old(img).height,
        forall|x: int, y: int|
            0 <= x < old(img).width && 0 <= y < old(img).height ==> #[trigger] final(img)@.pixel(x, y)
                == legend_pixel(old(img)@, bar_h as int, pad as int, x, y),
{
    let ghost start = *img;
    let w = img.width;
    let h = img.height;
    let bar_y0: u32 = h - bar_h - 4;
    let bar_w: u32 = w - pad * 2;
    let seg: u32 = bar_w / LEGEND_STEPS;
    let stops = legend_stops();
    proof {
        assert(seg as int * 14 <= bar_w) by (nonlinear_arith)
            requires
                seg == bar_w / 14,
        ;
    }
    let mut idx: u32 = 0;
    while idx < LEGEND_STEPS
        invariant
            idx <= LEGEND_STEPS,
            w == start.width,
            h == start.height,
            bar_y0 == h - bar_h - 4,
            bar_w == w - 2 * pad,
            seg == bar_w / 14,
            seg as int * 14 <= bar_w,
            stops@ == legend_stops_spec(),
            img@.wf(),
            img.width == start.width,
            img.height == start.height,
            forall|x: int, y: int|
                0 <= x < start.width && 0 <= y < start.height ==> #[trigger] img@.pixel(x, y)
                    == legend_partial(start@, bar_h as int, pad as int, idx as int, x, y),
        decreases LEGEND_STEPS - idx,
    {
        proof {
            assert(idx as int * seg <= 13 * seg) by (nonlinear_arith)
                requires
                    idx < 14,
                    seg >= 0,
            ;
        }
        let x0: u32 = pad + idx * seg;
        let stop = stops[idx as usize];
        let ghost before = *img;
        fill_rect(img, x0, bar_y0, seg, bar_h, ((stop.1).0, (stop.1).1, (stop.1).2, 230));
        if idx > 0 {
            fill_rect(img, x0, bar_y0, 1, bar_h, (255, 255, 255, 255));
        }
        proof {
            assert forall|x: int, y: int|
                0 <= x < start.width && 0 <= y < start.height implies #[trigger] img@.pixel(x, y)
                == legend_partial(start@, bar_h as int, pad as int, idx as int + 1, x, y) by {
                assert(before@.pixel(x, y) == legend_partial(start@, bar_h as int, pad as int, idx as int, x, y));
                if seg > 0 && pad + idx * seg <= x < pad + (idx + 1) * seg {
                    lemma_step_of(x, pad as int, seg as int, idx as int);
                    assert((idx as int + 1) * seg == idx as int * seg + seg) by (nonlinear_arith);
                } else if seg > 0 && pad <= x < pad + idx * seg {
                    assert((idx as int + 1) * seg == idx as int * seg + seg) by (nonlinear_arith);
                } else if seg > 0 {
                    assert((idx as int + 1) * seg == idx as int * seg + seg) by (nonlinear_arith);
                }
            }
        }
        idx = idx + 1;
    }
    if bar_y0 > 0 {
        let ghost before = *img;
        fill_rect(img, pad, bar_y0 - 1, bar_w, 1, (255, 255, 255, 200));
    }
}


/// `g` is the 128x128 intensity grid of raster `v`.
pub open spec fn is_rate_grid(g: Seq<Vec<u32>>, v: RasterView) -> bool {
    &&& g.len() == GRID_SIDE
    &&& forall|j: int| 0 <= j < GRID_SIDE ==> #[trigger] g[j]@.len() == GRID_SIDE
    &&& forall|j: int, i: int|
        0 <= j < GRID_SIDE && 0 <= i < GRID_SIDE ==> #[trigger] g[j]@[i] == cell_rate(v, i, j)
}

/// A rain grid keeps the strongest rain of each cell: every cell is at least
/// the intensity of each of its 2x2 sample pixels and equals one of them, so a
/// single rainy pixel is never lost in the reduction.
pub proof fn lemma_rate_grid_keeps_strongest(g: Seq<Vec<u32>>, v: RasterView, i: int, j: int)
    requires
        is_rate_grid(g, v),
        0 <= i < GRID_SIDE,
        0 <= j < GRID_SIDE,
    ensures
        forall|dx: int, dy: int| 0 <= dx < 2 && 0 <= dy < 2 ==> g[j]@[i] >= #[trigger] sample_rate(v, i, j, dx, dy),
        g[j]@[i] == sample_rate(v, i, j, 0, 0) || g[j]@[i] == sample_rate(v, i, j, 1, 0)
            || g[j]@[i] == sample_rate(v, i, j, 0, 1) || g[j]@[i] == sample_rate(v, i, j, 1, 1),
{
    assert(g[j]@[i] == cell_rate(v, i, j));
    assert forall|dx: int, dy: int| 0 <= dx < 2 && 0 <= dy < 2 implies g[j]@[i] >= #[trigger] sample_rate(v, i, j, dx, dy) by {
        if dx == 0 && dy == 0 {} else if dx == 1 && dy == 0 {} else if dx == 0 {} else {}
    }
}

/// `g` is a 128x128 grid of zeros.
pub open spec fn is_dry_grid(g: Seq<Vec<u32>>) -> bool {
    &&& g.len() == GRID_SIDE
    &&& forall|j: int| 0 <= j < GRID_SIDE ==> #[trigger] g[j]@.len() == GRID_SIDE
    &&& forall|j: int, i: int| 0 <= j < GRID_SIDE && 0 <= i < GRID_SIDE ==> #[trigger] g[j]@[i] == 0
}

/// `g` is the 128x128 dot grid of raster `v`.
pub open spec fn is_dot_grid(g: Seq<Vec<bool>>, v: RasterView) -> bool {
    &&& g.len() == GRID_SIDE
    &&& forall|j: int| 0 <= j < GRID_SIDE ==> #[trigger] g[j]@.len() == GRID_SIDE
    &&& forall|j: int, i: int|
        0 <= j < GRID_SIDE && 0 <= i < GRID_SIDE ==> #[trigger] g[j]@[i] == cell_dot(v, i, j)
}

/// `g` is a 128x128 grid without dots.
pub open spec fn is_blank_dots(g: Seq<Vec<bool>>) -> bool {
    &&& g.len() == GRID_SIDE
    &&& forall|j: int| 0 <= j < GRID_SIDE ==> #[trigger] g[j]@.len() == GRID_SIDE
    &&& forall|j: int, i: int| 0 <= j < GRID_SIDE && 0 <= i < GRID_SIDE ==> !(#[trigger] g[j]@[i])
}

/// A grid of 128x128 cells all holding `v`.
fn filled_grid<T: Copy>(v: T) -> (g: Vec<Vec<T>>)
    ensures
        g@.len() == GRID_SIDE,
        forall|j: int| 0 <= j < GRID_SIDE ==> #[trigger] g@[j]@.len() == GRID_SIDE,
        forall|j: int, i: int| 0 <= j < GRID_SIDE && 0 <= i < GRID_SIDE ==> #[trigger] g@[j]@[i] == v,
{
    let mut g: Vec<Vec<T>> = Vec::new();
    let mut j: usize = 0;
    while j < GRID_SIDE
        invariant
            j <= GRID_SIDE,
            g@.len() == j,
            forall|jj: int| 0 <= jj < j ==> #[trigger] g@[jj]@.len() == GRID_SIDE,
            forall|jj: int, i: int| 0 <= jj < j && 0 <= i < GRID_SIDE ==> #[trigger] g@[jj]@[i] == v,
        decreases GRID_SIDE - j,
    {
        let mut row: Vec<T> = Vec::new();
        let mut i: usize = 0;
        while i < GRID_SIDE
            invariant
                i <= GRID_SIDE,
                row@.len() == i,
                forall|ii: int| 0 <= ii < i ==> #[trigger] row@[ii] == v,
            decreases GRID_SIDE - i,
        {
            row.push(v);
            i = i + 1;
        }
        g.push(row);
        j = j + 1;
    }
    g
}

/// The intensity grid of a nowcast tile fetch: a failed request (no rain data for
/// that tile) gives a dry grid; a successful one is decoded and reduced.
pub fn rain_grid_from_response(success: bool, body: &[u8]) -> (r: Result<Vec<Vec<u32>>, DecodeError>)
    ensures
        !success ==> (r matches Ok(g) && is_dry_grid(g@)),
        success ==> match decoded_view(body@) {
            None => r == Err::<Vec<Vec<u32>>, DecodeError>(DecodeError::Undecodable),
            Some(v) => if v.width == 0 || v.height == 0 {
                r == Err::<Vec<Vec<u32>>, DecodeError>(DecodeError::Empty)
            } else {
                r matches Ok(g) && is_rate_grid(g@, v)
            },
        },
{
    if !success {
        return Ok(filled_grid(0u32));
    }
    let img = decode_tile(body)?;
    if img.width == 0 || img.height == 0 {
        return Err(DecodeError::Empty);
    }
    Ok(downsample_tile(&img))
}

/// The dot grid of a pale-map tile fetch: a failed request gives an empty grid;
/// a successful one is decoded and binarized.
pub fn map_dots_from_response(success: bool, body: &[u8]) -> (r: Result<Vec<Vec<bool>>, DecodeError>)
    ensures
        !success ==> (r matches Ok(g) && is_blank_dots(g@)),
        success ==> match decoded_view(body@) {
            None => r == Err::<Vec<Vec<bool>>, DecodeError>(DecodeError::Undecodable),
            Some(v) => if v.width == 0 || v.height == 0 {
                r == Err::<Vec<Vec<bool>>, DecodeError>(DecodeError::Empty)
            } else {
                r matches Ok(g) && is_dot_grid(g@, v)
            },
        },
{
    if !success {
        return Ok(filled_grid(false));
    }
    let img = decode_tile(body)?;
    if img.width == 0 || img.height == 0 {
        return Err(DecodeError::Empty);
    }
    Ok(binarize_map_tile(&img))
}

/// Side of the placeholder tile used when a tile image could not be fetched.
pub const PLACEHOLDER_SIDE: u32 = 256;

/// A `w` by `h` raster with every pixel `c`.
pub fn filled_pixels(w: u32, h: u32, c: Rgba) -> (p: Pixels)
    requires
        w as int * h as int * 4 <= usize::MAX,
    ensures
        p@.wf(),
        p.width == w,
        p.height == h,
        forall|x: int, y: int| 0 <= x < w && 0 <= y < h ==> #[trigger] p@.pixel(x, y) == c,
{
    let n: usize = (w as u64 * h as u64) as usize;
    let mut data: Vec<u8> = Vec::new();
    let mut k: usize = 0;
    while k < n
        invariant
            k <= n,
            n == w as int * h as int,
            n * 4 <= usize::MAX,
            data@.len() == 4 * k,
            forall|q: int| 0 <= q < 4 * k ==> #[trigger] data@[q] == (if q % 4 == 0 {
                c.0
            } else if q % 4 == 1 {
                c.1
            } else if q % 4 == 2 {
                c.2
            } else {
                c.3
            }),
        decreases n - k,
    {
        data.push(c.0);
        data.push(c.1);
        data.push(c.2);
        data.push(c.3);
        k = k + 1;
    }
    let p = Pixels { width: w, height: h, data };
    proof {
        assert forall|x: int, y: int| 0 <= x < w && 0 <= y < h implies #[trigger] p@.pixel(x, y) == c by {
            lemma_offset_bound(w as int, h as int, x, y);
            let o = (y * w + x) * 4;
            assert(o % 4 == 0 && (o + 1) % 4 == 1 && (o + 2) % 4 == 2 && (o + 3) % 4 == 3) by (nonlinear_arith)
                requires
                    o == (y * w + x) * 4,
            ;
        }
    }
    p
}

/// The rain overlay tile of a nowcast image fetch: a failed request is shown as
/// a fully transparent 256x256 tile.
pub fn rain_image_from_response(success: bool, body: &[u8]) -> (r: Result<Pixels, DecodeError>)
    ensures
        r matches Ok(p) ==> p@.wf(),
        !success ==> (r matches Ok(p) && p.width == PLACEHOLDER_SIDE && p.height == PLACEHOLDER_SIDE
            && forall|x: int, y: int| 0 <= x < 256 && 0 <= y < 256 ==> #[trigger] p@.pixel(x, y) == (0u8, 0u8, 0u8, 0u8)),
        success ==> match decoded_view(body@) {
            None => r == Err::<Pixels, DecodeError>(DecodeError::Undecodable),
            Some(v) => r matches Ok(p) && p@ == v,
        },
{
    if !success {
        return Ok(filled_pixels(PLACEHOLDER_SIDE, PLACEHOLDER_SIDE, (0, 0, 0, 0)));
    }
    decode_tile(body)
}

/// The background map tile of a map image fetch: a failed request is shown as a
/// light grey 256x256 tile.
pub fn map_image_from_response(success: bool, body: &[u8]) -> (r: Result<Pixels, DecodeError>)
    ensures
        r matches Ok(p) ==> p@.wf(),
        !success ==> (r matches Ok(p) && p.width == PLACEHOLDER_SIDE && p.height == PLACEHOLDER_SIDE
            && forall|x: int, y: int| 0 <= x < 256 && 0 <= y < 256 ==> #[trigger] p@.pixel(x, y) == (240u8, 240u8, 240u8, 255u8)),
        success ==> match decoded_view(body@) {
            None => r == Err::<Pixels, DecodeError>(DecodeError::Undecodable),
            Some(v) => r matches Ok(p) && p@ == v,
        },
{
    if !success {
        return Ok(filled_pixels(PLACEHOLDER_SIDE, PLACEHOLDER_SIDE, (240, 240, 240, 255)));
    }
    decode_tile(body)
}

} // verus!
