//! Rain-intensity colour scales and the decoding of JMA nowcast tile colours.
//!
//! Intensities are counted in tenths of a millimetre per hour: every boundary
//! of the scales is a multiple of 0.1 mm/h, so `x < b` on the real value is the
//! same decision as `floor(10 x) < 10 b` on the tenths.
use vstd::prelude::*;

verus! {

/// Red, green, blue and alpha channels of one pixel.
pub type Rgba = (u8, u8, u8, u8);

/// Red, green and blue channels.
pub type Rgb = (u8, u8, u8);

/// The fourteen-step radar overlay colour for an intensity in tenths of mm/h;
/// below 0.1 mm/h nothing is drawn.
pub open spec fn overlay_color(tenths: u32) -> Option<Rgba> {
    if tenths < 1 {
        None
    } else if tenths < 10 {
        Some((200, 230, 255, 170))
    } else if tenths < 20 {
        Some((160, 210, 250, 190))
    } else if tenths < 40 {
        Some((90, 170, 240, 210))
    } else if tenths < 80 {
        Some((40, 130, 230, 225))
    } else if tenths < 120 {
        Some((50, 180, 80, 235))
    } else if tenths < 160 {
        Some((140, 220, 60, 240))
    } else if tenths < 240 {
        Some((250, 230, 50, 240))
    } else if tenths < 320 {
        Some((250, 180, 30, 245))
    } else if tenths < 400 {
        Some((250, 130, 30, 245))
    } else if tenths < 480 {
        Some((240, 70, 50, 250))
    } else if tenths < 560 {
        Some((220, 40, 70, 250))
    } else if tenths < 640 {
        Some((200, 50, 180, 250))
    } else if tenths < 800 {
        Some((170, 30, 180, 250))
    } else {
        Some((120, 30, 130, 250))
    }
}

/// Overlay colour of the radar image for a rain intensity (tenths of mm/h):
/// light blue through blue, green, yellow, orange and red to purple.
pub fn rain_to_yahoo(tenths: u32) -> (r: Option<Rgba>)
    ensures
        r == overlay_color(tenths),
{
    if tenths < 1 {
        return None;
    }
    let c: Rgba = if tenths < 10 {
        (200, 230, 255, 170)
    } else if tenths < 20 {
        (160, 210, 250, 190)
    } else if tenths < 40 {
        (90, 170, 240, 210)
    } else if tenths < 80 {
        (40, 130, 230, 225)
    } else if tenths < 120 {
        (50, 180, 80, 235)
    } else if tenths < 160 {
        (140, 220, 60, 240)
    } else if tenths < 240 {
        (250, 230, 50, 240)
    } else if tenths < 320 {
        (250, 180, 30, 245)
    } else if tenths < 400 {
        (250, 130, 30, 245)
    } else if tenths < 480 {
        (240, 70, 50, 250)
    } else if tenths < 560 {
        (220, 40, 70, 250)
    } else if tenths < 640 {
        (200, 50, 180, 250)
    } else if tenths < 800 {
        (170, 30, 180, 250)
    } else {
        (120, 30, 130, 250)
    };
    Some(c)
}

/// Labels and colours of the legend bar baked into radar images.
pub open spec fn legend_stops_spec() -> Seq<(&'static str, Rgb)> {
    seq![
        ("1", (200u8, 230u8, 255u8)),
        ("2", (160u8, 210u8, 250u8)),
        ("4", (90u8, 170u8, 240u8)),
        ("8", (40u8, 130u8, 230u8)),
        ("12", (50u8, 180u8, 80u8)),
        ("16", (140u8, 220u8, 60u8)),
        ("24", (250u8, 230u8, 50u8)),
        ("32", (250u8, 180u8, 30u8)),
        ("40", (250u8, 130u8, 30u8)),
        ("48", (240u8, 70u8, 50u8)),
        ("56", (220u8, 40u8, 70u8)),
        ("64", (200u8, 50u8, 180u8)),
        ("80", (170u8, 30u8, 180u8)),
        ("80+", (120u8, 30u8, 130u8)),
    ]
}

/// The lowest intensity (tenths of mm/h) of each of the fourteen overlay steps.
pub open spec fn overlay_step_floor(i: int) -> u32 {
    if i == 0 { 1 }
    else if i == 1 { 10 }
    else if i == 2 { 20 }
    else if i == 3 { 40 }
    else if i == 4 { 80 }
    else if i == 5 { 120 }
    else if i == 6 { 160 }
    else if i == 7 { 240 }
    else if i == 8 { 320 }
    else if i == 9 { 400 }
    else if i == 10 { 480 }
    else if i == 11 { 560 }
    else if i == 12 { 640 }
    else { 800 }
}

/// The legend stops of the radar image, weakest first.
pub fn legend_stops() -> (r: Vec<(&'static str, Rgb)>)
    ensures
        r@ == legend_stops_spec(),
{
    let r: Vec<(&'static str, Rgb)> = vec![
        ("1", (200u8, 230u8, 255u8)),
        ("2", (160u8, 210u8, 250u8)),
        ("4", (90u8, 170u8, 240u8)),
        ("8", (40u8, 130u8, 230u8)),
        ("12", (50u8, 180u8, 80u8)),
        ("16", (140u8, 220u8, 60u8)),
        ("24", (250u8, 230u8, 50u8)),
        ("32", (250u8, 180u8, 30u8)),
        ("40", (250u8, 130u8, 30u8)),
        ("48", (240u8, 70u8, 50u8)),
        ("56", (220u8, 40u8, 70u8)),
        ("64", (200u8, 50u8, 180u8)),
        ("80", (170u8, 30u8, 180u8)),
        ("80+", (120u8, 30u8, 130u8)),
    ];
    assert(r@ =~= legend_stops_spec());
    r
}

/// The legend bar shows, stop by stop, exactly the colours that the overlay uses:
/// stop `i` has the colour of every intensity in the `i`-th step.
pub proof fn lemma_legend_matches_overlay(i: int, tenths: u32)
    requires
        0 <= i < 14,
        overlay_step_floor(i) <= tenths,
        i < 13 ==> tenths < overlay_step_floor(i + 1),
    ensures
        overlay_color(tenths) matches Some(c) && (c.0, c.1, c.2) == legend_stops_spec()[i].1,
{
}

/// Every intensity of at least 0.1 mm/h is drawn, in one of the legend's colours;
/// below that nothing is drawn.
pub proof fn lemma_overlay_is_fourteen_step(tenths: u32)
    ensures
        overlay_color(tenths) is None <==> tenths < 1,
        overlay_color(tenths) matches Some(c) ==> exists|i: int|
            0 <= i < 14 && (c.0, c.1, c.2) == #[trigger] legend_stops_spec()[i].1,
{
    if tenths >= 1 {
        let i: int = if tenths < 10 { 0 } else if tenths < 20 { 1 } else if tenths < 40 { 2 }
            else if tenths < 80 { 3 } else if tenths < 120 { 4 } else if tenths < 160 { 5 }
            else if tenths < 240 { 6 } else if tenths < 320 { 7 } else if tenths < 400 { 8 }
            else if tenths < 480 { 9 } else if tenths < 560 { 10 } else if tenths < 640 { 11 }
            else if tenths < 800 { 12 } else { 13 };
        lemma_legend_matches_overlay(i, tenths);
    }
}

/// Heavier rain is never drawn more transparently than lighter rain.
pub proof fn lemma_overlay_alpha_monotone(a: u32, b: u32)
    requires
        1 <= a <= b,
    ensures
        overlay_color(a) matches Some(ca) && overlay_color(b) matches Some(cb) && ca.3 <= cb.3,
{
}

/// Colour of a rain cell on the text-mode radar canvas (tenths of mm/h).
pub open spec fn canvas_color(tenths: u32) -> Option<Rgb> {
    if tenths < 1 {
        None
    } else if tenths < 10 {
        Some((170, 220, 240))
    } else if tenths < 50 {
        Some((100, 200, 240))
    } else if tenths < 100 {
        Some((50, 100, 220))
    } else if tenths < 200 {
        Some((250, 240, 80))
    } else if tenths < 300 {
        Some((250, 170, 50))
    } else if tenths < 500 {
        Some((240, 70, 70))
    } else if tenths < 800 {
        Some((200, 60, 200))
    } else {
        Some((120, 30, 130))
    }
}

/// Text-mode radar colour for a rain intensity, close to the JMA nowcast legend;
/// `None` (not drawn) below 0.1 mm/h.
pub fn precipitation_color(tenths: u32) -> (r: Option<Rgb>)
    ensures
        r == canvas_color(tenths),
{
    if tenths < 1 {
        None
    } else if tenths < 10 {
        Some((170, 220, 240))
    } else if tenths < 50 {
        Some((100, 200, 240))
    } else if tenths < 100 {
        Some((50, 100, 220))
    } else if tenths < 200 {
        Some((250, 240, 80))
    } else if tenths < 300 {
        Some((250, 170, 50))
    } else if tenths < 500 {
        Some((240, 70, 70))
    } else if tenths < 800 {
        Some((200, 60, 200))
    } else {
        Some((120, 30, 130))
    }
}

/// Lower bounds (tenths of mm/h) of the eight buckets of the text-mode canvas.
pub open spec fn canvas_bucket_floor(i: int) -> u32 {
    if i == 0 { 1 }
    else if i == 1 { 10 }
    else if i == 2 { 50 }
    else if i == 3 { 100 }
    else if i == 4 { 200 }
    else if i == 5 { 300 }
    else if i == 6 { 500 }
    else { 800 }
}

/// Bucket of the text-mode canvas that an intensity is drawn in: the last
/// bucket whose lower bound it reaches; `None` below the first bound.
pub fn canvas_bucket(tenths: u32) -> (r: Option<usize>)
    ensures
        r is None <==> tenths < canvas_bucket_floor(0),
        r matches Some(i) ==> i < 8 && canvas_bucket_floor(i as int) <= tenths
            && (i < 7 ==> tenths < canvas_bucket_floor(i + 1)),
{
    if tenths < 1 {
        None
    } else if tenths < 10 {
        Some(0)
    } else if tenths < 50 {
        Some(1)
    } else if tenths < 100 {
        Some(2)
    } else if tenths < 200 {
        Some(3)
    } else if tenths < 300 {
        Some(4)
    } else if tenths < 500 {
        Some(5)
    } else if tenths < 800 {
        Some(6)
    } else {
        Some(7)
    }
}

/// Every intensity of a canvas bucket is drawn in the colour of the bucket's
/// lower bound, so drawing a bucket in one colour matches the cell-by-cell colour.
pub proof fn lemma_bucket_shares_colour(i: int, tenths: u32)
    requires
        0 <= i < 8,
        canvas_bucket_floor(i) <= tenths,
        i < 7 ==> tenths < canvas_bucket_floor(i + 1),
    ensures
        canvas_color(tenths) == canvas_color(canvas_bucket_floor(i)),
        canvas_color(tenths) is Some,
{
}

/// The legend printed on the text-mode canvas, weakest first.
pub open spec fn canvas_legend_spec() -> Seq<(&'static str, Rgb)> {
    seq![
        ("1", (170u8, 220u8, 240u8)),
        ("5", (100u8, 200u8, 240u8)),
        ("10", (50u8, 100u8, 220u8)),
        ("20", (250u8, 240u8, 80u8)),
        ("30", (250u8, 170u8, 50u8)),
        ("50", (240u8, 70u8, 70u8)),
        ("80", (200u8, 60u8, 200u8)),
        ("80+", (120u8, 30u8, 130u8)),
    ]
}

/// The legend of the text-mode radar canvas, weakest first.
pub fn canvas_legend() -> (r: Vec<(&'static str, Rgb)>)
    ensures
        r@ == canvas_legend_spec(),
{
    let r: Vec<(&'static str, Rgb)> = vec![
        ("1", (170u8, 220u8, 240u8)),
        ("5", (100u8, 200u8, 240u8)),
        ("10", (50u8, 100u8, 220u8)),
        ("20", (250u8, 240u8, 80u8)),
        ("30", (250u8, 170u8, 50u8)),
        ("50", (240u8, 70u8, 70u8)),
        ("80", (200u8, 60u8, 200u8)),
        ("80+", (120u8, 30u8, 130u8)),
    ];
    assert(r@ =~= canvas_legend_spec());
    r
}

/// The canvas legend matches the canvas colouring: every intensity of bucket `i`
/// is drawn in the colour listed at legend entry `i`.
pub proof fn lemma_canvas_legend_matches(i: int, tenths: u32)
    requires
        0 <= i < 8,
        canvas_bucket_floor(i) <= tenths,
        i < 7 ==> tenths < canvas_bucket_floor(i + 1),
    ensures
        canvas_color(tenths) == Some(canvas_legend_spec()[i].1),
{
}


/// Number of reference colours of the JMA nowcast palette.
pub const NOWCAST_PALETTE_LEN: usize = 10;

/// Reference colours of JMA nowcast tiles and the intensity (tenths of mm/h)
/// each stands for: light blue 1 mm/h, blue 5, green 10, yellow 20, orange 30,
/// red 50, purple 80, dark purple above 80 (taken as 100); the green-to-
/// yellow-green shades that tiles also use for 10 mm/h come last.
pub open spec fn nowcast_ref(i: int) -> (u8, u8, u8, u32) {
    if i == 0 { (200, 242, 255, 10) }
    else if i == 1 { (33, 140, 254, 50) }
    else if i == 2 { (0, 250, 245, 100) }
    else if i == 3 { (250, 245, 0, 200) }
    else if i == 4 { (255, 153, 0, 300) }
    else if i == 5 { (255, 40, 0, 500) }
    else if i == 6 { (180, 0, 104, 800) }
    else if i == 7 { (130, 0, 70, 1000) }
    else if i == 8 { (55, 188, 83, 100) }
    else { (140, 220, 60, 100) }
}

fn nowcast_ref_exec(i: usize) -> (r: (u8, u8, u8, u32))
    requires
        i < NOWCAST_PALETTE_LEN,
    ensures
        r == nowcast_ref(i as int),
{
    match i {
        0 => (200, 242, 255, 10),
        1 => (33, 140, 254, 50),
        2 => (0, 250, 245, 100),
        3 => (250, 245, 0, 200),
        4 => (255, 153, 0, 300),
        5 => (255, 40, 0, 500),
        6 => (180, 0, 104, 800),
        7 => (130, 0, 70, 1000),
        8 => (55, 188, 83, 100),
        _ => (140, 220, 60, 100),
    }
}

/// Squared Euclidean RGB distance from a colour to reference colour `i`.
pub open spec fn ref_dist(r: u8, g: u8, b: u8, i: int) -> int {
    let c = nowcast_ref(i);
    (r - c.0) * (r - c.0) + (g - c.1) * (g - c.1) + (b - c.2) * (b - c.2)
}

/// `k` is the first reference colour among those nearest to `(r, g, b)`.
pub open spec fn is_first_nearest(r: u8, g: u8, b: u8, k: int) -> bool {
    &&& 0 <= k < NOWCAST_PALETTE_LEN
    &&& forall|j: int| 0 <= j < NOWCAST_PALETTE_LEN ==> ref_dist(r, g, b, k) <= #[trigger] ref_dist(r, g, b, j)
    &&& forall|j: int| 0 <= j < k ==> ref_dist(r, g, b, k) < #[trigger] ref_dist(r, g, b, j)
}

/// Squared distance above which a pixel is taken for noise (legend marks and the like).
pub const NOWCAST_MAX_DIST: u32 = 12000;

/// Intensity (tenths of mm/h) of a nowcast tile pixel: nearly transparent pixels
/// are dry; otherwise the nearest reference colour decides, unless it is too far.
pub open spec fn nowcast_tenths(r: u8, g: u8, b: u8, a: u8) -> u32 {
    if a < 30 {
        0
    } else {
        let k = choose|k: int| is_first_nearest(r, g, b, k);
        if ref_dist(r, g, b, k) > NOWCAST_MAX_DIST {
            0
        } else {
            nowcast_ref(k).3
        }
    }
}

proof fn lemma_first_nearest_unique(r: u8, g: u8, b: u8, k1: int, k2: int)
    requires
        is_first_nearest(r, g, b, k1),
        is_first_nearest(r, g, b, k2),
    ensures
        k1 == k2,
{
    if k1 < k2 {
        assert(ref_dist(r, g, b, k2) < ref_dist(r, g, b, k1));
        assert(ref_dist(r, g, b, k1) <= ref_dist(r, g, b, k2));
    } else if k2 < k1 {
        assert(ref_dist(r, g, b, k1) < ref_dist(r, g, b, k2));
        assert(ref_dist(r, g, b, k2) <= ref_dist(r, g, b, k1));
    }
}

/// A colour that is exactly reference colour `k` decodes to its intensity.
proof fn lemma_reference_decodes(k: int)
    requires
        0 <= k < NOWCAST_PALETTE_LEN,
        forall|j: int| 0 <= j < k ==> #[trigger] ref_dist(nowcast_ref(k).0, nowcast_ref(k).1, nowcast_ref(k).2, j) > 0,
    ensures
        nowcast_tenths(nowcast_ref(k).0, nowcast_ref(k).1, nowcast_ref(k).2, 255) == nowcast_ref(k).3,
{
    let (r, g, b) = (nowcast_ref(k).0, nowcast_ref(k).1, nowcast_ref(k).2);
    assert(ref_dist(r, g, b, k) == 0);
    assert forall|j: int| 0 <= j < NOWCAST_PALETTE_LEN implies ref_dist(r, g, b, k) <= #[trigger] ref_dist(r, g, b, j) by {
        let c = nowcast_ref(j);
        assert((r - c.0) * (r - c.0) >= 0 && (g - c.1) * (g - c.1) >= 0 && (b - c.2) * (b - c.2) >= 0)
            by (nonlinear_arith);
    }
    assert(is_first_nearest(r, g, b, k));
    let q = choose|q: int| is_first_nearest(r, g, b, q);
    lemma_first_nearest_unique(r, g, b, q, k);
}

/// JMA's nowcast legend decodes to its steps, which grow along the legend:
/// light blue 1 mm/h, blue 5, green 10, yellow 20, orange 30, red 50, purple
/// 80 and dark purple above 80 (100), each at full opacity.
pub proof fn lemma_legend_colours_decode()
    ensures
        nowcast_tenths(200, 242, 255, 255) == 10,
        nowcast_tenths(33, 140, 254, 255) == 50,
        nowcast_tenths(0, 250, 245, 255) == 100,
        nowcast_tenths(250, 245, 0, 255) == 200,
        nowcast_tenths(255, 153, 0, 255) == 300,
        nowcast_tenths(255, 40, 0, 255) == 500,
        nowcast_tenths(180, 0, 104, 255) == 800,
        nowcast_tenths(130, 0, 70, 255) == 1000,
        forall|k: int| 0 <= k < 7 ==> #[trigger] nowcast_ref(k).3 < nowcast_ref(k + 1).3,
{
    lemma_reference_decodes(0);
    assert(nowcast_ref(0) == (200u8, 242u8, 255u8, 10u32));
    assert(ref_dist(33, 140, 254, 0) == 38294) by (nonlinear_arith)
        requires nowcast_ref(0) == (200u8, 242u8, 255u8, 10u32);
    assert forall|j: int| 0 <= j < 1 implies #[trigger] ref_dist(33, 140, 254, j) > 0 by {}
    lemma_reference_decodes(1);
    assert(nowcast_ref(0) == (200u8, 242u8, 255u8, 10u32));
    assert(ref_dist(0, 250, 245, 0) == 40164) by (nonlinear_arith)
        requires nowcast_ref(0) == (200u8, 242u8, 255u8, 10u32);
    assert(nowcast_ref(1) == (33u8, 140u8, 254u8, 50u32));
    assert(ref_dist(0, 250, 245, 1) == 13270) by (nonlinear_arith)
        requires nowcast_ref(1) == (33u8, 140u8, 254u8, 50u32);
    assert forall|j: int| 0 <= j < 2 implies #[trigger] ref_dist(0, 250, 245, j) > 0 by {
        if j == 0 {} else {}
    }
    lemma_reference_decodes(2);
    assert(nowcast_ref(0) == (200u8, 242u8, 255u8, 10u32));
    assert(ref_dist(250, 245, 0, 0) == 67534) by (nonlinear_arith)
        requires nowcast_ref(0) == (200u8, 242u8, 255u8, 10u32);
    assert(nowcast_ref(1) == (33u8, 140u8, 254u8, 50u32));
    assert(ref_dist(250, 245, 0, 1) == 122630) by (nonlinear_arith)
        requires nowcast_ref(1) == (33u8, 140u8, 254u8, 50u32);
    assert(nowcast_ref(2) == (0u8, 250u8, 245u8, 100u32));
    assert(ref_dist(250, 245, 0, 2) == 122550) by (nonlinear_arith)
        requires nowcast_ref(2) == (0u8, 250u8, 245u8, 100u32);
    assert forall|j: int| 0 <= j < 3 implies #[trigger] ref_dist(250, 245, 0, j) > 0 by {
        if j == 0 {} else if j == 1 {} else {}
    }
    lemma_reference_decodes(3);
    assert(nowcast_ref(0) == (200u8, 242u8, 255u8, 10u32));
    assert(ref_dist(255, 153, 0, 0) == 75971) by (nonlinear_arith)
        requires nowcast_ref(0) == (200u8, 242u8, 255u8, 10u32);
    assert(nowcast_ref(1) == (33u8, 140u8, 254u8, 50u32));
    assert(ref_dist(255, 153, 0, 1) == 113969) by (nonlinear_arith)
        requires nowcast_ref(1) == (33u8, 140u8, 254u8, 50u32);
    assert(nowcast_ref(2) == (0u8, 250u8, 245u8, 100u32));
    assert(ref_dist(255, 153, 0, 2) == 134459) by (nonlinear_arith)
        requires nowcast_ref(2) == (0u8, 250u8, 245u8, 100u32);
    assert(nowcast_ref(3) == (250u8, 245u8, 0u8, 200u32));
    assert(ref_dist(255, 153, 0, 3) == 8489) by (nonlinear_arith)
        requires nowcast_ref(3) == (250u8, 245u8, 0u8, 200u32);
    assert forall|j: int| 0 <= j < 4 implies #[trigger] ref_dist(255, 153, 0, j) > 0 by {
        if j == 0 {} else if j == 1 {} else if j == 2 {} else {}
    }
    lemma_reference_decodes(4);
    assert(nowcast_ref(0) == (200u8, 242u8, 255u8, 10u32));
    assert(ref_dist(255, 40, 0, 0) == 108854) by (nonlinear_arith)
        requires nowcast_ref(0) == (200u8, 242u8, 255u8, 10u32);
    assert(nowcast_ref(1) == (33u8, 140u8, 254u8, 50u32));
    assert(ref_dist(255, 40, 0, 1) == 123800) by (nonlinear_arith)
        requires nowcast_ref(1) == (33u8, 140u8, 254u8, 50u32);
    assert(nowcast_ref(2) == (0u8, 250u8, 245u8, 100u32));
    assert(ref_dist(255, 40, 0, 2) == 169150) by (nonlinear_arith)
        requires nowcast_ref(2) == (0u8, 250u8, 245u8, 100u32);
    assert(nowcast_ref(3) == (250u8, 245u8, 0u8, 200u32));
    assert(ref_dist(255, 40, 0, 3) == 42050) by (nonlinear_arith)
        requires nowcast_ref(3) == (250u8, 245u8, 0u8, 200u32);
    assert(nowcast_ref(4) == (255u8, 153u8, 0u8, 300u32));
    assert(ref_dist(255, 40, 0, 4) == 12769) by (nonlinear_arith)
        requires nowcast_ref(4) == (255u8, 153u8, 0u8, 300u32);
    assert forall|j: int| 0 <= j < 5 implies #[trigger] ref_dist(255, 40, 0, j) > 0 by {
        if j == 0 {} else if j == 1 {} else if j == 2 {} else if j == 3 {} else {}
    }
    lemma_reference_decodes(5);
    assert(nowcast_ref(0) == (200u8, 242u8, 255u8, 10u32));
    assert(ref_dist(180, 0, 104, 0) == 81765) by (nonlinear_arith)
        requires nowcast_ref(0) == (200u8, 242u8, 255u8, 10u32);
    assert(nowcast_ref(1) == (33u8, 140u8, 254u8, 50u32));
    assert(ref_dist(180, 0, 104, 1) == 63709) by (nonlinear_arith)
        requires nowcast_ref(1) == (33u8, 140u8, 254u8, 50u32);
    assert(nowcast_ref(2) == (0u8, 250u8, 245u8, 100u32));
    assert(ref_dist(180, 0, 104, 2) == 114781) by (nonlinear_arith)
        requires nowcast_ref(2) == (0u8, 250u8, 245u8, 100u32);
    assert(nowcast_ref(3) == (250u8, 245u8, 0u8, 200u32));
    assert(ref_dist(180, 0, 104, 3) == 75741) by (nonlinear_arith)
        requires nowcast_ref(3) == (250u8, 245u8, 0u8, 200u32);
    assert(nowcast_ref(4) == (255u8, 153u8, 0u8, 300u32));
    assert(ref_dist(180, 0, 104, 4) == 39850) by (nonlinear_arith)
        requires nowcast_ref(4) == (255u8, 153u8, 0u8, 300u32);
    assert(nowcast_ref(5) == (255u8, 40u8, 0u8, 500u32));
    assert(ref_dist(180, 0, 104, 5) == 18041) by (nonlinear_arith)
        requires nowcast_ref(5) == (255u8, 40u8, 0u8, 500u32);
    assert forall|j: int| 0 <= j < 6 implies #[trigger] ref_dist(180, 0, 104, j) > 0 by {
        if j == 0 {} else if j == 1 {} else if j == 2 {} else if j == 3 {} else if j == 4 {} else {}
    }
    lemma_reference_decodes(6);
    assert(nowcast_ref(0) == (200u8, 242u8, 255u8, 10u32));
    assert(ref_dist(130, 0, 70, 0) == 97689) by (nonlinear_arith)
        requires nowcast_ref(0) == (200u8, 242u8, 255u8, 10u32);
    assert(nowcast_ref(1) == (33u8, 140u8, 254u8, 50u32));
    assert(ref_dist(130, 0, 70, 1) == 62865) by (nonlinear_arith)
        requires nowcast_ref(1) == (33u8, 140u8, 254u8, 50u32);
    assert(nowcast_ref(2) == (0u8, 250u8, 245u8, 100u32));
    assert(ref_dist(130, 0, 70, 2) == 110025) by (nonlinear_arith)
        requires nowcast_ref(2) == (0u8, 250u8, 245u8, 100u32);
    assert(nowcast_ref(3) == (250u8, 245u8, 0u8, 200u32));
    assert(ref_dist(130, 0, 70, 3) == 79325) by (nonlinear_arith)
        requires nowcast_ref(3) == (250u8, 245u8, 0u8, 200u32);
    assert(nowcast_ref(4) == (255u8, 153u8, 0u8, 300u32));
    assert(ref_dist(130, 0, 70, 4) == 43934) by (nonlinear_arith)
        requires nowcast_ref(4) == (255u8, 153u8, 0u8, 300u32);
    assert(nowcast_ref(5) == (255u8, 40u8, 0u8, 500u32));
    assert(ref_dist(130, 0, 70, 5) == 22125) by (nonlinear_arith)
        requires nowcast_ref(5) == (255u8, 40u8, 0u8, 500u32);
    assert(nowcast_ref(6) == (180u8, 0u8, 104u8, 800u32));
    assert(ref_dist(130, 0, 70, 6) == 3656) by (nonlinear_arith)
        requires nowcast_ref(6) == (180u8, 0u8, 104u8, 800u32);
    assert forall|j: int| 0 <= j < 7 implies #[trigger] ref_dist(130, 0, 70, j) > 0 by {
        if j == 0 {} else if j == 1 {} else if j == 2 {} else if j == 3 {} else if j == 4 {} else if j == 5 {} else {}
    }
    lemma_reference_decodes(7);
}

/// A decoded intensity is always one of the legend's steps, or dry.
pub proof fn lemma_decoded_is_a_step(r: u8, g: u8, b: u8, a: u8)
    ensures
        nowcast_tenths(r, g, b, a) == 0 || exists|k: int| 0 <= k < NOWCAST_PALETTE_LEN && nowcast_tenths(r, g, b, a) == #[trigger] nowcast_ref(k).3,
        a < 30 ==> nowcast_tenths(r, g, b, a) == 0,
{
    if a >= 30 {
        let k = choose|k: int| is_first_nearest(r, g, b, k);
        if ref_dist(r, g, b, k) <= NOWCAST_MAX_DIST {
            assert(is_first_nearest(r, g, b, k)) by {
                lemma_some_first_nearest(r, g, b);
            }
        }
    }
}

/// The first nearest of the first `n` reference colours.
proof fn lemma_first_nearest_upto(r: u8, g: u8, b: u8, n: int) -> (k: int)
    requires
        1 <= n <= NOWCAST_PALETTE_LEN,
    ensures
        0 <= k < n,
        forall|j: int| 0 <= j < n ==> ref_dist(r, g, b, k) <= #[trigger] ref_dist(r, g, b, j),
        forall|j: int| 0 <= j < k ==> ref_dist(r, g, b, k) < #[trigger] ref_dist(r, g, b, j),
    decreases n,
{
    if n == 1 {
        0
    } else {
        let p = lemma_first_nearest_upto(r, g, b, n - 1);
        if ref_dist(r, g, b, n - 1) < ref_dist(r, g, b, p) {
            n - 1
        } else {
            p
        }
    }
}

/// Some reference colour is the first nearest one.
proof fn lemma_some_first_nearest(r: u8, g: u8, b: u8)
    ensures
        exists|k: int| is_first_nearest(r, g, b, k),
{
    let k = lemma_first_nearest_upto(r, g, b, NOWCAST_PALETTE_LEN as int);
    assert(is_first_nearest(r, g, b, k));
}

fn sq_diff(x: u8, y: u8) -> (r: u32)
    ensures
        r == (x - y) * (x - y),
        r <= 255 * 255,
{
    let d: i32 = x as i32 - y as i32;
    assert(d * d <= 255 * 255) by (nonlinear_arith)
        requires
            -255 <= d <= 255,
    ;
    assert(d * d >= 0) by (nonlinear_arith);
    (d * d) as u32
}

/// Converts a JMA nowcast tile pixel to a rain intensity in tenths of mm/h, by
/// the nearest reference colour (squared RGB distance, first match on ties).
pub fn nowcast_color_to_mmh(r: u8, g: u8, b: u8, a: u8) -> (res: u32)
    ensures
        res == nowcast_tenths(r, g, b, a),
{
    if a < 30 {
        return 0;
    }
    let mut best_d: u32 = u32::MAX;
    let mut best_k: usize = 0;
    let mut i: usize = 0;
    while i < NOWCAST_PALETTE_LEN
        invariant
            i <= NOWCAST_PALETTE_LEN,
            i == 0 ==> best_d == u32::MAX,
            i > 0 ==> best_k < i && best_d == ref_dist(r, g, b, best_k as int),
            forall|j: int| 0 <= j < i ==> best_d <= #[trigger] ref_dist(r, g, b, j),
            forall|j: int| 0 <= j < best_k ==> best_d < #[trigger] ref_dist(r, g, b, j),
        decreases NOWCAST_PALETTE_LEN - i,
    {
        let c = nowcast_ref_exec(i);
        let d = sq_diff(r, c.0) + sq_diff(g, c.1) + sq_diff(b, c.2);
        if d < best_d {
            best_d = d;
            best_k = i;
        }
        i = i + 1;
    }
    proof {
        assert(is_first_nearest(r, g, b, best_k as int));
        let k = choose|k: int| is_first_nearest(r, g, b, k);
        lemma_first_nearest_unique(r, g, b, k, best_k as int);
    }
    if best_d > NOWCAST_MAX_DIST {
        0
    } else {
        nowcast_ref_exec(best_k).3
    }
}

} // verus!
