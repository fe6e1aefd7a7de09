//! Map overlays of the text-mode radar: reference cities and boundary lines.
use vstd::prelude::*;

verus! {

/// A latitude/longitude box in millionths of a degree, edges included.
#[derive(Debug, Clone, Copy, PartialEq, Eq, Structural)]
pub struct GeoBox {
    pub lat_min: i64,
    pub lon_min: i64,
    pub lat_max: i64,
    pub lon_max: i64,
}

/// Whether the point lies in the box.
pub open spec fn in_box(b: GeoBox, lat: int, lon: int) -> bool {
    b.lat_min <= lat <= b.lat_max && b.lon_min <= lon <= b.lon_max
}

/// A city marked on the radar as a landmark.
#[derive(Debug, Clone, Copy)]
pub struct City {
    pub name: &'static str,
    /// Latitude in millionths of a degree.
    pub lat_e6: i64,
    /// Longitude in millionths of a degree.
    pub lon_e6: i64,
}

/// Twenty Japanese cities and fifteen world capitals and metropolises.
pub open spec fn city_table() -> Seq<City> {
    seq![
        City { name: "札幌", lat_e6: 43064200, lon_e6: 141346900i64 },
        City { name: "仙台", lat_e6: 38268200, lon_e6: 140869400i64 },
        City { name: "新潟", lat_e6: 37902600, lon_e6: 139023200i64 },
        City { name: "東京", lat_e6: 35681200, lon_e6: 139767100i64 },
        City { name: "横浜", lat_e6: 35443700, lon_e6: 139638000i64 },
        City { name: "名古屋", lat_e6: 35181500, lon_e6: 136906600i64 },
        City { name: "京都", lat_e6: 35011600, lon_e6: 135768100i64 },
        City { name: "大阪", lat_e6: 34693700, lon_e6: 135502300i64 },
        City { name: "神戸", lat_e6: 34691300, lon_e6: 135183000i64 },
        City { name: "広島", lat_e6: 34385300, lon_e6: 132455300i64 },
        City { name: "高知", lat_e6: 33559700, lon_e6: 133531100i64 },
        City { name: "福岡", lat_e6: 33590400, lon_e6: 130401700i64 },
        City { name: "鹿児島", lat_e6: 31596900, lon_e6: 130557100i64 },
        City { name: "那覇", lat_e6: 26212400, lon_e6: 127680900i64 },
        City { name: "金沢", lat_e6: 36561300, lon_e6: 136656200i64 },
        City { name: "静岡", lat_e6: 34975600, lon_e6: 138382800i64 },
        City { name: "青森", lat_e6: 40824400, lon_e6: 140740000i64 },
        City { name: "盛岡", lat_e6: 39703600, lon_e6: 141152700i64 },
        City { name: "松山", lat_e6: 33839200, lon_e6: 132765700i64 },
        City { name: "高松", lat_e6: 34340100, lon_e6: 134043400i64 },
        City { name: "Seoul", lat_e6: 37566500, lon_e6: 126978000i64 },
        City { name: "Beijing", lat_e6: 39904200, lon_e6: 116407400i64 },
        City { name: "Shanghai", lat_e6: 31230400, lon_e6: 121473700i64 },
        City { name: "Taipei", lat_e6: 25033000, lon_e6: 121565400i64 },
        City { name: "Manila", lat_e6: 14599500, lon_e6: 120984200i64 },
        City { name: "Bangkok", lat_e6: 13756300, lon_e6: 100501800i64 },
        City { name: "Singapore", lat_e6: 1352100, lon_e6: 103819800i64 },
        City { name: "Sydney", lat_e6: -33868800i64, lon_e6: 151209300i64 },
        City { name: "New York", lat_e6: 40712800, lon_e6: -74006000i64 },
        City { name: "L.A.", lat_e6: 34052200, lon_e6: -118243700i64 },
        City { name: "London", lat_e6: 51507400, lon_e6: -127800i64 },
        City { name: "Paris", lat_e6: 48856600, lon_e6: 2352200i64 },
        City { name: "Berlin", lat_e6: 52520000, lon_e6: 13405000i64 },
        City { name: "Rome", lat_e6: 41902800, lon_e6: 12496400i64 },
        City { name: "Moscow", lat_e6: 55755800, lon_e6: 37617300i64 },
    ]
}

/// The landmark cities.
pub fn cities() -> (r: Vec<City>)
    ensures
        r@ == city_table(),
{
    let r = vec![
        City { name: "札幌", lat_e6: 43064200, lon_e6: 141346900 },
        City { name: "仙台", lat_e6: 38268200, lon_e6: 140869400 },
        City { name: "新潟", lat_e6: 37902600, lon_e6: 139023200 },
        City { name: "東京", lat_e6: 35681200, lon_e6: 139767100 },
        City { name: "横浜", lat_e6: 35443700, lon_e6: 139638000 },
        City { name: "名古屋", lat_e6: 35181500, lon_e6: 136906600 },
        City { name: "京都", lat_e6: 35011600, lon_e6: 135768100 },
        City { name: "大阪", lat_e6: 34693700, lon_e6: 135502300 },
        City { name: "神戸", lat_e6: 34691300, lon_e6: 135183000 },
        City { name: "広島", lat_e6: 34385300, lon_e6: 132455300 },
        City { name: "高知", lat_e6: 33559700, lon_e6: 133531100 },
        City { name: "福岡", lat_e6: 33590400, lon_e6: 130401700 },
        City { name: "鹿児島", lat_e6: 31596900, lon_e6: 130557100 },
        City { name: "那覇", lat_e6: 26212400, lon_e6: 127680900 },
        City { name: "金沢", lat_e6: 36561300, lon_e6: 136656200 },
        City { name: "静岡", lat_e6: 34975600, lon_e6: 138382800 },
        City { name: "青森", lat_e6: 40824400, lon_e6: 140740000 },
        City { name: "盛岡", lat_e6: 39703600, lon_e6: 141152700 },
        City { name: "松山", lat_e6: 33839200, lon_e6: 132765700 },
        City { name: "高松", lat_e6: 34340100, lon_e6: 134043400 },
        City { name: "Seoul", lat_e6: 37566500, lon_e6: 126978000 },
        City { name: "Beijing", lat_e6: 39904200, lon_e6: 116407400 },
        City { name: "Shanghai", lat_e6: 31230400, lon_e6: 121473700 },
        City { name: "Taipei", lat_e6: 25033000, lon_e6: 121565400 },
        City { name: "Manila", lat_e6: 14599500, lon_e6: 120984200 },
        City { name: "Bangkok", lat_e6: 13756300, lon_e6: 100501800 },
        City { name: "Singapore", lat_e6: 1352100, lon_e6: 103819800 },
        City { name: "Sydney", lat_e6: -33868800, lon_e6: 151209300 },
        City { name: "New York", lat_e6: 40712800, lon_e6: -74006000 },
        City { name: "L.A.", lat_e6: 34052200, lon_e6: -118243700 },
        City { name: "London", lat_e6: 51507400, lon_e6: -127800 },
        City { name: "Paris", lat_e6: 48856600, lon_e6: 2352200 },
        City { name: "Berlin", lat_e6: 52520000, lon_e6: 13405000 },
        City { name: "Rome", lat_e6: 41902800, lon_e6: 12496400 },
        City { name: "Moscow", lat_e6: 55755800, lon_e6: 37617300 },
    ];
    assert(r@ =~= city_table());
    r
}

/// The cities of `t` that lie in `b`, in table order.
pub open spec fn cities_within(t: Seq<City>, b: GeoBox) -> Seq<City>
    decreases t.len(),
{
    if t.len() == 0 {
        seq![]
    } else {
        let rest = cities_within(t.drop_last(), b);
        if in_box(b, t.last().lat_e6 as int, t.last().lon_e6 as int) {
            rest.push(t.last())
        } else {
            rest
        }
    }
}

/// The landmark cities inside the radar's view.
pub fn cities_in(b: GeoBox) -> (r: Vec<City>)
    ensures
        r@ == cities_within(city_table(), b),
{
    let all = cities();
    let mut out: Vec<City> = Vec::new();
    let mut i: usize = 0;
    while i < all.len()
        invariant
            all@ == city_table(),
            i <= all@.len(),
            out@ == cities_within(all@.take(i as int), b),
        decreases all@.len() - i,
    {
        assert(all@.take(i + 1).drop_last() =~= all@.take(i as int));
        let c = all[i];
        if b.lat_min <= c.lat_e6 && c.lat_e6 <= b.lat_max && b.lon_min <= c.lon_e6 && c.lon_e6 <= b.lon_max {
            out.push(c);
        }
        i = i + 1;
    }
    assert(all@.take(all@.len() as int) =~= all@);
    out
}

/// Which boundary layer of the map.
#[derive(Debug, Clone, Copy, PartialEq, Eq, Structural)]
pub enum Layer {
    Coast,
    Prefecture,
    Municipality,
}

/// A vertex `(lon, lat)` of a boundary line, in millionths of a degree.
pub open spec fn vertex_in(b: GeoBox, v: (i64, i64)) -> bool {
    in_box(b, v.1 as int, v.0 as int)
}

/// Whether some vertex of the line lies in the box.
pub open spec fn touches(line: Seq<(i64, i64)>, b: GeoBox) -> bool {
    exists|i: int| 0 <= i < line.len() && vertex_in(b, #[trigger] line[i])
}

/// The consecutive vertex pairs of a line, as `(lon1, lat1, lon2, lat2)`.
pub open spec fn line_pairs(line: Seq<(i64, i64)>) -> Seq<(i64, i64, i64, i64)> {
    let n = if line.len() > 0 { line.len() - 1 } else { 0 };
    Seq::new(n as nat, |i: int| (line[i].0, line[i].1, line[i + 1].0, line[i + 1].1))
}

/// The segments of every line that has a vertex in the box, line by line; a line
/// with no vertex in the box is left out whole.
pub open spec fn segments_within(lines: Seq<Vec<(i64, i64)>>, b: GeoBox) -> Seq<(i64, i64, i64, i64)>
    decreases lines.len(),
{
    if lines.len() == 0 {
        seq![]
    } else {
        let rest = segments_within(lines.drop_last(), b);
        if touches(lines.last()@, b) {
            rest + line_pairs(lines.last()@)
        } else {
            rest
        }
    }
}

fn line_touches(line: &Vec<(i64, i64)>, b: GeoBox) -> (r: bool)
    ensures
        r == touches(line@, b),
{
    let mut i: usize = 0;
    while i < line.len()
        invariant
            i <= line@.len(),
            forall|j: int| 0 <= j < i ==> !vertex_in(b, #[trigger] line@[j]),
        decreases line@.len() - i,
    {
        let (lon, lat) = line[i];
        if b.lat_min <= lat && lat <= b.lat_max && b.lon_min <= lon && lon <= b.lon_max {
            assert(vertex_in(b, line@[i as int]));
            return true;
        }
        i = i + 1;
    }
    false
}

/// Segments of `lines` to draw inside the box `b` (see `segments_within`).
pub fn extract_segments(lines: &Vec<Vec<(i64, i64)>>, b: GeoBox) -> (r: Vec<(i64, i64, i64, i64)>)
    ensures
        r@ == segments_within(lines@, b),
{
    let mut out: Vec<(i64, i64, i64, i64)> = Vec::new();
    let mut k: usize = 0;
    while k < lines.len()
        invariant
            k <= lines@.len(),
            out@ == segments_within(lines@.take(k as int), b),
        decreases lines@.len() - k,
    {
        assert(lines@.take(k + 1).drop_last() =~= lines@.take(k as int));
        let line = &lines[k];
        if line_touches(line, b) {
            let ghost before = out@;
            let mut i: usize = 1;
            while i < line.len()
                invariant
                    1 <= i <= line@.len() || (i == 1 && line@.len() == 0),
                    out@ == before + line_pairs(line@).take(i - 1),
                decreases line@.len() - i,
            {
                let (lon1, lat1) = line[i - 1];
                let (lon2, lat2) = line[i];
                out.push((lon1, lat1, lon2, lat2));
                i = i + 1;
                assert(out@ =~= before + line_pairs(line@).take(i - 1));
            }
            assert(line_pairs(line@).take(line_pairs(line@).len() as int) =~= line_pairs(line@));
        }
        k = k + 1;
    }
    assert(lines@.take(lines@.len() as int) =~= lines@);
    out
}

/// The three boundary layers, each a list of lines of `(lon, lat)` vertices in
/// millionths of a degree.
#[derive(Debug, Clone)]
pub struct MapData {
    pub coastlines: Vec<Vec<(i64, i64)>>,
    pub prefectures: Vec<Vec<(i64, i64)>>,
    pub municipalities: Vec<Vec<(i64, i64)>>,
}

/// The lines of one layer.
pub open spec fn layer_lines(m: MapData, which: Layer) -> Seq<Vec<(i64, i64)>> {
    match which {
        Layer::Coast => m.coastlines@,
        Layer::Prefecture => m.prefectures@,
        Layer::Municipality => m.municipalities@,
    }
}

impl MapData {
    /// Map data with no line in any layer (before the files are loaded).
    pub fn empty() -> (r: MapData)
        ensures
            r.coastlines@.len() == 0,
            r.prefectures@.len() == 0,
            r.municipalities@.len() == 0,
    {
        MapData { coastlines: Vec::new(), prefectures: Vec::new(), municipalities: Vec::new() }
    }

    /// Segments of one layer to draw inside the box `b`.
    pub fn segments_for(&self, which: Layer, b: GeoBox) -> (r: Vec<(i64, i64, i64, i64)>)
        ensures
            r@ == segments_within(layer_lines(*self, which), b),
    {
        match which {
            Layer::Coast => extract_segments(&self.coastlines, b),
            Layer::Prefecture => extract_segments(&self.prefectures, b),
            Layer::Municipality => extract_segments(&self.municipalities, b),
        }
    }
}

/// A GeoJSON geometry, positions given as lists of coordinates in millionths
/// of a degree (longitude first).
#[derive(Debug)]
pub enum Shape {
    Point,
    MultiPoint,
    LineString(Vec<Vec<i64>>),
    MultiLineString(Vec<Vec<Vec<i64>>>),
    Polygon(Vec<Vec<Vec<i64>>>),
    MultiPolygon(Vec<Vec<Vec<Vec<i64>>>>),
    Collection(Vec<Shape>),
}

/// The `(lon, lat)` vertices of a position list, skipping positions with fewer
/// than two coordinates.
pub open spec fn vertices(ps: Seq<Vec<i64>>) -> Seq<(i64, i64)>
    decreases ps.len(),
{
    if ps.len() == 0 {
        seq![]
    } else {
        let rest = vertices(ps.drop_last());
        let p = ps.last()@;
        if p.len() >= 2 { rest.push((p[0], p[1])) } else { rest }
    }
}

/// The line of a position list, kept only when it has two vertices or more.
pub open spec fn line_of(ps: Seq<Vec<i64>>) -> Seq<Seq<(i64, i64)>> {
    if vertices(ps).len() >= 2 { seq![vertices(ps)] } else { seq![] }
}

/// The lines of a list of position lists (rings of a polygon, parts of a
/// multi-line), in order.
pub open spec fn lines_of(ls: Seq<Vec<Vec<i64>>>) -> Seq<Seq<(i64, i64)>>
    decreases ls.len(),
{
    if ls.len() == 0 { seq![] } else { lines_of(ls.drop_last()) + line_of(ls.last()@) }
}

/// The lines of the polygons of a multi-polygon: every ring of every polygon.
pub open spec fn polygon_lines(ps: Seq<Vec<Vec<Vec<i64>>>>) -> Seq<Seq<(i64, i64)>>
    decreases ps.len(),
{
    if ps.len() == 0 { seq![] } else { polygon_lines(ps.drop_last()) + lines_of(ps.last()@) }
}

/// Every line a geometry draws: a line string, each part of a multi-line,
/// each ring (outer and holes) of a polygon or multi-polygon, and the lines of
/// each member of a collection; points draw none.
pub open spec fn shape_lines(s: Shape) -> Seq<Seq<(i64, i64)>>
    decreases s, 1int,
{
    match s {
        Shape::LineString(ps) => line_of(ps@),
        Shape::MultiLineString(ls) => lines_of(ls@),
        Shape::Polygon(rings) => lines_of(rings@),
        Shape::MultiPolygon(polys) => polygon_lines(polys@),
        Shape::Collection(gs) => shapes_lines(gs@),
        _ => seq![],
    }
}

/// The lines of several geometries, in order.
pub open spec fn shapes_lines(gs: Seq<Shape>) -> Seq<Seq<(i64, i64)>>
    decreases gs, 0int,
{
    if gs.len() == 0 {
        seq![]
    } else {
        shapes_lines(gs.drop_last()) + shape_lines(gs.last())
    }
}

/// The vertex lists of a list of lines.
pub open spec fn line_views(v: Seq<Vec<(i64, i64)>>) -> Seq<Seq<(i64, i64)>> {
    Seq::new(v.len(), |i: int| v[i]@)
}

proof fn lemma_line_views_push(v: Seq<Vec<(i64, i64)>>, x: Vec<(i64, i64)>)
    ensures
        line_views(v.push(x)) == line_views(v).push(x@),
{
    assert(line_views(v.push(x)) =~= line_views(v).push(x@));
}

fn collect_vertices(ps: &Vec<Vec<i64>>) -> (r: Vec<(i64, i64)>)
    ensures
        r@ == vertices(ps@),
{
    let mut out: Vec<(i64, i64)> = Vec::new();
    let mut i: usize = 0;
    while i < ps.len()
        invariant
            i <= ps@.len(),
            out@ == vertices(ps@.take(i as int)),
        decreases ps@.len() - i,
    {
        assert(ps@.take(i + 1).drop_last() =~= ps@.take(i as int));
        let p = &ps[i];
        if p.len() >= 2 {
            out.push((p[0], p[1]));
        }
        i = i + 1;
    }
    assert(ps@.take(ps@.len() as int) =~= ps@);
    out
}

fn push_line(out: &mut Vec<Vec<(i64, i64)>>, ps: &Vec<Vec<i64>>)
    ensures
        line_views(final(out)@) == line_views(old(out)@) + line_of(ps@),
{
    let v = collect_vertices(ps);
    if v.len() >= 2 {
        proof {
            lemma_line_views_push(out@, v);
        }
        out.push(v);
        assert(line_views(out@) =~= line_views(old(out)@) + line_of(ps@));
    } else {
        assert(line_views(out@) =~= line_views(old(out)@) + line_of(ps@));
    }
}

fn push_lines(out: &mut Vec<Vec<(i64, i64)>>, ls: &Vec<Vec<Vec<i64>>>)
    ensures
        line_views(final(out)@) == line_views(old(out)@) + lines_of(ls@),
{
    let mut i: usize = 0;
    while i < ls.len()
        invariant
            i <= ls@.len(),
            line_views(out@) == line_views(old(out)@) + lines_of(ls@.take(i as int)),
        decreases ls@.len() - i,
    {
        assert(ls@.take(i + 1).drop_last() =~= ls@.take(i as int));
        push_line(out, &ls[i]);
        i = i + 1;
        assert(line_views(out@) =~= line_views(old(out)@) + lines_of(ls@.take(i as int)));
    }
    assert(ls@.take(ls@.len() as int) =~= ls@);
}

fn push_polygons(out: &mut Vec<Vec<(i64, i64)>>, ps: &Vec<Vec<Vec<Vec<i64>>>>)
    ensures
        line_views(final(out)@) == line_views(old(out)@) + polygon_lines(ps@),
{
    let mut i: usize = 0;
    while i < ps.len()
        invariant
            i <= ps@.len(),
            line_views(out@) == line_views(old(out)@) + polygon_lines(ps@.take(i as int)),
        decreases ps@.len() - i,
    {
        assert(ps@.take(i + 1).drop_last() =~= ps@.take(i as int));
        push_lines(out, &ps[i]);
        i = i + 1;
        assert(line_views(out@) =~= line_views(old(out)@) + polygon_lines(ps@.take(i as int)));
    }
    assert(ps@.take(ps@.len() as int) =~= ps@);
}

fn push_shape(out: &mut Vec<Vec<(i64, i64)>>, s: &Shape)
    ensures
        line_views(final(out)@) == line_views(old(out)@) + shape_lines(*s),
    decreases *s, 1int,
{
    match s {
        Shape::LineString(ps) => push_line(out, ps),
        Shape::MultiLineString(ls) => push_lines(out, ls),
        Shape::Polygon(rings) => push_lines(out, rings),
        Shape::MultiPolygon(polys) => push_polygons(out, polys),
        Shape::Collection(gs) => push_shapes(out, gs),
        _ => {
            assert(line_views(out@) =~= line_views(old(out)@) + shape_lines(*s));
        },
    }
}

fn push_shapes(out: &mut Vec<Vec<(i64, i64)>>, gs: &Vec<Shape>)
    ensures
        line_views(final(out)@) == line_views(old(out)@) + shapes_lines(gs@),
    decreases gs@, 0int,
{
    let mut i: usize = 0;
    while i < gs.len()
        invariant
            i <= gs@.len(),
            line_views(out@) == line_views(old(out)@) + shapes_lines(gs@.take(i as int)),
        decreases gs@.len() - i,
    {
        assert(gs@.take(i + 1).drop_last() =~= gs@.take(i as int));
        push_shape(out, &gs[i]);
        i = i + 1;
        assert(line_views(out@) =~= line_views(old(out)@) + shapes_lines(gs@.take(i as int)));
    }
    assert(gs@.take(gs@.len() as int) =~= gs@);
}

/// The boundary lines of a GeoJSON document given as its geometries (see
/// `shape_lines`), in document order.
pub fn polylines(doc: &Vec<Shape>) -> (r: Vec<Vec<(i64, i64)>>)
    ensures
        line_views(r@) == shapes_lines(doc@),
{
    let mut out: Vec<Vec<(i64, i64)>> = Vec::new();
    assert(line_views(out@) =~= seq![]);
    push_shapes(&mut out, doc);
    assert(line_views(out@) =~= shapes_lines(doc@));
    out
}

} // verus!
