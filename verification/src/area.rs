//! JMA forecast offices and the choice of the office nearest to a location.
//!
//! Coordinates are counted in millionths of a degree.
use vstd::prelude::*;

verus! {

/// A JMA prefectural forecast office and the coordinates of its prefectural capital.
#[derive(Debug, Clone, Copy)]
pub struct AreaEntry {
    /// Office code, e.g. "130000" (Tokyo).
    pub office: &'static str,
    /// First-level sub-area code, e.g. "130010".
    pub class10: &'static str,
    /// Name used to find the office's sub-area in a forecast.
    pub name: &'static str,
    /// Latitude in millionths of a degree.
    pub lat_e6: i64,
    /// Longitude in millionths of a degree.
    pub lon_e6: i64,
}

/// The offices known to the application (a subset of the 47 prefectures).
pub open spec fn area_table() -> Seq<AreaEntry> {
    seq![
        AreaEntry { office: "016000", class10: "016010", name: "札幌", lat_e6: 43064200, lon_e6: 141346900 },
        AreaEntry { office: "020000", class10: "020010", name: "青森", lat_e6: 40824400, lon_e6: 140740000 },
        AreaEntry { office: "040000", class10: "040010", name: "仙台", lat_e6: 38268200, lon_e6: 140869400 },
        AreaEntry { office: "130000", class10: "130010", name: "東京", lat_e6: 35681200, lon_e6: 139767100 },
        AreaEntry { office: "140000", class10: "140010", name: "横浜", lat_e6: 35447800, lon_e6: 139642500 },
        AreaEntry { office: "150000", class10: "150010", name: "新潟", lat_e6: 37902600, lon_e6: 139023200 },
        AreaEntry { office: "230000", class10: "230010", name: "名古屋", lat_e6: 35181500, lon_e6: 136906600 },
        AreaEntry { office: "270000", class10: "270000", name: "大阪", lat_e6: 34693700, lon_e6: 135502300 },
        AreaEntry { office: "280000", class10: "280010", name: "神戸", lat_e6: 34691300, lon_e6: 135183000 },
        AreaEntry { office: "340000", class10: "340010", name: "広島", lat_e6: 34385300, lon_e6: 132455300 },
        AreaEntry { office: "390000", class10: "390010", name: "高知", lat_e6: 33559700, lon_e6: 133531100 },
        AreaEntry { office: "400000", class10: "400010", name: "福岡", lat_e6: 33590400, lon_e6: 130401700 },
        AreaEntry { office: "471000", class10: "471010", name: "那覇", lat_e6: 26212400, lon_e6: 127680900 },
    ]
}

/// The table of known forecast offices.
pub fn areas() -> (r: Vec<AreaEntry>)
    ensures
        r@ == area_table(),
{
    let r = vec![
        AreaEntry { office: "016000", class10: "016010", name: "札幌", lat_e6: 43064200, lon_e6: 141346900 },
        AreaEntry { office: "020000", class10: "020010", name: "青森", lat_e6: 40824400, lon_e6: 140740000 },
        AreaEntry { office: "040000", class10: "040010", name: "仙台", lat_e6: 38268200, lon_e6: 140869400 },
        AreaEntry { office: "130000", class10: "130010", name: "東京", lat_e6: 35681200, lon_e6: 139767100 },
        AreaEntry { office: "140000", class10: "140010", name: "横浜", lat_e6: 35447800, lon_e6: 139642500 },
        AreaEntry { office: "150000", class10: "150010", name: "新潟", lat_e6: 37902600, lon_e6: 139023200 },
        AreaEntry { office: "230000", class10: "230010", name: "名古屋", lat_e6: 35181500, lon_e6: 136906600 },
        AreaEntry { office: "270000", class10: "270000", name: "大阪", lat_e6: 34693700, lon_e6: 135502300 },
        AreaEntry { office: "280000", class10: "280010", name: "神戸", lat_e6: 34691300, lon_e6: 135183000 },
        AreaEntry { office: "340000", class10: "340010", name: "広島", lat_e6: 34385300, lon_e6: 132455300 },
        AreaEntry { office: "390000", class10: "390010", name: "高知", lat_e6: 33559700, lon_e6: 133531100 },
        AreaEntry { office: "400000", class10: "400010", name: "福岡", lat_e6: 33590400, lon_e6: 130401700 },
        AreaEntry { office: "471000", class10: "471010", name: "那覇", lat_e6: 26212400, lon_e6: 127680900 },
    ];
    assert(r@ =~= area_table());
    r
}

/// Squared distance, in squared millionths of a degree, from an office to a point.
pub open spec fn area_dist(e: AreaEntry, lat_e6: int, lon_e6: int) -> int {
    (e.lat_e6 - lat_e6) * (e.lat_e6 - lat_e6) + (e.lon_e6 - lon_e6) * (e.lon_e6 - lon_e6)
}

/// `k` is the first table entry among those closest to the point.
pub open spec fn is_first_closest(t: Seq<AreaEntry>, lat_e6: int, lon_e6: int, k: int) -> bool {
    &&& 0 <= k < t.len()
    &&& forall|j: int| 0 <= j < t.len() ==> area_dist(t[k], lat_e6, lon_e6) <= #[trigger] area_dist(t[j], lat_e6, lon_e6)
    &&& forall|j: int| 0 <= j < k ==> area_dist(t[k], lat_e6, lon_e6) < #[trigger] area_dist(t[j], lat_e6, lon_e6)
}

/// The office whose capital is nearest to the point (the first one on ties).
pub open spec fn nearest_area_spec(lat_e6: int, lon_e6: int) -> AreaEntry {
    area_table()[choose|k: int| is_first_closest(area_table(), lat_e6, lon_e6, k)]
}

/// Largest coordinate magnitude of the office table, in millionths of a degree.
pub const COORD_LIMIT_E6: i64 = 1_000_000_000;

/// The table's coordinates are real latitudes and longitudes.
proof fn lemma_table_bounded()
    ensures
        forall|j: int| 0 <= j < area_table().len() ==> {
            &&& -COORD_LIMIT_E6 <= (#[trigger] area_table()[j]).lat_e6 <= COORD_LIMIT_E6
            &&& -COORD_LIMIT_E6 <= area_table()[j].lon_e6 <= COORD_LIMIT_E6
        },
{
    let t = area_table();
    assert forall|j: int| 0 <= j < t.len() implies {
        &&& -COORD_LIMIT_E6 <= (#[trigger] t[j]).lat_e6 <= COORD_LIMIT_E6
        &&& -COORD_LIMIT_E6 <= t[j].lon_e6 <= COORD_LIMIT_E6
    } by {
        if j == 0 {} else if j == 1 {} else if j == 2 {} else if j == 3 {} else if j == 4 {}
        else if j == 5 {} else if j == 6 {} else if j == 7 {} else if j == 8 {} else if j == 9 {}
        else if j == 10 {} else if j == 11 {} else {}
    }
}

proof fn lemma_first_closest_unique(t: Seq<AreaEntry>, lat: int, lon: int, k1: int, k2: int)
    requires
        is_first_closest(t, lat, lon, k1),
        is_first_closest(t, lat, lon, k2),
    ensures
        k1 == k2,
{
    if k1 < k2 {
        assert(area_dist(t[k2], lat, lon) < area_dist(t[k1], lat, lon));
        assert(area_dist(t[k1], lat, lon) <= area_dist(t[k2], lat, lon));
    } else if k2 < k1 {
        assert(area_dist(t[k1], lat, lon) < area_dist(t[k2], lat, lon));
        assert(area_dist(t[k2], lat, lon) <= area_dist(t[k1], lat, lon));
    }
}

fn abs_diff(a: i64, b: i64) -> (r: u128)
    ensures
        r as int == (if a >= b { a - b } else { b - a }),
{
    let d: i128 = a as i128 - b as i128;
    if d >= 0 { d as u128 } else { (0 - d) as u128 }
}

fn dist_exec(e: &AreaEntry, lat_e6: i64, lon_e6: i64) -> (d: u128)
    requires
        -COORD_LIMIT_E6 <= e.lat_e6 <= COORD_LIMIT_E6,
        -COORD_LIMIT_E6 <= e.lon_e6 <= COORD_LIMIT_E6,
    ensures
        d as int == area_dist(*e, lat_e6 as int, lon_e6 as int),
{
    let a = abs_diff(e.lat_e6, lat_e6);
    let b = abs_diff(e.lon_e6, lon_e6);
    assert(a <= 10_300_000_000_000_000_000u128);
    assert(b <= 10_300_000_000_000_000_000u128);
    assert(a * a <= 106_090_000_000_000_000_000_000_000_000_000_000_000) by (nonlinear_arith)
        requires
            a <= 10_300_000_000_000_000_000u128,
    ;
    assert(b * b <= 106_090_000_000_000_000_000_000_000_000_000_000_000) by (nonlinear_arith)
        requires
            b <= 10_300_000_000_000_000_000u128,
    ;
    proof {
        let la = e.lat_e6 - lat_e6;
        let lo = e.lon_e6 - lon_e6;
        assert(a * a == la * la) by (nonlinear_arith)
            requires
                a == (if la >= 0 { la } else { -la }),
        ;
        assert(b * b == lo * lo) by (nonlinear_arith)
            requires
                b == (if lo >= 0 { lo } else { -lo }),
        ;
    }
    a * a + b * b
}

/// The forecast office nearest to a location: the one whose capital is closest
/// (squared difference of latitude plus squared difference of longitude), the
/// first listed on ties.
pub fn nearest_area(lat_e6: i64, lon_e6: i64) -> (r: AreaEntry)
    ensures
        r == nearest_area_spec(lat_e6 as int, lon_e6 as int),
{
    let table = areas();
    let ghost t = area_table();
    proof {
        lemma_table_bounded();
    }
    let mut best: usize = 0;
    let mut best_d: u128 = dist_exec(&table[0], lat_e6, lon_e6);
    let mut i: usize = 1;
    while i < table.len()
        invariant
            table@ == t,
            t == area_table(),
            forall|j: int| 0 <= j < t.len() ==> {
                &&& -COORD_LIMIT_E6 <= (#[trigger] t[j]).lat_e6 <= COORD_LIMIT_E6
                &&& -COORD_LIMIT_E6 <= t[j].lon_e6 <= COORD_LIMIT_E6
            },
            1 <= i <= t.len(),
            best < i,
            best_d == area_dist(t[best as int], lat_e6 as int, lon_e6 as int),
            forall|j: int| 0 <= j < i ==> best_d <= #[trigger] area_dist(t[j], lat_e6 as int, lon_e6 as int),
            forall|j: int| 0 <= j < best ==> best_d < #[trigger] area_dist(t[j], lat_e6 as int, lon_e6 as int),
        decreases t.len() - i,
    {
        let d = dist_exec(&table[i], lat_e6, lon_e6);
        if d < best_d {
            best = i;
            best_d = d;
        }
        i = i + 1;
    }
    proof {
        assert(is_first_closest(t, lat_e6 as int, lon_e6 as int, best as int));
        let k = choose|k: int| is_first_closest(t, lat_e6 as int, lon_e6 as int, k);
        lemma_first_closest_unique(t, lat_e6 as int, lon_e6 as int, k, best as int);
    }
    table[best]
}

} // verus!
