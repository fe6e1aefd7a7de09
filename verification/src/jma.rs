//! JMA (Japan Meteorological Agency) forecast data: the current condition line,
//! the weekly forecast, and the addresses of the JMA endpoints.
use vstd::prelude::*;
use crate::icon::{icon_for_text, jma_code_label, jma_weather_code_text, text_to_icon, WeatherIcon};
use crate::text::{
    concat2, contains_seq, contains_str, first_line, first_line_of, push_decimal, take_chars,
    take_chars_of, decimal,
};

verus! {

/// Number of characters of the overview text shown as the current condition.
pub const CONDITION_MAX_CHARS: usize = 40;

/// The condition shown for a JMA weather overview: the first line of its text,
/// cut to 40 characters; the target area's name when that is empty.
pub open spec fn overview_condition_spec(text: Seq<char>, target_area: Seq<char>) -> Seq<char> {
    let c = take_chars(first_line(text), CONDITION_MAX_CHARS as nat);
    if c.len() == 0 {
        target_area
    } else {
        c
    }
}

/// Current condition text and icon from a JMA weather overview. The icon is
/// taken from the overview line itself (so an empty line gives no icon).
pub fn overview_condition(text: &str, target_area: &str) -> (r: (String, WeatherIcon))
    ensures
        r.0@ == overview_condition_spec(text@, target_area@),
        r.1 == icon_for_text(take_chars(first_line(text@), CONDITION_MAX_CHARS as nat)),
{
    let line = take_chars_of(first_line_of(text), CONDITION_MAX_CHARS);
    let icon = text_to_icon(line);
    if line.unicode_len() == 0 {
        (String::from_str(target_area), icon)
    } else {
        (String::from_str(line), icon)
    }
}

/// Address of the weather overview of a forecast office.
pub fn overview_url(office: &str) -> (r: String)
    ensures
        r@ == "https://www.jma.go.jp/bosai/forecast/data/overview_forecast/"@ + office@ + ".json"@,
{
    let mut s = String::from_str("https://www.jma.go.jp/bosai/forecast/data/overview_forecast/");
    s.append(office);
    s.append(".json");
    s
}

/// Address of the forecast (short-range and weekly) of a forecast office.
pub fn forecast_url(office: &str) -> (r: String)
    ensures
        r@ == "https://www.jma.go.jp/bosai/forecast/data/forecast/"@ + office@ + ".json"@,
{
    let mut s = String::from_str("https://www.jma.go.jp/bosai/forecast/data/forecast/");
    s.append(office);
    s.append(".json");
    s
}

/// Address of a nowcast rain tile: `.../nowc/{basetime}/{elem}/{validtime}/surf/hrpns/{z}/{x}/{y}.png`.
pub fn nowcast_tile_url(basetime: &str, elem: &str, validtime: &str, z: u8, x: u32, y: u32) -> (r: String)
    ensures
        r@ == "https://www.jma.go.jp/bosai/jmatile/data/nowc/"@ + basetime@ + "/"@ + elem@ + "/"@
            + validtime@ + "/surf/hrpns/"@ + decimal(z as nat) + "/"@ + decimal(x as nat) + "/"@
            + decimal(y as nat) + ".png"@,
{
    let mut s = String::from_str("https://www.jma.go.jp/bosai/jmatile/data/nowc/");
    s.append(basetime);
    s.append("/");
    s.append(elem);
    s.append("/");
    s.append(validtime);
    s.append("/surf/hrpns/");
    push_decimal(&mut s, z as u64);
    s.append("/");
    push_decimal(&mut s, x as u64);
    s.append("/");
    push_decimal(&mut s, y as u64);
    s.append(".png");
    s
}

/// Address of a GSI pale map tile: `https://cyberjapandata.gsi.go.jp/xyz/pale/{z}/{x}/{y}.png`.
pub fn pale_tile_url(z: u8, x: u32, y: u32) -> (r: String)
    ensures
        r@ == "https://cyberjapandata.gsi.go.jp/xyz/pale/"@ + decimal(z as nat) + "/"@ + decimal(x as nat)
            + "/"@ + decimal(y as nat) + ".png"@,
{
    let mut s = String::from_str("https://cyberjapandata.gsi.go.jp/xyz/pale/");
    push_decimal(&mut s, z as u64);
    s.append("/");
    push_decimal(&mut s, x as u64);
    s.append("/");
    push_decimal(&mut s, y as u64);
    s.append(".png");
    s
}

/// Index of the first name that contains `wanted`, if any.
pub open spec fn first_containing(names: Seq<String>, wanted: Seq<char>) -> Option<int> {
    if exists|i: int| 0 <= i < names.len() && contains_seq(#[trigger] names[i]@, wanted) {
        Some(choose|i: int| 0 <= i < names.len() && contains_seq(#[trigger] names[i]@, wanted)
            && forall|j: int| 0 <= j < i ==> !contains_seq(#[trigger] names[j]@, wanted))
    } else {
        None
    }
}

/// The sub-area of a forecast series to read: the first whose name contains the
/// office's name, else the first one; `None` when the series lists no area.
pub open spec fn picked_area(names: Seq<String>, wanted: Seq<char>) -> Option<int> {
    if names.len() == 0 {
        None
    } else {
        match first_containing(names, wanted) {
            Some(i) => Some(i),
            None => Some(0),
        }
    }
}

/// Picks the sub-area of a forecast series (see `picked_area`).
pub fn pick_area(names: &Vec<String>, wanted: &str) -> (r: Option<usize>)
    ensures
        r matches Some(i) ==> picked_area(names@, wanted@) == Some(i as int),
        r is None ==> picked_area(names@, wanted@) is None,
{
    if names.len() == 0 {
        return None;
    }
    let mut i: usize = 0;
    while i < names.len()
        invariant
            i <= names@.len(),
            forall|j: int| 0 <= j < i ==> !contains_seq(#[trigger] names@[j]@, wanted@),
        decreases names@.len() - i,
    {
        if contains_str(names[i].as_str(), wanted) {
            proof {
                let w = choose|k: int| 0 <= k < names@.len() && contains_seq(#[trigger] names@[k]@, wanted@)
                    && forall|j: int| 0 <= j < k ==> !contains_seq(#[trigger] names@[j]@, wanted@);
                if w < i {
                } else if w > i {
                    assert(!contains_seq(names@[i as int]@, wanted@));
                }
            }
            return Some(i);
        }
        i = i + 1;
    }
    Some(0)
}

/// A calendar date.
#[derive(Debug, Clone, Copy, PartialEq, Eq, Structural)]
pub struct CivilDate {
    pub year: i32,
    pub month: u32,
    pub day: u32,
}

/// One day of the weekly forecast. Temperatures and the precipitation
/// probability are carried as the provider gave them (`V` is their number type).
pub struct DailyPoint<V> {
    pub date: CivilDate,
    /// Weather text, e.g. "曇り一時雨".
    pub condition: String,
    pub icon: WeatherIcon,
    pub temp_max_c: Option<V>,
    pub temp_min_c: Option<V>,
    pub precipitation_prob_pct: Option<V>,
}

/// `s[i]` when it exists and is present.
pub open spec fn get_flat<V>(s: Seq<Option<V>>, i: int) -> Option<V> {
    if 0 <= i < s.len() {
        s[i]
    } else {
        None
    }
}

fn get_flat_exec<V: Copy>(s: &Vec<Option<V>>, i: usize) -> (r: Option<V>)
    ensures
        r == get_flat(s@, i as int),
{
    if i < s.len() {
        s[i]
    } else {
        None
    }
}

/// The weekly forecast day `i` as built from JMA's weekly series.
pub open spec fn jma_day_ok<V>(
    d: DailyPoint<V>,
    date: CivilDate,
    code: Seq<char>,
    pops: Seq<Option<V>>,
    tmax: Seq<Option<V>>,
    tmin: Seq<Option<V>>,
    i: int,
) -> bool {
    &&& d.date == date
    &&& d.condition@ == jma_code_label(code)@
    &&& d.icon == icon_for_text(jma_code_label(code)@)
    &&& d.temp_max_c == get_flat(tmax, i)
    &&& d.temp_min_c == get_flat(tmin, i)
    &&& d.precipitation_prob_pct == get_flat(pops, i)
}

/// The weather code of day `i`; an empty code when the series is shorter.
pub open spec fn code_at(codes: Seq<String>, i: int) -> Seq<char> {
    if 0 <= i < codes.len() {
        codes[i]@
    } else {
        Seq::empty()
    }
}

/// Builds the weekly forecast from JMA's weekly series: one day per date, with
/// the label and icon of that day's weather code and the day's probability of
/// precipitation and temperatures when given.
pub fn jma_weekly_days<V: Copy>(
    dates: &Vec<CivilDate>,
    codes: &Vec<String>,
    pops: &Vec<Option<V>>,
    tmax: &Vec<Option<V>>,
    tmin: &Vec<Option<V>>,
) -> (out: Vec<DailyPoint<V>>)
    ensures
        out@.len() == dates@.len(),
        forall|i: int|
            0 <= i < dates@.len() ==> jma_day_ok(#[trigger] out@[i], dates@[i], code_at(codes@, i), pops@, tmax@, tmin@, i),
{
    let mut out: Vec<DailyPoint<V>> = Vec::new();
    let mut i: usize = 0;
    while i < dates.len()
        invariant
            i <= dates@.len(),
            out@.len() == i,
            forall|k: int|
                0 <= k < i ==> jma_day_ok(#[trigger] out@[k], dates@[k], code_at(codes@, k), pops@, tmax@, tmin@, k),
        decreases dates@.len() - i,
    {
        let label = if i < codes.len() {
            jma_weather_code_text(codes[i].as_str())
        } else {
            jma_weather_code_text("")
        };
        proof {
            if i >= codes@.len() {
                assert(""@ =~= Seq::<char>::empty()) by {
                    reveal_strlit("");
                }
            }
        }
        out.push(DailyPoint {
            date: dates[i],
            condition: String::from_str(label),
            icon: text_to_icon(label),
            temp_max_c: get_flat_exec(tmax, i),
            temp_min_c: get_flat_exec(tmin, i),
            precipitation_prob_pct: get_flat_exec(pops, i),
        });
        i = i + 1;
    }
    out
}

/// Whether some day lacks its high or its low temperature, in which case the
/// forecast is completed from another source.
pub open spec fn has_gaps<V>(days: Seq<DailyPoint<V>>) -> bool {
    exists|i: int| 0 <= i < days.len() && (#[trigger] days[i].temp_max_c is None || days[i].temp_min_c is None)
}

/// Whether the JMA weekly forecast has gaps to fill (see `has_gaps`).
pub fn needs_gap_fill<V>(days: &Vec<DailyPoint<V>>) -> (r: bool)
    ensures
        r == has_gaps(days@),
{
    let mut i: usize = 0;
    while i < days.len()
        invariant
            i <= days@.len(),
            forall|k: int| 0 <= k < i ==> !(#[trigger] days@[k].temp_max_c is None || days@[k].temp_min_c is None),
        decreases days@.len() - i,
    {
        if days[i].temp_max_c.is_none() || days[i].temp_min_c.is_none() {
            return true;
        }
        i = i + 1;
    }
    false
}

/// `first` when present, else `second`.
pub open spec fn or_else<V>(first: Option<V>, second: Option<V>) -> Option<V> {
    match first {
        Some(v) => Some(v),
        None => second,
    }
}

/// Index of the first day of `other` with the given date.
pub open spec fn first_same_date<V>(other: Seq<DailyPoint<V>>, date: CivilDate, j: int) -> bool {
    &&& 0 <= j < other.len()
    &&& other[j].date == date
    &&& forall|k: int| 0 <= k < j ==> (#[trigger] other[k]).date != date
}

/// Day `d` after its gaps are filled from `other`: each missing value is taken
/// from the first day of `other` with the same date; nothing else changes.
pub open spec fn filled_day_ok<V>(before: DailyPoint<V>, after: DailyPoint<V>, other: Seq<DailyPoint<V>>) -> bool {
    &&& after.date == before.date
    &&& after.condition == before.condition
    &&& after.icon == before.icon
    &&& (forall|j: int| first_same_date(other, before.date, j) ==> {
        &&& after.temp_max_c == or_else(before.temp_max_c, other[j].temp_max_c)
        &&& after.temp_min_c == or_else(before.temp_min_c, other[j].temp_min_c)
        &&& after.precipitation_prob_pct == or_else(before.precipitation_prob_pct, other[j].precipitation_prob_pct)
    })
    &&& ((forall|j: int| 0 <= j < other.len() ==> (#[trigger] other[j]).date != before.date) ==> {
        &&& after.temp_max_c == before.temp_max_c
        &&& after.temp_min_c == before.temp_min_c
        &&& after.precipitation_prob_pct == before.precipitation_prob_pct
    })
}

fn or_else_exec<V: Copy>(first: Option<V>, second: Option<V>) -> (r: Option<V>)
    ensures
        r == or_else(first, second),
{
    match first {
        Some(v) => Some(v),
        None => second,
    }
}

/// Completes the JMA weekly forecast from another source's daily forecast:
/// every missing high, low or precipitation probability is taken from the first
/// day of `other` with the same date.
pub fn fill_gaps<V: Copy>(days: &mut Vec<DailyPoint<V>>, other: &Vec<DailyPoint<V>>)
    ensures
        final(days)@.len() == old(days)@.len(),
        forall|i: int| 0 <= i < old(days)@.len() ==> filled_day_ok(old(days)@[i], #[trigger] final(days)@[i], other@),
{
    let ghost start = days@;
    let mut i: usize = 0;
    while i < days.len()
        invariant
            i <= days@.len(),
            days@.len() == start.len(),
            forall|k: int| 0 <= k < i ==> filled_day_ok(start[k], #[trigger] days@[k], other@),
            forall|k: int| i <= k < days@.len() ==> #[trigger] days@[k] == start[k],
        decreases days@.len() - i,
    {
        let date = days[i].date;
        let mut j: usize = 0;
        while j < other.len()
            invariant
                j <= other@.len(),
                forall|k: int| 0 <= k < j ==> (#[trigger] other@[k]).date != date,
            ensures
                j <= other@.len(),
                forall|k: int| 0 <= k < j ==> (#[trigger] other@[k]).date != date,
                j < other@.len() ==> other@[j as int].date == date,
            decreases other@.len() - j,
        {
            if other[j].date == date {
                break;
            }
            j = j + 1;
        }
        if j < other.len() {
            let o_max = other[j].temp_max_c;
            let o_min = other[j].temp_min_c;
            let o_pop = other[j].precipitation_prob_pct;
            let ghost before = days@;
            let nmax = or_else_exec(days[i].temp_max_c, o_max);
            let nmin = or_else_exec(days[i].temp_min_c, o_min);
            let npop = or_else_exec(days[i].precipitation_prob_pct, o_pop);
            days[i].temp_max_c = nmax;
            days[i].temp_min_c = nmin;
            days[i].precipitation_prob_pct = npop;
            proof {
                assert forall|jj: int| first_same_date(other@, start[i as int].date, jj) implies jj == j by {
                    if jj < j {
                    } else if jj > j {
                    }
                }
            }
        }
        i = i + 1;
    }
}

/// Current weather as the panel shows it; `V` is the number type of the
/// readings and `T` the type of the observation time.
#[derive(Debug)]
pub struct CurrentWeather<V, T> {
    pub observed_at: T,
    /// Human-readable condition, e.g. "晴れ".
    pub condition: String,
    pub icon: WeatherIcon,
    pub temperature_c: V,
    pub humidity_pct: Option<V>,
    pub wind_speed_ms: Option<V>,
    /// Wind direction, north 0°, east 90°.
    pub wind_direction_deg: Option<V>,
}

/// Readings of the current weather from Open-Meteo, which JMA does not publish.
pub struct Readings<V, T> {
    pub temperature_c: V,
    pub humidity_pct: Option<V>,
    pub wind_speed_ms: Option<V>,
    pub wind_direction_deg: Option<V>,
    pub observed_at: T,
}

/// Current weather of a Japanese location: the condition and icon come from the
/// JMA overview; temperature, humidity, wind and time from Open-Meteo's readings
/// when they were fetched, else today's forecast temperature with no humidity
/// or wind, at the time the overview was issued.
pub fn merge_current<V, T>(
    condition: String,
    icon: WeatherIcon,
    readings: Option<Readings<V, T>>,
    fallback_temp: V,
    report_at: T,
) -> (r: CurrentWeather<V, T>)
    ensures
        r.condition == condition,
        r.icon == icon,
        readings matches Some(m) ==> {
            &&& r.temperature_c == m.temperature_c
            &&& r.humidity_pct == m.humidity_pct
            &&& r.wind_speed_ms == m.wind_speed_ms
            &&& r.wind_direction_deg == m.wind_direction_deg
            &&& r.observed_at == m.observed_at
        },
        readings is None ==> {
            &&& r.temperature_c == fallback_temp
            &&& r.humidity_pct is None
            &&& r.wind_speed_ms is None
            &&& r.wind_direction_deg is None
            &&& r.observed_at == report_at
        },
{
    match readings {
        Some(m) => CurrentWeather {
            observed_at: m.observed_at,
            condition,
            icon,
            temperature_c: m.temperature_c,
            humidity_pct: m.humidity_pct,
            wind_speed_ms: m.wind_speed_ms,
            wind_direction_deg: m.wind_direction_deg,
        },
        None => CurrentWeather {
            observed_at: report_at,
            condition,
            icon,
            temperature_c: fallback_temp,
            humidity_pct: None,
            wind_speed_ms: None,
            wind_direction_deg: None,
        },
    }
}

} // verus!
