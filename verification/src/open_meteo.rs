//! Open-Meteo forecast responses turned into hourly and daily forecasts.
//!
//! Temperatures, amounts and probabilities are carried as Open-Meteo gave them
//! (`V` is their number type); the library decides which value goes where.
use vstd::prelude::*;
use crate::i18n::Language;
use crate::icon::{wmo_icon, wmo_label, wmo_to_icon, wmo_to_text, WeatherIcon};
use crate::jma::{CivilDate, CurrentWeather, DailyPoint};
use crate::time::{
    local_with_offset, naive_date_parse, open_meteo_date_format, parse_date, parse_local_with_offset,
    TimeError, ZonedTime,
};

verus! {

/// One hour of the hourly forecast.
pub struct HourlyPoint<V> {
    pub time: ZonedTime,
    pub temperature_c: V,
    pub precipitation_mm: V,
    pub precipitation_prob_pct: Option<V>,
}

/// `s[i]` of an optional series, when the series and the value are present.
pub open spec fn opt_series_at<V>(s: Option<Seq<Option<V>>>, i: int) -> Option<V> {
    match s {
        Some(v) => if 0 <= i < v.len() {
            v[i]
        } else {
            None
        },
        None => None,
    }
}

fn opt_series_at_exec<V: Copy>(s: &Option<Vec<Option<V>>>, i: usize) -> (r: Option<V>)
    ensures
        r == opt_series_at(
            match s {
                Some(v) => Some(v@),
                None => None,
            },
            i as int,
        ),
{
    match s {
        Some(v) => if i < v.len() {
            v[i]
        } else {
            None
        },
        None => None,
    }
}

/// The view of an optional series.
pub open spec fn opt_view<V>(s: Option<Vec<Option<V>>>) -> Option<Seq<Option<V>>> {
    match s {
        Some(v) => Some(v@),
        None => None,
    }
}

/// Index of the first time that cannot be read, if any.
pub open spec fn first_bad_time(times: Seq<String>, offset: Option<i32>, k: int) -> bool {
    &&& 0 <= k < times.len()
    &&& local_with_offset(times[k]@, offset) is Err
    &&& forall|j: int| 0 <= j < k ==> #[trigger] local_with_offset(times[j]@, offset) is Ok
}

/// Builds the hourly forecast: hour `i` has the `i`-th time (read in the
/// location's UTC offset), temperature, amount and, when given, probability of
/// precipitation. The first unreadable time fails the whole forecast.
pub fn hourly_points<V: Copy>(
    times: &Vec<String>,
    offset: Option<i32>,
    temps: &Vec<V>,
    precip: &Vec<V>,
    probs: &Option<Vec<Option<V>>>,
) -> (r: Result<Vec<HourlyPoint<V>>, TimeError>)
    requires
        temps@.len() >= times@.len(),
        precip@.len() >= times@.len(),
    ensures
        r is Ok <==> forall|i: int| 0 <= i < times@.len() ==> #[trigger] local_with_offset(times@[i]@, offset) is Ok,
        r matches Err(e) ==> exists|k: int| first_bad_time(times@, offset, k) && local_with_offset(times@[k]@, offset) == Err::<ZonedTime, TimeError>(e),
        r matches Ok(out) ==> out@.len() == times@.len() && forall|i: int| 0 <= i < times@.len() ==> {
            &&& Ok::<ZonedTime, TimeError>((#[trigger] out@[i]).time) == local_with_offset(times@[i]@, offset)
            &&& out@[i].temperature_c == temps@[i]
            &&& out@[i].precipitation_mm == precip@[i]
            &&& out@[i].precipitation_prob_pct == opt_series_at(opt_view(*probs), i)
        },
{
    let mut out: Vec<HourlyPoint<V>> = Vec::new();
    let mut i: usize = 0;
    while i < times.len()
        invariant
            i <= times@.len(),
            temps@.len() >= times@.len(),
            precip@.len() >= times@.len(),
            out@.len() == i,
            forall|j: int| 0 <= j < i ==> #[trigger] local_with_offset(times@[j]@, offset) is Ok,
            forall|j: int| 0 <= j < i ==> {
                &&& Ok::<ZonedTime, TimeError>((#[trigger] out@[j]).time) == local_with_offset(times@[j]@, offset)
                &&& out@[j].temperature_c == temps@[j]
                &&& out@[j].precipitation_mm == precip@[j]
                &&& out@[j].precipitation_prob_pct == opt_series_at(opt_view(*probs), j)
            },
        decreases times@.len() - i,
    {
        let t = match parse_local_with_offset(times[i].as_str(), offset) {
            Ok(t) => t,
            Err(e) => {
                assert(first_bad_time(times@, offset, i as int));
                return Err(e);
            },
        };
        out.push(HourlyPoint {
            time: t,
            temperature_c: temps[i],
            precipitation_mm: precip[i],
            precipitation_prob_pct: opt_series_at_exec(probs, i),
        });
        i = i + 1;
    }
    Ok(out)
}

/// Index of the first date that cannot be read.
pub open spec fn first_bad_date(dates: Seq<String>, k: int) -> bool {
    &&& 0 <= k < dates.len()
    &&& naive_date_parse(dates[k]@, open_meteo_date_format()) is None
    &&& forall|j: int| 0 <= j < k ==> #[trigger] naive_date_parse(dates[j]@, open_meteo_date_format()) is Some
}

/// Builds the daily forecast: day `i` has the `i`-th date, the label and icon of
/// its WMO weather code, its high and low and, when given, its maximal
/// probability of precipitation. The first unreadable date fails the forecast.
pub fn daily_points<V: Copy>(
    dates: &Vec<String>,
    codes: &Vec<u32>,
    tmax: &Vec<Option<V>>,
    tmin: &Vec<Option<V>>,
    probs: &Option<Vec<Option<V>>>,
    lang: Language,
) -> (r: Result<Vec<DailyPoint<V>>, TimeError>)
    requires
        codes@.len() >= dates@.len(),
        tmax@.len() >= dates@.len(),
        tmin@.len() >= dates@.len(),
    ensures
        r is Ok <==> forall|i: int| 0 <= i < dates@.len() ==> #[trigger] naive_date_parse(dates@[i]@, open_meteo_date_format()) is Some,
        r matches Err(e) ==> e == TimeError::Parse && exists|k: int| first_bad_date(dates@, k),
        r matches Ok(out) ==> out@.len() == dates@.len() && forall|i: int| 0 <= i < dates@.len() ==> {
            &&& Some((#[trigger] out@[i]).date) == naive_date_parse(dates@[i]@, open_meteo_date_format())
            &&& out@[i].condition@ == wmo_label(codes@[i], lang)@
            &&& out@[i].icon == wmo_icon(codes@[i])
            &&& out@[i].temp_max_c == tmax@[i]
            &&& out@[i].temp_min_c == tmin@[i]
            &&& out@[i].precipitation_prob_pct == opt_series_at(opt_view(*probs), i)
        },
{
    let mut out: Vec<DailyPoint<V>> = Vec::new();
    let mut i: usize = 0;
    while i < dates.len()
        invariant
            i <= dates@.len(),
            codes@.len() >= dates@.len(),
            tmax@.len() >= dates@.len(),
            tmin@.len() >= dates@.len(),
            out@.len() == i,
            forall|j: int| 0 <= j < i ==> #[trigger] naive_date_parse(dates@[j]@, open_meteo_date_format()) is Some,
            forall|j: int| 0 <= j < i ==> {
                &&& Some((#[trigger] out@[j]).date) == naive_date_parse(dates@[j]@, open_meteo_date_format())
                &&& out@[j].condition@ == wmo_label(codes@[j], lang)@
                &&& out@[j].icon == wmo_icon(codes@[j])
                &&& out@[j].temp_max_c == tmax@[j]
                &&& out@[j].temp_min_c == tmin@[j]
                &&& out@[j].precipitation_prob_pct == opt_series_at(opt_view(*probs), j)
            },
        decreases dates@.len() - i,
    {
        let date = match parse_date(dates[i].as_str()) {
            Ok(d) => d,
            Err(e) => {
                assert(first_bad_date(dates@, i as int));
                return Err(e);
            },
        };
        let code = codes[i];
        out.push(DailyPoint {
            date,
            condition: String::from_str(wmo_to_text(code, lang)),
            icon: wmo_to_icon(code),
            temp_max_c: tmax[i],
            temp_min_c: tmin[i],
            precipitation_prob_pct: opt_series_at_exec(probs, i),
        });
        i = i + 1;
    }
    Ok(out)
}

/// The `current` block of an Open-Meteo response.
pub struct CurrentBlock<V> {
    pub time: String,
    pub temperature_2m: V,
    pub relative_humidity_2m: Option<V>,
    pub weather_code: u32,
    pub wind_speed_10m: Option<V>,
    pub wind_direction_10m: Option<V>,
}

/// Current weather from Open-Meteo: the time read in the location's UTC offset,
/// the WMO code's text in the chosen language and its icon, and the readings as
/// given. An unreadable time fails it.
pub fn current_weather<V>(cur: CurrentBlock<V>, offset: Option<i32>, lang: Language)
    -> (r: Result<CurrentWeather<V, ZonedTime>, TimeError>)
    ensures
        r is Err <==> local_with_offset(cur.time@, offset) is Err,
        r matches Ok(w) ==> {
            &&& local_with_offset(cur.time@, offset) == Ok::<ZonedTime, TimeError>(w.observed_at)
            &&& w.condition@ == wmo_label(cur.weather_code, lang)@
            &&& w.icon == wmo_icon(cur.weather_code)
            &&& w.temperature_c == cur.temperature_2m
            &&& w.humidity_pct == cur.relative_humidity_2m
            &&& w.wind_speed_ms == cur.wind_speed_10m
            &&& w.wind_direction_deg == cur.wind_direction_10m
        },
{
    let observed_at = match parse_local_with_offset(cur.time.as_str(), offset) {
        Ok(t) => t,
        Err(e) => return Err(e),
    };
    Ok(CurrentWeather {
        observed_at,
        condition: String::from_str(wmo_to_text(cur.weather_code, lang)),
        icon: wmo_to_icon(cur.weather_code),
        temperature_c: cur.temperature_2m,
        humidity_pct: cur.relative_humidity_2m,
        wind_speed_ms: cur.wind_speed_10m,
        wind_direction_deg: cur.wind_direction_10m,
    })
}

} // verus!
