use termrain::i18n::{strings, Language};
use termrain::icon::{jma_weather_code_text, text_to_icon, wmo_to_icon, wmo_to_text, WeatherIcon};
use termrain::jma::{
    fill_gaps, forecast_url, jma_weekly_days, merge_current, needs_gap_fill, overview_condition,
    overview_url, pick_area, CivilDate, DailyPoint, Readings,
};
use termrain::open_meteo::{current_weather, daily_points, hourly_points, CurrentBlock};
use termrain::time::{
    parse_date, parse_jma_compact, parse_local, parse_local_with_offset, parse_rfc3339, time_defines, TimeError,
};

fn day(d: u32, hi: Option<f64>, lo: Option<f64>, pop: Option<f64>) -> DailyPoint<f64> {
    DailyPoint {
        date: CivilDate { year: 2026, month: 6, day: d },
        condition: String::from("晴れ"),
        icon: WeatherIcon::Sunny,
        temp_max_c: hi,
        temp_min_c: lo,
        precipitation_prob_pct: pop,
    }
}

#[test]
fn icon_symbols() {
    assert_eq!(WeatherIcon::Sunny.symbol(), "☀");
    assert_eq!(WeatherIcon::PartlyCloudy.symbol(), "⛅");
    assert_eq!(WeatherIcon::Cloudy.symbol(), "☁");
    assert_eq!(WeatherIcon::Rain.symbol(), "🌧");
    assert_eq!(WeatherIcon::Thunder.symbol(), "⛈");
    assert_eq!(WeatherIcon::Snow.symbol(), "❄");
    assert_eq!(WeatherIcon::Unknown.symbol(), "・");
}

#[test]
fn text_icon_priorities() {
    assert_eq!(text_to_icon("晴れ"), WeatherIcon::Sunny);
    assert_eq!(text_to_icon("曇り"), WeatherIcon::Cloudy);
    assert_eq!(text_to_icon("晴れ時々曇り"), WeatherIcon::PartlyCloudy);
    assert_eq!(text_to_icon("曇り一時雨"), WeatherIcon::Rain);
    assert_eq!(text_to_icon("雨か雪"), WeatherIcon::Snow);
    assert_eq!(text_to_icon("雪で雷を伴う"), WeatherIcon::Thunder);
    assert_eq!(text_to_icon("不明"), WeatherIcon::Unknown);
    assert_eq!(text_to_icon(""), WeatherIcon::Unknown);
}

#[test]
fn wmo_codes() {
    assert_eq!(wmo_to_icon(0), WeatherIcon::Sunny);
    assert_eq!(wmo_to_icon(2), WeatherIcon::PartlyCloudy);
    assert_eq!(wmo_to_icon(45), WeatherIcon::Cloudy);
    assert_eq!(wmo_to_icon(63), WeatherIcon::Rain);
    assert_eq!(wmo_to_icon(81), WeatherIcon::Rain);
    assert_eq!(wmo_to_icon(86), WeatherIcon::Snow);
    assert_eq!(wmo_to_icon(99), WeatherIcon::Thunder);
    assert_eq!(wmo_to_icon(4), WeatherIcon::Unknown);
    assert_eq!(wmo_to_text(0, Language::Japanese), "快晴");
    assert_eq!(wmo_to_text(96, Language::Japanese), "雷雨（雹あり）");
    assert_eq!(wmo_to_text(7, Language::Japanese), "不明");
    assert_eq!(wmo_to_text(7, Language::English), "Unknown");
}

#[test]
fn known_labels_have_icons() {
    for code in ["100", "101", "200", "300", "400", "411"] {
        let label = jma_weather_code_text(code);
        assert_ne!(label, "不明");
        assert_ne!(text_to_icon(label), WeatherIcon::Unknown);
    }
    assert_eq!(jma_weather_code_text("100"), "晴れ");
    assert_eq!(jma_weather_code_text("101"), "晴れ時々曇り");
    assert_eq!(jma_weather_code_text("999"), "不明");
    assert_eq!(jma_weather_code_text(""), "不明");
}

#[test]
fn languages_and_strings() {
    assert_eq!(Language::default(), Language::English);
    assert_eq!(Language::English.api_code(), "en");
    assert_eq!(Language::Japanese.api_code(), "ja");
    assert_eq!(strings(Language::English).radar_title, "Radar");
    assert_eq!(strings(Language::Japanese).radar_title, "雨雲レーダー");
    assert_eq!(strings(Language::Japanese).precip_amount_label, "降水量 (最大 {:.1}mm/h)");
}

#[test]
fn overview_first_line() {
    let (c, icon) = overview_condition("東京地方は晴れています。\n明日は曇り。", "東京都");
    assert_eq!(c, "東京地方は晴れています。");
    assert_eq!(icon, WeatherIcon::Sunny);
    let long: String = "あ".repeat(50);
    let (c, _) = overview_condition(&long, "x");
    assert_eq!(c.chars().count(), 40);
    let (c, icon) = overview_condition("\n後の行", "東京都");
    assert_eq!(c, "東京都");
    assert_eq!(icon, WeatherIcon::Unknown);
    let (c, _) = overview_condition("雨\r\n次", "x");
    assert_eq!(c, "雨");
}

#[test]
fn jma_addresses() {
    assert_eq!(
        overview_url("130000"),
        "https://www.jma.go.jp/bosai/forecast/data/overview_forecast/130000.json"
    );
    assert_eq!(
        forecast_url("270000"),
        "https://www.jma.go.jp/bosai/forecast/data/forecast/270000.json"
    );
}

#[test]
fn area_pick_prefers_office_name() {
    let names = vec![String::from("伊豆諸島北部"), String::from("東京地方"), String::from("東京都心")];
    assert_eq!(pick_area(&names, "東京"), Some(1));
    assert_eq!(pick_area(&names, "大阪"), Some(0));
    assert_eq!(pick_area(&Vec::new(), "東京"), None);
}

#[test]
fn weekly_days_from_codes() {
    let dates = vec![CivilDate { year: 2026, month: 6, day: 9 }, CivilDate { year: 2026, month: 6, day: 10 }];
    let codes = vec![String::from("100"), String::from("300")];
    let pops = vec![None, Some(60.0)];
    let tmax = vec![Some(28.0)];
    let tmin = vec![];
    let days = jma_weekly_days(&dates, &codes, &pops, &tmax, &tmin);
    assert_eq!(days.len(), 2);
    assert_eq!(days[0].condition, "晴れ");
    assert_eq!(days[0].icon, WeatherIcon::Sunny);
    assert_eq!(days[0].temp_max_c, Some(28.0));
    assert_eq!(days[1].temp_max_c, None);
    assert_eq!(days[1].precipitation_prob_pct, Some(60.0));
    assert_eq!(days[1].icon, WeatherIcon::Rain);
    assert!(needs_gap_fill(&days));
}

#[test]
fn gaps_filled_from_same_date() {
    let mut days = vec![day(9, Some(30.0), None, None), day(10, Some(25.0), Some(18.0), Some(10.0))];
    let other = vec![day(10, Some(1.0), Some(2.0), Some(3.0)), day(9, Some(31.0), Some(21.0), Some(40.0))];
    fill_gaps(&mut days, &other);
    assert_eq!(days[0].temp_max_c, Some(30.0));
    assert_eq!(days[0].temp_min_c, Some(21.0));
    assert_eq!(days[0].precipitation_prob_pct, Some(40.0));
    assert_eq!(days[1].temp_min_c, Some(18.0));
    assert_eq!(days[1].precipitation_prob_pct, Some(10.0));
    assert!(!needs_gap_fill(&days));
}

#[test]
fn current_merge_falls_back() {
    let with = merge_current(
        String::from("晴れ"),
        WeatherIcon::Sunny,
        Some(Readings {
            temperature_c: 21.5,
            humidity_pct: Some(60.0),
            wind_speed_ms: Some(3.0),
            wind_direction_deg: None,
            observed_at: 2u32,
        }),
        30.0,
        1u32,
    );
    assert_eq!(with.temperature_c, 21.5);
    assert_eq!(with.observed_at, 2);
    let without = merge_current(String::from("晴れ"), WeatherIcon::Sunny, None::<Readings<f64, u32>>, 30.0, 1u32);
    assert_eq!(without.temperature_c, 30.0);
    assert_eq!(without.humidity_pct, None);
    assert_eq!(without.observed_at, 1);
    assert_eq!(without.condition, "晴れ");
}

#[test]
fn jma_compact_times() {
    let t = parse_jma_compact("20260608070000").unwrap();
    assert_eq!((t.year, t.month, t.day, t.hour, t.minute, t.second), (2026, 6, 8, 7, 0, 0));
    assert_eq!(parse_jma_compact("2026-06-08"), Err(TimeError::Parse));
}

#[test]
fn open_meteo_times() {
    let t = parse_local_with_offset("2026-06-08T18:00", Some(7200)).unwrap();
    assert_eq!((t.civil.year, t.civil.month, t.civil.day, t.civil.hour, t.civil.minute), (2026, 6, 8, 18, 0));
    assert_eq!(t.utc_offset_secs, 7200);
    let u = parse_local("2026-06-08T18:30").unwrap();
    assert!(u.utc_offset_secs.abs() < 86_400);
    assert_eq!((u.civil.hour, u.civil.minute), (18, 30));
    assert_eq!(parse_local("soon"), Err(TimeError::Parse));
    assert_eq!(parse_local_with_offset("2026-06-08T18:00", Some(86_400)), Err(TimeError::InvalidOffset));
    assert_eq!(parse_local_with_offset("18:00", Some(0)), Err(TimeError::Parse));
    let d = parse_date("2026-06-09").unwrap();
    assert_eq!((d.year, d.month, d.day), (2026, 6, 9));
    assert_eq!(parse_date("June 9"), Err(TimeError::Parse));
}

#[test]
fn hourly_from_series() {
    let times = vec![String::from("2026-06-08T18:00"), String::from("2026-06-08T19:00")];
    let temps = vec![20.0, 19.5];
    let precip = vec![0.0, 1.2];
    let probs = Some(vec![Some(10.0)]);
    let pts = hourly_points(&times, Some(32400), &temps, &precip, &probs).unwrap();
    assert_eq!(pts.len(), 2);
    assert_eq!(pts[1].time.civil.hour, 19);
    assert_eq!(pts[1].precipitation_mm, 1.2);
    assert_eq!(pts[0].precipitation_prob_pct, Some(10.0));
    assert_eq!(pts[1].precipitation_prob_pct, None);
    let bad = vec![String::from("2026-06-08T18:00"), String::from("later")];
    assert_eq!(hourly_points(&bad, None, &temps, &precip, &None).err(), Some(TimeError::Parse));
}

#[test]
fn daily_from_series() {
    let dates = vec![String::from("2026-06-09")];
    let codes = vec![61];
    let days = daily_points(&dates, &codes, &vec![Some(24.0)], &vec![Some(17.0)], &None, Language::Japanese).unwrap();
    assert_eq!(days[0].condition, "雨");
    assert_eq!(days[0].icon, WeatherIcon::Rain);
    assert_eq!(days[0].date, CivilDate { year: 2026, month: 6, day: 9 });
    assert_eq!(days[0].precipitation_prob_pct, None);
}

#[test]
fn open_meteo_current() {
    let cur = CurrentBlock {
        time: String::from("2026-06-08T09:15"),
        temperature_2m: 12.5,
        relative_humidity_2m: Some(80.0),
        weather_code: 3,
        wind_speed_10m: None,
        wind_direction_10m: Some(270.0),
    };
    let w = current_weather(cur, Some(3600), Language::English).unwrap();
    assert_eq!(w.condition, "Cloudy");
    assert_eq!(w.icon, WeatherIcon::Cloudy);
    assert_eq!(w.observed_at.civil.minute, 15);
    assert_eq!(w.humidity_pct, Some(80.0));
    let bad = CurrentBlock {
        time: String::from("noon"),
        temperature_2m: 0.0,
        relative_humidity_2m: None,
        weather_code: 0,
        wind_speed_10m: None,
        wind_direction_10m: None,
    };
    assert!(current_weather(bad, None, Language::English).is_err());
}

#[test]
fn rfc3339_times() {
    let t = parse_rfc3339("2026-06-09T00:00:00+09:00").unwrap();
    assert_eq!((t.civil.year, t.civil.month, t.civil.day, t.civil.hour), (2026, 6, 9, 0));
    assert_eq!(t.utc_offset_secs, 32400);
    assert_eq!(parse_rfc3339("2026-06-09"), Err(TimeError::Parse));
    let defs = vec![String::from("2026-06-09T00:00:00+09:00"), String::from("x"), String::from("2026-06-10T00:00:00+09:00")];
    let ts = time_defines(&defs);
    assert_eq!(ts.len(), 2);
    assert_eq!(ts[1].civil.day, 10);
}
