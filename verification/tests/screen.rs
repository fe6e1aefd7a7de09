use termrain::controls::{auto_refresh_period, is_loading, Action, Controls, Key, KeyInput};
use termrain::geocoding::{geocoding_url, resolve_hit, GeoCandidate, GeoError};
use termrain::i18n::{parse_language, strings, Language};
use termrain::icon::WeatherIcon;
use termrain::panels::{
    canvas_title, centered_span,
    error_note, footer_text, grid_max, help_entry, hour_label, hourly_take, join_row, label_count,
    label_indices, pad_w, precip_chart, radar_title, relative_time_label, section_title, splash_pad_top,
    top_row_widths, truncate_w, weekly_rows, WeekDayCells,
};
use termrain::provider::{country_for_coordinates, select_provider, MapStyle, ProviderKind};

fn key(c: char) -> KeyInput {
    KeyInput { key: Key::Char(c), ctrl: false, press: true }
}

#[test]
fn padding_by_display_width() {
    assert_eq!(pad_w("東京", 6), "東京  ");
    assert_eq!(pad_w("abc", 5), "abc  ");
    assert_eq!(pad_w("abcdef", 3), "abcdef");
    assert_eq!(pad_w("", 2), "  ");
}

#[test]
fn truncation_by_display_width() {
    assert_eq!(truncate_w("東京タワー", 5), "東京");
    assert_eq!(truncate_w("東京タワー", 6), "東京タ");
    assert_eq!(truncate_w("abc", 0), "");
    assert_eq!(truncate_w("abc", 10), "abc");
}

#[test]
fn weekly_table_rows() {
    let cells = vec![String::from("a"), String::from("東京")];
    assert_eq!(join_row(&cells), format!("a{}│東京{}", " ".repeat(11), " ".repeat(8)));
    assert_eq!(join_row(&Vec::new()), "");
    let day = |d: &str| WeekDayCells {
        date_label: String::from(d),
        icon: WeatherIcon::Rain,
        condition: String::from("曇り時々雨で雷を伴う"),
        high: Some(String::from(" 28")),
        low: None,
        pop: Some(String::from(" 60%")),
    };
    let days: Vec<WeekDayCells> = (1..=9).map(|i| day(&format!("06/0{}(Mon)", i))).collect();
    let rows = weekly_rows(&days);
    assert_eq!(rows.len(), 5);
    assert_eq!(rows[0].matches('│').count(), 6);
    assert!(rows[0].starts_with(" 06/01(Mon) │"));
    assert!(rows[1].starts_with("  🌧"));
    assert!(rows[2].starts_with(" 曇り時々雨 │"));
    assert!(rows[3].starts_with(&format!("  28/  -{}│", " ".repeat(4))));
    assert!(rows[4].starts_with(&format!("  60%{}│", " ".repeat(7))));
    assert!(!rows[0].contains("06/08"));
}

#[test]
fn relative_labels() {
    assert_eq!(relative_time_label(0, Language::Japanese), "現在");
    assert_eq!(relative_time_label(5, Language::Japanese), "+5分");
    assert_eq!(relative_time_label(-10, Language::English), "-10min");
    assert_eq!(relative_time_label(0, Language::English), "now");
}

#[test]
fn radar_titles() {
    assert_eq!(
        radar_title(Language::Japanese, Some("⠋"), "07:10", 10, true, Some(57), MapStyle::GsiStd),
        "⠋ 雨雲レーダー  07:10 (+10分) ▶  max 5.7mm/h  [地図: GSI Standard]"
    );
    assert_eq!(
        radar_title(Language::English, None, "23:55", 0, false, Some(0), MapStyle::CartoVoyager),
        "Radar  23:55 (now)  max 0.0mm/h  [Map: CARTO Voyager]"
    );
    assert_eq!(
        radar_title(Language::English, None, "08:00", -5, false, None, MapStyle::GsiPhoto),
        "Radar  08:00 (-5min)  [Map: GSI Aerial]"
    );
}

#[test]
fn footers() {
    assert_eq!(
        footer_text(true, MapStyle::CartoVoyager),
        "[q]終了 [r]更新 [+/-]ズーム [hjkl]移動 [, .]時刻 [p]▶ 再生 [m]地図:Carto"
    );
    assert_eq!(
        footer_text(false, MapStyle::GsiPhoto),
        "[q]終了 [r]更新 [+/-]ズーム [hjkl]移動 [, .]時刻 [p]再生 [m]地図:航空"
    );
    assert_eq!(error_note("timeout"), "⚠ timeout");
}

#[test]
fn top_row_layout() {
    assert_eq!(top_row_widths(120, 60), (28, 60, 32));
    assert_eq!(top_row_widths(80, 60), (28, 34, 18));
    assert_eq!(top_row_widths(30, 10), (28, 0, 2));
    assert_eq!(top_row_widths(20, 10), (28, 0, 0));
}

#[test]
fn hourly_chart_geometry() {
    assert_eq!(hourly_take(100), 48);
    assert_eq!(hourly_take(10), 8);
    assert_eq!(hourly_take(30), 26);
    assert_eq!(label_count(100), 6);
    assert_eq!(label_count(40), 3);
    assert_eq!(label_count(60), 5);
    assert_eq!(label_indices(48, 6), vec![0, 9, 18, 28, 37, 47]);
    assert_eq!(label_indices(1, 3), vec![0, 0, 0]);
    assert_eq!(hour_label(9, Language::Japanese), "09時");
    assert_eq!(hour_label(18, Language::English), "18:00");
}

#[test]
fn precipitation_bars() {
    let (bars, label) = precip_chart(&vec![0, 5, 20], &vec![None, None, None], Language::Japanese);
    assert_eq!(bars, " ▃█");
    assert_eq!(label, "降水量 (最大 2.0mm/h)");
    let (bars, label) = precip_chart(&vec![3, 0], &vec![None, None], Language::English);
    assert_eq!(bars, "▃ ");
    assert_eq!(label, "Precipitation (max 1.0 mm/h)");
    let (bars, label) = precip_chart(&vec![0, 0, 0], &vec![Some(30), None, Some(100)], Language::Japanese);
    assert_eq!(bars, "▃ █");
    assert_eq!(label, strings(Language::Japanese).precip_prob_label);
    let (bars, label) = precip_chart(&vec![0, 0], &vec![Some(0), None], Language::English);
    assert_eq!(bars, "  ");
    assert_eq!(label, "No precipitation data");
}

#[test]
fn grid_maximum() {
    assert_eq!(grid_max(&vec![vec![1, 5], vec![3]]), 5);
    assert_eq!(grid_max(&Vec::new()), 0);
}

#[test]
fn help_lines() {
    assert_eq!(help_entry("q / Esc", "Quit"), "    q / Esc       Quit");
    assert_eq!(help_entry("a-very-long-key!", "x"), "    a-very-long-key!x");
    assert_eq!(section_title("Keys"), " ▶ Keys");
    assert_eq!(splash_pad_top(30, 10), 10);
    assert_eq!(splash_pad_top(5, 10), 0);
}

#[test]
fn keys_drive_state() {
    let mut c = Controls::new(11, MapStyle::CartoVoyager, (-6, 12));
    assert!(c.splash_active);
    assert_eq!(c.handle_key(key('+')), (true, Action::FetchRadar));
    c.handle_key(key('+'));
    c.handle_key(key('+'));
    assert_eq!(c.zoom, 13);
    for _ in 0..10 {
        c.handle_key(key('-'));
    }
    assert_eq!(c.zoom, 6);
    for _ in 0..25 {
        c.handle_key(key(','));
    }
    assert_eq!(c.radar_time_offset, -6);
    for _ in 0..25 {
        c.handle_key(key('.'));
    }
    assert_eq!(c.radar_time_offset, 12);
    assert_eq!(c.handle_key(key('h')), (true, Action::Shift { east: -1, north: 0 }));
    assert_eq!(c.handle_key(key('k')), (true, Action::Shift { east: 0, north: 1 }));
    assert_eq!(c.handle_key(key('m')), (true, Action::ApplyMapStyle));
    assert_eq!(c.map_style, MapStyle::GsiStd);
    assert_eq!(c.handle_key(key('x')), (false, Action::Nothing));
    assert_eq!(c.handle_key(key('r')), (true, Action::FetchAll));
    assert_eq!(c.radar_time_offset, 0);
    let release = KeyInput { key: Key::Char('q'), ctrl: false, press: false };
    assert_eq!(c.handle_key(release), (false, Action::Nothing));
    assert!(!c.quit);
    c.handle_key(KeyInput { key: Key::Char('c'), ctrl: true, press: true });
    assert!(c.quit);
}

#[test]
fn help_closes_on_any_key() {
    let mut c = Controls::new(11, MapStyle::CartoVoyager, (-6, 12));
    c.handle_key(key('?'));
    assert!(c.show_help);
    assert_eq!(c.handle_key(key('+')), (true, Action::Nothing));
    assert!(!c.show_help);
    assert_eq!(c.zoom, 11);
    c.handle_key(key('?'));
    c.handle_key(KeyInput { key: Key::Esc, ctrl: false, press: true });
    assert!(c.quit);
    assert!(c.show_help);
}

#[test]
fn scrub_round_trip_and_play() {
    let mut c = Controls::new(11, MapStyle::GsiStd, (-6, 12));
    c.handle_key(key(','));
    assert_eq!(c.radar_time_offset, -1);
    c.handle_key(key('.'));
    assert_eq!(c.radar_time_offset, 0);
    c.handle_key(key('p'));
    assert!(c.radar_playing);
    c.radar_time_offset = 12;
    assert_eq!(c.animation_tick(), Action::FetchRadar);
    assert_eq!(c.radar_time_offset, -6);
    c.handle_key(key('p'));
    assert_eq!(c.animation_tick(), Action::Nothing);
    assert_eq!(c.radar_time_offset, -6);
    let mut om = Controls::new(11, MapStyle::CartoVoyager, ProviderKind::OpenMeteo.radar_offset_range());
    om.handle_key(key('.'));
    assert_eq!(om.radar_time_offset, 0);
    for _ in 0..20 {
        om.handle_key(key(','));
    }
    assert_eq!(om.radar_time_offset, -12);
    om.handle_key(key('r'));
    assert_eq!(om.radar_time_offset, 0);
}

#[test]
fn spinner_and_status() {
    let mut c = Controls::new(11, MapStyle::CartoVoyager, (-6, 12));
    assert_eq!(c.spinner(), "⠋");
    assert!(c.spinner_tick(false));
    assert_eq!(c.spinner(), "⠙");
    c.dismiss_splash();
    assert!(!c.spinner_tick(false));
    assert!(c.spinner_tick(true));
    c.record_error(String::from("boom"));
    assert_eq!(c.last_error.as_deref(), Some("boom"));
    c.handle_key(key('r'));
    assert_eq!(c.last_error, None);
    assert!(is_loading(true, false, 3, 7));
    assert!(!is_loading(true, true, 3, 7));
    assert!(is_loading(true, true, 0, 7));
}

#[test]
fn providers_and_styles() {
    assert_eq!(select_provider("JP", false), ProviderKind::Jma);
    assert_eq!(select_provider("jp", false), ProviderKind::Jma);
    assert_eq!(select_provider("FR", false), ProviderKind::OpenMeteo);
    assert_eq!(select_provider("", false), ProviderKind::OpenMeteo);
    assert_eq!(select_provider("FR", true), ProviderKind::Jma);
    assert_eq!(ProviderKind::Jma.name(), "気象庁 (JMA)");
    assert_eq!(ProviderKind::OpenMeteo.name(), "Open-Meteo + RainViewer");
    assert_eq!(ProviderKind::Jma.radar_offset_range(), (-6, 12));
    assert_eq!(ProviderKind::OpenMeteo.radar_offset_range(), (-12, 0));
    assert_eq!(ProviderKind::OpenMeteo.effective_map_style(MapStyle::GsiPhoto), MapStyle::CartoVoyager);
    assert_eq!(ProviderKind::Jma.effective_map_style(MapStyle::GsiPhoto), MapStyle::GsiPhoto);
    let s = MapStyle::CartoVoyager;
    assert_eq!(s.next(), MapStyle::GsiStd);
    assert_eq!(s.next().next().next(), s);
    assert_eq!(MapStyle::GsiStd.cache_key(), "gsi_std");
    assert_eq!(
        MapStyle::GsiPhoto.tile_url(12, 3638, 1613),
        "https://cyberjapandata.gsi.go.jp/xyz/seamlessphoto/12/3638/1613.jpg"
    );
    assert_eq!(
        MapStyle::CartoVoyager.tile_url(3, 1, 2),
        "https://a.basemaps.cartocdn.com/rastertiles/voyager/3/1/2.png"
    );
}

#[test]
fn geocoding_addresses() {
    assert_eq!(
        geocoding_url("東京"),
        "https://geocoding-api.open-meteo.com/v1/search?name=%E6%9D%B1%E4%BA%AC&count=1&language=ja"
    );
    assert_eq!(
        geocoding_url("New York-1_a.b~"),
        "https://geocoding-api.open-meteo.com/v1/search?name=New%20York-1_a.b~&count=1&language=ja"
    );
    assert_eq!(
        geocoding_url("a&b=c #d"),
        "https://geocoding-api.open-meteo.com/v1/search?name=a%26b%3Dc%20%23d&count=1&language=ja"
    );
}

#[test]
fn geocoding_results() {
    let cand = |n: &str, cc: Option<&str>| GeoCandidate {
        name: String::from(n),
        latitude: 35.0,
        longitude: 135.0,
        country_code: cc.map(String::from),
    };
    let hit = resolve_hit(Some(vec![cand("A", Some("FR")), cand("Osaka", Some("JP"))])).unwrap();
    assert_eq!(hit.name, "Osaka");
    assert_eq!(hit.country, "JP");
    assert_eq!(hit.latitude, 35.0);
    let bare = resolve_hit(Some(vec![cand("Nowhere", None)])).unwrap();
    assert_eq!(bare.country, "");
    assert_eq!(resolve_hit::<f64>(None).err(), Some(GeoError::NotFound));
    assert_eq!(resolve_hit::<f64>(Some(Vec::new())).err(), Some(GeoError::NotFound));
}

#[test]
fn language_names() {
    assert_eq!(parse_language("en"), Some(Language::English));
    assert_eq!(parse_language("english"), Some(Language::English));
    assert_eq!(parse_language("ja"), Some(Language::Japanese));
    assert_eq!(parse_language("japanese"), Some(Language::Japanese));
    assert_eq!(parse_language("fr"), None);
}

#[test]
fn coordinates_in_japan() {
    assert_eq!(country_for_coordinates(34_826_500, 135_471_700), "JP");
    assert_eq!(country_for_coordinates(48_856_600, 2_352_200), "");
    assert_eq!(country_for_coordinates(24_000_000, 135_000_000), "");
    assert_eq!(country_for_coordinates(24_000_001, 122_000_001), "JP");
}

#[test]
fn centred_boxes() {
    assert_eq!(centered_span(100, 70), (15, 70));
    assert_eq!(centered_span(41, 24), (8, 24));
    assert_eq!(centered_span(20, 24), (0, 20));
}

#[test]
fn canvas_titles_and_refresh() {
    assert_eq!(canvas_title(Language::Japanese, "06/08 16:10", Some(123)), "雨雲レーダー  06/08 16:10  max 12.3mm/h");
    assert_eq!(canvas_title(Language::English, "06/08 16:10", None), "Radar  06/08 16:10");
    assert_eq!(auto_refresh_period(0), None);
    assert_eq!(auto_refresh_period(600), Some(600));
}
