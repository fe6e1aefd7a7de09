//! Weather providers and background map styles.
use vstd::prelude::*;
use crate::text::{decimal, push_decimal};

verus! {

/// Style of the background map under the radar.
#[derive(Debug, Clone, Copy, PartialEq, Eq, Structural)]
pub enum MapStyle {
    /// CARTO Voyager (worldwide).
    CartoVoyager,
    /// GSI standard map (Japan only).
    GsiStd,
    /// GSI seamless aerial photos (Japan only).
    GsiPhoto,
}

/// The style the `m` key switches to: CARTO Voyager, GSI Standard, GSI Aerial, and round.
pub open spec fn next_style(s: MapStyle) -> MapStyle {
    match s {
        MapStyle::CartoVoyager => MapStyle::GsiStd,
        MapStyle::GsiStd => MapStyle::GsiPhoto,
        MapStyle::GsiPhoto => MapStyle::CartoVoyager,
    }
}

/// Key of the style in the configuration file and in tile caches.
pub open spec fn style_key(s: MapStyle) -> &'static str {
    match s {
        MapStyle::CartoVoyager => "carto_voyager",
        MapStyle::GsiStd => "gsi_std",
        MapStyle::GsiPhoto => "gsi_photo",
    }
}

/// Name of the style shown with the radar.
pub open spec fn style_label(s: MapStyle) -> &'static str {
    match s {
        MapStyle::CartoVoyager => "CARTO Voyager",
        MapStyle::GsiStd => "GSI Standard",
        MapStyle::GsiPhoto => "GSI Aerial",
    }
}

/// Short name of the style in the footer.
pub open spec fn style_footer_label(s: MapStyle) -> &'static str {
    match s {
        MapStyle::GsiStd => "標準",
        MapStyle::CartoVoyager => "Carto",
        MapStyle::GsiPhoto => "航空",
    }
}

/// Address prefix and file suffix of the style's tiles.
pub open spec fn style_url_parts(s: MapStyle) -> (&'static str, &'static str) {
    match s {
        MapStyle::CartoVoyager => ("https://a.basemaps.cartocdn.com/rastertiles/voyager/", ".png"),
        MapStyle::GsiStd => ("https://cyberjapandata.gsi.go.jp/xyz/std/", ".png"),
        MapStyle::GsiPhoto => ("https://cyberjapandata.gsi.go.jp/xyz/seamlessphoto/", ".jpg"),
    }
}

impl Default for MapStyle {
    /// CARTO Voyager, the one style that covers the whole world.
    fn default() -> (r: Self)
        ensures
            r == MapStyle::CartoVoyager,
    {
        MapStyle::CartoVoyager
    }
}

impl MapStyle {
    /// The next style in the cycle of the `m` key.
    pub fn next(self) -> (r: MapStyle)
        ensures
            r == next_style(self),
    {
        match self {
            MapStyle::CartoVoyager => MapStyle::GsiStd,
            MapStyle::GsiStd => MapStyle::GsiPhoto,
            MapStyle::GsiPhoto => MapStyle::CartoVoyager,
        }
    }

    /// Key of the style in configuration and tile caches.
    pub fn cache_key(self) -> (r: &'static str)
        ensures
            r == style_key(self),
    {
        match self {
            MapStyle::CartoVoyager => "carto_voyager",
            MapStyle::GsiStd => "gsi_std",
            MapStyle::GsiPhoto => "gsi_photo",
        }
    }

    /// Name of the style shown in the radar panel.
    pub fn label(self) -> (r: &'static str)
        ensures
            r == style_label(self),
    {
        match self {
            MapStyle::CartoVoyager => "CARTO Voyager",
            MapStyle::GsiStd => "GSI Standard",
            MapStyle::GsiPhoto => "GSI Aerial",
        }
    }

    /// Short name of the style in the footer.
    pub fn footer_label(self) -> (r: &'static str)
        ensures
            r == style_footer_label(self),
    {
        match self {
            MapStyle::GsiStd => "標準",
            MapStyle::CartoVoyager => "Carto",
            MapStyle::GsiPhoto => "航空",
        }
    }

    /// Address of tile `(z, x, y)` of this style: `{prefix}{z}/{x}/{y}{suffix}`.
    pub fn tile_url(self, z: u8, x: u32, y: u32) -> (r: String)
        ensures
            r@ == style_url_parts(self).0@ + decimal(z as nat) + "/"@ + decimal(x as nat) + "/"@
                + decimal(y as nat) + style_url_parts(self).1@,
    {
        let (prefix, suffix): (&'static str, &'static str) = match self {
            MapStyle::CartoVoyager => ("https://a.basemaps.cartocdn.com/rastertiles/voyager/", ".png"),
            MapStyle::GsiStd => ("https://cyberjapandata.gsi.go.jp/xyz/std/", ".png"),
            MapStyle::GsiPhoto => ("https://cyberjapandata.gsi.go.jp/xyz/seamlessphoto/", ".jpg"),
        };
        let mut s = String::from_str(prefix);
        push_decimal(&mut s, z as u64);
        s.append("/");
        push_decimal(&mut s, x as u64);
        s.append("/");
        push_decimal(&mut s, y as u64);
        s.append(suffix);
        s
    }
}

/// Pressing `m` three times brings back the style one started from.
pub proof fn lemma_style_cycle(s: MapStyle)
    ensures
        next_style(next_style(next_style(s))) == s,
        next_style(s) != s,
{
}

/// The two weather providers.
#[derive(Debug, Clone, Copy, PartialEq, Eq, Structural)]
pub enum ProviderKind {
    /// Japan Meteorological Agency (forecast office data and the nowcast radar).
    Jma,
    /// Open-Meteo forecasts with RainViewer radar (worldwide).
    OpenMeteo,
}

/// Whether a country code is "JP", ignoring ASCII case.
pub open spec fn is_japan_code(country: Seq<char>) -> bool {
    &&& country.len() == 2
    &&& (country[0] == 'J' || country[0] == 'j')
    &&& (country[1] == 'P' || country[1] == 'p')
}

/// JMA for Japan (or when forced), Open-Meteo everywhere else.
pub open spec fn provider_for(country: Seq<char>, force_jma: bool) -> ProviderKind {
    if force_jma || is_japan_code(country) {
        ProviderKind::Jma
    } else {
        ProviderKind::OpenMeteo
    }
}

/// Picks the provider from the location's ISO country code: JMA for "JP" (any
/// ASCII case) or when forced, Open-Meteo otherwise.
pub fn select_provider(country: &str, force_jma: bool) -> (r: ProviderKind)
    ensures
        r == provider_for(country@, force_jma),
{
    if force_jma {
        return ProviderKind::Jma;
    }
    if country.unicode_len() != 2 {
        return ProviderKind::OpenMeteo;
    }
    let a = country.get_char(0);
    let b = country.get_char(1);
    if (a == 'J' || a == 'j') && (b == 'P' || b == 'p') {
        ProviderKind::Jma
    } else {
        ProviderKind::OpenMeteo
    }
}

/// Name of the provider shown in the header.
pub open spec fn provider_name_spec(p: ProviderKind) -> &'static str {
    match p {
        ProviderKind::Jma => "気象庁 (JMA)",
        ProviderKind::OpenMeteo => "Open-Meteo + RainViewer",
    }
}

/// Radar frames the provider serves, as offsets from the latest, for scrubbing
/// and playback: JMA's 5-minute frames from 30 minutes back to 60 minutes
/// ahead; RainViewer's 10-minute frames of the past two hours.
pub open spec fn offset_range_spec(p: ProviderKind) -> (i32, i32) {
    match p {
        ProviderKind::Jma => (-6i32, 12i32),
        ProviderKind::OpenMeteo => (-12i32, 0i32),
    }
}

impl ProviderKind {
    /// Name of the provider for the status bar.
    pub fn name(self) -> (r: &'static str)
        ensures
            r == provider_name_spec(self),
    {
        match self {
            ProviderKind::Jma => "気象庁 (JMA)",
            ProviderKind::OpenMeteo => "Open-Meteo + RainViewer",
        }
    }

    /// The radar time offsets that playback walks through, first and last.
    pub fn radar_offset_range(self) -> (r: (i32, i32))
        ensures
            r == offset_range_spec(self),
    {
        match self {
            ProviderKind::Jma => (-6, 12),
            ProviderKind::OpenMeteo => (-12, 0),
        }
    }

    /// The map style actually used: Open-Meteo is for places outside Japan, where
    /// the GSI maps have no data, so it falls back to CARTO Voyager.
    pub fn effective_map_style(self, style: MapStyle) -> (r: MapStyle)
        ensures
            r == (match self {
                ProviderKind::Jma => style,
                ProviderKind::OpenMeteo => match style {
                    MapStyle::GsiStd | MapStyle::GsiPhoto => MapStyle::CartoVoyager,
                    s => s,
                },
            }),
    {
        match self {
            ProviderKind::Jma => style,
            ProviderKind::OpenMeteo => match style {
                MapStyle::GsiStd | MapStyle::GsiPhoto => MapStyle::CartoVoyager,
                s => s,
            },
        }
    }
}

/// Whether a point (millionths of a degree) lies in the box taken for Japan when
/// a location is given by coordinates only: latitude strictly between 24° and
/// 46° north, longitude strictly between 122° and 146° east.
pub open spec fn in_japan_box(lat_e6: int, lon_e6: int) -> bool {
    24_000_000 < lat_e6 < 46_000_000 && 122_000_000 < lon_e6 < 146_000_000
}

/// Country code assumed for a location given by coordinates: "JP" inside the
/// Japan box, none outside it.
pub fn country_for_coordinates(lat_e6: i64, lon_e6: i64) -> (r: &'static str)
    ensures
        in_japan_box(lat_e6 as int, lon_e6 as int) ==> r@ == "JP"@,
        !in_japan_box(lat_e6 as int, lon_e6 as int) ==> r@.len() == 0,
{
    if 24_000_000 < lat_e6 && lat_e6 < 46_000_000 && 122_000_000 < lon_e6 && lon_e6 < 146_000_000 {
        "JP"
    } else {
        proof {
            reveal_strlit("");
        }
        ""
    }
}

} // verus!
