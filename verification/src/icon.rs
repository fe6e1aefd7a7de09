//! Weather-condition classification: icons, WMO codes and JMA weather codes.
use vstd::prelude::*;
use crate::i18n::Language;
use crate::text::{has_char, str_eq};

verus! {

/// Coarse weather category, used to pick an icon in the UI.
#[derive(Debug, Clone, Copy, PartialEq, Eq, Structural)]
pub enum WeatherIcon {
    Sunny,
    PartlyCloudy,
    Cloudy,
    Rain,
    Thunder,
    Snow,
    Unknown,
}

/// The emoji shown for each category.
pub open spec fn icon_symbol(icon: WeatherIcon) -> &'static str {
    match icon {
        WeatherIcon::Sunny => "☀",
        WeatherIcon::PartlyCloudy => "⛅",
        WeatherIcon::Cloudy => "☁",
        WeatherIcon::Rain => "🌧",
        WeatherIcon::Thunder => "⛈",
        WeatherIcon::Snow => "❄",
        WeatherIcon::Unknown => "・",
    }
}

impl WeatherIcon {
    /// The emoji for this category (one or two terminal cells).
    pub fn symbol(self) -> (r: &'static str)
        ensures
            r == icon_symbol(self),
    {
        match self {
            WeatherIcon::Sunny => "☀",
            WeatherIcon::PartlyCloudy => "⛅",
            WeatherIcon::Cloudy => "☁",
            WeatherIcon::Rain => "🌧",
            WeatherIcon::Thunder => "⛈",
            WeatherIcon::Snow => "❄",
            WeatherIcon::Unknown => "・",
        }
    }
}

/// Classification of a Japanese forecast text by the key characters it holds;
/// thunder wins over snow, snow over rain, and "cloudy and sunny" is partly cloudy.
pub open spec fn icon_for_text(t: Seq<char>) -> WeatherIcon {
    if t.contains('雷') {
        WeatherIcon::Thunder
    } else if t.contains('雪') {
        WeatherIcon::Snow
    } else if t.contains('雨') {
        WeatherIcon::Rain
    } else if t.contains('曇') && t.contains('晴') {
        WeatherIcon::PartlyCloudy
    } else if t.contains('曇') {
        WeatherIcon::Cloudy
    } else if t.contains('晴') {
        WeatherIcon::Sunny
    } else {
        WeatherIcon::Unknown
    }
}

/// Classifies a Japanese weather text (as written by JMA) into an icon.
pub fn text_to_icon(s: &str) -> (r: WeatherIcon)
    ensures
        r == icon_for_text(s@),
{
    if has_char(s, '雷') {
        WeatherIcon::Thunder
    } else if has_char(s, '雪') {
        WeatherIcon::Snow
    } else if has_char(s, '雨') {
        WeatherIcon::Rain
    } else if has_char(s, '曇') && has_char(s, '晴') {
        WeatherIcon::PartlyCloudy
    } else if has_char(s, '曇') {
        WeatherIcon::Cloudy
    } else if has_char(s, '晴') {
        WeatherIcon::Sunny
    } else {
        WeatherIcon::Unknown
    }
}

/// Icon for a WMO weather-interpretation code (as returned by Open-Meteo).
pub open spec fn wmo_icon(code: u32) -> WeatherIcon {
    if code == 0 {
        WeatherIcon::Sunny
    } else if 1 <= code <= 2 {
        WeatherIcon::PartlyCloudy
    } else if code == 3 || code == 45 || code == 48 {
        WeatherIcon::Cloudy
    } else if (51 <= code <= 67) || (80 <= code <= 82) {
        WeatherIcon::Rain
    } else if (71 <= code <= 77) || code == 85 || code == 86 {
        WeatherIcon::Snow
    } else if 95 <= code <= 99 {
        WeatherIcon::Thunder
    } else {
        WeatherIcon::Unknown
    }
}

/// Maps a WMO weather code to an icon; fog counts as cloudy.
pub fn wmo_to_icon(code: u32) -> (r: WeatherIcon)
    ensures
        r == wmo_icon(code),
{
    match code {
        0 => WeatherIcon::Sunny,
        1..=2 => WeatherIcon::PartlyCloudy,
        3 => WeatherIcon::Cloudy,
        45 | 48 => WeatherIcon::Cloudy,
        51..=67 | 80..=82 => WeatherIcon::Rain,
        71..=77 | 85 | 86 => WeatherIcon::Snow,
        95..=99 => WeatherIcon::Thunder,
        _ => WeatherIcon::Unknown,
    }
}

/// The label of a WMO weather code in the given language.
pub open spec fn wmo_label(code: u32, lang: Language) -> &'static str {
    match lang {
        Language::Japanese => {
            if code == 0 { "快晴" }
            else if code == 1 { "晴れ" }
            else if code == 2 { "晴れ時々曇り" }
            else if code == 3 { "曇り" }
            else if code == 45 || code == 48 { "霧" }
            else if code == 51 || code == 53 || code == 55 { "霧雨" }
            else if code == 61 || code == 63 || code == 65 { "雨" }
            else if code == 66 || code == 67 { "凍雨" }
            else if code == 71 || code == 73 || code == 75 { "雪" }
            else if code == 77 { "霧雪" }
            else if code == 80 || code == 81 || code == 82 { "にわか雨" }
            else if code == 85 || code == 86 { "にわか雪" }
            else if code == 95 { "雷雨" }
            else if code == 96 || code == 99 { "雷雨（雹あり）" }
            else { "不明" }
        },
        Language::English => {
            if code == 0 { "Clear" }
            else if code == 1 { "Mostly clear" }
            else if code == 2 { "Partly cloudy" }
            else if code == 3 { "Cloudy" }
            else if code == 45 || code == 48 { "Fog" }
            else if code == 51 || code == 53 || code == 55 { "Drizzle" }
            else if code == 61 || code == 63 || code == 65 { "Rain" }
            else if code == 66 || code == 67 { "Freezing rain" }
            else if code == 71 || code == 73 || code == 75 { "Snow" }
            else if code == 77 { "Snow grains" }
            else if code == 80 || code == 81 || code == 82 { "Showers" }
            else if code == 85 || code == 86 { "Snow showers" }
            else if code == 95 { "Thunderstorm" }
            else if code == 96 || code == 99 { "Thunderstorm w/ hail" }
            else { "Unknown" }
        },
    }
}

/// The label shown for codes the table does not know.
pub open spec fn unknown_label(lang: Language) -> &'static str {
    match lang {
        Language::Japanese => "不明",
        Language::English => "Unknown",
    }
}

/// Human-readable text for a WMO weather code.
pub fn wmo_to_text(code: u32, lang: Language) -> (r: &'static str)
    ensures
        r == wmo_label(code, lang),
{
    match lang {
        Language::Japanese => match code {
            0 => "快晴",
            1 => "晴れ",
            2 => "晴れ時々曇り",
            3 => "曇り",
            45 | 48 => "霧",
            51 | 53 | 55 => "霧雨",
            61 | 63 | 65 => "雨",
            66 | 67 => "凍雨",
            71 | 73 | 75 => "雪",
            77 => "霧雪",
            80 | 81 | 82 => "にわか雨",
            85 | 86 => "にわか雪",
            95 => "雷雨",
            96 | 99 => "雷雨（雹あり）",
            _ => "不明",
        },
        Language::English => match code {
            0 => "Clear",
            1 => "Mostly clear",
            2 => "Partly cloudy",
            3 => "Cloudy",
            45 | 48 => "Fog",
            51 | 53 | 55 => "Drizzle",
            61 | 63 | 65 => "Rain",
            66 | 67 => "Freezing rain",
            71 | 73 | 75 => "Snow",
            77 => "Snow grains",
            80 | 81 | 82 => "Showers",
            85 | 86 => "Snow showers",
            95 => "Thunderstorm",
            96 | 99 => "Thunderstorm w/ hail",
            _ => "Unknown",
        },
    }
}

/// JMA weather-code table: a coarse Japanese label for each known code.
pub open spec fn jma_code_label(code: Seq<char>) -> &'static str {
    if code == "100"@ {
        "晴れ"
    } else if code == "101"@ {
        "晴れ時々曇り"
    } else if code == "102"@ {
        "晴れ一時雨"
    } else if code == "110"@ {
        "晴れのち曇り"
    } else if code == "111"@ {
        "晴れのち曇り"
    } else if code == "112"@ {
        "晴れのち雨"
    } else if code == "113"@ {
        "晴れのち雨"
    } else if code == "200"@ {
        "曇り"
    } else if code == "201"@ {
        "曇り時々晴れ"
    } else if code == "202"@ {
        "曇り一時雨"
    } else if code == "203"@ {
        "曇り時々雨"
    } else if code == "210"@ {
        "曇りのち晴れ"
    } else if code == "212"@ {
        "曇りのち雨"
    } else if code == "300"@ {
        "雨"
    } else if code == "301"@ {
        "雨時々晴れ"
    } else if code == "302"@ {
        "雨時々止む"
    } else if code == "303"@ {
        "雨時々雪"
    } else if code == "308"@ {
        "大雨"
    } else if code == "311"@ {
        "雨のち晴れ"
    } else if code == "313"@ {
        "雨のち曇り"
    } else if code == "400"@ {
        "雪"
    } else if code == "401"@ {
        "雪時々晴れ"
    } else if code == "402"@ {
        "雪時々止む"
    } else if code == "403"@ {
        "雪時々雨"
    } else if code == "411"@ {
        "雪のち晴れ"
    } else {
        "不明"
    }
}

/// Looks up the coarse Japanese label of a JMA weather code; unknown codes read "不明".
pub fn jma_weather_code_text(code: &str) -> (r: &'static str)
    ensures
        r == jma_code_label(code@),
{
    if str_eq(code, "100") {
        "晴れ"
    } else if str_eq(code, "101") {
        "晴れ時々曇り"
    } else if str_eq(code, "102") {
        "晴れ一時雨"
    } else if str_eq(code, "110") {
        "晴れのち曇り"
    } else if str_eq(code, "111") {
        "晴れのち曇り"
    } else if str_eq(code, "112") {
        "晴れのち雨"
    } else if str_eq(code, "113") {
        "晴れのち雨"
    } else if str_eq(code, "200") {
        "曇り"
    } else if str_eq(code, "201") {
        "曇り時々晴れ"
    } else if str_eq(code, "202") {
        "曇り一時雨"
    } else if str_eq(code, "203") {
        "曇り時々雨"
    } else if str_eq(code, "210") {
        "曇りのち晴れ"
    } else if str_eq(code, "212") {
        "曇りのち雨"
    } else if str_eq(code, "300") {
        "雨"
    } else if str_eq(code, "301") {
        "雨時々晴れ"
    } else if str_eq(code, "302") {
        "雨時々止む"
    } else if str_eq(code, "303") {
        "雨時々雪"
    } else if str_eq(code, "308") {
        "大雨"
    } else if str_eq(code, "311") {
        "雨のち晴れ"
    } else if str_eq(code, "313") {
        "雨のち曇り"
    } else if str_eq(code, "400") {
        "雪"
    } else if str_eq(code, "401") {
        "雪時々晴れ"
    } else if str_eq(code, "402") {
        "雪時々止む"
    } else if str_eq(code, "403") {
        "雪時々雨"
    } else if str_eq(code, "411") {
        "雪のち晴れ"
    } else {
        "不明"
    }
}

/// Every WMO code that has a known label also has a known icon: the text table
/// never names a condition that the icon table leaves unclassified.
pub proof fn lemma_known_label_has_icon(code: u32, lang: Language)
    ensures
        wmo_label(code, lang) != unknown_label(lang) ==> wmo_icon(code) != WeatherIcon::Unknown,
{
}

/// The hundreds digit of a JMA weather code names the leading weather, and the
/// label says so: 1xx labels begin with sunny, 2xx with cloudy (never shown as
/// sunny), 4xx with snow, and 3xx are rainy; a tens digit of 1 ("x1x") is a
/// change later in the day ("のち"). Every known code has three digits.
pub proof fn lemma_jma_code_leading_weather(code: Seq<char>)
    requires
        jma_code_label(code)@ != "不明"@,
    ensures
        code.len() == 3,
        code[0] == '1' || code[0] == '2' || code[0] == '3' || code[0] == '4',
        code[0] == '1' ==> jma_code_label(code)@[0] == '晴',
        code[0] == '2' ==> jma_code_label(code)@[0] == '曇'
            && icon_for_text(jma_code_label(code)@) != WeatherIcon::Sunny,
        code[0] == '3' ==> jma_code_label(code)@.contains('雨'),
        code[0] == '4' ==> jma_code_label(code)@[0] == '雪',
        code[1] == '1' ==> jma_code_label(code)@.contains('の'),
{
        reveal_strlit("100");
        reveal_strlit("101");
        reveal_strlit("102");
        reveal_strlit("110");
        reveal_strlit("111");
        reveal_strlit("112");
        reveal_strlit("113");
        reveal_strlit("200");
        reveal_strlit("201");
        reveal_strlit("202");
        reveal_strlit("203");
        reveal_strlit("210");
        reveal_strlit("212");
        reveal_strlit("300");
        reveal_strlit("301");
        reveal_strlit("302");
        reveal_strlit("303");
        reveal_strlit("308");
        reveal_strlit("311");
        reveal_strlit("313");
        reveal_strlit("400");
        reveal_strlit("401");
        reveal_strlit("402");
        reveal_strlit("403");
        reveal_strlit("411");
        reveal_strlit("晴れ");
        reveal_strlit("晴れ時々曇り");
        reveal_strlit("晴れ一時雨");
        reveal_strlit("晴れのち曇り");
        reveal_strlit("晴れのち雨");
        reveal_strlit("曇り");
        reveal_strlit("曇り時々晴れ");
        reveal_strlit("曇り一時雨");
        reveal_strlit("曇り時々雨");
        reveal_strlit("曇りのち晴れ");
        reveal_strlit("曇りのち雨");
        reveal_strlit("雨");
        reveal_strlit("雨時々晴れ");
        reveal_strlit("雨時々止む");
        reveal_strlit("雨時々雪");
        reveal_strlit("大雨");
        reveal_strlit("雨のち晴れ");
        reveal_strlit("雨のち曇り");
        reveal_strlit("雪");
        reveal_strlit("雪時々晴れ");
        reveal_strlit("雪時々止む");
        reveal_strlit("雪時々雨");
        reveal_strlit("雪のち晴れ");
        reveal_strlit("不明");
    let l = jma_code_label(code)@;
    assert(l.len() > 0 && (l[0] == '晴' || l[0] == '曇' || l[0] == '雨' || l[0] == '雪' || l[0] == '大'));
    if l[0] == '大' {
        assert(l[1] == '雨');
    }
    if code[1] == '1' {
        if l[0] == '晴' || l[0] == '曇' {
            assert(l[2] == 'の');
        } else {
            assert(l[1] == 'の');
        }
    }
}

/// Whether `t` begins with `p`.
pub open spec fn starts_with(t: Seq<char>, p: Seq<char>) -> bool {
    p.len() <= t.len() && t.take(p.len() as int) == p
}

/// A WMO code that has a label has one in both languages, and its labels agree
/// with its category: the snow codes (71, 73, 75, 77, 85, 86) and only they read
/// as snow ("Snow…", "…雪…"), the thunderstorm codes and only they as thunder
/// ("Thunderstorm…", "雷…"), and every rain code has "雨" in its Japanese label.
pub proof fn lemma_wmo_labels_match_category(code: u32)
    requires
        wmo_label(code, Language::English) != unknown_label(Language::English)
            || wmo_label(code, Language::Japanese) != unknown_label(Language::Japanese),
    ensures
        wmo_label(code, Language::English) != unknown_label(Language::English),
        wmo_label(code, Language::Japanese) != unknown_label(Language::Japanese),
        wmo_icon(code) == WeatherIcon::Snow <==> starts_with(wmo_label(code, Language::English)@, "Snow"@),
        wmo_icon(code) == WeatherIcon::Snow <==> wmo_label(code, Language::Japanese)@.contains('雪'),
        wmo_icon(code) == WeatherIcon::Thunder <==> starts_with(wmo_label(code, Language::English)@, "Thunder"@),
        wmo_icon(code) == WeatherIcon::Thunder <==> wmo_label(code, Language::Japanese)@.contains('雷'),
        wmo_icon(code) == WeatherIcon::Rain ==> wmo_label(code, Language::Japanese)@.contains('雨'),
{
    reveal_strlit("Clear");
    reveal_strlit("Mostly clear");
    reveal_strlit("Partly cloudy");
    reveal_strlit("Cloudy");
    reveal_strlit("Fog");
    reveal_strlit("Drizzle");
    reveal_strlit("Rain");
    reveal_strlit("Freezing rain");
    reveal_strlit("Snow");
    reveal_strlit("Snow grains");
    reveal_strlit("Showers");
    reveal_strlit("Snow showers");
    reveal_strlit("Thunderstorm");
    reveal_strlit("Thunderstorm w/ hail");
    reveal_strlit("Unknown");
    reveal_strlit("Thunder");
    reveal_strlit("快晴");
    reveal_strlit("晴れ");
    reveal_strlit("晴れ時々曇り");
    reveal_strlit("曇り");
    reveal_strlit("霧");
    reveal_strlit("霧雨");
    reveal_strlit("雨");
    reveal_strlit("凍雨");
    reveal_strlit("雪");
    reveal_strlit("霧雪");
    reveal_strlit("にわか雨");
    reveal_strlit("にわか雪");
    reveal_strlit("雷雨");
    reveal_strlit("雷雨（雹あり）");
    reveal_strlit("不明");
    assert("Snow"@ == seq!['S', 'n', 'o', 'w']);
    assert("Thunder"@ == seq!['T', 'h', 'u', 'n', 'd', 'e', 'r']);
    if code == 0 {
        assert(wmo_label(code, Language::English)@ == seq!['C', 'l', 'e', 'a', 'r']);
        assert(wmo_label(code, Language::Japanese)@ == seq!['快', '晴']);
        assert(seq!['C', 'l', 'e', 'a', 'r'].take(4)[0] != seq!['S', 'n', 'o', 'w'][0]);
        assert forall|q: int| 0 <= q < 2 implies seq!['快', '晴'][q] != '雪' by { if q == 0 {} else {} }
        assert forall|q: int| 0 <= q < 2 implies seq!['快', '晴'][q] != '雷' by { if q == 0 {} else {} }
        assert forall|q: int| 0 <= q < 2 implies seq!['快', '晴'][q] != '雨' by { if q == 0 {} else {} }
    } else if code == 1 {
        assert(wmo_label(code, Language::English)@ == seq!['M', 'o', 's', 't', 'l', 'y', ' ', 'c', 'l', 'e', 'a', 'r']);
        assert(wmo_label(code, Language::Japanese)@ == seq!['晴', 'れ']);
        assert(seq!['M', 'o', 's', 't', 'l', 'y', ' ', 'c', 'l', 'e', 'a', 'r'].take(4)[0] != seq!['S', 'n', 'o', 'w'][0]);
        assert(seq!['M', 'o', 's', 't', 'l', 'y', ' ', 'c', 'l', 'e', 'a', 'r'].take(7)[0] != seq!['T', 'h', 'u', 'n', 'd', 'e', 'r'][0]);
        assert forall|q: int| 0 <= q < 2 implies seq!['晴', 'れ'][q] != '雪' by { if q == 0 {} else {} }
        assert forall|q: int| 0 <= q < 2 implies seq!['晴', 'れ'][q] != '雷' by { if q == 0 {} else {} }
        assert forall|q: int| 0 <= q < 2 implies seq!['晴', 'れ'][q] != '雨' by { if q == 0 {} else {} }
    } else if code == 2 {
        assert(wmo_label(code, Language::English)@ == seq!['P', 'a', 'r', 't', 'l', 'y', ' ', 'c', 'l', 'o', 'u', 'd', 'y']);
        assert(wmo_label(code, Language::Japanese)@ == seq!['晴', 'れ', '時', '々', '曇', 'り']);
        assert(seq!['P', 'a', 'r', 't', 'l', 'y', ' ', 'c', 'l', 'o', 'u', 'd', 'y'].take(4)[0] != seq!['S', 'n', 'o', 'w'][0]);
        assert(seq!['P', 'a', 'r', 't', 'l', 'y', ' ', 'c', 'l', 'o', 'u', 'd', 'y'].take(7)[0] != seq!['T', 'h', 'u', 'n', 'd', 'e', 'r'][0]);
        assert forall|q: int| 0 <= q < 6 implies seq!['晴', 'れ', '時', '々', '曇', 'り'][q] != '雪' by { if q == 0 {} else if q == 1 {} else if q == 2 {} else if q == 3 {} else if q == 4 {} else {} }
        assert forall|q: int| 0 <= q < 6 implies seq!['晴', 'れ', '時', '々', '曇', 'り'][q] != '雷' by { if q == 0 {} else if q == 1 {} else if q == 2 {} else if q == 3 {} else if q == 4 {} else {} }
        assert forall|q: int| 0 <= q < 6 implies seq!['晴', 'れ', '時', '々', '曇', 'り'][q] != '雨' by { if q == 0 {} else if q == 1 {} else if q == 2 {} else if q == 3 {} else if q == 4 {} else {} }
    } else if code == 3 {
        assert(wmo_label(code, Language::English)@ == seq!['C', 'l', 'o', 'u', 'd', 'y']);
        assert(wmo_label(code, Language::Japanese)@ == seq!['曇', 'り']);
        assert(seq!['C', 'l', 'o', 'u', 'd', 'y'].take(4)[0] != seq!['S', 'n', 'o', 'w'][0]);
        assert forall|q: int| 0 <= q < 2 implies seq!['曇', 'り'][q] != '雪' by { if q == 0 {} else {} }
        assert forall|q: int| 0 <= q < 2 implies seq!['曇', 'り'][q] != '雷' by { if q == 0 {} else {} }
        assert forall|q: int| 0 <= q < 2 implies seq!['曇', 'り'][q] != '雨' by { if q == 0 {} else {} }
    } else if code == 45 || code == 48 {
        assert(wmo_label(code, Language::English)@ == seq!['F', 'o', 'g']);
        assert(wmo_label(code, Language::Japanese)@ == seq!['霧']);
        assert forall|q: int| 0 <= q < 1 implies seq!['霧'][q] != '雪' by {  }
        assert forall|q: int| 0 <= q < 1 implies seq!['霧'][q] != '雷' by {  }
        assert forall|q: int| 0 <= q < 1 implies seq!['霧'][q] != '雨' by {  }
    } else if code == 51 || code == 53 || code == 55 {
        assert(wmo_label(code, Language::English)@ == seq!['D', 'r', 'i', 'z', 'z', 'l', 'e']);
        assert(wmo_label(code, Language::Japanese)@ == seq!['霧', '雨']);
        assert(seq!['D', 'r', 'i', 'z', 'z', 'l', 'e'].take(4)[0] != seq!['S', 'n', 'o', 'w'][0]);
        assert(seq!['D', 'r', 'i', 'z', 'z', 'l', 'e'].take(7)[0] != seq!['T', 'h', 'u', 'n', 'd', 'e', 'r'][0]);
        assert forall|q: int| 0 <= q < 2 implies seq!['霧', '雨'][q] != '雪' by { if q == 0 {} else {} }
        assert forall|q: int| 0 <= q < 2 implies seq!['霧', '雨'][q] != '雷' by { if q == 0 {} else {} }
        assert(seq!['霧', '雨'][1] == '雨');
    } else if code == 61 || code == 63 || code == 65 {
        assert(wmo_label(code, Language::English)@ == seq!['R', 'a', 'i', 'n']);
        assert(wmo_label(code, Language::Japanese)@ == seq!['雨']);
        assert(seq!['R', 'a', 'i', 'n'].take(4)[0] != seq!['S', 'n', 'o', 'w'][0]);
        assert forall|q: int| 0 <= q < 1 implies seq!['雨'][q] != '雪' by {  }
        assert forall|q: int| 0 <= q < 1 implies seq!['雨'][q] != '雷' by {  }
        assert(seq!['雨'][0] == '雨');
    } else if code == 66 || code == 67 {
        assert(wmo_label(code, Language::English)@ == seq!['F', 'r', 'e', 'e', 'z', 'i', 'n', 'g', ' ', 'r', 'a', 'i', 'n']);
        assert(wmo_label(code, Language::Japanese)@ == seq!['凍', '雨']);
        assert(seq!['F', 'r', 'e', 'e', 'z', 'i', 'n', 'g', ' ', 'r', 'a', 'i', 'n'].take(4)[0] != seq!['S', 'n', 'o', 'w'][0]);
        assert(seq!['F', 'r', 'e', 'e', 'z', 'i', 'n', 'g', ' ', 'r', 'a', 'i', 'n'].take(7)[0] != seq!['T', 'h', 'u', 'n', 'd', 'e', 'r'][0]);
        assert forall|q: int| 0 <= q < 2 implies seq!['凍', '雨'][q] != '雪' by { if q == 0 {} else {} }
        assert forall|q: int| 0 <= q < 2 implies seq!['凍', '雨'][q] != '雷' by { if q == 0 {} else {} }
        assert(seq!['凍', '雨'][1] == '雨');
    } else if code == 71 || code == 73 || code == 75 {
        assert(wmo_label(code, Language::English)@ == seq!['S', 'n', 'o', 'w']);
        assert(wmo_label(code, Language::Japanese)@ == seq!['雪']);
        assert(seq!['S', 'n', 'o', 'w'].take(4) =~= seq!['S', 'n', 'o', 'w']);
        assert(seq!['雪'][0] == '雪');
        assert forall|q: int| 0 <= q < 1 implies seq!['雪'][q] != '雷' by {  }
        assert forall|q: int| 0 <= q < 1 implies seq!['雪'][q] != '雨' by {  }
    } else if code == 77 {
        assert(wmo_label(code, Language::English)@ == seq!['S', 'n', 'o', 'w', ' ', 'g', 'r', 'a', 'i', 'n', 's']);
        assert(wmo_label(code, Language::Japanese)@ == seq!['霧', '雪']);
        assert(seq!['S', 'n', 'o', 'w', ' ', 'g', 'r', 'a', 'i', 'n', 's'].take(4) =~= seq!['S', 'n', 'o', 'w']);
        assert(seq!['S', 'n', 'o', 'w', ' ', 'g', 'r', 'a', 'i', 'n', 's'].take(7)[0] != seq!['T', 'h', 'u', 'n', 'd', 'e', 'r'][0]);
        assert(seq!['霧', '雪'][1] == '雪');
        assert forall|q: int| 0 <= q < 2 implies seq!['霧', '雪'][q] != '雷' by { if q == 0 {} else {} }
        assert forall|q: int| 0 <= q < 2 implies seq!['霧', '雪'][q] != '雨' by { if q == 0 {} else {} }
    } else if code == 80 || code == 81 || code == 82 {
        assert(wmo_label(code, Language::English)@ == seq!['S', 'h', 'o', 'w', 'e', 'r', 's']);
        assert(wmo_label(code, Language::Japanese)@ == seq!['に', 'わ', 'か', '雨']);
        assert(seq!['S', 'h', 'o', 'w', 'e', 'r', 's'].take(4)[1] != seq!['S', 'n', 'o', 'w'][1]);
        assert(seq!['S', 'h', 'o', 'w', 'e', 'r', 's'].take(7)[0] != seq!['T', 'h', 'u', 'n', 'd', 'e', 'r'][0]);
        assert forall|q: int| 0 <= q < 4 implies seq!['に', 'わ', 'か', '雨'][q] != '雪' by { if q == 0 {} else if q == 1 {} else if q == 2 {} else {} }
        assert forall|q: int| 0 <= q < 4 implies seq!['に', 'わ', 'か', '雨'][q] != '雷' by { if q == 0 {} else if q == 1 {} else if q == 2 {} else {} }
        assert(seq!['に', 'わ', 'か', '雨'][3] == '雨');
    } else if code == 85 || code == 86 {
        assert(wmo_label(code, Language::English)@ == seq!['S', 'n', 'o', 'w', ' ', 's', 'h', 'o', 'w', 'e', 'r', 's']);
        assert(wmo_label(code, Language::Japanese)@ == seq!['に', 'わ', 'か', '雪']);
        assert(seq!['S', 'n', 'o', 'w', ' ', 's', 'h', 'o', 'w', 'e', 'r', 's'].take(4) =~= seq!['S', 'n', 'o', 'w']);
        assert(seq!['S', 'n', 'o', 'w', ' ', 's', 'h', 'o', 'w', 'e', 'r', 's'].take(7)[0] != seq!['T', 'h', 'u', 'n', 'd', 'e', 'r'][0]);
        assert(seq!['に', 'わ', 'か', '雪'][3] == '雪');
        assert forall|q: int| 0 <= q < 4 implies seq!['に', 'わ', 'か', '雪'][q] != '雷' by { if q == 0 {} else if q == 1 {} else if q == 2 {} else {} }
        assert forall|q: int| 0 <= q < 4 implies seq!['に', 'わ', 'か', '雪'][q] != '雨' by { if q == 0 {} else if q == 1 {} else if q == 2 {} else {} }
    } else if code == 95 {
        assert(wmo_label(code, Language::English)@ == seq!['T', 'h', 'u', 'n', 'd', 'e', 'r', 's', 't', 'o', 'r', 'm']);
        assert(wmo_label(code, Language::Japanese)@ == seq!['雷', '雨']);
        assert(seq!['T', 'h', 'u', 'n', 'd', 'e', 'r', 's', 't', 'o', 'r', 'm'].take(4)[0] != seq!['S', 'n', 'o', 'w'][0]);
        assert(seq!['T', 'h', 'u', 'n', 'd', 'e', 'r', 's', 't', 'o', 'r', 'm'].take(7) =~= seq!['T', 'h', 'u', 'n', 'd', 'e', 'r']);
        assert forall|q: int| 0 <= q < 2 implies seq!['雷', '雨'][q] != '雪' by { if q == 0 {} else {} }
        assert(seq!['雷', '雨'][0] == '雷');
        assert(seq!['雷', '雨'][1] == '雨');
    } else if code == 96 || code == 99 {
        assert(wmo_label(code, Language::English)@ == seq!['T', 'h', 'u', 'n', 'd', 'e', 'r', 's', 't', 'o', 'r', 'm', ' ', 'w', '/', ' ', 'h', 'a', 'i', 'l']);
        assert(wmo_label(code, Language::Japanese)@ == seq!['雷', '雨', '（', '雹', 'あ', 'り', '）']);
        assert(seq!['T', 'h', 'u', 'n', 'd', 'e', 'r', 's', 't', 'o', 'r', 'm', ' ', 'w', '/', ' ', 'h', 'a', 'i', 'l'].take(4)[0] != seq!['S', 'n', 'o', 'w'][0]);
        assert(seq!['T', 'h', 'u', 'n', 'd', 'e', 'r', 's', 't', 'o', 'r', 'm', ' ', 'w', '/', ' ', 'h', 'a', 'i', 'l'].take(7) =~= seq!['T', 'h', 'u', 'n', 'd', 'e', 'r']);
        assert forall|q: int| 0 <= q < 7 implies seq!['雷', '雨', '（', '雹', 'あ', 'り', '）'][q] != '雪' by { if q == 0 {} else if q == 1 {} else if q == 2 {} else if q == 3 {} else if q == 4 {} else if q == 5 {} else {} }
        assert(seq!['雷', '雨', '（', '雹', 'あ', 'り', '）'][0] == '雷');
        assert(seq!['雷', '雨', '（', '雹', 'あ', 'り', '）'][1] == '雨');
    } else {
        assert(wmo_label(code, Language::English)@ == seq!['U', 'n', 'k', 'n', 'o', 'w', 'n']);
        assert(wmo_label(code, Language::Japanese)@ == seq!['不', '明']);
        assert(seq!['U', 'n', 'k', 'n', 'o', 'w', 'n'].take(4)[0] != seq!['S', 'n', 'o', 'w'][0]);
        assert(seq!['U', 'n', 'k', 'n', 'o', 'w', 'n'].take(7)[0] != seq!['T', 'h', 'u', 'n', 'd', 'e', 'r'][0]);
        assert forall|q: int| 0 <= q < 2 implies seq!['不', '明'][q] != '雪' by { if q == 0 {} else {} }
        assert forall|q: int| 0 <= q < 2 implies seq!['不', '明'][q] != '雷' by { if q == 0 {} else {} }
        assert forall|q: int| 0 <= q < 2 implies seq!['不', '明'][q] != '雨' by { if q == 0 {} else {} }
    }
}

} // verus!
