//! Text of the panels: column widths, padded table rows, titles and footers.
use vstd::prelude::*;
use unicode_width::UnicodeWidthStr;
use crate::icon::{WeatherIcon, icon_symbol};
use crate::i18n::{Language, strings, strings_of};
use crate::provider::{MapStyle, style_footer_label, style_label};
use crate::text::{decimal, digit_char, signed_decimal, push_decimal, push_signed_decimal, replaced, replace_all};

verus! {

/// Display width in terminal columns of a text, as `unicode-width` measures it
/// (East Asian wide characters and emoji count two columns).
pub uninterp spec fn str_width(t: Seq<char>) -> usize;

/// `UnicodeWidthStr::width` of `unicode-width`: the display width of `s`.
/// The contract only names the result; how the crate's tables measure each
/// character and each emoji sequence is not restated here.
#[verifier::external_body]
fn display_width(s: &str) -> (w: usize)
    ensures
        w == str_width(s@),
{
    UnicodeWidthStr::width(s)
}

/// `n` spaces.
pub open spec fn spaces(n: nat) -> Seq<char> {
    Seq::new(n, |i: int| ' ')
}

/// `s` followed by spaces up to `width` columns; `s` itself when it already
/// takes `width` columns or more.
pub open spec fn padded(s: Seq<char>, width: nat) -> Seq<char> {
    let w = str_width(s);
    if w >= width {
        s
    } else {
        s + spaces((width - w) as nat)
    }
}

/// Appends `n` spaces to `out`.
fn push_spaces(out: &mut String, n: usize)
    ensures
        final(out)@ == old(out)@ + spaces(n as nat),
{
    let mut i: usize = 0;
    while i < n
        invariant
            i <= n,
            out@ == old(out)@ + spaces(i as nat),
        decreases n - i,
    {
        proof {
            reveal_strlit(" ");
        }
        out.append(" ");
        i = i + 1;
        assert(out@ =~= old(out)@ + spaces(i as nat));
    }
}

/// Pads `s` with spaces to a display width of `width` columns, so that columns of
/// Japanese and Latin text line up.
pub fn pad_w(s: &str, width: usize) -> (r: String)
    ensures
        r@ == padded(s@, width as nat),
{
    let w = display_width(s);
    let mut out = String::from_str(s);
    if w < width {
        push_spaces(&mut out, width - w);
    }
    out
}

/// Width of the character at `i` of `t`, measured alone.
pub open spec fn char_width_at(t: Seq<char>, i: int) -> usize {
    str_width(t.subrange(i, i + 1))
}

/// How many leading characters of `t[from..]` fit, one after the other, into
/// `room` columns: characters are taken while each still fits.
pub open spec fn fitting_count(t: Seq<char>, from: int, room: int) -> nat
    decreases t.len() - from,
{
    if from < 0 || from >= t.len() {
        0
    } else if char_width_at(t, from) > room {
        0
    } else {
        1 + fitting_count(t, from + 1, room - char_width_at(t, from))
    }
}

/// The longest prefix of `s` whose characters, measured one by one, fit into
/// `width` columns; it stops at the first character that would overflow.
pub fn truncate_w(s: &str, width: usize) -> (r: String)
    ensures
        r@ == s@.take(fitting_count(s@, 0, width as int) as int),
{
    let n = s.unicode_len();
    let mut used: usize = 0;
    let mut i: usize = 0;
    while i < n
        invariant_except_break
            n == s@.len(),
            i <= n,
            used <= width,
            fitting_count(s@, 0, width as int) == i + fitting_count(s@, i as int, width - used),
        ensures
            i <= n,
            n == s@.len(),
            fitting_count(s@, 0, width as int) == i,
        decreases n - i,
    {
        let c = s.substring_char(i, i + 1);
        let cw = display_width(c);
        if cw > width - used {
            break;
        }
        used = used + cw;
        i = i + 1;
    }
    String::from_str(s.substring_char(0, i))
}

/// Display width of one cell of the weekly table.
pub const CELL_W: usize = 12;

/// The views of a list of strings.
pub open spec fn views(v: Seq<String>) -> Seq<Seq<char>> {
    Seq::new(v.len(), |i: int| v[i]@)
}

/// Cells padded to `CELL_W` columns and joined with a vertical bar.
pub open spec fn joined_row(cells: Seq<Seq<char>>) -> Seq<char>
    decreases cells.len(),
{
    if cells.len() == 0 {
        seq![]
    } else if cells.len() == 1 {
        padded(cells[0], CELL_W as nat)
    } else {
        joined_row(cells.drop_last()) + seq!['│'] + padded(cells.last(), CELL_W as nat)
    }
}

/// One row of the weekly table: each cell padded to `CELL_W` columns, with a
/// vertical bar between cells.
pub fn join_row(cells: &Vec<String>) -> (r: String)
    ensures
        r@ == joined_row(views(cells@)),
{
    let mut out = String::new();
    let mut i: usize = 0;
    while i < cells.len()
        invariant
            i <= cells@.len(),
            out@ == joined_row(views(cells@).take(i as int)),
        decreases cells@.len() - i,
    {
        proof {
            reveal_strlit("│");
        }
        let cell = pad_w(cells[i].as_str(), CELL_W);
        let ghost before = out@;
        if i > 0 {
            out.append("│");
        }
        out.append(cell.as_str());
        proof {
            let t = views(cells@).take(i + 1);
            assert(t.drop_last() =~= views(cells@).take(i as int));
            assert(t.last() == cells@[i as int]@);
            if i == 0 {
                assert(out@ =~= padded(t[0], CELL_W as nat));
            } else {
                assert(out@ =~= before + seq!['│'] + padded(t.last(), CELL_W as nat));
            }
        }
        i = i + 1;
    }
    assert(views(cells@).take(cells@.len() as int) =~= views(cells@));
    out
}

/// What the weekly table shows of one day; the numbers come already formatted.
#[derive(Debug, Clone)]
pub struct WeekDayCells {
    /// Date label such as `06/09(Tue)`.
    pub date_label: String,
    pub icon: WeatherIcon,
    pub condition: String,
    /// Highest temperature, right-aligned in three columns, if known.
    pub high: Option<String>,
    /// Lowest temperature, right-aligned in three columns, if known.
    pub low: Option<String>,
    /// Probability of precipitation with its percent sign, if known.
    pub pop: Option<String>,
}

/// A known value, or the dash that stands in a temperature column for a missing one.
pub open spec fn temp_or_dash(v: Option<String>) -> Seq<char> {
    match v {
        Some(t) => t@,
        None => seq![' ', ' ', '-'],
    }
}

/// A known probability, or the dash that stands for a missing one.
pub open spec fn pop_or_dash(v: Option<String>) -> Seq<char> {
    match v {
        Some(t) => t@,
        None => seq![' ', ' ', '-', ' '],
    }
}

/// The prefix of `t` that fits in `width` columns (see `truncate_w`).
pub open spec fn truncated(t: Seq<char>, width: nat) -> Seq<char> {
    t.take(fitting_count(t, 0, width as int) as int)
}

/// Text of row `row` (date, icon, condition, temperatures, probability) for one day.
pub open spec fn week_cell(d: WeekDayCells, row: int) -> Seq<char> {
    if row == 0 {
        seq![' '] + d.date_label@
    } else if row == 1 {
        seq![' ', ' '] + icon_symbol(d.icon)@
    } else if row == 2 {
        seq![' '] + truncated(d.condition@, (CELL_W - 1) as nat)
    } else if row == 3 {
        seq![' '] + temp_or_dash(d.high) + seq!['/'] + temp_or_dash(d.low)
    } else {
        seq![' '] + pop_or_dash(d.pop)
    }
}

/// Number of days the weekly table shows.
pub const WEEK_DAYS: usize = 7;

/// Row `row` of the weekly table over the first seven days.
pub open spec fn week_row(days: Seq<WeekDayCells>, row: int) -> Seq<char> {
    let n = if days.len() < WEEK_DAYS { days.len() } else { WEEK_DAYS as nat };
    joined_row(Seq::new(n, |i: int| week_cell(days[i], row)))
}

fn week_cell_text(d: &WeekDayCells, row: usize) -> (r: String)
    ensures
        r@ == week_cell(*d, row as int),
{
    proof {
        reveal_strlit(" ");
        reveal_strlit("  ");
        reveal_strlit("/");
        reveal_strlit("  -");
        reveal_strlit("  - ");
    }
    let mut out = String::new();
    if row == 1 {
        out.append("  ");
        out.append(d.icon.symbol());
        return out;
    }
    out.append(" ");
    if row == 0 {
        out.append(d.date_label.as_str());
    } else if row == 2 {
        let c = truncate_w(d.condition.as_str(), CELL_W - 1);
        out.append(c.as_str());
    } else if row == 3 {
        match &d.high {
            Some(t) => out.append(t.as_str()),
            None => out.append("  -"),
        }
        out.append("/");
        match &d.low {
            Some(t) => out.append(t.as_str()),
            None => out.append("  -"),
        }
    } else {
        match &d.pop {
            Some(t) => out.append(t.as_str()),
            None => out.append("  - "),
        }
    }
    out
}

/// The five rows of the weekly table (dates, icons, conditions, high/low
/// temperatures, probabilities) over at most the first seven days.
pub fn weekly_rows(days: &Vec<WeekDayCells>) -> (rows: Vec<String>)
    ensures
        rows@.len() == 5,
        forall|k: int| 0 <= k < 5 ==> #[trigger] rows@[k]@ == week_row(days@, k),
{
    let n = if days.len() < WEEK_DAYS { days.len() } else { WEEK_DAYS };
    let mut rows: Vec<String> = Vec::new();
    let mut row: usize = 0;
    while row < 5
        invariant
            row <= 5,
            n <= days@.len(),
            n == (if days@.len() < WEEK_DAYS { days@.len() } else { WEEK_DAYS as nat }),
            rows@.len() == row,
            forall|k: int| 0 <= k < row ==> #[trigger] rows@[k]@ == week_row(days@, k),
        decreases 5 - row,
    {
        let mut cells: Vec<String> = Vec::new();
        let mut i: usize = 0;
        while i < n
            invariant
                i <= n,
                n <= days@.len(),
                cells@.len() == i,
                forall|j: int| 0 <= j < i ==> #[trigger] cells@[j]@ == week_cell(days@[j], row as int),
            decreases n - i,
        {
            let c = week_cell_text(&days[i], row);
            cells.push(c);
            i = i + 1;
        }
        let line = join_row(&cells);
        assert(views(cells@) =~= Seq::new(n as nat, |j: int| week_cell(days@[j], row as int)));
        rows.push(line);
        row = row + 1;
    }
    rows
}

/// Decimal notation of a quantity given in tenths, with one decimal place
/// (`57` is "5.7", `3` is "0.3").
pub open spec fn tenths_text(t: u32) -> Seq<char> {
    decimal((t / 10) as nat) + seq!['.', digit_char((t % 10) as int)]
}

/// Appends the one-decimal notation of a quantity in tenths.
pub fn push_tenths(out: &mut String, t: u32)
    ensures
        final(out)@ == old(out)@ + tenths_text(t),
{
    proof {
        reveal_strlit(".");
    }
    push_decimal(out, (t / 10) as u64);
    out.append(".");
    let ghost mid = out@;
    push_decimal(out, (t % 10) as u64);
    proof {
        assert(decimal((t % 10) as nat) =~= seq![digit_char((t % 10) as int)]);
        assert(out@ =~= old(out)@ + tenths_text(t));
    }
}

/// How far a radar frame lies from now: "now" or "現在" at zero minutes, else the
/// signed number of minutes ("+5min", "-10min"; "+5分", "-10分").
pub open spec fn relative_label(diff_min: int, lang: Language) -> Seq<char> {
    let unit = match lang {
        Language::Japanese => "分"@,
        Language::English => "min"@,
    };
    if diff_min == 0 {
        match lang {
            Language::Japanese => "現在"@,
            Language::English => "now"@,
        }
    } else if diff_min > 0 {
        seq!['+'] + decimal(diff_min as nat) + unit
    } else {
        signed_decimal(diff_min) + unit
    }
}

/// Label of a radar frame `diff_min` minutes away from now.
pub fn relative_time_label(diff_min: i64, lang: Language) -> (r: String)
    ensures
        r@ == relative_label(diff_min as int, lang),
{
    proof {
        reveal_strlit("+");
    }
    let unit = match lang {
        Language::Japanese => "分",
        Language::English => "min",
    };
    if diff_min == 0 {
        return match lang {
            Language::Japanese => String::from_str("現在"),
            Language::English => String::from_str("now"),
        };
    }
    let mut out = String::new();
    if diff_min > 0 {
        out.append("+");
        push_decimal(&mut out, diff_min as u64);
        assert(out@ =~= seq!['+'] + decimal(diff_min as nat));
    } else {
        push_signed_decimal(&mut out, diff_min);
        assert(out@ =~= signed_decimal(diff_min as int));
    }
    out.append(unit);
    out
}

/// The word for "map" in the radar title.
pub open spec fn map_word(lang: Language) -> &'static str {
    match lang {
        Language::Japanese => "地図",
        Language::English => "Map",
    }
}

/// Title of the radar panel: spinner while a frame loads, panel name, frame
/// time, its distance from now, a play mark while the animation runs, the
/// strongest rain in the frame when the frame has numbers, and the background
/// map's name.
pub open spec fn radar_title_text(
    lang: Language,
    spinner: Option<&str>,
    hhmm: Seq<char>,
    diff_min: int,
    playing: bool,
    max_tenths: Option<u32>,
    style: MapStyle,
) -> Seq<char> {
    (match spinner {
        Some(f) => f@ + seq![' '],
        None => seq![],
    }) + strings_of(lang).radar_title@ + seq![' ', ' '] + hhmm + seq![' ', '(']
        + relative_label(diff_min, lang) + seq![')'] + (if playing {
        seq![' ', '▶']
    } else {
        seq![]
    }) + (match max_tenths {
        Some(m) => "  max "@ + tenths_text(m) + "mm/h"@,
        None => seq![],
    }) + "  ["@ + map_word(lang)@ + seq![':', ' '] + style_label(style)@ + seq![']']
}

/// Builds the radar panel's title (see `radar_title_text`).
#[verifier::rlimit(80)]
pub fn radar_title(
    lang: Language,
    spinner: Option<&str>,
    hhmm: &str,
    diff_min: i64,
    playing: bool,
    max_tenths: Option<u32>,
    style: MapStyle,
) -> (r: String)
    ensures
        r@ == radar_title_text(lang, spinner, hhmm@, diff_min as int, playing, max_tenths, style),
{
    proof {
        reveal_strlit(" ");
        reveal_strlit("  ");
        reveal_strlit(" (");
        reveal_strlit(")");
        reveal_strlit(" ▶");
        reveal_strlit(": ");
        reveal_strlit("]");
    }
    let s = strings(lang);
    let mut out = String::new();
    match spinner {
        Some(f) => {
            out.append(f);
            out.append(" ");
        },
        None => {},
    }
    out.append(s.radar_title);
    out.append("  ");
    out.append(hhmm);
    out.append(" (");
    let rel = relative_time_label(diff_min, lang);
    out.append(rel.as_str());
    out.append(")");
    if playing {
        out.append(" ▶");
    }
    match max_tenths {
        Some(m) => {
            out.append("  max ");
            push_tenths(&mut out, m);
            out.append("mm/h");
        },
        None => {},
    }
    out.append("  [");
    let word = match lang {
        Language::Japanese => "地図",
        Language::English => "Map",
    };
    out.append(word);
    out.append(": ");
    out.append(style.label());
    out.append("]");
    assert(out@ =~= radar_title_text(lang, spinner, hhmm@, diff_min as int, playing, max_tenths, style));
    out
}

/// Title of the text-mode radar canvas: panel name, frame date and time, and
/// the strongest rain in the frame when the frame has numbers.
pub open spec fn canvas_title_text(lang: Language, stamp: Seq<char>, max_tenths: Option<u32>) -> Seq<char> {
    strings_of(lang).radar_title@ + seq![' ', ' '] + stamp + match max_tenths {
        Some(m) => "  max "@ + tenths_text(m) + "mm/h"@,
        None => seq![],
    }
}

/// Builds the title of the text-mode radar canvas (see `canvas_title_text`).
pub fn canvas_title(lang: Language, stamp: &str, max_tenths: Option<u32>) -> (r: String)
    ensures
        r@ == canvas_title_text(lang, stamp@, max_tenths),
{
    proof {
        reveal_strlit("  ");
    }
    let s = strings(lang);
    let mut out = String::from_str(s.radar_title);
    out.append("  ");
    out.append(stamp);
    match max_tenths {
        Some(m) => {
            out.append("  max ");
            push_tenths(&mut out, m);
            out.append("mm/h");
        },
        None => {},
    }
    assert(out@ =~= canvas_title_text(lang, stamp@, max_tenths));
    out
}

/// The key hints of the footer, with the play mark while the animation runs and
/// the short name of the background map.
pub open spec fn footer_spec(playing: bool, style: MapStyle) -> Seq<char> {
    "[q]終了 [r]更新 [+/-]ズーム [hjkl]移動 [, .]時刻 [p]"@ + (if playing {
        "▶ "@
    } else {
        seq![]
    }) + "再生 [m]地図:"@ + style_footer_label(style)@
}

/// Key hints shown at the bottom of the screen.
pub fn footer_text(playing: bool, style: MapStyle) -> (r: String)
    ensures
        r@ == footer_spec(playing, style),
{
    let mut out = String::from_str("[q]終了 [r]更新 [+/-]ズーム [hjkl]移動 [, .]時刻 [p]");
    let ghost head = out@;
    if playing {
        out.append("▶ ");
    }
    out.append("再生 [m]地図:");
    out.append(style.footer_label());
    proof {
        if playing {
            assert(out@ =~= footer_spec(playing, style));
        } else {
            assert(out@ =~= footer_spec(playing, style));
        }
    }
    out
}

/// The warning appended to the footer after a failed fetch.
pub fn error_note(message: &str) -> (r: String)
    ensures
        r@ == "⚠ "@ + message@,
{
    let mut out = String::from_str("⚠ ");
    out.append(message);
    out
}

/// Width of the current-weather column.
pub const LEFT_W: u16 = 28;
/// Least width kept for the weekly column right of the radar.
pub const SIDE_MIN_W: u16 = 18;

/// Widths of the three panels of the top row, from the row's width and the
/// radar width its image asks for: the radar shrinks so that the two side
/// columns keep `LEFT_W` and `SIDE_MIN_W`; the weekly column takes the rest.
pub open spec fn top_row_spec(total: int, radar_wanted: int) -> (int, int, int) {
    let reserved = LEFT_W + SIDE_MIN_W;
    let radar = if radar_wanted + reserved > total {
        if total > reserved { total - reserved } else { 0 }
    } else {
        radar_wanted
    };
    let side = if total > LEFT_W + radar { total - (LEFT_W + radar) } else { 0 };
    (LEFT_W as int, radar, side)
}

/// Splits the top row into the current-weather, radar and weekly columns.
pub fn top_row_widths(total_w: u16, radar_w_cells: u16) -> (r: (u16, u16, u16))
    requires
        radar_w_cells + LEFT_W + SIDE_MIN_W <= u16::MAX,
    ensures
        (r.0 as int, r.1 as int, r.2 as int) == top_row_spec(total_w as int, radar_w_cells as int),
        r.0 + r.1 + r.2 == (if total_w >= LEFT_W { total_w as int } else { LEFT_W + r.1 }),
{
    let reserved = LEFT_W + SIDE_MIN_W;
    let mut radar = radar_w_cells;
    if radar + reserved > total_w {
        radar = total_w.saturating_sub(reserved);
    }
    let side = total_w.saturating_sub(LEFT_W + radar);
    (LEFT_W, radar, side)
}

/// Most hours the hourly chart shows.
pub const MAX_HOURS: usize = 48;
/// Fewest hours the hourly chart shows.
pub const MIN_HOURS: usize = 8;

/// Number of hours the chart shows in a panel `inner_w` columns wide: four
/// columns less than the width, kept between `MIN_HOURS` and `MAX_HOURS`.
pub open spec fn hours_shown(inner_w: int) -> int {
    let w = if inner_w > 4 { inner_w - 4 } else { 0 };
    if w > MAX_HOURS { MAX_HOURS as int } else if w < MIN_HOURS { MIN_HOURS as int } else { w }
}

/// How many hourly points the chart takes for its width.
pub fn hourly_take(inner_w: u16) -> (r: usize)
    ensures
        r == hours_shown(inner_w as int),
        MIN_HOURS <= r <= MAX_HOURS,
{
    let w = (inner_w as usize).saturating_sub(4);
    let w = if w > MAX_HOURS { MAX_HOURS } else { w };
    if w < MIN_HOURS { MIN_HOURS } else { w }
}

/// Number of time labels under the chart: one per twelve columns, from three to six.
pub open spec fn label_count_spec(inner_w: int) -> int {
    let k = inner_w / 12;
    if k < 3 { 3 } else if k > 6 { 6 } else { k }
}

/// How many time labels the hourly chart carries.
pub fn label_count(inner_w: u16) -> (r: usize)
    ensures
        r == label_count_spec(inner_w as int),
        3 <= r <= 6,
{
    let k = (inner_w / 12) as usize;
    if k < 3 { 3 } else if k > 6 { 6 } else { k }
}

/// Index of label `k` of `count` over `n` points: the first and the last point
/// and evenly spread ones between them, rounded down.
pub open spec fn label_index(k: int, n: int, count: int) -> int {
    if count == 1 { 0 } else { (k * (n - 1)) / (count - 1) }
}

/// Indices of the points whose times label the chart's axis.
pub fn label_indices(n: usize, count: usize) -> (r: Vec<usize>)
    requires
        n >= 1,
        count >= 1,
        count * n <= usize::MAX,
    ensures
        r@.len() == count,
        forall|k: int| 0 <= k < count ==> #[trigger] r@[k] == label_index(k, n as int, count as int),
        forall|k: int| 0 <= k < count ==> #[trigger] r@[k] < n,
{
    let mut out: Vec<usize> = Vec::new();
    let mut k: usize = 0;
    while k < count
        invariant
            k <= count,
            1 <= n,
            1 <= count,
            count * n <= usize::MAX,
            out@.len() == k,
            forall|j: int| 0 <= j < k ==> #[trigger] out@[j] == label_index(j, n as int, count as int),
            forall|j: int| 0 <= j < k ==> #[trigger] out@[j] < n,
        decreases count - k,
    {
        let idx = if count == 1 {
            0
        } else {
            assert(k * (n - 1) <= (count - 1) * (n - 1)) by (nonlinear_arith)
                requires k <= count - 1, n >= 1;
            assert((k * (n - 1)) / (count - 1) <= n - 1) by (nonlinear_arith)
                requires k * (n - 1) <= (count - 1) * (n - 1), count >= 2;
            assert(k * (n - 1) <= count * n) by (nonlinear_arith)
                requires k <= count, n >= 1;
            (k * (n - 1)) / (count - 1)
        };
        out.push(idx);
        k = k + 1;
    }
    out
}

/// Two-digit hour followed by the hour mark of the language ("09時", "09:00").
pub open spec fn hour_label_spec(hour: u32, lang: Language) -> Seq<char> {
    seq![digit_char((hour / 10) as int), digit_char((hour % 10) as int)] + match lang {
        Language::Japanese => "時"@,
        Language::English => ":00"@,
    }
}

/// Axis label of an hour of the day.
pub fn hour_label(hour: u32, lang: Language) -> (r: String)
    requires
        hour < 24,
    ensures
        r@ == hour_label_spec(hour, lang),
{
    let mut out = String::new();
    push_decimal(&mut out, (hour / 10) as u64);
    push_decimal(&mut out, (hour % 10) as u64);
    match lang {
        Language::Japanese => out.append("時"),
        Language::English => out.append(":00"),
    }
    assert(decimal((hour / 10) as nat) =~= seq![digit_char((hour / 10) as int)]);
    assert(decimal((hour % 10) as nat) =~= seq![digit_char((hour % 10) as int)]);
    assert(out@ =~= hour_label_spec(hour, lang));
    out
}

/// Block glyph of bar level `level` (0 lowest, 7 full).
pub open spec fn bar_glyph(level: int) -> char {
    if level <= 0 { '▁' }
    else if level == 1 { '▂' }
    else if level == 2 { '▃' }
    else if level == 3 { '▄' }
    else if level == 4 { '▅' }
    else if level == 5 { '▆' }
    else if level == 6 { '▇' }
    else { '█' }
}

/// Level of `v` on a scale whose top is `top`: the share `v / top` times seven,
/// rounded to the nearest level (halves up) and capped at the full bar.
pub open spec fn bar_level(v: u32, top: u32) -> int {
    let l = (14 * v + top) / (2 * top);
    if l > 7 { 7 } else { l }
}

/// Character of one hour in the precipitation bar: blank for nothing, else the
/// glyph of its level.
pub open spec fn bar_char(v: u32, top: u32) -> char {
    if v == 0 { ' ' } else { bar_glyph(bar_level(v, top)) }
}

/// The bar for a series of values on a scale topped by `top`.
pub open spec fn bar_line(vals: Seq<u32>, top: u32) -> Seq<char> {
    Seq::new(vals.len(), |i: int| bar_char(vals[i], top))
}

fn glyph_str(level: u64) -> (r: &'static str)
    requires
        level <= 7,
    ensures
        r@ == seq![bar_glyph(level as int)],
{
    proof {
        reveal_strlit("▁");
        reveal_strlit("▂");
        reveal_strlit("▃");
        reveal_strlit("▄");
        reveal_strlit("▅");
        reveal_strlit("▆");
        reveal_strlit("▇");
        reveal_strlit("█");
    }
    match level {
        0 => "▁",
        1 => "▂",
        2 => "▃",
        3 => "▄",
        4 => "▅",
        5 => "▆",
        6 => "▇",
        _ => "█",
    }
}

/// Draws the bar of `vals` scaled to `top`.
pub fn bar_text(vals: &Vec<u32>, top: u32) -> (r: String)
    requires
        top > 0,
    ensures
        r@ == bar_line(vals@, top),
{
    let mut out = String::new();
    let mut i: usize = 0;
    while i < vals.len()
        invariant
            top > 0,
            i <= vals@.len(),
            out@ == bar_line(vals@.take(i as int), top),
        decreases vals@.len() - i,
    {
        proof {
            reveal_strlit(" ");
        }
        let v = vals[i];
        if v == 0 {
            out.append(" ");
        } else {
            let l: u64 = (14 * (v as u64) + top as u64) / (2 * top as u64);
            let l = if l > 7 { 7 } else { l };
            out.append(glyph_str(l));
        }
        i = i + 1;
        assert(out@ =~= bar_line(vals@.take(i as int), top));
    }
    assert(vals@.take(vals@.len() as int) =~= vals@);
    out
}

/// Largest value of a series, or zero for an empty one.
pub open spec fn series_max(vals: Seq<u32>) -> u32
    decreases vals.len(),
{
    if vals.len() == 0 {
        0
    } else {
        let m = series_max(vals.drop_last());
        if vals.last() > m { vals.last() } else { m }
    }
}

proof fn lemma_series_max(vals: Seq<u32>)
    ensures
        forall|i: int| 0 <= i < vals.len() ==> vals[i] <= series_max(vals),
        vals.len() == 0 || exists|i: int| 0 <= i < vals.len() && vals[i] == series_max(vals),
    decreases vals.len(),
{
    if vals.len() > 0 {
        lemma_series_max(vals.drop_last());
        assert forall|i: int| 0 <= i < vals.len() implies vals[i] <= series_max(vals) by {
            if i < vals.len() - 1 {
                assert(vals[i] == vals.drop_last()[i]);
            }
        }
        if vals.last() <= series_max(vals.drop_last()) && vals.len() > 1 {
            let i = choose|i: int| 0 <= i < vals.len() - 1 && vals.drop_last()[i] == series_max(vals.drop_last());
            assert(vals[i] == series_max(vals));
        } else {
            assert(vals[vals.len() - 1] == series_max(vals));
        }
    }
}

/// Largest value of `vals` (zero when empty).
pub fn max_of(vals: &Vec<u32>) -> (r: u32)
    ensures
        r == series_max(vals@),
        forall|i: int| 0 <= i < vals@.len() ==> vals@[i] <= r,
        vals@.len() == 0 || exists|i: int| 0 <= i < vals@.len() && vals@[i] == r,
{
    let mut m: u32 = 0;
    let mut i: usize = 0;
    while i < vals.len()
        invariant
            i <= vals@.len(),
            m == series_max(vals@.take(i as int)),
        decreases vals@.len() - i,
    {
        assert(vals@.take(i + 1).drop_last() =~= vals@.take(i as int));
        if vals[i] > m {
            m = vals[i];
        }
        i = i + 1;
    }
    assert(vals@.take(vals@.len() as int) =~= vals@);
    proof {
        lemma_series_max(vals@);
    }
    m
}

/// The probabilities of a series, a missing one counted as zero.
pub open spec fn pops_or_zero(pops: Seq<Option<u32>>) -> Seq<u32> {
    Seq::new(pops.len(), |i: int| match pops[i] {
        Some(p) => p,
        None => 0u32,
    })
}

/// Scale top of the rainfall bar, in tenths of mm/h: the largest amount, at least 1 mm/h.
pub open spec fn rain_top(mm: Seq<u32>) -> u32 {
    if series_max(mm) > 10 { series_max(mm) } else { 10 }
}

/// The precipitation bar of the hourly chart and the caption under it. Rainfall
/// (tenths of mm/h) is drawn when any hour has some, scaled to the largest
/// amount; else the probability (percent) when any hour has one above zero;
/// else a blank bar. The rainfall caption carries the scale's top.
pub open spec fn precip_chart_spec(mm: Seq<u32>, pops: Seq<Option<u32>>, lang: Language) -> (Seq<char>, Seq<char>) {
    let s = strings_of(lang);
    if exists|i: int| 0 <= i < mm.len() && mm[i] > 0 {
        (bar_line(mm, rain_top(mm)), replaced(s.precip_amount_label@, "{:.1}"@, tenths_text(rain_top(mm))))
    } else if exists|i: int| 0 <= i < pops.len() && pops_or_zero(pops)[i] > 0 {
        (bar_line(pops_or_zero(pops), 100), s.precip_prob_label@)
    } else {
        (spaces(mm.len()), s.no_precip_data@)
    }
}

/// Builds the precipitation bar and its caption for the hours shown
/// (rainfall and probability of the same hours, in order).
pub fn precip_chart(mm: &Vec<u32>, pops: &Vec<Option<u32>>, lang: Language) -> (r: (String, String))
    requires
        mm@.len() == pops@.len(),
    ensures
        (r.0@, r.1@) == precip_chart_spec(mm@, pops@, lang),
{
    let s = strings(lang);
    let top = max_of(mm);
    if top > 0 {
        let top = if top > 10 { top } else { 10 };
        let bars = bar_text(mm, top);
        let mut t = String::new();
        push_tenths(&mut t, top);
        proof {
            reveal_strlit("{:.1}");
        }
        let label = replace_all(s.precip_amount_label, "{:.1}", t.as_str());
        return (bars, label);
    }
    let mut p: Vec<u32> = Vec::new();
    let mut any = false;
    let mut i: usize = 0;
    while i < pops.len()
        invariant
            i <= pops@.len(),
            p@ == pops_or_zero(pops@).take(i as int),
            any == exists|j: int| 0 <= j < i && pops_or_zero(pops@)[j] > 0,
        decreases pops@.len() - i,
    {
        let v = match pops[i] {
            Some(x) => x,
            None => 0,
        };
        assert(pops_or_zero(pops@)[i as int] == v);
        p.push(v);
        if v > 0 {
            any = true;
        }
        i = i + 1;
        assert(p@ =~= pops_or_zero(pops@).take(i as int));
    }
    assert(p@ =~= pops_or_zero(pops@));
    if any {
        let bars = bar_text(&p, 100);
        return (bars, String::from_str(s.precip_prob_label));
    }
    let mut blank = String::new();
    push_spaces(&mut blank, mm.len());
    (blank, String::from_str(s.no_precip_data))
}

/// Largest rate over all rows of a grid (zero for an empty grid).
pub open spec fn grid_max_spec(g: Seq<Vec<u32>>) -> u32
    decreases g.len(),
{
    if g.len() == 0 {
        0
    } else {
        let m = grid_max_spec(g.drop_last());
        let r = series_max(g.last()@);
        if r > m { r } else { m }
    }
}

proof fn lemma_grid_max(g: Seq<Vec<u32>>)
    ensures
        forall|j: int, i: int| 0 <= j < g.len() && 0 <= i < g[j]@.len() ==> #[trigger] g[j]@[i] <= grid_max_spec(g),
    decreases g.len(),
{
    if g.len() > 0 {
        lemma_grid_max(g.drop_last());
        lemma_series_max(g.last()@);
        assert forall|j: int, i: int| 0 <= j < g.len() && 0 <= i < g[j]@.len() implies #[trigger] g[j]@[i] <= grid_max_spec(g) by {
            if j < g.len() - 1 {
                assert(g[j] == g.drop_last()[j]);
            }
        }
    }
}

/// Strongest rain of a radar grid, in tenths of mm/h; it bounds every cell.
pub fn grid_max(g: &Vec<Vec<u32>>) -> (r: u32)
    ensures
        r == grid_max_spec(g@),
        forall|j: int, i: int| 0 <= j < g@.len() && 0 <= i < g@[j]@.len() ==> #[trigger] g@[j]@[i] <= r,
{
    let mut m: u32 = 0;
    let mut j: usize = 0;
    while j < g.len()
        invariant
            j <= g@.len(),
            m == grid_max_spec(g@.take(j as int)),
        decreases g@.len() - j,
    {
        assert(g@.take(j + 1).drop_last() =~= g@.take(j as int));
        let r = max_of(&g[j]);
        if r > m {
            m = r;
        }
        j = j + 1;
    }
    assert(g@.take(g@.len() as int) =~= g@);
    proof {
        lemma_grid_max(g@);
    }
    m
}

/// Width, in characters, of the key column of the help screen.
pub const HELP_KEY_W: usize = 14;

/// A line of the help screen: indent, the key left-aligned in `HELP_KEY_W`
/// characters (a longer key is kept whole), then the description.
pub open spec fn help_entry_spec(key: Seq<char>, desc: Seq<char>) -> Seq<char> {
    let pad = if key.len() < HELP_KEY_W { (HELP_KEY_W - key.len()) as nat } else { 0 };
    spaces(4) + key + spaces(pad) + desc
}

/// Formats one key binding of the help screen.
pub fn help_entry(key: &str, desc: &str) -> (r: String)
    ensures
        r@ == help_entry_spec(key@, desc@),
{
    let mut out = String::new();
    push_spaces(&mut out, 4);
    out.append(key);
    let n = key.unicode_len();
    if n < HELP_KEY_W {
        push_spaces(&mut out, HELP_KEY_W - n);
    } else {
        push_spaces(&mut out, 0);
    }
    out.append(desc);
    assert(out@ =~= help_entry_spec(key@, desc@));
    out
}

/// Heading of a section of the help screen.
pub fn section_title(title: &str) -> (r: String)
    ensures
        r@ == " ▶ "@ + title@,
{
    let mut out = String::from_str(" ▶ ");
    out.append(title);
    out
}

/// Blank lines above the splash screen's logo block of `content_lines` lines,
/// centring it in `height` rows (none when it does not fit).
pub fn splash_pad_top(height: u16, content_lines: u16) -> (r: u16)
    ensures
        r == (if height > content_lines { (height - content_lines) / 2 } else { 0 }),
{
    height.saturating_sub(content_lines) / 2
}

/// The time labels span the whole chart: the first labels the first hour and
/// the last labels the last hour, and they never go backwards.
pub proof fn lemma_labels_span_axis(n: int, count: int, k: int)
    requires
        n >= 1,
        count >= 2,
        0 <= k < count - 1,
    ensures
        label_index(0, n, count) == 0,
        label_index(count - 1, n, count) == n - 1,
        label_index(k, n, count) <= label_index(k + 1, n, count),
{
    assert((count - 1) * (n - 1) / (count - 1) == n - 1) by (nonlinear_arith)
        requires count >= 2, n >= 1;
    assert(k * (n - 1) <= (k + 1) * (n - 1)) by (nonlinear_arith)
        requires n >= 1, k >= 0;
    assert((k * (n - 1)) / (count - 1) <= ((k + 1) * (n - 1)) / (count - 1)) by (nonlinear_arith)
        requires k * (n - 1) <= (k + 1) * (n - 1), count >= 2;
}

/// More precipitation never draws a lower bar, and the scale's top draws the
/// full bar.
pub proof fn lemma_bar_monotone(a: u32, b: u32, top: u32)
    requires
        top > 0,
        a <= b,
    ensures
        bar_level(a, top) <= bar_level(b, top),
        bar_level(top, top) == 7,
        0 <= bar_level(a, top) <= 7,
{
    assert((14 * a + top) / (2 * top) <= (14 * b + top) / (2 * top)) by (nonlinear_arith)
        requires a <= b, top > 0;
    assert((14 * top + top) / (2 * top) == 7) by (nonlinear_arith)
        requires top > 0;
    assert((14 * a + top) / (2 * top) >= 0) by (nonlinear_arith)
        requires top > 0;
}

/// Placement of a centred box along one axis: the margin before it (half of
/// what is left, rounded down) and its length (what it wants, at most what
/// there is).
pub fn centered_span(available: u16, wanted: u16) -> (r: (u16, u16))
    ensures
        r.0 == (if available > wanted { (available - wanted) / 2 } else { 0 }),
        r.1 == (if wanted < available { wanted } else { available }),
        r.0 + r.1 <= available,
{
    let margin = available.saturating_sub(wanted) / 2;
    let len = if wanted < available { wanted } else { available };
    (margin, len)
}

} // verus!
