//! The tooltip composer and assembler.
//!
//! From an already-validated weather snapshot, display options and a theme,
//! this module composes the semantic content lines (current conditions, stat
//! rows, hourly and daily forecast rows), measures them, picks the box width
//! as the widest visible line floored at `MIN_WIDTH`, and frames everything
//! into a box whose every line is exactly `width + 4` visible columns.
//!
//! Numbers arrive already rounded to whole units; anything optional defaults
//! to zero (or, for the felt temperature, to the measured one). The hourly
//! and daily series are parallel vectors of equal length, an invariant the
//! ingesting collaborator establishes.

use vstd::prelude::*;

use crate::icons::{get_icon, icon_markup, IconSet};
use crate::markup::{
    bold_fg, bold_fg_spec, escape_text, fg, fg_spec, lemma_bold_fg_transparent, lemma_escape_len,
    lemma_escape_strip, lemma_fg_transparent, pango_escape,
};
use crate::numfmt::{int_str, int_to_string, lemma_int_str_clean, lemma_int_str_len};
use crate::template::{cardinal_spec, degrees_to_cardinal, find_idx};
use crate::theme::{colors_wf, ThemeColors};
use crate::boxdraw::{
    border_line, border_line_spec, bottom_border, content_width, empty_line, hrule, separator,
    spaces, top_border, MAX_BOX_WIDTH, MIN_WIDTH,
};
use crate::width::{
    char_cells, char_width, find_char, lemma_clean_strip, lemma_narrow_width, lemma_scan_ok_concat,
    narrow_char, scan_ok, str_to_chars, strip_markup, text_clean, vis_width, visible_len,
    MAX_TEXT_LEN,
};

verus! {

/// Longest input string (a city name, a date, a timestamp, a unit label)
/// the composer accepts; far beyond anything a weather API returns.
pub const MAX_FIELD_LEN: usize = 1000;

/// Longest composed content row; follows from the field bound with room to
/// spare, and keeps every row measurable.
pub const MAX_ROW_LEN: usize = 262144;

/// Current conditions, rounded to whole units. Missing optional fields are
/// defaulted at composition time.
pub struct CurrentWeather {
    pub temperature_2m: i32,
    pub weather_code: u8,
    pub is_day: u8,
    pub relative_humidity_2m: Option<i32>,
    pub apparent_temperature: Option<i32>,
    pub wind_speed_10m: Option<i32>,
    pub wind_direction_10m: Option<u16>,
    pub pressure_msl: Option<i32>,
    pub precipitation: Option<i32>,
}

/// The daily series: parallel vectors, index 0 is today.
pub struct DailyForecast {
    pub time: Vec<String>,
    pub weather_code: Vec<u8>,
    pub temperature_2m_max: Vec<i32>,
    pub temperature_2m_min: Vec<i32>,
    pub sunrise: Vec<String>,
    pub sunset: Vec<String>,
    pub precipitation_probability_max: Vec<u8>,
    pub wind_speed_10m_max: Vec<i32>,
}

/// The hourly series: parallel vectors.
pub struct HourlyForecast {
    pub time: Vec<String>,
    pub temperature_2m: Vec<i32>,
    pub weather_code: Vec<u8>,
    pub precipitation_probability: Vec<u8>,
}

/// A weather snapshot as the renderer consumes it.
pub struct WeatherData {
    pub current: CurrentWeather,
    pub daily: DailyForecast,
    pub hourly: Option<HourlyForecast>,
    pub timezone: String,
}

/// Which forecast sections the tooltip shows.
#[derive(Clone)]
pub enum TooltipFormat {
    Days,
    Hours,
    Both,
}

/// The sequences a daily row indexes are long enough and its strings short
/// enough to compose from.
pub open spec fn daily_wf(d: &DailyForecast) -> bool {
    &&& d.weather_code@.len() == d.time@.len()
    &&& d.temperature_2m_max@.len() == d.time@.len()
    &&& d.temperature_2m_min@.len() == d.time@.len()
    &&& forall|i: int| 0 <= i < d.time@.len() ==> (#[trigger] d.time@[i])@.len() <= MAX_FIELD_LEN
}

/// The sequences an hourly row indexes are long enough and its strings short
/// enough to compose from.
pub open spec fn hourly_wf(h: &HourlyForecast) -> bool {
    &&& h.weather_code@.len() == h.time@.len()
    &&& h.temperature_2m@.len() == h.time@.len()
    &&& forall|i: int| 0 <= i < h.time@.len() ==> (#[trigger] h.time@[i])@.len() <= MAX_FIELD_LEN
}

/// A unit label is short plain text.
pub open spec fn unit_wf(unit: Seq<char>) -> bool {
    &&& text_clean(unit)
    &&& unit.len() <= 100
}

/// The color a rain probability is tinted with: likely rain in the accent
/// color, possible rain in yellow, unlikely rain in green.
pub open spec fn rain_color_spec(pct: u8, c: &ThemeColors) -> Seq<char> {
    if pct >= 60 {
        c.accent@
    } else if pct >= 30 {
        c.yellow@
    } else {
        c.green@
    }
}

/// The color a rain probability is tinted with.
pub fn rain_color<'a>(pct: u8, colors: &'a ThemeColors) -> (r: &'a str)
    ensures
        r@ == rain_color_spec(pct, colors),
{
    if pct >= 60 {
        colors.accent.as_str()
    } else if pct >= 30 {
        colors.yellow.as_str()
    } else {
        colors.green.as_str()
    }
}

/// The rain glyph of each icon style.
pub open spec fn rain_icon_spec(set: &IconSet) -> Seq<char> {
    match set {
        IconSet::Nerd => "\u{f0597}"@,
        IconSet::Weather => "\u{e318}"@,
        IconSet::Emoji => "\u{1f4a7}"@,
        IconSet::Fontawesome => "\u{f73d}"@,
    }
}

/// The rain glyph of an icon style.
pub fn rain_icon(icon_set: &IconSet) -> (r: &'static str)
    ensures
        r@ == rain_icon_spec(icon_set),
        icon_set is Nerd ==> text_clean(r@),
{
    proof {
        reveal_strlit("\u{f0597}");
    }
    match icon_set {
        IconSet::Nerd => "\u{f0597}",
        IconSet::Weather => "\u{e318}",
        IconSet::Emoji => "\u{1f4a7}",
        IconSet::Fontawesome => "\u{f73d}",
    }
}

/// The colored rain suffix of a daily row: icon and percentage, present only
/// when the probability is positive — a zero suppresses it entirely.
pub open spec fn daily_rain_suffix(pct: u8, set: &IconSet, c: &ThemeColors) -> Seq<char> {
    if pct > 0 {
        "  "@ + fg_spec(rain_color_spec(pct, c), rain_icon_spec(set)) + "  "@ + fg_spec(
            rain_color_spec(pct, c),
            int_str(pct as int) + "%"@,
        )
    } else {
        Seq::empty()
    }
}

/// The colored rain suffix of an hourly row: percentage only, suppressed at
/// zero.
pub open spec fn hourly_rain_suffix(pct: u8, c: &ThemeColors) -> Seq<char> {
    if pct > 0 {
        "  "@ + fg_spec(rain_color_spec(pct, c), int_str(pct as int) + "%"@)
    } else {
        Seq::empty()
    }
}

/// The abbreviated weekday-and-day label of an ISO `YYYY-MM-DD` date, or the
/// date string itself when it does not parse. Fixed by the characters of the
/// date alone (see `short_day_name`).
pub uninterp spec fn day_label_of(date: Seq<char>) -> Seq<char>;

/// Relies on `chrono::NaiveDate::parse_from_str` with format `%Y-%m-%d` and
/// `chrono::NaiveDate::format` with `%a %d`: a date that parses becomes its
/// abbreviated weekday and two-digit day of month (six characters); one that
/// does not is returned unchanged. Either way the result is a function of
/// the date string alone and no longer than it plus six.
#[verifier::external_body]
pub(crate) fn short_day_name(date_str: &str) -> (r: String)
    ensures
        r@ == day_label_of(date_str@),
        r@.len() <= date_str@.len() + 6,
{
    if let Ok(date) = chrono::NaiveDate::parse_from_str(date_str, "%Y-%m-%d") {
        date.format("%a %d").to_string()
    } else {
        date_str.to_string()
    }
}

/// `s` padded on the right with spaces to at least `n` characters.
pub open spec fn pad_right(s: Seq<char>, n: nat) -> Seq<char> {
    s + crate::boxdraw::spaces(if s.len() < n {
        (n - s.len()) as nat
    } else {
        0
    })
}

/// Pad a string on the right with spaces to at least `n` characters.
fn pad_to(s: String, n: usize) -> (r: String)
    requires
        s@.len() <= MAX_FIELD_LEN + 6,
        n <= 16,
    ensures
        r@ == pad_right(s@, n as nat),
        r@.len() <= MAX_FIELD_LEN + 22,
{
    let ghost orig = s@;
    let base = s.unicode_len();
    if base >= n {
        proof {
            assert(crate::boxdraw::spaces(0) =~= Seq::<char>::empty());
            assert(orig + crate::boxdraw::spaces(0) =~= orig);
        }
        return s;
    }
    let mut r = s;
    let mut j = base;
    proof {
        assert(crate::boxdraw::spaces(0) =~= Seq::<char>::empty());
        assert(orig + crate::boxdraw::spaces(0) =~= orig);
    }
    while j < n
        invariant
            base == orig.len(),
            base <= j <= n,
            n <= 16,
            j == r@.len(),
            r@ == orig + crate::boxdraw::spaces((j - base) as nat),
        decreases n - j,
    {
        r.append(" ");
        j = j + 1;
        proof {
            reveal_strlit(" ");
            assert(" "@ =~= seq![' ']);
            assert(crate::boxdraw::spaces((j - base) as nat) =~= crate::boxdraw::spaces(
                (j - 1 - base) as nat,
            ) + seq![' ']);
            assert(r@ =~= orig + crate::boxdraw::spaces((j - base) as nat));
        }
    }
    r
}

/// The escaped, padded label of one daily row.
fn daily_label(date_str: &str) -> (r: String)
    requires
        date_str@.len() <= MAX_FIELD_LEN,
    ensures
        r@ == escape_text(pad_right(day_label_of(date_str@), 6)),
        scan_ok(r@),
        r@.len() <= 6 * MAX_FIELD_LEN,
{
    let raw = short_day_name(date_str);
    let padded = pad_to(raw, 6);
    let r = pango_escape(padded.as_str());
    proof {
        lemma_escape_strip(padded@);
        lemma_escape_len(padded@);
    }
    r
}

/// The `HH:MM` slice of an ISO timestamp: the five characters after the
/// first `T` (stopping at a second `T`); any shorter or `T`-less timestamp
/// falls back to the placeholder.
pub open spec fn hour_label_spec(t: Seq<char>) -> Seq<char> {
    let k = find_idx(t, 'T');
    if 0 <= k && k < t.len() {
        let rest = t.skip(k + 1);
        let k2 = find_idx(rest, 'T');
        let seg = if 0 <= k2 && k2 < rest.len() {
            rest.take(k2)
        } else {
            rest
        };
        if seg.len() >= 5 {
            seg.take(5)
        } else {
            "??:??"@
        }
    } else {
        "??:??"@
    }
}


/// The displayed time of one hourly row: always five characters.
fn hour_label(t: &str) -> (r: String)
    ensures
        r@ == hour_label_spec(t@),
        r@.len() == 5,
{
    proof {
        reveal_strlit("??:??");
    }
    let cs = str_to_chars(t);
    let n = cs.len();
    match find_char(&cs, 0, 'T') {
        None => {
            proof {
                crate::template::lemma_find_idx_none(t@, 'T');
            }
            String::from_str("??:??")
        },
        Some(k) => {
            proof {
                crate::template::lemma_find_idx_is(t@, 'T', k as int);
            }
            let ghost rest = t@.skip(k as int + 1);
            proof {
                assert(forall|m: int|
                    0 <= m < rest.len() ==> rest[m] == t@[k as int + 1 + m]);
            }
            let seg_end: usize = match find_char(&cs, k + 1, 'T') {
                Some(k2) => {
                    proof {
                        crate::template::lemma_find_idx_is(rest, 'T', k2 - (k as int + 1));
                    }
                    k2
                },
                None => {
                    proof {
                        crate::template::lemma_find_idx_none(rest, 'T');
                    }
                    n
                },
            };
            let ghost seg = if 0 <= find_idx(rest, 'T') && find_idx(rest, 'T') < rest.len() {
                rest.take(find_idx(rest, 'T'))
            } else {
                rest
            };
            proof {
                assert(seg =~= t@.subrange(k as int + 1, seg_end as int));
            }
            if seg_end - (k + 1) >= 5 {
                let mut out: Vec<char> = Vec::new();
                let mut m: usize = k + 1;
                while m < k + 6
                    invariant
                        k + 6 <= seg_end <= n,
                        n == cs@.len(),
                        cs@ == t@,
                        k + 1 <= m <= k + 6,
                        out@ == t@.subrange(k as int + 1, m as int),
                    decreases k + 6 - m,
                {
                    out.push(cs[m]);
                    proof {
                        assert(t@.subrange(k as int + 1, m as int + 1) =~= t@.subrange(
                            k as int + 1,
                            m as int,
                        ) + seq![t@[m as int]]);
                    }
                    m = m + 1;
                }
                proof {
                    assert(out@ =~= seg.take(5));
                }
                crate::width::chars_to_string(&out)
            } else {
                String::from_str("??:??")
            }
        },
    }
}

/// The colored daily rain suffix, or nothing at probability zero.
fn daily_rain_str(pct: u8, icon_set: &IconSet, colors: &ThemeColors) -> (r: String)
    requires
        icon_set is Nerd,
        colors_wf(colors),
    ensures
        r@ == daily_rain_suffix(pct, icon_set, colors),
        scan_ok(r@),
        r@.len() <= 10000,
{
    if pct > 0 {
        let rc = rain_color(pct, colors);
        let mut pv = int_to_string(pct as i32);
        pv.append("%");
        let icon_span = fg(rc, rain_icon(icon_set));
        let pct_span = fg(rc, pv.as_str());
        let mut r = String::new();
        r.append("  ");
        r.append(icon_span.as_str());
        r.append("  ");
        r.append(pct_span.as_str());
        proof {
            reveal_strlit("  ");
            reveal_strlit("%");
            assert(pv@ =~= int_str(pct as int) + "%"@);
            assert(r@ =~= daily_rain_suffix(pct, icon_set, colors));
            assert(text_clean("  "@));
            assert(text_clean("%"@));
            lemma_int_str_clean(pct as int);
            assert(text_clean(int_str(pct as int) + "%"@));
            lemma_clean_strip("  "@);
            lemma_clean_strip(rain_icon_spec(icon_set));
            lemma_clean_strip(int_str(pct as int) + "%"@);
            lemma_fg_transparent(rain_color_spec(pct, colors), rain_icon_spec(icon_set));
            lemma_fg_transparent(rain_color_spec(pct, colors), int_str(pct as int) + "%"@);
            lemma_scan_ok_concat("  "@, icon_span@);
            lemma_scan_ok_concat("  "@ + icon_span@, "  "@);
            lemma_scan_ok_concat("  "@ + icon_span@ + "  "@, pct_span@);
            reveal_strlit("\u{f0597}");
            crate::markup::lemma_fg_len(rain_color_spec(pct, colors), rain_icon_spec(icon_set));
            crate::markup::lemma_fg_len(
                rain_color_spec(pct, colors),
                int_str(pct as int) + "%"@,
            );
            lemma_int_str_len(pct as int);
        }
        r
    } else {
        let r = String::new();
        proof {
            assert(strip_markup(r@) =~= r@);
        }
        r
    }
}

/// The colored hourly rain suffix, or nothing at probability zero.
fn hourly_rain_str(pct: u8, colors: &ThemeColors) -> (r: String)
    requires
        colors_wf(colors),
    ensures
        r@ == hourly_rain_suffix(pct, colors),
        scan_ok(r@),
        r@.len() <= 10000,
{
    if pct > 0 {
        let rc = rain_color(pct, colors);
        let mut pv = int_to_string(pct as i32);
        pv.append("%");
        let pct_span = fg(rc, pv.as_str());
        let mut r = String::new();
        r.append("  ");
        r.append(pct_span.as_str());
        proof {
            reveal_strlit("  ");
            reveal_strlit("%");
            assert(pv@ =~= int_str(pct as int) + "%"@);
            assert(r@ =~= hourly_rain_suffix(pct, colors));
            assert(text_clean("  "@));
            lemma_int_str_clean(pct as int);
            assert(text_clean(int_str(pct as int) + "%"@));
            lemma_clean_strip("  "@);
            lemma_clean_strip(int_str(pct as int) + "%"@);
            lemma_fg_transparent(rain_color_spec(pct, colors), int_str(pct as int) + "%"@);
            lemma_scan_ok_concat("  "@, pct_span@);
            crate::markup::lemma_fg_len(
                rain_color_spec(pct, colors),
                int_str(pct as int) + "%"@,
            );
            lemma_int_str_len(pct as int);
        }
        r
    } else {
        let r = String::new();
        proof {
            assert(strip_markup(r@) =~= r@);
        }
        r
    }
}

/// One daily forecast row: icon, padded weekday label, min/max temperatures
/// in green and orange, the unit, and the conditional rain suffix.
pub open spec fn daily_row_spec(
    d: &DailyForecast,
    i: int,
    set: &IconSet,
    unit: Seq<char>,
    c: &ThemeColors,
) -> Seq<char> {
    let code = d.weather_code@[i];
    let rain = if i < d.precipitation_probability_max@.len() {
        d.precipitation_probability_max@[i]
    } else {
        0
    };
    "  "@ + fg_spec(c.text@, icon_markup(code, true, set)) + " "@ + bold_fg_spec(
        c.text@,
        escape_text(pad_right(day_label_of(d.time@[i]@), 6)),
    ) + "  "@ + fg_spec(c.dim@, ""@) + " "@ + fg_spec(
        c.green@,
        int_str(d.temperature_2m_min@[i] as int),
    ) + "/"@ + fg_spec(c.orange@, int_str(d.temperature_2m_max@[i] as int)) + fg_spec(c.dim@, unit)
        + daily_rain_suffix(rain, set, c)
}

/// One hourly forecast row: time of day, icon, temperature, the unit, and
/// the conditional rain suffix.
pub open spec fn hourly_row_spec(
    h: &HourlyForecast,
    i: int,
    set: &IconSet,
    unit: Seq<char>,
    c: &ThemeColors,
) -> Seq<char> {
    let code = h.weather_code@[i];
    let rain = if i < h.precipitation_probability@.len() {
        h.precipitation_probability@[i]
    } else {
        0
    };
    "  "@ + fg_spec(c.dim@, escape_text(hour_label_spec(h.time@[i]@))) + " "@ + fg_spec(
        c.text@,
        icon_markup(code, true, set),
    ) + "  "@ + fg_spec(c.dim@, ""@) + " "@ + fg_spec(
        c.text@,
        int_str(h.temperature_2m@[i] as int),
    ) + fg_spec(c.dim@, unit) + hourly_rain_suffix(rain, c)
}

/// Compose one daily row.
fn daily_row(
    d: &DailyForecast,
    i: usize,
    icon_set: &IconSet,
    unit_label: &str,
    colors: &ThemeColors,
) -> (r: String)
    requires
        daily_wf(d),
        i < d.time@.len(),
        icon_set is Nerd,
        unit_wf(unit_label@),
        colors_wf(colors),
    ensures
        r@ == daily_row_spec(d, i as int, icon_set, unit_label@, colors),
        scan_ok(r@),
        r@.len() <= MAX_ROW_LEN,
{
    let code = d.weather_code[i];
    let icon_info = get_icon(code, true, icon_set);
    let label = daily_label(d.time[i].as_str());
    let min_s = int_to_string(d.temperature_2m_min[i]);
    let max_s = int_to_string(d.temperature_2m_max[i]);
    let rain: u8 = if i < d.precipitation_probability_max.len() {
        d.precipitation_probability_max[i]
    } else {
        0
    };
    let rain_str = daily_rain_str(rain, icon_set, colors);
    let seg_icon = fg(colors.text.as_str(), icon_info.icon.as_str());
    let seg_day = bold_fg(colors.text.as_str(), label.as_str());
    let seg_glyph = fg(colors.dim.as_str(), "");
    let seg_min = fg(colors.green.as_str(), min_s.as_str());
    let seg_max = fg(colors.orange.as_str(), max_s.as_str());
    let seg_unit = fg(colors.dim.as_str(), unit_label);
    let mut r = String::new();
    r.append("  ");
    r.append(seg_icon.as_str());
    r.append(" ");
    r.append(seg_day.as_str());
    r.append("  ");
    r.append(seg_glyph.as_str());
    r.append(" ");
    r.append(seg_min.as_str());
    r.append("/");
    r.append(seg_max.as_str());
    r.append(seg_unit.as_str());
    r.append(rain_str.as_str());
    proof {
        crate::icons::lemma_entry_clean(code);
        reveal_strlit("  ");
        reveal_strlit(" ");
        reveal_strlit("/");
        reveal_strlit("");
        assert(r@ =~= daily_row_spec(d, i as int, icon_set, unit_label@, colors));
        assert(text_clean("  "@));
        assert(text_clean(" "@));
        assert(text_clean("/"@));
        assert(text_clean(""@));
        lemma_clean_strip("  "@);
        lemma_clean_strip(" "@);
        lemma_clean_strip("/"@);
        lemma_clean_strip(""@);
        lemma_clean_strip(icon_info.icon@);
        lemma_int_str_clean(d.temperature_2m_min@[i as int] as int);
        lemma_int_str_clean(d.temperature_2m_max@[i as int] as int);
        lemma_clean_strip(min_s@);
        lemma_clean_strip(max_s@);
        lemma_clean_strip(unit_label@);
        lemma_fg_transparent(colors.text@, icon_info.icon@);
        lemma_bold_fg_transparent(colors.text@, label@);
        lemma_fg_transparent(colors.dim@, ""@);
        lemma_fg_transparent(colors.green@, min_s@);
        lemma_fg_transparent(colors.orange@, max_s@);
        lemma_fg_transparent(colors.dim@, unit_label@);
        lemma_scan_ok_concat("  "@, seg_icon@);
        lemma_scan_ok_concat("  "@ + seg_icon@, " "@);
        lemma_scan_ok_concat("  "@ + seg_icon@ + " "@, seg_day@);
        lemma_scan_ok_concat("  "@ + seg_icon@ + " "@ + seg_day@, "  "@);
        lemma_scan_ok_concat("  "@ + seg_icon@ + " "@ + seg_day@ + "  "@, seg_glyph@);
        lemma_scan_ok_concat("  "@ + seg_icon@ + " "@ + seg_day@ + "  "@ + seg_glyph@, " "@);
        lemma_scan_ok_concat(
            "  "@ + seg_icon@ + " "@ + seg_day@ + "  "@ + seg_glyph@ + " "@,
            seg_min@,
        );
        lemma_scan_ok_concat(
            "  "@ + seg_icon@ + " "@ + seg_day@ + "  "@ + seg_glyph@ + " "@ + seg_min@,
            "/"@,
        );
        lemma_scan_ok_concat(
            "  "@ + seg_icon@ + " "@ + seg_day@ + "  "@ + seg_glyph@ + " "@ + seg_min@ + "/"@,
            seg_max@,
        );
        lemma_scan_ok_concat(
            "  "@ + seg_icon@ + " "@ + seg_day@ + "  "@ + seg_glyph@ + " "@ + seg_min@ + "/"@
                + seg_max@,
            seg_unit@,
        );
        lemma_scan_ok_concat(
            "  "@ + seg_icon@ + " "@ + seg_day@ + "  "@ + seg_glyph@ + " "@ + seg_min@ + "/"@
                + seg_max@ + seg_unit@,
            rain_str@,
        );
        crate::markup::lemma_fg_len(colors.text@, icon_info.icon@);
        crate::markup::lemma_bold_fg_len(colors.text@, label@);
        crate::markup::lemma_fg_len(colors.dim@, ""@);
        crate::markup::lemma_fg_len(colors.green@, min_s@);
        crate::markup::lemma_fg_len(colors.orange@, max_s@);
        crate::markup::lemma_fg_len(colors.dim@, unit_label@);
        lemma_int_str_len(d.temperature_2m_min@[i as int] as int);
        lemma_int_str_len(d.temperature_2m_max@[i as int] as int);
    }
    r
}

/// Compose one hourly row.
fn hourly_row(
    h: &HourlyForecast,
    i: usize,
    icon_set: &IconSet,
    unit_label: &str,
    colors: &ThemeColors,
) -> (r: String)
    requires
        hourly_wf(h),
        i < h.time@.len(),
        icon_set is Nerd,
        unit_wf(unit_label@),
        colors_wf(colors),
    ensures
        r@ == hourly_row_spec(h, i as int, icon_set, unit_label@, colors),
        scan_ok(r@),
        r@.len() <= MAX_ROW_LEN,
{
    let code = h.weather_code[i];
    let icon_info = get_icon(code, true, icon_set);
    let hl = hour_label(h.time[i].as_str());
    let time_esc = pango_escape(hl.as_str());
    let temp_s = int_to_string(h.temperature_2m[i]);
    let rain: u8 = if i < h.precipitation_probability.len() {
        h.precipitation_probability[i]
    } else {
        0
    };
    let rain_str = hourly_rain_str(rain, colors);
    let seg_time = fg(colors.dim.as_str(), time_esc.as_str());
    let seg_icon = fg(colors.text.as_str(), icon_info.icon.as_str());
    let seg_glyph = fg(colors.dim.as_str(), "");
    let seg_temp = fg(colors.text.as_str(), temp_s.as_str());
    let seg_unit = fg(colors.dim.as_str(), unit_label);
    let mut r = String::new();
    r.append("  ");
    r.append(seg_time.as_str());
    r.append(" ");
    r.append(seg_icon.as_str());
    r.append("  ");
    r.append(seg_glyph.as_str());
    r.append(" ");
    r.append(seg_temp.as_str());
    r.append(seg_unit.as_str());
    r.append(rain_str.as_str());
    proof {
        crate::icons::lemma_entry_clean(code);
        reveal_strlit("  ");
        reveal_strlit(" ");
        reveal_strlit("");
        assert(r@ =~= hourly_row_spec(h, i as int, icon_set, unit_label@, colors));
        assert(text_clean("  "@));
        assert(text_clean(" "@));
        assert(text_clean(""@));
        lemma_escape_strip(hl@);
        lemma_escape_len(hl@);
        lemma_clean_strip("  "@);
        lemma_clean_strip(" "@);
        lemma_clean_strip(""@);
        lemma_clean_strip(icon_info.icon@);
        lemma_int_str_clean(h.temperature_2m@[i as int] as int);
        lemma_clean_strip(temp_s@);
        lemma_clean_strip(unit_label@);
        lemma_fg_transparent(colors.dim@, time_esc@);
        lemma_fg_transparent(colors.text@, icon_info.icon@);
        lemma_fg_transparent(colors.dim@, ""@);
        lemma_fg_transparent(colors.text@, temp_s@);
        lemma_fg_transparent(colors.dim@, unit_label@);
        lemma_scan_ok_concat("  "@, seg_time@);
        lemma_scan_ok_concat("  "@ + seg_time@, " "@);
        lemma_scan_ok_concat("  "@ + seg_time@ + " "@, seg_icon@);
        lemma_scan_ok_concat("  "@ + seg_time@ + " "@ + seg_icon@, "  "@);
        lemma_scan_ok_concat("  "@ + seg_time@ + " "@ + seg_icon@ + "  "@, seg_glyph@);
        lemma_scan_ok_concat(
            "  "@ + seg_time@ + " "@ + seg_icon@ + "  "@ + seg_glyph@,
            " "@,
        );
        lemma_scan_ok_concat(
            "  "@ + seg_time@ + " "@ + seg_icon@ + "  "@ + seg_glyph@ + " "@,
            seg_temp@,
        );
        lemma_scan_ok_concat(
            "  "@ + seg_time@ + " "@ + seg_icon@ + "  "@ + seg_glyph@ + " "@ + seg_temp@,
            seg_unit@,
        );
        lemma_scan_ok_concat(
            "  "@ + seg_time@ + " "@ + seg_icon@ + "  "@ + seg_glyph@ + " "@ + seg_temp@
                + seg_unit@,
            rain_str@,
        );
        crate::markup::lemma_fg_len(colors.dim@, time_esc@);
        crate::markup::lemma_fg_len(colors.text@, icon_info.icon@);
        crate::markup::lemma_fg_len(colors.dim@, ""@);
        crate::markup::lemma_fg_len(colors.text@, temp_s@);
        crate::markup::lemma_fg_len(colors.dim@, unit_label@);
        lemma_int_str_len(h.temperature_2m@[i as int] as int);
    }
    r
}

/// How many daily rows are shown: the requested count, capped at the data.
pub open spec fn daily_count(d: &DailyForecast, days: u8) -> int {
    if (days as int) < d.time@.len() {
        days as int
    } else {
        d.time@.len() as int
    }
}

/// How many hourly rows are shown: the requested count, capped at the data.
pub open spec fn hourly_count(h: &HourlyForecast, hours: u8) -> int {
    if (hours as int) < h.time@.len() {
        hours as int
    } else {
        h.time@.len() as int
    }
}

/// Compose the daily forecast rows: one per requested day, capped at the
/// available data.
pub fn build_daily_lines(
    daily: &DailyForecast,
    days: u8,
    icon_set: &IconSet,
    unit_label: &str,
    colors: &ThemeColors,
) -> (r: Vec<String>)
    requires
        daily_wf(daily),
        icon_set is Nerd,
        unit_wf(unit_label@),
        colors_wf(colors),
    ensures
        r@.len() == daily_count(daily, days),
        forall|i: int|
            0 <= i < r@.len() ==> (#[trigger] r@[i])@ == daily_row_spec(
                daily,
                i,
                icon_set,
                unit_label@,
                colors,
            ) && scan_ok(r@[i]@) && r@[i]@.len() <= MAX_ROW_LEN,
{
    let count = if (days as usize) < daily.time.len() {
        days as usize
    } else {
        daily.time.len()
    };
    let mut lines: Vec<String> = Vec::new();
    let mut i: usize = 0;
    while i < count
        invariant
            count == daily_count(daily, days),
            i <= count,
            count <= daily.time@.len(),
            daily_wf(daily),
            icon_set is Nerd,
            unit_wf(unit_label@),
            colors_wf(colors),
            lines@.len() == i,
            forall|m: int|
                0 <= m < i ==> (#[trigger] lines@[m])@ == daily_row_spec(
                    daily,
                    m,
                    icon_set,
                    unit_label@,
                    colors,
                ) && scan_ok(lines@[m]@) && lines@[m]@.len() <= MAX_ROW_LEN,
        decreases count - i,
    {
        let row = daily_row(daily, i, icon_set, unit_label, colors);
        lines.push(row);
        i = i + 1;
    }
    lines
}

/// Compose the hourly forecast rows: one per requested hour, capped at the
/// available data.
pub fn build_hourly_lines(
    hourly: &HourlyForecast,
    hours: u8,
    icon_set: &IconSet,
    unit_label: &str,
    colors: &ThemeColors,
) -> (r: Vec<String>)
    requires
        hourly_wf(hourly),
        icon_set is Nerd,
        unit_wf(unit_label@),
        colors_wf(colors),
    ensures
        r@.len() == hourly_count(hourly, hours),
        forall|i: int|
            0 <= i < r@.len() ==> (#[trigger] r@[i])@ == hourly_row_spec(
                hourly,
                i,
                icon_set,
                unit_label@,
                colors,
            ) && scan_ok(r@[i]@) && r@[i]@.len() <= MAX_ROW_LEN,
{
    let count = if (hours as usize) < hourly.time.len() {
        hours as usize
    } else {
        hourly.time.len()
    };
    let mut lines: Vec<String> = Vec::new();
    let mut i: usize = 0;
    while i < count
        invariant
            count == hourly_count(hourly, hours),
            i <= count,
            count <= hourly.time@.len(),
            hourly_wf(hourly),
            icon_set is Nerd,
            unit_wf(unit_label@),
            colors_wf(colors),
            lines@.len() == i,
            forall|m: int|
                0 <= m < i ==> (#[trigger] lines@[m])@ == hourly_row_spec(
                    hourly,
                    m,
                    icon_set,
                    unit_label@,
                    colors,
                ) && scan_ok(lines@[m]@) && lines@[m]@.len() <= MAX_ROW_LEN,
        decreases count - i,
    {
        let row = hourly_row(hourly, i, icon_set, unit_label, colors);
        lines.push(row);
        i = i + 1;
    }
    lines
}

/// An optional rounded value, or its default.
pub open spec fn opt_or(o: Option<i32>, d: int) -> int {
    match o {
        Some(v) => v as int,
        None => d,
    }
}

/// The wind-speed unit derived from the temperature unit.
pub open spec fn speed_unit_spec(unit: Seq<char>) -> Seq<char> {
    if unit == "°F"@ {
        "mph"@
    } else {
        "km/h"@
    }
}

/// The current-conditions line: icon, bold temperature, dim description,
/// dim felt temperature (defaulting to the measured one when absent).
pub open spec fn current_line_spec(
    cur: &CurrentWeather,
    set: &IconSet,
    unit: Seq<char>,
    c: &ThemeColors,
) -> Seq<char> {
    let temp = cur.temperature_2m as int;
    let feels = opt_or(cur.apparent_temperature, temp);
    "  "@ + fg_spec(c.text@, icon_markup(cur.weather_code, cur.is_day == 1, set)) + " "@
        + bold_fg_spec(c.accent@, int_str(temp) + unit) + "  "@ + fg_spec(
        c.dim@,
        crate::icons::entry_view(cur.weather_code).description,
    ) + "  "@ + fg_spec(c.dim@, "feels"@) + " "@ + fg_spec(c.dim@, int_str(feels) + unit)
}

/// The first stat line: humidity in percent, wind speed with its unit and
/// compass direction.
pub open spec fn stats1_spec(cur: &CurrentWeather, unit: Seq<char>, c: &ThemeColors) -> Seq<
    char,
> {
    let humidity = opt_or(cur.relative_humidity_2m, 0);
    let wind = opt_or(cur.wind_speed_10m, 0);
    let dir = cardinal_spec(
        match cur.wind_direction_10m {
            Some(v) => v as int,
            None => 0,
        },
    );
    "  "@ + fg_spec(c.accent@, "\u{f058e}"@) + "  "@ + fg_spec(c.text@, int_str(humidity))
        + fg_spec(c.dim@, "%"@) + "   "@ + fg_spec(c.accent@, "\u{f059d}"@) + "  "@ + fg_spec(
        c.text@,
        int_str(wind),
    ) + " "@ + fg_spec(c.dim@, speed_unit_spec(unit)) + " "@ + fg_spec(c.dim@, dir)
}

/// The second stat line: pressure in hectopascal.
pub open spec fn stats2_spec(cur: &CurrentWeather, c: &ThemeColors) -> Seq<char> {
    let pressure = opt_or(cur.pressure_msl, 0);
    "  "@ + fg_spec(c.accent@, "\u{f058f}"@) + "  "@ + fg_spec(c.text@, int_str(pressure)) + " "@
        + fg_spec(c.dim@, "hPa"@)
}

/// Compose the current-conditions line.
fn current_line(
    cur: &CurrentWeather,
    icon_set: &IconSet,
    unit_label: &str,
    colors: &ThemeColors,
) -> (r: String)
    requires
        icon_set is Nerd,
        unit_wf(unit_label@),
        colors_wf(colors),
    ensures
        r@ == current_line_spec(cur, icon_set, unit_label@, colors),
        scan_ok(r@),
        r@.len() <= MAX_ROW_LEN,
{
    let icon_info = get_icon(cur.weather_code, cur.is_day == 1, icon_set);
    let temp = cur.temperature_2m;
    let feels = match cur.apparent_temperature {
        Some(v) => v,
        None => temp,
    };
    let mut temp_text = int_to_string(temp);
    temp_text.append(unit_label);
    let mut feels_text = int_to_string(feels);
    feels_text.append(unit_label);
    let seg_icon = fg(colors.text.as_str(), icon_info.icon.as_str());
    let seg_temp = bold_fg(colors.accent.as_str(), temp_text.as_str());
    let seg_desc = fg(colors.dim.as_str(), icon_info.description);
    let seg_feels_word = fg(colors.dim.as_str(), "feels");
    let seg_feels = fg(colors.dim.as_str(), feels_text.as_str());
    let mut r = String::new();
    r.append("  ");
    r.append(seg_icon.as_str());
    r.append(" ");
    r.append(seg_temp.as_str());
    r.append("  ");
    r.append(seg_desc.as_str());
    r.append("  ");
    r.append(seg_feels_word.as_str());
    r.append(" ");
    r.append(seg_feels.as_str());
    proof {
        crate::icons::lemma_entry_clean(cur.weather_code);
        reveal_strlit("  ");
        reveal_strlit(" ");
        reveal_strlit("feels");
        assert(r@ =~= current_line_spec(cur, icon_set, unit_label@, colors));
        assert(text_clean("  "@));
        assert(text_clean(" "@));
        assert(text_clean("feels"@));
        lemma_int_str_clean(temp as int);
        lemma_int_str_clean(feels as int);
        assert(text_clean(temp_text@));
        assert(text_clean(feels_text@));
        lemma_clean_strip("  "@);
        lemma_clean_strip(" "@);
        lemma_clean_strip("feels"@);
        lemma_clean_strip(icon_info.icon@);
        lemma_clean_strip(icon_info.description@);
        lemma_clean_strip(temp_text@);
        lemma_clean_strip(feels_text@);
        lemma_fg_transparent(colors.text@, icon_info.icon@);
        lemma_bold_fg_transparent(colors.accent@, temp_text@);
        lemma_fg_transparent(colors.dim@, icon_info.description@);
        lemma_fg_transparent(colors.dim@, "feels"@);
        lemma_fg_transparent(colors.dim@, feels_text@);
        lemma_scan_ok_concat("  "@, seg_icon@);
        lemma_scan_ok_concat("  "@ + seg_icon@, " "@);
        lemma_scan_ok_concat("  "@ + seg_icon@ + " "@, seg_temp@);
        lemma_scan_ok_concat("  "@ + seg_icon@ + " "@ + seg_temp@, "  "@);
        lemma_scan_ok_concat("  "@ + seg_icon@ + " "@ + seg_temp@ + "  "@, seg_desc@);
        lemma_scan_ok_concat(
            "  "@ + seg_icon@ + " "@ + seg_temp@ + "  "@ + seg_desc@,
            "  "@,
        );
        lemma_scan_ok_concat(
            "  "@ + seg_icon@ + " "@ + seg_temp@ + "  "@ + seg_desc@ + "  "@,
            seg_feels_word@,
        );
        lemma_scan_ok_concat(
            "  "@ + seg_icon@ + " "@ + seg_temp@ + "  "@ + seg_desc@ + "  "@ + seg_feels_word@,
            " "@,
        );
        lemma_scan_ok_concat(
            "  "@ + seg_icon@ + " "@ + seg_temp@ + "  "@ + seg_desc@ + "  "@ + seg_feels_word@
                + " "@,
            seg_feels@,
        );
        crate::markup::lemma_fg_len(colors.text@, icon_info.icon@);
        crate::markup::lemma_bold_fg_len(colors.accent@, temp_text@);
        crate::markup::lemma_fg_len(colors.dim@, icon_info.description@);
        crate::markup::lemma_fg_len(colors.dim@, "feels"@);
        crate::markup::lemma_fg_len(colors.dim@, feels_text@);
        lemma_int_str_len(temp as int);
        lemma_int_str_len(feels as int);
    }
    r
}

/// Compose the first stat line.
fn stats1_line(cur: &CurrentWeather, unit_label: &str, colors: &ThemeColors) -> (r: String)
    requires
        unit_wf(unit_label@),
        colors_wf(colors),
    ensures
        r@ == stats1_spec(cur, unit_label@, colors),
        scan_ok(r@),
        r@.len() <= MAX_ROW_LEN,
{
    let humidity = match cur.relative_humidity_2m {
        Some(v) => v,
        None => 0,
    };
    let wind = match cur.wind_speed_10m {
        Some(v) => v,
        None => 0,
    };
    let dir_deg: u16 = match cur.wind_direction_10m {
        Some(v) => v,
        None => 0,
    };
    let dir = degrees_to_cardinal(dir_deg);
    let speed_unit = if crate::template::str_eq(unit_label, "°F") {
        "mph"
    } else {
        "km/h"
    };
    let humidity_text = int_to_string(humidity);
    let wind_text = int_to_string(wind);
    let seg_hicon = fg(colors.accent.as_str(), "\u{f058e}");
    let seg_hval = fg(colors.text.as_str(), humidity_text.as_str());
    let seg_pct = fg(colors.dim.as_str(), "%");
    let seg_wicon = fg(colors.accent.as_str(), "\u{f059d}");
    let seg_wval = fg(colors.text.as_str(), wind_text.as_str());
    let seg_wunit = fg(colors.dim.as_str(), speed_unit);
    let seg_wdir = fg(colors.dim.as_str(), dir);
    let mut r = String::new();
    r.append("  ");
    r.append(seg_hicon.as_str());
    r.append("  ");
    r.append(seg_hval.as_str());
    r.append(seg_pct.as_str());
    r.append("   ");
    r.append(seg_wicon.as_str());
    r.append("  ");
    r.append(seg_wval.as_str());
    r.append(" ");
    r.append(seg_wunit.as_str());
    r.append(" ");
    r.append(seg_wdir.as_str());
    proof {
        reveal_strlit("  ");
        reveal_strlit("   ");
        reveal_strlit(" ");
        reveal_strlit("%");
        reveal_strlit("\u{f058e}");
        reveal_strlit("\u{f059d}");
        reveal_strlit("mph");
        reveal_strlit("km/h");
        assert(r@ =~= stats1_spec(cur, unit_label@, colors));
        assert(text_clean("  "@));
        assert(text_clean("   "@));
        assert(text_clean(" "@));
        assert(text_clean("%"@));
        assert(text_clean("\u{f058e}"@));
        assert(text_clean("\u{f059d}"@));
        assert(text_clean(speed_unit@));
        lemma_int_str_clean(humidity as int);
        lemma_int_str_clean(wind as int);
        crate::template::lemma_cardinal_clean(dir_deg as int);
        lemma_clean_strip("  "@);
        lemma_clean_strip("   "@);
        lemma_clean_strip(" "@);
        lemma_clean_strip("%"@);
        lemma_clean_strip("\u{f058e}"@);
        lemma_clean_strip("\u{f059d}"@);
        lemma_clean_strip(speed_unit@);
        lemma_clean_strip(humidity_text@);
        lemma_clean_strip(wind_text@);
        lemma_clean_strip(dir@);
        lemma_fg_transparent(colors.accent@, "\u{f058e}"@);
        lemma_fg_transparent(colors.text@, humidity_text@);
        lemma_fg_transparent(colors.dim@, "%"@);
        lemma_fg_transparent(colors.accent@, "\u{f059d}"@);
        lemma_fg_transparent(colors.text@, wind_text@);
        lemma_fg_transparent(colors.dim@, speed_unit@);
        lemma_fg_transparent(colors.dim@, dir@);
        lemma_scan_ok_concat("  "@, seg_hicon@);
        lemma_scan_ok_concat("  "@ + seg_hicon@, "  "@);
        lemma_scan_ok_concat("  "@ + seg_hicon@ + "  "@, seg_hval@);
        lemma_scan_ok_concat("  "@ + seg_hicon@ + "  "@ + seg_hval@, seg_pct@);
        lemma_scan_ok_concat("  "@ + seg_hicon@ + "  "@ + seg_hval@ + seg_pct@, "   "@);
        lemma_scan_ok_concat(
            "  "@ + seg_hicon@ + "  "@ + seg_hval@ + seg_pct@ + "   "@,
            seg_wicon@,
        );
        lemma_scan_ok_concat(
            "  "@ + seg_hicon@ + "  "@ + seg_hval@ + seg_pct@ + "   "@ + seg_wicon@,
            "  "@,
        );
        lemma_scan_ok_concat(
            "  "@ + seg_hicon@ + "  "@ + seg_hval@ + seg_pct@ + "   "@ + seg_wicon@ + "  "@,
            seg_wval@,
        );
        lemma_scan_ok_concat(
            "  "@ + seg_hicon@ + "  "@ + seg_hval@ + seg_pct@ + "   "@ + seg_wicon@ + "  "@
                + seg_wval@,
            " "@,
        );
        lemma_scan_ok_concat(
            "  "@ + seg_hicon@ + "  "@ + seg_hval@ + seg_pct@ + "   "@ + seg_wicon@ + "  "@
                + seg_wval@ + " "@,
            seg_wunit@,
        );
        lemma_scan_ok_concat(
            "  "@ + seg_hicon@ + "  "@ + seg_hval@ + seg_pct@ + "   "@ + seg_wicon@ + "  "@
                + seg_wval@ + " "@ + seg_wunit@,
            " "@,
        );
        lemma_scan_ok_concat(
            "  "@ + seg_hicon@ + "  "@ + seg_hval@ + seg_pct@ + "   "@ + seg_wicon@ + "  "@
                + seg_wval@ + " "@ + seg_wunit@ + " "@,
            seg_wdir@,
        );
        crate::markup::lemma_fg_len(colors.accent@, "\u{f058e}"@);
        crate::markup::lemma_fg_len(colors.text@, humidity_text@);
        crate::markup::lemma_fg_len(colors.dim@, "%"@);
        crate::markup::lemma_fg_len(colors.accent@, "\u{f059d}"@);
        crate::markup::lemma_fg_len(colors.text@, wind_text@);
        crate::markup::lemma_fg_len(colors.dim@, speed_unit@);
        crate::markup::lemma_fg_len(colors.dim@, dir@);
        lemma_int_str_len(humidity as int);
        lemma_int_str_len(wind as int);
    }
    r
}

/// Compose the second stat line.
fn stats2_line(cur: &CurrentWeather, colors: &ThemeColors) -> (r: String)
    requires
        colors_wf(colors),
    ensures
        r@ == stats2_spec(cur, colors),
        scan_ok(r@),
        r@.len() <= MAX_ROW_LEN,
{
    let pressure = match cur.pressure_msl {
        Some(v) => v,
        None => 0,
    };
    let pressure_text = int_to_string(pressure);
    let seg_picon = fg(colors.accent.as_str(), "\u{f058f}");
    let seg_pval = fg(colors.text.as_str(), pressure_text.as_str());
    let seg_punit = fg(colors.dim.as_str(), "hPa");
    let mut r = String::new();
    r.append("  ");
    r.append(seg_picon.as_str());
    r.append("  ");
    r.append(seg_pval.as_str());
    r.append(" ");
    r.append(seg_punit.as_str());
    proof {
        reveal_strlit("  ");
        reveal_strlit(" ");
        reveal_strlit("\u{f058f}");
        reveal_strlit("hPa");
        assert(r@ =~= stats2_spec(cur, colors));
        assert(text_clean("  "@));
        assert(text_clean(" "@));
        assert(text_clean("\u{f058f}"@));
        assert(text_clean("hPa"@));
        lemma_int_str_clean(pressure as int);
        lemma_clean_strip("  "@);
        lemma_clean_strip(" "@);
        lemma_clean_strip("\u{f058f}"@);
        lemma_clean_strip("hPa"@);
        lemma_clean_strip(pressure_text@);
        lemma_fg_transparent(colors.accent@, "\u{f058f}"@);
        lemma_fg_transparent(colors.text@, pressure_text@);
        lemma_fg_transparent(colors.dim@, "hPa"@);
        lemma_scan_ok_concat("  "@, seg_picon@);
        lemma_scan_ok_concat("  "@ + seg_picon@, "  "@);
        lemma_scan_ok_concat("  "@ + seg_picon@ + "  "@, seg_pval@);
        lemma_scan_ok_concat("  "@ + seg_picon@ + "  "@ + seg_pval@, " "@);
        lemma_scan_ok_concat("  "@ + seg_picon@ + "  "@ + seg_pval@ + " "@, seg_punit@);
        crate::markup::lemma_fg_len(colors.accent@, "\u{f058f}"@);
        crate::markup::lemma_fg_len(colors.text@, pressure_text@);
        crate::markup::lemma_fg_len(colors.dim@, "hPa"@);
        lemma_int_str_len(pressure as int);
    }
    r
}

/// The bold section header over the hourly rows: eight visible columns.
fn hourly_header(colors: &ThemeColors) -> (r: String)
    requires
        colors_wf(colors),
    ensures
        r@ == bold_fg_spec(colors.text@, "  Hourly"@),
        scan_ok(r@),
        vis_width(r@) == 8,
        r@.len() <= 5000,
{
    // Measuring each header character through the trusted measurer makes
    // its column width available to the proof.
    let _c1: usize = char_cells(' ');
    let _c2: usize = char_cells('H');
    let _c3: usize = char_cells('o');
    let _c4: usize = char_cells('u');
    let _c5: usize = char_cells('r');
    let _c6: usize = char_cells('l');
    let _c7: usize = char_cells('y');
    let r = bold_fg(colors.text.as_str(), "  Hourly");
    proof {
        reveal_strlit("  Hourly");
        assert(text_clean("  Hourly"@));
        lemma_clean_strip("  Hourly"@);
        lemma_bold_fg_transparent(colors.text@, "  Hourly"@);
        assert(forall|i: int|
            0 <= i < "  Hourly"@.len() ==> char_width("  Hourly"@[i]) == 1 && narrow_char(
                "  Hourly"@[i],
            ));
        lemma_narrow_width("  Hourly"@);
        crate::markup::lemma_bold_fg_len(colors.text@, "  Hourly"@);
    }
    r
}

/// The bold section header over the daily rows: ten visible columns.
fn forecast_header(colors: &ThemeColors) -> (r: String)
    requires
        colors_wf(colors),
    ensures
        r@ == bold_fg_spec(colors.text@, "  Forecast"@),
        scan_ok(r@),
        vis_width(r@) == 10,
        r@.len() <= 5000,
{
    // Measuring each header character through the trusted measurer makes
    // its column width available to the proof.
    let _c1: usize = char_cells(' ');
    let _c2: usize = char_cells('F');
    let _c3: usize = char_cells('o');
    let _c4: usize = char_cells('r');
    let _c5: usize = char_cells('e');
    let _c6: usize = char_cells('c');
    let _c7: usize = char_cells('a');
    let _c8: usize = char_cells('s');
    let _c9: usize = char_cells('t');
    let r = bold_fg(colors.text.as_str(), "  Forecast");
    proof {
        reveal_strlit("  Forecast");
        assert(text_clean("  Forecast"@));
        lemma_clean_strip("  Forecast"@);
        lemma_bold_fg_transparent(colors.text@, "  Forecast"@);
        assert(forall|i: int|
            0 <= i < "  Forecast"@.len() ==> char_width("  Forecast"@[i]) == 1 && narrow_char(
                "  Forecast"@[i],
            ));
        lemma_narrow_width("  Forecast"@);
        crate::markup::lemma_bold_fg_len(colors.text@, "  Forecast"@);
    }
    r
}

/// Whether the daily section is requested.
pub open spec fn show_days_spec(f: &TooltipFormat) -> bool {
    f is Days || f is Both
}

/// Whether the hourly section is requested.
pub open spec fn show_hours_spec(f: &TooltipFormat) -> bool {
    f is Hours || f is Both
}

/// Whether the tooltip carries an hourly block: the section is requested,
/// hours were asked for, and hourly data with at least one row is present.
pub open spec fn hourly_block(data: &WeatherData, f: &TooltipFormat, hours: u8) -> bool {
    &&& show_hours_spec(f)
    &&& hours > 0
    &&& match data.hourly {
        Some(h) => hourly_count(&h, hours) > 0,
        None => false,
    }
}

/// Whether the tooltip carries a daily block.
pub open spec fn daily_block(data: &WeatherData, f: &TooltipFormat, days: u8) -> bool {
    &&& show_days_spec(f)
    &&& daily_count(&data.daily, days) > 0
}

/// The views of a vector of strings.
pub open spec fn views_of(ss: Seq<String>) -> Seq<Seq<char>> {
    ss.map_values(|s: String| s@)
}

/// The content rows whose widths decide the box: current conditions, the
/// two stat rows, and every shown forecast row. The title is handled apart.
pub open spec fn measured_rows_spec(
    data: &WeatherData,
    set: &IconSet,
    f: &TooltipFormat,
    days: u8,
    hours: u8,
    unit: Seq<char>,
    c: &ThemeColors,
) -> Seq<Seq<char>> {
    let base = seq![
        current_line_spec(&data.current, set, unit, c),
        stats1_spec(&data.current, unit, c),
        stats2_spec(&data.current, c),
    ];
    let hrows: Seq<Seq<char>> = if show_hours_spec(f) && hours > 0 {
        match data.hourly {
            Some(h) => Seq::new(
                hourly_count(&h, hours) as nat,
                |i: int| hourly_row_spec(&h, i, set, unit, c),
            ),
            None => Seq::empty(),
        }
    } else {
        Seq::empty()
    };
    let drows: Seq<Seq<char>> = if show_days_spec(f) {
        Seq::new(
            daily_count(&data.daily, days) as nat,
            |i: int| daily_row_spec(&data.daily, i, set, unit, c),
        )
    } else {
        Seq::empty()
    };
    base + hrows + drows
}

/// The widest visible width among a set of rows.
pub open spec fn max_vis(rows: Seq<Seq<char>>) -> nat
    decreases rows.len(),
{
    if rows.len() == 0 {
        0
    } else {
        let rest = max_vis(rows.drop_first());
        if vis_width(rows[0]) >= rest {
            vis_width(rows[0])
        } else {
            rest
        }
    }
}

/// `max_vis` bounds every row and is attained when any row exists.
pub proof fn lemma_max_vis(rows: Seq<Seq<char>>)
    ensures
        forall|i: int| 0 <= i < rows.len() ==> vis_width(#[trigger] rows[i]) <= max_vis(rows),
        rows.len() == 0 || exists|i: int|
            0 <= i < rows.len() && vis_width(#[trigger] rows[i]) == max_vis(rows),
    decreases rows.len(),
{
    if rows.len() > 0 {
        lemma_max_vis(rows.drop_first());
        assert(forall|i: int|
            0 <= i < rows.drop_first().len() ==> #[trigger] rows.drop_first()[i] == rows[i
                + 1]);
        assert(forall|i: int|
            1 <= i < rows.len() ==> vis_width(#[trigger] rows[i]) <= max_vis(rows)) by {
            assert(forall|i: int|
                1 <= i < rows.len() ==> rows[i] == rows.drop_first()[i - 1]);
        }
        if vis_width(rows[0]) >= max_vis(rows.drop_first()) {
            assert(vis_width(rows[0]) == max_vis(rows));
        } else {
            assert(rows.drop_first().len() > 0);
            let ghost j = choose|i: int|
                0 <= i < rows.drop_first().len() && vis_width(#[trigger] rows.drop_first()[i])
                    == max_vis(rows.drop_first());
            assert(vis_width(rows[j + 1]) == max_vis(rows));
        }
    }
}

/// The interior width of the tooltip: the widest measured row, floored at
/// `MIN_WIDTH`, and never narrower than the escaped title.
pub open spec fn width_of(t: nat, rows: Seq<Seq<char>>) -> nat {
    let m = max_vis(rows);
    let base = if m >= MIN_WIDTH as nat {
        m
    } else {
        MIN_WIDTH as nat
    };
    if t >= base {
        t
    } else {
        base
    }
}

pub open spec fn tooltip_width_spec(
    city: Seq<char>,
    data: &WeatherData,
    set: &IconSet,
    f: &TooltipFormat,
    days: u8,
    hours: u8,
    unit: Seq<char>,
    c: &ThemeColors,
) -> nat {
    width_of(vis_width(escape_text(city)), measured_rows_spec(data, set, f, days, hours, unit, c))
}

/// The full tooltip at interior width `w`, line by line: top border, the
/// centered bold title, a separator, the current-conditions line, a blank
/// line, the two stat rows, the hourly block (separator, header, blank
/// line, rows) when present, the daily block likewise, and the bottom
/// border.
pub open spec fn tooltip_lines_spec(
    city: Seq<char>,
    data: &WeatherData,
    set: &IconSet,
    f: &TooltipFormat,
    days: u8,
    hours: u8,
    unit: Seq<char>,
    c: &ThemeColors,
    w: nat,
) -> Seq<Seq<char>> {
    let bc = c.border@;
    let tvis = vis_width(escape_text(city));
    let pad = if tvis <= w {
        ((w - tvis) / 2) as nat
    } else {
        0
    };
    let sep = border_line_spec(fg_spec(c.dim@, hrule(w)), w, bc);
    let blank = border_line_spec(spaces(w), w, bc);
    let head = seq![
        fg_spec(bc, seq!['╭'] + hrule(w + 2) + seq!['╮']),
        border_line_spec(spaces(pad) + bold_fg_spec(c.accent@, escape_text(city)), w, bc),
        sep,
        border_line_spec(current_line_spec(&data.current, set, unit, c), w, bc),
        blank,
        border_line_spec(stats1_spec(&data.current, unit, c), w, bc),
        border_line_spec(stats2_spec(&data.current, c), w, bc),
    ];
    let hpart: Seq<Seq<char>> = if hourly_block(data, f, hours) {
        match data.hourly {
            Some(h) => seq![
                sep,
                border_line_spec(bold_fg_spec(c.text@, "  Hourly"@), w, bc),
                blank,
            ] + Seq::new(
                hourly_count(&h, hours) as nat,
                |i: int| border_line_spec(hourly_row_spec(&h, i, set, unit, c), w, bc),
            ),
            None => Seq::empty(),
        }
    } else {
        Seq::empty()
    };
    let dpart: Seq<Seq<char>> = if daily_block(data, f, days) {
        seq![
            sep,
            border_line_spec(bold_fg_spec(c.text@, "  Forecast"@), w, bc),
            blank,
        ] + Seq::new(
            daily_count(&data.daily, days) as nat,
            |i: int| border_line_spec(daily_row_spec(&data.daily, i, set, unit, c), w, bc),
        )
    } else {
        Seq::empty()
    };
    head + hpart + dpart + seq![fg_spec(bc, seq!['╰'] + hrule(w + 2) + seq!['╯'])]
}


/// The frame of a tooltip at interior width `w`, over already-composed
/// content: top border, centered bold title, separator, the four content
/// rows, the two optional section blocks, bottom border.
pub open spec fn framed_views(
    title: Seq<char>,
    cur: Seq<char>,
    s1: Seq<char>,
    s2: Seq<char>,
    hviews: Seq<Seq<char>>,
    dviews: Seq<Seq<char>>,
    w: nat,
    c: &ThemeColors,
) -> Seq<Seq<char>> {
    let bc = c.border@;
    let tvis = vis_width(title);
    let pad = if tvis <= w {
        ((w - tvis) / 2) as nat
    } else {
        0
    };
    let sep = border_line_spec(fg_spec(c.dim@, hrule(w)), w, bc);
    let blank = border_line_spec(spaces(w), w, bc);
    seq![
        fg_spec(bc, seq!['\u{256d}'] + hrule(w + 2) + seq!['\u{256e}']),
        border_line_spec(spaces(pad) + bold_fg_spec(c.accent@, title), w, bc),
        sep,
        border_line_spec(cur, w, bc),
        blank,
        border_line_spec(s1, w, bc),
        border_line_spec(s2, w, bc),
    ] + (if hviews.len() > 0 {
        seq![
            sep,
            border_line_spec(bold_fg_spec(c.text@, "  Hourly"@), w, bc),
            blank,
        ] + hviews.map_values(|v: Seq<char>| border_line_spec(v, w, bc))
    } else {
        Seq::empty()
    }) + (if dviews.len() > 0 {
        seq![
            sep,
            border_line_spec(bold_fg_spec(c.text@, "  Forecast"@), w, bc),
            blank,
        ] + dviews.map_values(|v: Seq<char>| border_line_spec(v, w, bc))
    } else {
        Seq::empty()
    }) + seq![fg_spec(bc, seq!['\u{2570}'] + hrule(w + 2) + seq!['\u{256f}'])]
}

/// Frame composed content into a box of interior width `w`: every emitted
/// line is exactly `w + 4` visible columns.
#[verifier::rlimit(100)]
#[verifier::spinoff_prover]
#[verifier::loop_isolation(false)]
fn frame_tooltip(
    title_raw: &String,
    cur_row: &String,
    s1_row: &String,
    s2_row: &String,
    hourly_lines: &Vec<String>,
    daily_lines: &Vec<String>,
    w: usize,
    colors: &ThemeColors,
) -> (lines: Vec<String>)
    requires
        colors_wf(colors),
        MIN_WIDTH <= w <= MAX_BOX_WIDTH,
        scan_ok(title_raw@),
        title_raw@.len() <= 6 * MAX_FIELD_LEN,
        vis_width(title_raw@) <= w,
        scan_ok(cur_row@) && vis_width(cur_row@) <= w && cur_row@.len() <= MAX_ROW_LEN,
        scan_ok(s1_row@) && vis_width(s1_row@) <= w && s1_row@.len() <= MAX_ROW_LEN,
        scan_ok(s2_row@) && vis_width(s2_row@) <= w && s2_row@.len() <= MAX_ROW_LEN,
        forall|i: int|
            0 <= i < hourly_lines@.len() ==> scan_ok((#[trigger] hourly_lines@[i])@)
                && vis_width(hourly_lines@[i]@) <= w && hourly_lines@[i]@.len() <= MAX_ROW_LEN,
        forall|i: int|
            0 <= i < daily_lines@.len() ==> scan_ok((#[trigger] daily_lines@[i])@)
                && vis_width(daily_lines@[i]@) <= w && daily_lines@[i]@.len() <= MAX_ROW_LEN,
    ensures
        views_of(lines@) == framed_views(
            title_raw@,
            cur_row@,
            s1_row@,
            s2_row@,
            views_of(hourly_lines@),
            views_of(daily_lines@),
            w as nat,
            colors,
        ),
        forall|i: int|
            0 <= i < lines@.len() ==> vis_width((#[trigger] lines@[i])@) == w + 4 && scan_ok(
                lines@[i]@,
            ),
        lines@.len() >= 8,
{
    let bc = colors.border.as_str();
    let dimc = colors.dim.as_str();
    let ghost w_nat = w as nat;
    let ghost sep_view = border_line_spec(fg_spec(colors.dim@, hrule(w_nat)), w_nat, colors.border@);
    let ghost blank_view = border_line_spec(spaces(w_nat), w_nat, colors.border@);

    let mut lines: Vec<String> = Vec::new();
    let top = top_border(w, bc);
    lines.push(top);

    // Measuring the space character makes the title padding's width
    // available to the proof.
    let _sp: usize = char_cells(' ');
    let title_vlen = visible_len(title_raw.as_str());
    let title_pango = bold_fg(colors.accent.as_str(), title_raw.as_str());
    let left_pad = if w >= title_vlen {
        (w - title_vlen) / 2
    } else {
        0
    };
    let mut padded_title = crate::width::chars_to_string(&crate::boxdraw::blank_chars(left_pad));
    padded_title.append(title_pango.as_str());
    let ghost title_content = spaces(left_pad as nat) + bold_fg_spec(
        colors.accent@,
        title_raw@,
    );
    proof {
        assert(padded_title@ =~= title_content);
        assert(forall|i: int|
            0 <= i < spaces(left_pad as nat).len() ==> spaces(left_pad as nat)[i] == ' ');
        assert(text_clean(spaces(left_pad as nat)));
        lemma_clean_strip(spaces(left_pad as nat));
        lemma_bold_fg_transparent(colors.accent@, title_raw@);
        lemma_scan_ok_concat(spaces(left_pad as nat), title_pango@);
        crate::width::lemma_col_width_concat(
            spaces(left_pad as nat),
            strip_markup(title_pango@),
        );
        lemma_narrow_width(spaces(left_pad as nat));
        assert(vis_width(title_content) == left_pad + title_vlen);
        crate::markup::lemma_bold_fg_len(colors.accent@, title_raw@);
    }
    lines.push(border_line(padded_title.as_str(), w, bc));
    lines.push(separator(w, bc, dimc));
    lines.push(border_line(cur_row.as_str(), w, bc));
    lines.push(empty_line(w, bc));
    lines.push(border_line(s1_row.as_str(), w, bc));
    lines.push(border_line(s2_row.as_str(), w, bc));
    let ghost head_views = seq![
        fg_spec(colors.border@, seq!['╭'] + hrule(w_nat + 2) + seq!['╮']),
        border_line_spec(title_content, w_nat, colors.border@),
        sep_view,
        border_line_spec(cur_row@, w_nat, colors.border@),
        blank_view,
        border_line_spec(s1_row@, w_nat, colors.border@),
        border_line_spec(s2_row@, w_nat, colors.border@),
    ];
    proof {
        assert(views_of(lines@) =~= head_views);
        assert(forall|i: int|
            0 <= i < lines@.len() ==> vis_width((#[trigger] lines@[i])@) == w + 4 && scan_ok(
                lines@[i]@,
            ));
    }

    if hourly_lines.len() > 0 {
        lines.push(separator(w, bc, dimc));
        let hdr = hourly_header(colors);
        lines.push(border_line(hdr.as_str(), w, bc));
        lines.push(empty_line(w, bc));
        let ghost hprefix = head_views + seq![
            sep_view,
            border_line_spec(bold_fg_spec(colors.text@, "  Hourly"@), w_nat, colors.border@),
            blank_view,
        ];
        proof {
            assert(views_of(lines@) =~= hprefix);
            assert(forall|i: int|
                0 <= i < lines@.len() ==> vis_width((#[trigger] lines@[i])@) == w + 4
                    && scan_ok(lines@[i]@));
        }
        let mut hk: usize = 0;
        while hk < hourly_lines.len()
            invariant
                hk <= hourly_lines@.len(),
                w >= MIN_WIDTH,
                w <= MAX_BOX_WIDTH,
                colors_wf(colors),
                bc@ == colors.border@,
                forall|i: int|
                    0 <= i < hourly_lines@.len() ==> vis_width(
                        (#[trigger] hourly_lines@[i])@,
                    ) <= w && scan_ok(hourly_lines@[i]@) && hourly_lines@[i]@.len()
                        <= MAX_ROW_LEN,
                views_of(lines@) == hprefix + Seq::new(
                    hk as nat,
                    |i: int| border_line_spec(views_of(hourly_lines@)[i], w_nat, colors.border@),
                ),
                forall|i: int|
                    0 <= i < lines@.len() ==> vis_width((#[trigger] lines@[i])@) == w + 4
                        && scan_ok(lines@[i]@),
            decreases hourly_lines@.len() - hk,
        {
            let ghost prev = views_of(lines@);
            let ghost elem = border_line_spec(hourly_lines@[hk as int]@, w_nat, colors.border@);
            lines.push(border_line(hourly_lines[hk].as_str(), w, bc));
            proof {
                assert(views_of(lines@) =~= prev.push(elem));
                assert(Seq::new(
                    hk as nat + 1,
                    |i: int| border_line_spec(views_of(hourly_lines@)[i], w_nat, colors.border@),
                ) =~= Seq::new(
                    hk as nat,
                    |i: int| border_line_spec(views_of(hourly_lines@)[i], w_nat, colors.border@),
                ).push(elem));
                assert(hprefix + Seq::new(
                    hk as nat,
                    |i: int| border_line_spec(views_of(hourly_lines@)[i], w_nat, colors.border@),
                ).push(elem) =~= prev.push(elem));
            }
            hk = hk + 1;
        }
    }
    let ghost after_hourly = views_of(lines@);

    if daily_lines.len() > 0 {
        lines.push(separator(w, bc, dimc));
        let hdr = forecast_header(colors);
        lines.push(border_line(hdr.as_str(), w, bc));
        lines.push(empty_line(w, bc));
        let ghost dprefix = after_hourly + seq![
            sep_view,
            border_line_spec(bold_fg_spec(colors.text@, "  Forecast"@), w_nat, colors.border@),
            blank_view,
        ];
        proof {
            assert(views_of(lines@) =~= dprefix);
            assert(forall|i: int|
                0 <= i < lines@.len() ==> vis_width((#[trigger] lines@[i])@) == w + 4
                    && scan_ok(lines@[i]@));
        }
        let mut dk: usize = 0;
        while dk < daily_lines.len()
            invariant
                dk <= daily_lines@.len(),
                w >= MIN_WIDTH,
                w <= MAX_BOX_WIDTH,
                colors_wf(colors),
                bc@ == colors.border@,
                forall|i: int|
                    0 <= i < daily_lines@.len() ==> vis_width((#[trigger] daily_lines@[i])@)
                        <= w && scan_ok(daily_lines@[i]@) && daily_lines@[i]@.len()
                        <= MAX_ROW_LEN,
                views_of(lines@) == dprefix + Seq::new(
                    dk as nat,
                    |i: int| border_line_spec(views_of(daily_lines@)[i], w_nat, colors.border@),
                ),
                forall|i: int|
                    0 <= i < lines@.len() ==> vis_width((#[trigger] lines@[i])@) == w + 4
                        && scan_ok(lines@[i]@),
            decreases daily_lines@.len() - dk,
        {
            let ghost prev = views_of(lines@);
            let ghost elem = border_line_spec(daily_lines@[dk as int]@, w_nat, colors.border@);
            lines.push(border_line(daily_lines[dk].as_str(), w, bc));
            proof {
                assert(views_of(lines@) =~= prev.push(elem));
                assert(Seq::new(
                    dk as nat + 1,
                    |i: int| border_line_spec(views_of(daily_lines@)[i], w_nat, colors.border@),
                ) =~= Seq::new(
                    dk as nat,
                    |i: int| border_line_spec(views_of(daily_lines@)[i], w_nat, colors.border@),
                ).push(elem));
                assert(dprefix + Seq::new(
                    dk as nat,
                    |i: int| border_line_spec(views_of(daily_lines@)[i], w_nat, colors.border@),
                ).push(elem) =~= prev.push(elem));
            }
            dk = dk + 1;
        }
    }

    let ghost after_all = views_of(lines@);
    let ghost bottom_view = fg_spec(
        colors.border@,
        seq!['\u{2570}'] + hrule(w_nat + 2) + seq!['\u{256f}'],
    );
    lines.push(bottom_border(w, bc));
    proof {
        assert(views_of(lines@) =~= after_all.push(bottom_view));
        assert(forall|i: int|
            0 <= i < lines@.len() ==> vis_width((#[trigger] lines@[i])@) == w + 4 && scan_ok(
                lines@[i]@,
            ));
        if hourly_lines@.len() > 0 {
            assert(Seq::new(
                hourly_lines@.len() as nat,
                |i: int| border_line_spec(views_of(hourly_lines@)[i], w_nat, colors.border@),
            ) =~= views_of(hourly_lines@).map_values(
                |v: Seq<char>| border_line_spec(v, w_nat, colors.border@),
            ));
        }
        if daily_lines@.len() > 0 {
            assert(Seq::new(
                daily_lines@.len() as nat,
                |i: int| border_line_spec(views_of(daily_lines@)[i], w_nat, colors.border@),
            ) =~= views_of(daily_lines@).map_values(
                |v: Seq<char>| border_line_spec(v, w_nat, colors.border@),
            ));
        }
        assert(after_all.push(bottom_view) =~= framed_views(
            title_raw@,
            cur_row@,
            s1_row@,
            s2_row@,
            views_of(hourly_lines@),
            views_of(daily_lines@),
            w as nat,
            colors,
        ));
    }
    lines
}

/// The snapshot invariants the composer relies on: parallel sequences of
/// equal length, with short field strings.
pub open spec fn weather_wf(d: &WeatherData) -> bool {
    &&& daily_wf(&d.daily)
    &&& match d.hourly {
        Some(h) => hourly_wf(&h),
        None => true,
    }
}


/// Append clones of all of `src`.
fn append_clones(dst: &mut Vec<String>, src: &Vec<String>)
    ensures
        views_of(final(dst)@) == views_of(old(dst)@) + views_of(src@),
        final(dst)@.len() == old(dst)@.len() + src@.len(),
{
    let ghost base = views_of(dst@);
    let mut k: usize = 0;
    proof {
        assert(views_of(src@).take(0) =~= Seq::<Seq<char>>::empty());
        assert(base + views_of(src@).take(0) =~= base);
    }
    while k < src.len()
        invariant
            k <= src@.len(),
            dst@.len() == old(dst)@.len() + k,
            base == views_of(old(dst)@),
            views_of(dst@) == base + views_of(src@).take(k as int),
        decreases src@.len() - k,
    {
        let ghost prev = views_of(dst@);
        dst.push(src[k].clone());
        proof {
            assert(views_of(dst@) =~= prev.push(src@[k as int]@));
            assert(views_of(src@).take(k as int + 1) =~= views_of(src@).take(k as int).push(
                src@[k as int]@,
            ));
            assert(base + views_of(src@).take(k as int + 1) =~= prev.push(src@[k as int]@));
        }
        k = k + 1;
    }
    proof {
        assert(views_of(src@).take(src@.len() as int) =~= views_of(src@));
    }
}

/// Pick the interior width from the measured rows and the escaped title.
fn pick_width(measurable: &Vec<String>, title_raw: &String, rows: Ghost<Seq<Seq<char>>>) -> (w:
    usize)
    requires
        title_raw@.len() <= 6 * MAX_FIELD_LEN,
        measurable@.len() == rows@.len(),
        forall|i: int| 0 <= i < measurable@.len() ==> (#[trigger] measurable@[i])@ == rows@[i],
        forall|i: int|
            0 <= i < measurable@.len() ==> (#[trigger] measurable@[i])@.len() <= MAX_TEXT_LEN
                / 64,
    ensures
        MIN_WIDTH <= w <= MAX_BOX_WIDTH,
        w as nat >= vis_width(title_raw@),
        w as nat == width_of(vis_width(title_raw@), rows@),
        forall|i: int| 0 <= i < rows@.len() ==> vis_width(#[trigger] rows@[i]) <= w,
{
    let cw = content_width(measurable);
    let title_vlen = visible_len(title_raw.as_str());
    let w = if cw >= title_vlen {
        cw
    } else {
        title_vlen
    };
    proof {
        lemma_max_vis(rows@);
        let m = max_vis(rows@);
        assert forall|i: int| 0 <= i < rows@.len() implies vis_width(#[trigger] rows@[i])
            <= cw by {
            assert((measurable@[i])@ == rows@[i]);
            assert(vis_width((measurable@[i])@) <= cw);
        }
        if rows@.len() > 0 {
            let j = choose|i: int| 0 <= i < rows@.len() && vis_width(#[trigger] rows@[i]) == m;
            assert(m <= cw);
        }
        if cw != MIN_WIDTH {
            let j = choose|i: int|
                0 <= i < measurable@.len() && vis_width((#[trigger] measurable@[i])@) == cw;
            assert(vis_width(rows@[j]) == cw);
            assert(cw <= m);
        }
        assert(title_vlen <= 3 * title_raw@.len());
    }
    w
}

/// The three fixed rows and the two optional row groups, concatenated, are
/// exactly the measured rows of the tooltip.
proof fn lemma_rows_shape(
    data: &WeatherData,
    f: &TooltipFormat,
    days: u8,
    hours: u8,
    unit: Seq<char>,
    c: &ThemeColors,
    hv: Seq<Seq<char>>,
    dv: Seq<Seq<char>>,
)
    requires
        hv == (if show_hours_spec(f) && hours > 0 {
            match data.hourly {
                Some(h) => Seq::new(
                    hourly_count(&h, hours) as nat,
                    |i: int| hourly_row_spec(&h, i, &IconSet::Nerd, unit, c),
                ),
                None => Seq::<Seq<char>>::empty(),
            }
        } else {
            Seq::<Seq<char>>::empty()
        }),
        dv == (if show_days_spec(f) {
            Seq::new(
                daily_count(&data.daily, days) as nat,
                |i: int| daily_row_spec(&data.daily, i, &IconSet::Nerd, unit, c),
            )
        } else {
            Seq::<Seq<char>>::empty()
        }),
    ensures
        seq![
            current_line_spec(&data.current, &IconSet::Nerd, unit, c),
            stats1_spec(&data.current, unit, c),
            stats2_spec(&data.current, c),
        ] + hv + dv == measured_rows_spec(data, &IconSet::Nerd, f, days, hours, unit, c),
{
    assert(seq![
        current_line_spec(&data.current, &IconSet::Nerd, unit, c),
        stats1_spec(&data.current, unit, c),
        stats2_spec(&data.current, c),
    ] + hv + dv =~= measured_rows_spec(data, &IconSet::Nerd, f, days, hours, unit, c));
}

/// Framing the composed rows yields exactly the tooltip's line sequence.
#[verifier::rlimit(100)]
proof fn lemma_frame_matches(
    city: Seq<char>,
    data: &WeatherData,
    f: &TooltipFormat,
    days: u8,
    hours: u8,
    unit: Seq<char>,
    c: &ThemeColors,
    hv: Seq<Seq<char>>,
    dv: Seq<Seq<char>>,
    w_nat: nat,
)
    requires
        hv == (if show_hours_spec(f) && hours > 0 {
            match data.hourly {
                Some(h) => Seq::new(
                    hourly_count(&h, hours) as nat,
                    |i: int| hourly_row_spec(&h, i, &IconSet::Nerd, unit, c),
                ),
                None => Seq::<Seq<char>>::empty(),
            }
        } else {
            Seq::<Seq<char>>::empty()
        }),
        dv == (if show_days_spec(f) {
            Seq::new(
                daily_count(&data.daily, days) as nat,
                |i: int| daily_row_spec(&data.daily, i, &IconSet::Nerd, unit, c),
            )
        } else {
            Seq::<Seq<char>>::empty()
        }),
    ensures
        framed_views(
            escape_text(city),
            current_line_spec(&data.current, &IconSet::Nerd, unit, c),
            stats1_spec(&data.current, unit, c),
            stats2_spec(&data.current, c),
            hv,
            dv,
            w_nat,
            c,
        ) == tooltip_lines_spec(city, data, &IconSet::Nerd, f, days, hours, unit, c, w_nat),
{
    if hv.len() > 0 {
        assert(hourly_block(data, f, hours));
        assert(hv.map_values(|v: Seq<char>| border_line_spec(v, w_nat, c.border@))
            =~= match data.hourly {
            Some(h) => Seq::new(
                hourly_count(&h, hours) as nat,
                |i: int| border_line_spec(
                    hourly_row_spec(&h, i, &IconSet::Nerd, unit, c),
                    w_nat,
                    c.border@,
                ),
            ),
            None => Seq::<Seq<char>>::empty(),
        });
    } else {
        assert(!hourly_block(data, f, hours));
    }
    if dv.len() > 0 {
        assert(daily_block(data, f, days));
        assert(dv.map_values(|v: Seq<char>| border_line_spec(v, w_nat, c.border@)) =~= Seq::new(
            daily_count(&data.daily, days) as nat,
            |i: int| border_line_spec(
                daily_row_spec(&data.daily, i, &IconSet::Nerd, unit, c),
                w_nat,
                c.border@,
            ),
        ));
    } else {
        assert(!daily_block(data, f, days));
    }
    assert(framed_views(
        escape_text(city),
        current_line_spec(&data.current, &IconSet::Nerd, unit, c),
        stats1_spec(&data.current, unit, c),
        stats2_spec(&data.current, c),
        hv,
        dv,
        w_nat,
        c,
    ) =~= tooltip_lines_spec(city, data, &IconSet::Nerd, f, days, hours, unit, c, w_nat));
}

/// Compose and frame the tooltip: the framed lines and the interior width.
///
/// The width is the widest measured content row, floored at `MIN_WIDTH` and
/// never narrower than the escaped title; every returned line measures
/// exactly that width plus four visible columns, whatever the city name,
/// forecast sizes or icon style. The requested icon style does not reach
/// the tooltip: rows are always drawn in the monospace-stable style, so the
/// box cannot be broken by proportional glyphs.
#[verifier::rlimit(100)]
#[verifier::spinoff_prover]
#[verifier::loop_isolation(false)]
pub fn build_tooltip_lines(
    city: &str,
    data: &WeatherData,
    _icon_set: &IconSet,
    tooltip_format: &TooltipFormat,
    days: u8,
    hours: u8,
    unit_label: &str,
    colors: &ThemeColors,
) -> (r: (Vec<String>, usize))
    requires
        city@.len() <= MAX_FIELD_LEN,
        unit_wf(unit_label@),
        colors_wf(colors),
        weather_wf(data),
    ensures
        r.1 >= MIN_WIDTH,
        r.1 <= MAX_BOX_WIDTH,
        r.1 as nat >= vis_width(escape_text(city@)),
        r.1 as nat == tooltip_width_spec(
            city@,
            data,
            &IconSet::Nerd,
            tooltip_format,
            days,
            hours,
            unit_label@,
            colors,
        ),
        views_of(r.0@) == tooltip_lines_spec(
            city@,
            data,
            &IconSet::Nerd,
            tooltip_format,
            days,
            hours,
            unit_label@,
            colors,
            r.1 as nat,
        ),
        forall|i: int|
            0 <= i < r.0@.len() ==> vis_width((#[trigger] r.0@[i])@) == r.1 + 4 && scan_ok(
                r.0@[i]@,
            ),
        r.0@.len() >= 8,
{
    let tooltip_icons = IconSet::Nerd;
    let cur_row = current_line(&data.current, &tooltip_icons, unit_label, colors);
    let s1_row = stats1_line(&data.current, unit_label, colors);
    let s2_row = stats2_line(&data.current, colors);
    let show_days = match tooltip_format {
        TooltipFormat::Days => true,
        TooltipFormat::Both => true,
        TooltipFormat::Hours => false,
    };
    let show_hours = match tooltip_format {
        TooltipFormat::Hours => true,
        TooltipFormat::Both => true,
        TooltipFormat::Days => false,
    };
    let hourly_lines: Vec<String> = if show_hours && hours > 0 {
        match &data.hourly {
            Some(h) => build_hourly_lines(h, hours, &tooltip_icons, unit_label, colors),
            None => Vec::new(),
        }
    } else {
        Vec::new()
    };
    let daily_lines: Vec<String> = if show_days {
        build_daily_lines(&data.daily, days, &tooltip_icons, unit_label, colors)
    } else {
        Vec::new()
    };
    let ghost rows = measured_rows_spec(
        data,
        &tooltip_icons,
        tooltip_format,
        days,
        hours,
        unit_label@,
        colors,
    );

    let mut measurable: Vec<String> = Vec::new();
    measurable.push(cur_row.clone());
    measurable.push(s1_row.clone());
    measurable.push(s2_row.clone());
    let ghost base_views = seq![cur_row@, s1_row@, s2_row@];
    proof {
        assert(views_of(measurable@) =~= base_views);
    }
    append_clones(&mut measurable, &hourly_lines);
    append_clones(&mut measurable, &daily_lines);
    let ghost hv_spec: Seq<Seq<char>> = if show_hours_spec(tooltip_format) && hours > 0 {
        match &data.hourly {
            Some(h) => Seq::new(
                hourly_count(h, hours) as nat,
                |i: int| hourly_row_spec(h, i, &IconSet::Nerd, unit_label@, colors),
            ),
            None => Seq::<Seq<char>>::empty(),
        }
    } else {
        Seq::<Seq<char>>::empty()
    };
    let ghost dv_spec: Seq<Seq<char>> = if show_days_spec(tooltip_format) {
        Seq::new(
            daily_count(&data.daily, days) as nat,
            |i: int| daily_row_spec(&data.daily, i, &IconSet::Nerd, unit_label@, colors),
        )
    } else {
        Seq::<Seq<char>>::empty()
    };
    proof {
        assert(views_of(measurable@) =~= base_views + views_of(hourly_lines@) + views_of(
            daily_lines@,
        ));
        assert(views_of(hourly_lines@) =~= hv_spec);
        assert(views_of(daily_lines@) =~= dv_spec);
        lemma_rows_shape(data, tooltip_format, days, hours, unit_label@, colors, hv_spec, dv_spec);
        assert(base_views =~= seq![
            current_line_spec(&data.current, &IconSet::Nerd, unit_label@, colors),
            stats1_spec(&data.current, unit_label@, colors),
            stats2_spec(&data.current, colors),
        ]);
        assert(rows == measured_rows_spec(
            data,
            &IconSet::Nerd,
            tooltip_format,
            days,
            hours,
            unit_label@,
            colors,
        ));
        assert(views_of(measurable@) == rows);
        assert(forall|i: int|
            0 <= i < measurable@.len() ==> (#[trigger] measurable@[i])@ == rows[i]) by {
            assert(forall|i: int|
                0 <= i < measurable@.len() ==> views_of(measurable@)[i] == (
                #[trigger] measurable@[i])@);
        }
        assert(forall|i: int|
            0 <= i < measurable@.len() ==> (#[trigger] measurable@[i])@.len() <= MAX_TEXT_LEN
                / 64);
    }
    let title_raw = pango_escape(city);
    proof {
        lemma_escape_len(city@);
        lemma_escape_strip(city@);
    }
    let w = pick_width(&measurable, &title_raw, Ghost(rows));
    proof {
        assert(vis_width(cur_row@) <= w) by {
            assert(cur_row@ == rows[0]);
        }
        assert(vis_width(s1_row@) <= w) by {
            assert(s1_row@ == rows[1]);
        }
        assert(vis_width(s2_row@) <= w) by {
            assert(s2_row@ == rows[2]);
        }
        assert(forall|i: int|
            0 <= i < hourly_lines@.len() ==> vis_width((#[trigger] hourly_lines@[i])@) <= w)
            by {
            assert(forall|i: int|
                0 <= i < hourly_lines@.len() ==> (#[trigger] hourly_lines@[i])@ == rows[3
                    + i]);
        }
        assert(forall|i: int|
            0 <= i < daily_lines@.len() ==> vis_width((#[trigger] daily_lines@[i])@) <= w) by {
            let hn = hourly_lines@.len() as int;
            assert(forall|i: int|
                0 <= i < daily_lines@.len() ==> (#[trigger] daily_lines@[i])@ == rows[3 + hn
                    + i]);
        }
    }
    let lines = frame_tooltip(
        &title_raw,
        &cur_row,
        &s1_row,
        &s2_row,
        &hourly_lines,
        &daily_lines,
        w,
        colors,
    );
    proof {
        lemma_frame_matches(
            city@,
            data,
            tooltip_format,
            days,
            hours,
            unit_label@,
            colors,
            hv_spec,
            dv_spec,
            w as nat,
        );
        assert(cur_row@ == current_line_spec(&data.current, &IconSet::Nerd, unit_label@, colors));
        assert(views_of(lines@) == tooltip_lines_spec(
            city@,
            data,
            &IconSet::Nerd,
            tooltip_format,
            days,
            hours,
            unit_label@,
            colors,
            w as nat,
        ));
    }
    (lines, w)
}

/// Lines joined with newlines, no trailing newline.
pub open spec fn joined(lines: Seq<Seq<char>>) -> Seq<char>
    decreases lines.len(),
{
    if lines.len() == 0 {
        Seq::empty()
    } else if lines.len() == 1 {
        lines[0]
    } else {
        lines[0] + seq!['\n'] + joined(lines.drop_first())
    }
}

/// Joining one more line appends a newline and the line.
pub proof fn lemma_joined_push(lines: Seq<Seq<char>>, x: Seq<char>)
    ensures
        lines.len() == 0 ==> joined(lines.push(x)) == x,
        lines.len() > 0 ==> joined(lines.push(x)) == joined(lines) + seq!['\n'] + x,
    decreases lines.len(),
{
    if lines.len() == 0 {
        assert(lines.push(x)[0] == x);
    } else {
        assert(lines.push(x).drop_first() =~= lines.drop_first().push(x));
        lemma_joined_push(lines.drop_first(), x);
        if lines.len() == 1 {
            assert(joined(lines.push(x)) == lines[0] + seq!['\n'] + joined(
                lines.drop_first().push(x),
            ));
            assert(joined(lines.drop_first().push(x)) == x);
        } else {
            assert((lines[0] + seq!['\n'] + (joined(lines.drop_first()) + seq!['\n'] + x))
                =~= (lines[0] + seq!['\n'] + joined(lines.drop_first())) + seq!['\n'] + x);
        }
    }
}

/// Join lines with newlines, no trailing newline.
fn join_lines(lines: &Vec<String>) -> (r: String)
    ensures
        r@ == joined(views_of(lines@)),
{
    let n = lines.len();
    let mut r = String::new();
    let mut i: usize = 0;
    proof {
        assert(views_of(lines@).take(0) =~= Seq::<Seq<char>>::empty());
    }
    while i < n
        invariant
            n == lines@.len(),
            i <= n,
            r@ == joined(views_of(lines@).take(i as int)),
        decreases n - i,
    {
        if i > 0 {
            r.append("\n");
        }
        r.append(lines[i].as_str());
        proof {
            reveal_strlit("\n");
            assert("\n"@ =~= seq!['\n']);
            assert(views_of(lines@).take(i as int + 1) =~= views_of(lines@).take(
                i as int,
            ).push(lines@[i as int]@));
            lemma_joined_push(views_of(lines@).take(i as int), lines@[i as int]@);
        }
        i = i + 1;
    }
    proof {
        assert(views_of(lines@).take(n as int) =~= views_of(lines@));
    }
    r
}

/// Build the whole tooltip: the framed lines of `build_tooltip_lines`,
/// joined with newlines.
pub fn build_tooltip(
    city: &str,
    data: &WeatherData,
    icon_set: &IconSet,
    tooltip_format: &TooltipFormat,
    days: u8,
    hours: u8,
    unit_label: &str,
    colors: &ThemeColors,
) -> (r: String)
    requires
        city@.len() <= MAX_FIELD_LEN,
        unit_wf(unit_label@),
        colors_wf(colors),
        weather_wf(data),
    ensures
        r@ == joined(
            tooltip_lines_spec(
                city@,
                data,
                &IconSet::Nerd,
                tooltip_format,
                days,
                hours,
                unit_label@,
                colors,
                tooltip_width_spec(
                    city@,
                    data,
                    &IconSet::Nerd,
                    tooltip_format,
                    days,
                    hours,
                    unit_label@,
                    colors,
                ),
            ),
        ),
{
    let (lines, _width) = build_tooltip_lines(
        city,
        data,
        icon_set,
        tooltip_format,
        days,
        hours,
        unit_label,
        colors,
    );
    join_lines(&lines)
}

/// What the status bar consumes: inline text, tooltip, status classes, and
/// the alternate tag.
pub struct WaybarOutput {
    pub text: String,
    pub tooltip: String,
    pub class: Vec<String>,
    pub alt: String,
}

/// The bold header of the error box.
pub open spec fn error_header_spec(c: &ThemeColors) -> Seq<char> {
    bold_fg_spec(c.error@, "  meteobar error"@)
}

/// The dimmed, escaped message line of the error box.
pub open spec fn error_body_spec(msg: Seq<char>, c: &ThemeColors) -> Seq<char> {
    fg_spec(c.dim@, "  "@ + escape_text(msg))
}

/// The interior width of the error box.
pub open spec fn error_width_spec(msg: Seq<char>, c: &ThemeColors) -> nat {
    width_of(0, seq![error_header_spec(c), error_body_spec(msg, c)])
}

/// The five lines of the error box at interior width `w`.
pub open spec fn error_lines_spec(msg: Seq<char>, c: &ThemeColors, w: nat) -> Seq<Seq<char>> {
    let bc = c.border@;
    seq![
        fg_spec(bc, seq!['\u{256d}'] + hrule(w + 2) + seq!['\u{256e}']),
        border_line_spec(error_header_spec(c), w, bc),
        border_line_spec(fg_spec(c.dim@, hrule(w)), w, bc),
        border_line_spec(error_body_spec(msg, c), w, bc),
        fg_spec(bc, seq!['\u{2570}'] + hrule(w + 2) + seq!['\u{256f}']),
    ]
}

/// The output envelope when upstream data acquisition failed entirely: a
/// fixed two-line error box, the `error` class and tag, and a placeholder
/// inline text. Every line of the box measures the interior width plus four
/// columns; the message is escaped, so no markup can leak into the box.
pub fn error_output(message: &str, colors: &ThemeColors) -> (r: WaybarOutput)
    requires
        message@.len() <= 50000,
        colors_wf(colors),
    ensures
        r.text@ == "?"@,
        r.tooltip@ == joined(
            error_lines_spec(message@, colors, error_width_spec(message@, colors)),
        ),
        r.class@.len() == 1,
        r.class@[0]@ == "error"@,
        r.alt@ == "error"@,
        forall|i: int|
            0 <= i < error_lines_spec(message@, colors, error_width_spec(message@, colors)).len()
                ==> vis_width(
                #[trigger] error_lines_spec(
                    message@,
                    colors,
                    error_width_spec(message@, colors),
                )[i],
            ) == error_width_spec(message@, colors) + 4,
{
    let header = bold_fg(colors.error.as_str(), "  meteobar error");
    let escaped = pango_escape(message);
    let mut body_text = String::new();
    body_text.append("  ");
    body_text.append(escaped.as_str());
    let body = fg(colors.dim.as_str(), body_text.as_str());
    proof {
        reveal_strlit("  meteobar error");
        reveal_strlit("  ");
        assert(text_clean("  meteobar error"@));
        assert(text_clean("  "@));
        lemma_clean_strip("  meteobar error"@);
        lemma_clean_strip("  "@);
        lemma_escape_strip(message@);
        lemma_escape_len(message@);
        lemma_scan_ok_concat("  "@, escaped@);
        assert(body_text@ =~= "  "@ + escape_text(message@));
        lemma_bold_fg_transparent(colors.error@, "  meteobar error"@);
        lemma_fg_transparent(colors.dim@, body_text@);
        crate::markup::lemma_bold_fg_len(colors.error@, "  meteobar error"@);
        crate::markup::lemma_fg_len(colors.dim@, body_text@);
    }
    let mut items: Vec<String> = Vec::new();
    items.push(header.clone());
    items.push(body.clone());
    proof {
        assert(views_of(items@) =~= seq![error_header_spec(colors), error_body_spec(
            message@,
            colors,
        )]);
        assert(forall|i: int|
            0 <= i < items@.len() ==> (#[trigger] items@[i])@.len() <= MAX_TEXT_LEN / 64);
    }
    let width = content_width(&items);
    let ghost rows = seq![error_header_spec(colors), error_body_spec(message@, colors)];
    proof {
        lemma_max_vis(rows);
        let m = max_vis(rows);
        assert(forall|i: int| 0 <= i < rows.len() ==> vis_width(#[trigger] rows[i]) <= width)
            by {
            assert(vis_width((items@[0])@) <= width);
            assert(vis_width((items@[1])@) <= width);
        }
        if rows.len() > 0 {
            let j = choose|i: int| 0 <= i < rows.len() && vis_width(#[trigger] rows[i]) == m;
            assert(m <= width);
        }
        if width != MIN_WIDTH {
            let j = choose|i: int|
                0 <= i < items@.len() && vis_width((#[trigger] items@[i])@) == width;
            assert(vis_width(rows[j]) == width);
            assert(width <= m);
        }
        assert(width as nat == error_width_spec(message@, colors));
    }
    let bc = colors.border.as_str();
    let mut lines: Vec<String> = Vec::new();
    lines.push(top_border(width, bc));
    lines.push(border_line(header.as_str(), width, bc));
    lines.push(separator(width, bc, colors.dim.as_str()));
    lines.push(border_line(body.as_str(), width, bc));
    lines.push(bottom_border(width, bc));
    proof {
        assert(views_of(lines@) =~= error_lines_spec(message@, colors, width as nat));
        assert(forall|i: int|
            0 <= i < lines@.len() ==> vis_width((#[trigger] lines@[i])@) == width + 4);
        assert(forall|i: int|
            0 <= i < error_lines_spec(message@, colors, width as nat).len() ==> #[trigger]
            error_lines_spec(message@, colors, width as nat)[i] == views_of(lines@)[i]);
    }
    let tooltip = join_lines(&lines);
    let mut class: Vec<String> = Vec::new();
    class.push(String::from_str("error"));
    WaybarOutput {
        text: String::from_str("?"),
        tooltip,
        class,
        alt: String::from_str("error"),
    }
}

} // verus!
