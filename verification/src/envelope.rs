//! The output envelope: inline label, tooltip, status classes, alternate tag.

use vstd::prelude::*;

use crate::icons::{entry_view, get_icon, icon_markup, IconSet};
use crate::numfmt::{int_str, int_to_string};
use crate::template::{cardinal_spec, degrees_to_cardinal, fmt_view, render, render_spec,
    FormatData, FormatView};
use crate::theme::{colors_wf, ThemeColors};
use crate::tooltip::{
    build_tooltip, joined, opt_or, tooltip_lines_spec, tooltip_width_spec, unit_wf, weather_wf,
    TooltipFormat, WaybarOutput, WeatherData, MAX_FIELD_LEN,
};

verus! {

/// The measurement system requested for the upstream fetch; it decides the
/// unit labels the renderer shows.
pub enum Units {
    Metric,
    Imperial,
}

/// The substitution values of the inline label, drawn from the snapshot:
/// rounded numbers, the compass direction, the resolved icon and its
/// description, and today's extremes (zero when the daily series is empty).
pub open spec fn inline_view_spec(data: &WeatherData, city: Seq<char>, set: &IconSet) -> FormatView {
    let cur = data.current;
    FormatView {
        icon: icon_markup(cur.weather_code, cur.is_day == 1, set),
        temp: int_str(cur.temperature_2m as int),
        feels_like: int_str(opt_or(cur.apparent_temperature, cur.temperature_2m as int)),
        humidity: int_str(opt_or(cur.relative_humidity_2m, 0)),
        wind: int_str(opt_or(cur.wind_speed_10m, 0)),
        wind_dir: cardinal_spec(
            match cur.wind_direction_10m {
                Some(v) => v as int,
                None => 0,
            },
        ),
        pressure: int_str(opt_or(cur.pressure_msl, 0)),
        city: city,
        min: int_str(
            if data.daily.temperature_2m_min@.len() > 0 {
                data.daily.temperature_2m_min@[0] as int
            } else {
                0
            },
        ),
        max: int_str(
            if data.daily.temperature_2m_max@.len() > 0 {
                data.daily.temperature_2m_max@[0] as int
            } else {
                0
            },
        ),
        rain_chance: int_str(
            if data.daily.precipitation_probability_max@.len() > 0 {
                data.daily.precipitation_probability_max@[0] as int
            } else {
                0
            },
        ),
        description: entry_view(cur.weather_code).description,
    }
}

/// Assemble the full output envelope: the inline label rendered from the
/// user's template in the requested icon style, the tooltip in the
/// monospace-stable style, the status class of the weather code (with a
/// `stale` marker when served from a fallback cache), and the class again
/// as the alternate tag.
pub fn build_output(
    data: &WeatherData,
    city: &str,
    format: &str,
    icon_set: &IconSet,
    tooltip_format: &TooltipFormat,
    days: u8,
    hours: u8,
    unit_label: &str,
    colors: &ThemeColors,
    stale: bool,
) -> (r: WaybarOutput)
    requires
        city@.len() <= MAX_FIELD_LEN,
        unit_wf(unit_label@),
        colors_wf(colors),
        weather_wf(data),
    ensures
        r.text@ == render_spec(format@, inline_view_spec(data, city@, icon_set)),
        r.tooltip@ == joined(
            tooltip_lines_spec(
                city@,
                data,
                &IconSet::Nerd,
                tooltip_format,
                days,
                hours,
                unit_label@,
                colors,
                tooltip_width_spec(
                    city@,
                    data,
                    &IconSet::Nerd,
                    tooltip_format,
                    days,
                    hours,
                    unit_label@,
                    colors,
                ),
            ),
        ),
        r.alt@ == entry_view(data.current.weather_code).css_class,
        r.class@.len() == (if stale {
            2int
        } else {
            1int
        }),
        r.class@[0]@ == entry_view(data.current.weather_code).css_class,
        stale ==> r.class@[1]@ == "stale"@,
{
    let cur = &data.current;
    let icon_info = get_icon(cur.weather_code, cur.is_day == 1, icon_set);
    let feels = match cur.apparent_temperature {
        Some(v) => v,
        None => cur.temperature_2m,
    };
    let humidity = match cur.relative_humidity_2m {
        Some(v) => v,
        None => 0,
    };
    let wind = match cur.wind_speed_10m {
        Some(v) => v,
        None => 0,
    };
    let dir_deg: u16 = match cur.wind_direction_10m {
        Some(v) => v,
        None => 0,
    };
    let pressure = match cur.pressure_msl {
        Some(v) => v,
        None => 0,
    };
    let today_min = if data.daily.temperature_2m_min.len() > 0 {
        data.daily.temperature_2m_min[0]
    } else {
        0
    };
    let today_max = if data.daily.temperature_2m_max.len() > 0 {
        data.daily.temperature_2m_max[0]
    } else {
        0
    };
    let today_rain: u8 = if data.daily.precipitation_probability_max.len() > 0 {
        data.daily.precipitation_probability_max[0]
    } else {
        0
    };
    let fd = FormatData {
        icon: icon_info.icon,
        temp: int_to_string(cur.temperature_2m),
        feels_like: int_to_string(feels),
        humidity: int_to_string(humidity),
        wind: int_to_string(wind),
        wind_dir: String::from_str(degrees_to_cardinal(dir_deg)),
        pressure: int_to_string(pressure),
        city: String::from_str(city),
        min: int_to_string(today_min),
        max: int_to_string(today_max),
        rain_chance: int_to_string(today_rain as i32),
        description: String::from_str(icon_info.description),
    };
    proof {
        assert(fmt_view(&fd) == inline_view_spec(data, city@, icon_set));
    }
    let text = render(format, &fd);
    let tooltip = build_tooltip(
        city,
        data,
        icon_set,
        tooltip_format,
        days,
        hours,
        unit_label,
        colors,
    );
    let mut class: Vec<String> = Vec::new();
    class.push(String::from_str(icon_info.css_class));
    if stale {
        class.push(String::from_str("stale"));
    }
    WaybarOutput {
        text,
        tooltip,
        class,
        alt: String::from_str(icon_info.css_class),
    }
}

} // verus!
