//! Icon resolution, forecast rows, tooltip assembly and the envelope.

use meteobar::envelope::build_output;
use meteobar::icons::{get_icon, IconSet};
use meteobar::theme::{blend_hex, parse_hex, parse_toml_flat, ThemeColors};
use meteobar::tooltip::{
    build_daily_lines, build_hourly_lines, build_tooltip, build_tooltip_lines, error_output,
    rain_color, rain_icon, CurrentWeather, DailyForecast, HourlyForecast, TooltipFormat,
    WeatherData,
};
use meteobar::width::visible_len;

fn theme() -> ThemeColors {
    ThemeColors::default()
}

fn daily(days: usize) -> DailyForecast {
    DailyForecast {
        time: (0..days).map(|i| format!("2026-01-{:02}", 5 + i)).collect(),
        weather_code: vec![1; days],
        temperature_2m_max: vec![8; days],
        temperature_2m_min: vec![-1; days],
        sunrise: vec![String::new(); days],
        sunset: vec![String::new(); days],
        precipitation_probability_max: vec![0; days],
        wind_speed_10m_max: vec![20; days],
    }
}

fn snapshot() -> WeatherData {
    WeatherData {
        current: CurrentWeather {
            temperature_2m: 21,
            weather_code: 1,
            is_day: 1,
            relative_humidity_2m: Some(55),
            apparent_temperature: Some(20),
            wind_speed_10m: Some(12),
            wind_direction_10m: Some(90),
            pressure_msl: Some(1013),
            precipitation: Some(0),
        },
        daily: daily(1),
        hourly: None,
        timezone: "Europe/Zurich".to_string(),
    }
}

#[test]
fn unknown_code_falls_back_to_clear_sky() {
    let set = IconSet::Nerd;
    let known = get_icon(0, true, &set);
    let unknown = get_icon(200, true, &set);
    assert_eq!(known.icon, unknown.icon);
    assert_eq!(known.css_class, unknown.css_class);
    assert_eq!(known.description, unknown.description);
    assert_eq!(known.css_class, "clear");
    assert_eq!(known.description, "Clear sky");
}

#[test]
fn fontawesome_icon_carries_font_markup() {
    let info = get_icon(0, true, &IconSet::Fontawesome);
    assert!(info.icon.starts_with("<span font="));
    assert_eq!(visible_len(&info.icon), 2);
}

#[test]
fn rain_color_tiers() {
    let colors = theme();
    assert_eq!(rain_color(29, &colors), colors.green.as_str());
    assert_eq!(rain_color(30, &colors), colors.yellow.as_str());
    assert_eq!(rain_color(59, &colors), colors.yellow.as_str());
    assert_eq!(rain_color(60, &colors), colors.accent.as_str());
}

#[test]
fn zero_rain_suppresses_the_suffix() {
    let colors = theme();
    let set = IconSet::Nerd;
    let mut d = daily(1);
    d.precipitation_probability_max = vec![0];
    let rows = build_daily_lines(&d, 1, &set, "\u{b0}C", &colors);
    assert_eq!(rows.len(), 1);
    assert!(!rows[0].contains('%'));
    assert!(!rows[0].contains(rain_icon(&set)));
    d.precipitation_probability_max = vec![30];
    let rows = build_daily_lines(&d, 1, &set, "\u{b0}C", &colors);
    assert!(rows[0].contains("30%"));
    assert!(rows[0].contains(rain_icon(&set)));
    assert!(rows[0].contains(colors.yellow.as_str()));
}

#[test]
fn daily_row_shows_weekday_label() {
    let colors = theme();
    let rows = build_daily_lines(&daily(2), 2, &IconSet::Nerd, "\u{b0}C", &colors);
    assert_eq!(rows.len(), 2);
    assert!(rows[0].contains("Mon 05"));
    assert!(rows[1].contains("Tue 06"));
    assert!(rows[0].contains("-1"));
    assert!(rows[0].contains("8"));
}

#[test]
fn unparsable_date_is_shown_verbatim() {
    let colors = theme();
    let mut d = daily(1);
    d.time = vec!["someday".to_string()];
    let rows = build_daily_lines(&d, 1, &IconSet::Nerd, "\u{b0}C", &colors);
    assert!(rows[0].contains("someday"));
}

#[test]
fn hourly_rows_slice_the_timestamp() {
    let colors = theme();
    let h = HourlyForecast {
        time: vec!["2026-01-05T09:00".to_string(), "broken".to_string()],
        temperature_2m: vec![3, 4],
        weather_code: vec![2, 2],
        precipitation_probability: vec![0, 65],
    };
    let rows = build_hourly_lines(&h, 2, &IconSet::Nerd, "\u{b0}C", &colors);
    assert_eq!(rows.len(), 2);
    assert!(rows[0].contains("09:00"));
    assert!(!rows[0].contains('%'));
    assert!(rows[1].contains("??:??"));
    assert!(rows[1].contains("65%"));
    assert!(rows[1].contains(theme().accent.as_str()));
}

#[test]
fn every_tooltip_line_has_the_same_visible_width() {
    let colors = theme();
    let cities = ["Oslo", "Z\u{fc}rich", "A<B&C>", "a very long city name over here"];
    let formats = [TooltipFormat::Days, TooltipFormat::Hours, TooltipFormat::Both];
    let mut data = snapshot();
    data.daily = daily(7);
    data.hourly = Some(HourlyForecast {
        time: (0..5).map(|i| format!("2026-01-05T{:02}:00", 9 + i)).collect(),
        temperature_2m: vec![3; 5],
        weather_code: vec![61; 5],
        precipitation_probability: vec![0, 20, 35, 61, 99],
    });
    for city in cities.iter() {
        for fmt in formats.iter() {
            let (lines, w) = build_tooltip_lines(
                city,
                &data,
                &IconSet::Emoji,
                fmt,
                5,
                4,
                "\u{b0}C",
                &colors,
            );
            assert!(w >= 20);
            for line in lines.iter() {
                assert_eq!(visible_len(line), w + 4);
            }
        }
    }
}

#[test]
fn width_covers_the_title() {
    let colors = theme();
    let city = "a city whose name is far wider than every content row of the box";
    let data = snapshot();
    let (_, w) = build_tooltip_lines(
        city,
        &data,
        &IconSet::Nerd,
        &TooltipFormat::Days,
        1,
        0,
        "\u{b0}C",
        &colors,
    );
    assert!(w >= visible_len(city));
    assert!(w >= 20);
}

#[test]
fn tooltip_scenario_zurich() {
    let colors = theme();
    let data = snapshot();
    let tooltip = build_tooltip(
        "Z\u{fc}rich",
        &data,
        &IconSet::Nerd,
        &TooltipFormat::Days,
        1,
        0,
        "\u{b0}C",
        &colors,
    );
    let lines: Vec<&str> = tooltip.split('\n').collect();
    assert_eq!(lines.len(), 12);
    assert!(lines[1].contains("Z\u{fc}rich"));
    assert!(lines[3].contains("21\u{b0}C"));
    assert!(lines[3].contains("feels"));
    assert!(lines[3].contains("20\u{b0}C"));
    assert!(lines[5].contains("55"));
    assert!(lines[5].contains("12"));
    assert!(lines[5].contains(">E</span>"));
    assert!(lines[6].contains("1013"));
    assert!(lines[8].contains("Forecast"));
    let w = visible_len(lines[0]);
    for line in lines.iter() {
        assert_eq!(visible_len(line), w);
    }
}

#[test]
fn hours_zero_hides_the_hourly_block() {
    let colors = theme();
    let mut data = snapshot();
    data.hourly = Some(HourlyForecast {
        time: vec!["2026-01-05T09:00".to_string()],
        temperature_2m: vec![3],
        weather_code: vec![2],
        precipitation_probability: vec![10],
    });
    let tooltip = build_tooltip(
        "Oslo",
        &data,
        &IconSet::Nerd,
        &TooltipFormat::Both,
        1,
        0,
        "\u{b0}C",
        &colors,
    );
    assert!(!tooltip.contains("Hourly"));
    let with_hours = build_tooltip(
        "Oslo",
        &data,
        &IconSet::Nerd,
        &TooltipFormat::Both,
        1,
        1,
        "\u{b0}C",
        &colors,
    );
    assert!(with_hours.contains("Hourly"));
}

#[test]
fn error_box_is_aligned_and_tagged() {
    let colors = theme();
    let out = error_output("network <unreachable> & sad", &colors);
    assert_eq!(out.text, "?");
    assert_eq!(out.class, vec!["error".to_string()]);
    assert_eq!(out.alt, "error");
    assert!(out.tooltip.contains("meteobar error"));
    assert!(out.tooltip.contains("&lt;unreachable&gt;"));
    let lines: Vec<&str> = out.tooltip.split('\n').collect();
    assert_eq!(lines.len(), 5);
    let w = visible_len(lines[0]);
    for line in lines.iter() {
        assert_eq!(visible_len(line), w);
    }
}

#[test]
fn envelope_carries_class_and_inline_text() {
    let colors = theme();
    let data = snapshot();
    let out = build_output(
        &data,
        "Z\u{fc}rich",
        "{icon} {temp}\u{b0} {wind_dir}",
        &IconSet::Nerd,
        &TooltipFormat::Days,
        1,
        0,
        "\u{b0}C",
        &colors,
        false,
    );
    assert_eq!(out.class, vec!["clear".to_string()]);
    assert_eq!(out.alt, "clear");
    assert!(out.text.ends_with("21\u{b0} E"));
    assert!(out.tooltip.contains("Z\u{fc}rich"));
    let stale = build_output(
        &data,
        "Z\u{fc}rich",
        "{temp}",
        &IconSet::Nerd,
        &TooltipFormat::Days,
        1,
        0,
        "\u{b0}C",
        &colors,
        true,
    );
    assert_eq!(stale.class, vec!["clear".to_string(), "stale".to_string()]);
    assert_eq!(stale.text, "21");
}

#[test]
fn row_counts_cap_at_the_data() {
    let colors = theme();
    let rows = build_daily_lines(&daily(2), 7, &IconSet::Nerd, "\u{b0}C", &colors);
    assert_eq!(rows.len(), 2);
    let h = HourlyForecast {
        time: vec!["2026-01-05T09:00".to_string(); 3],
        temperature_2m: vec![3; 3],
        weather_code: vec![2; 3],
        precipitation_probability: vec![0; 3],
    };
    assert_eq!(build_hourly_lines(&h, 24, &IconSet::Nerd, "\u{b0}C", &colors).len(), 3);
    assert_eq!(build_hourly_lines(&h, 2, &IconSet::Nerd, "\u{b0}C", &colors).len(), 2);
}

#[test]
fn day_and_night_variants_differ_where_the_table_says() {
    let day = get_icon(0, true, &IconSet::Emoji);
    let night = get_icon(0, false, &IconSet::Emoji);
    assert_eq!(day.icon, "\u{2600}\u{fe0f}");
    assert_eq!(night.icon, "\u{1f319}");
    assert_eq!(day.css_class, night.css_class);
}

#[test]
fn blend_mixes_channels_evenly() {
    assert_eq!(blend_hex("#000000", "#000002"), "#000001");
    assert_eq!(blend_hex("#000000", "#000003"), "#000002");
    assert_eq!(blend_hex("#ffffff", "#ffffff"), "#ffffff");
    assert_eq!(blend_hex("junk", "#000000"), "#565960");
}

#[test]
fn theme_parsing_round_trip() {
    assert_eq!(parse_hex("#61afef"), Some((0x61, 0xaf, 0xef)));
    assert_eq!(parse_hex("#61AFEF"), Some((0x61, 0xaf, 0xef)));
    assert_eq!(parse_hex("61afef"), None);
    assert_eq!(parse_hex("#61afe"), None);
    assert_eq!(parse_hex("#61afeg"), None);
    let content = "# a comment\nforeground = \"#abb2bf\"\nbackground = \"#282c34\"\n\naccent = \"#61afef\"\ncolor1 = \"#e06c75\"\ncolor2 = \"#98c379\"\ncolor3 = \"#e5c07b\"\nnoise line\n";
    let pairs = parse_toml_flat(content);
    assert_eq!(pairs.len(), 6);
    assert_eq!(pairs[0].0, "foreground");
    assert_eq!(pairs[0].1, "#abb2bf");
    let t = ThemeColors::from_map(&pairs).expect("all keys present");
    assert_eq!(t.border, "#61afef");
    assert_eq!(t.accent, "#61afef");
    assert_eq!(t.text, "#abb2bf");
    assert_eq!(t.green, "#98c379");
    assert_eq!(t.yellow, "#e5c07b");
    assert_eq!(t.orange, "#e06c75");
    assert_eq!(t.error, "#e06c75");
    assert_eq!(t.dim, "#6a6f7a");
    assert!(t.well_formed());
    let mut fewer = pairs;
    fewer.pop();
    fewer.pop();
    assert!(ThemeColors::from_map(&fewer).is_none());
}
