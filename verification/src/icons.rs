//! Weather-code icon resolution.
//!
//! A static table maps each known weather code to glyphs in four icon styles
//! (with day and night variants), a status class, and a short description.
//! A code the table does not list resolves unconditionally to the clear-sky
//! entry, so resolution is total.

use vstd::prelude::*;

use crate::width::text_clean;

verus! {

/// A resolved icon: the display glyph (possibly wrapped in font-selection
/// markup), a status class, and a human-readable description.
pub struct IconInfo {
    pub icon: String,
    pub css_class: &'static str,
    pub description: &'static str,
}

/// The icon styles the widget can draw from.
#[derive(Clone)]
pub enum IconSet {
    /// Material-design weather glyphs from a patched monospace font.
    Nerd,
    /// Erik Flowers weather glyphs, with day and night variants.
    Weather,
    /// Unicode emoji.
    Emoji,
    /// Font Awesome solid weather glyphs.
    Fontawesome,
}

/// One row of the icon table.
pub struct IconEntry {
    pub day_nerd: &'static str,
    pub night_nerd: &'static str,
    pub day_weather: &'static str,
    pub night_weather: &'static str,
    pub day_emoji: &'static str,
    pub night_emoji: &'static str,
    pub day_fa: &'static str,
    pub night_fa: &'static str,
    pub css_class: &'static str,
    pub description: &'static str,
}

/// One row of the icon table, as mathematical text.
pub ghost struct IconEntryView {
    pub day_nerd: Seq<char>,
    pub night_nerd: Seq<char>,
    pub day_weather: Seq<char>,
    pub night_weather: Seq<char>,
    pub day_emoji: Seq<char>,
    pub night_emoji: Seq<char>,
    pub day_fa: Seq<char>,
    pub night_fa: Seq<char>,
    pub css_class: Seq<char>,
    pub description: Seq<char>,
}

/// The executable entry carries exactly the text of the mathematical one.
pub open spec fn entry_matches(e: &IconEntry, v: IconEntryView) -> bool {
    &&& e.day_nerd@ == v.day_nerd
    &&& e.night_nerd@ == v.night_nerd
    &&& e.day_weather@ == v.day_weather
    &&& e.night_weather@ == v.night_weather
    &&& e.day_emoji@ == v.day_emoji
    &&& e.night_emoji@ == v.night_emoji
    &&& e.day_fa@ == v.day_fa
    &&& e.night_fa@ == v.night_fa
    &&& e.css_class@ == v.css_class
    &&& e.description@ == v.description
}

/// The clear-sky entry: the unconditional fallback of the table.
pub open spec fn clear_entry() -> IconEntryView {
        IconEntryView {
            day_nerd: "󰖙"@,
            night_nerd: "󰖔"@,
            day_weather: "\u{e30d}"@,
            night_weather: "\u{e32b}"@,
            day_emoji: "☀\u{fe0f}"@,
            night_emoji: "🌙"@,
            day_fa: "\u{f185}"@,
            night_fa: "\u{f186}"@,
            css_class: "clear"@,
            description: "Clear sky"@,
        }
}

/// The table entry for a known weather code, as mathematical text.
pub open spec fn entry_view(code: u8) -> IconEntryView {
    if code == 1 {
        IconEntryView {
            day_nerd: "󰖙"@,
            night_nerd: "󰖔"@,
            day_weather: "\u{e30d}"@,
            night_weather: "\u{e32b}"@,
            day_emoji: "🌤\u{fe0f}"@,
            night_emoji: "🌙"@,
            day_fa: "\u{f185}"@,
            night_fa: "\u{f186}"@,
            css_class: "clear"@,
            description: "Mainly clear"@,
        }
    } else if code == 2 {
        IconEntryView {
            day_nerd: "󰖕"@,
            night_nerd: "󰼱"@,
            day_weather: "\u{e302}"@,
            night_weather: "\u{e37e}"@,
            day_emoji: "⛅"@,
            night_emoji: "☁\u{fe0f}"@,
            day_fa: "\u{f6c4}"@,
            night_fa: "\u{f6c3}"@,
            css_class: "cloudy"@,
            description: "Partly cloudy"@,
        }
    } else if code == 3 {
        IconEntryView {
            day_nerd: "󰖐"@,
            night_nerd: "󰖐"@,
            day_weather: "\u{e312}"@,
            night_weather: "\u{e312}"@,
            day_emoji: "☁\u{fe0f}"@,
            night_emoji: "☁\u{fe0f}"@,
            day_fa: "\u{f0c2}"@,
            night_fa: "\u{f0c2}"@,
            css_class: "cloudy"@,
            description: "Overcast"@,
        }
    } else if code == 45 {
        IconEntryView {
            day_nerd: "󰖑"@,
            night_nerd: "󰖑"@,
            day_weather: "\u{e303}"@,
            night_weather: "\u{e346}"@,
            day_emoji: "🌫\u{fe0f}"@,
            night_emoji: "🌫\u{fe0f}"@,
            day_fa: "\u{f75f}"@,
            night_fa: "\u{f75f}"@,
            css_class: "foggy"@,
            description: "Fog"@,
        }
    } else if code == 48 {
        IconEntryView {
            day_nerd: "󰖑"@,
            night_nerd: "󰖑"@,
            day_weather: "\u{e303}"@,
            night_weather: "\u{e346}"@,
            day_emoji: "🌫\u{fe0f}"@,
            night_emoji: "🌫\u{fe0f}"@,
            day_fa: "\u{f75f}"@,
            night_fa: "\u{f75f}"@,
            css_class: "foggy"@,
            description: "Rime fog"@,
        }
    } else if code == 51 {
        IconEntryView {
            day_nerd: "󰖗"@,
            night_nerd: "󰖗"@,
            day_weather: "\u{e30b}"@,
            night_weather: "\u{e328}"@,
            day_emoji: "🌦\u{fe0f}"@,
            night_emoji: "🌧\u{fe0f}"@,
            day_fa: "\u{f73d}"@,
            night_fa: "\u{f73d}"@,
            css_class: "rainy"@,
            description: "Light drizzle"@,
        }
    } else if code == 53 {
        IconEntryView {
            day_nerd: "󰖗"@,
            night_nerd: "󰖗"@,
            day_weather: "\u{e30b}"@,
            night_weather: "\u{e328}"@,
            day_emoji: "🌧\u{fe0f}"@,
            night_emoji: "🌧\u{fe0f}"@,
            day_fa: "\u{f73d}"@,
            night_fa: "\u{f73d}"@,
            css_class: "rainy"@,
            description: "Moderate drizzle"@,
        }
    } else if code == 55 {
        IconEntryView {
            day_nerd: "󰖗"@,
            night_nerd: "󰖗"@,
            day_weather: "\u{e319}"@,
            night_weather: "\u{e319}"@,
            day_emoji: "🌧\u{fe0f}"@,
            night_emoji: "🌧\u{fe0f}"@,
            day_fa: "\u{f740}"@,
            night_fa: "\u{f740}"@,
            css_class: "rainy"@,
            description: "Dense drizzle"@,
        }
    } else if code == 56 {
        IconEntryView {
            day_nerd: "󰖗"@,
            night_nerd: "󰖗"@,
            day_weather: "\u{e306}"@,
            night_weather: "\u{e323}"@,
            day_emoji: "🌧\u{fe0f}"@,
            night_emoji: "🌧\u{fe0f}"@,
            day_fa: "\u{f7ad}"@,
            night_fa: "\u{f7ad}"@,
            css_class: "rainy"@,
            description: "Freezing drizzle"@,
        }
    } else if code == 57 {
        IconEntryView {
            day_nerd: "󰖗"@,
            night_nerd: "󰖗"@,
            day_weather: "\u{e316}"@,
            night_weather: "\u{e316}"@,
            day_emoji: "🌧\u{fe0f}"@,
            night_emoji: "🌧\u{fe0f}"@,
            day_fa: "\u{f7ad}"@,
            night_fa: "\u{f7ad}"@,
            css_class: "rainy"@,
            description: "Dense freezing drizzle"@,
        }
    } else if code == 61 {
        IconEntryView {
            day_nerd: "󰖗"@,
            night_nerd: "󰖗"@,
            day_weather: "\u{e308}"@,
            night_weather: "\u{e325}"@,
            day_emoji: "🌧\u{fe0f}"@,
            night_emoji: "🌧\u{fe0f}"@,
            day_fa: "\u{f73d}"@,
            night_fa: "\u{f73d}"@,
            css_class: "rainy"@,
            description: "Slight rain"@,
        }
    } else if code == 63 {
        IconEntryView {
            day_nerd: "󰖗"@,
            night_nerd: "󰖗"@,
            day_weather: "\u{e318}"@,
            night_weather: "\u{e318}"@,
            day_emoji: "🌧\u{fe0f}"@,
            night_emoji: "🌧\u{fe0f}"@,
            day_fa: "\u{f740}"@,
            night_fa: "\u{f740}"@,
            css_class: "rainy"@,
            description: "Moderate rain"@,
        }
    } else if code == 65 {
        IconEntryView {
            day_nerd: "󰖗"@,
            night_nerd: "󰖗"@,
            day_weather: "\u{e318}"@,
            night_weather: "\u{e318}"@,
            day_emoji: "🌧\u{fe0f}"@,
            night_emoji: "🌧\u{fe0f}"@,
            day_fa: "\u{f740}"@,
            night_fa: "\u{f740}"@,
            css_class: "rainy"@,
            description: "Heavy rain"@,
        }
    } else if code == 66 {
        IconEntryView {
            day_nerd: "󰖗"@,
            night_nerd: "󰖗"@,
            day_weather: "\u{e306}"@,
            night_weather: "\u{e323}"@,
            day_emoji: "🌧\u{fe0f}"@,
            night_emoji: "🌧\u{fe0f}"@,
            day_fa: "\u{f7ad}"@,
            night_fa: "\u{f7ad}"@,
            css_class: "rainy"@,
            description: "Freezing rain"@,
        }
    } else if code == 67 {
        IconEntryView {
            day_nerd: "󰖗"@,
            night_nerd: "󰖗"@,
            day_weather: "\u{e316}"@,
            night_weather: "\u{e316}"@,
            day_emoji: "🌧\u{fe0f}"@,
            night_emoji: "🌧\u{fe0f}"@,
            day_fa: "\u{f7ad}"@,
            night_fa: "\u{f7ad}"@,
            css_class: "rainy"@,
            description: "Heavy freezing rain"@,
        }
    } else if code == 71 {
        IconEntryView {
            day_nerd: "󰖘"@,
            night_nerd: "󰖘"@,
            day_weather: "\u{e30a}"@,
            night_weather: "\u{e327}"@,
            day_emoji: "🌨\u{fe0f}"@,
            night_emoji: "🌨\u{fe0f}"@,
            day_fa: "\u{f2dc}"@,
            night_fa: "\u{f2dc}"@,
            css_class: "snowy"@,
            description: "Slight snow"@,
        }
    } else if code == 73 {
        IconEntryView {
            day_nerd: "󰖘"@,
            night_nerd: "󰖘"@,
            day_weather: "\u{e31a}"@,
            night_weather: "\u{e31a}"@,
            day_emoji: "🌨\u{fe0f}"@,
            night_emoji: "🌨\u{fe0f}"@,
            day_fa: "\u{f2dc}"@,
            night_fa: "\u{f2dc}"@,
            css_class: "snowy"@,
            description: "Moderate snow"@,
        }
    } else if code == 75 {
        IconEntryView {
            day_nerd: "󰖘"@,
            night_nerd: "󰖘"@,
            day_weather: "\u{e31a}"@,
            night_weather: "\u{e31a}"@,
            day_emoji: "🌨\u{fe0f}"@,
            night_emoji: "🌨\u{fe0f}"@,
            day_fa: "\u{f2dc}"@,
            night_fa: "\u{f2dc}"@,
            css_class: "snowy"@,
            description: "Heavy snow"@,
        }
    } else if code == 77 {
        IconEntryView {
            day_nerd: "󰖘"@,
            night_nerd: "󰖘"@,
            day_weather: "\u{e36f}"@,
            night_weather: "\u{e36f}"@,
            day_emoji: "🌨\u{fe0f}"@,
            night_emoji: "🌨\u{fe0f}"@,
            day_fa: "\u{f2dc}"@,
            night_fa: "\u{f2dc}"@,
            css_class: "snowy"@,
            description: "Snow grains"@,
        }
    } else if code == 80 {
        IconEntryView {
            day_nerd: "󰖗"@,
            night_nerd: "󰖗"@,
            day_weather: "\u{e309}"@,
            night_weather: "\u{e326}"@,
            day_emoji: "🌧\u{fe0f}"@,
            night_emoji: "🌧\u{fe0f}"@,
            day_fa: "\u{f743}"@,
            night_fa: "\u{f73c}"@,
            css_class: "rainy"@,
            description: "Slight rain showers"@,
        }
    } else if code == 81 {
        IconEntryView {
            day_nerd: "󰖗"@,
            night_nerd: "󰖗"@,
            day_weather: "\u{e319}"@,
            night_weather: "\u{e319}"@,
            day_emoji: "🌧\u{fe0f}"@,
            night_emoji: "🌧\u{fe0f}"@,
            day_fa: "\u{f740}"@,
            night_fa: "\u{f740}"@,
            css_class: "rainy"@,
            description: "Moderate rain showers"@,
        }
    } else if code == 82 {
        IconEntryView {
            day_nerd: "󰖗"@,
            night_nerd: "󰖗"@,
            day_weather: "\u{e31c}"@,
            night_weather: "\u{e329}"@,
            day_emoji: "🌧\u{fe0f}"@,
            night_emoji: "🌧\u{fe0f}"@,
            day_fa: "\u{f740}"@,
            night_fa: "\u{f740}"@,
            css_class: "rainy"@,
            description: "Violent rain showers"@,
        }
    } else if code == 85 {
        IconEntryView {
            day_nerd: "󰖘"@,
            night_nerd: "󰖘"@,
            day_weather: "\u{e30a}"@,
            night_weather: "\u{e327}"@,
            day_emoji: "🌨\u{fe0f}"@,
            night_emoji: "🌨\u{fe0f}"@,
            day_fa: "\u{f2dc}"@,
            night_fa: "\u{f2dc}"@,
            css_class: "snowy"@,
            description: "Slight snow showers"@,
        }
    } else if code == 86 {
        IconEntryView {
            day_nerd: "󰖘"@,
            night_nerd: "󰖘"@,
            day_weather: "\u{e31a}"@,
            night_weather: "\u{e31a}"@,
            day_emoji: "🌨\u{fe0f}"@,
            night_emoji: "🌨\u{fe0f}"@,
            day_fa: "\u{f2dc}"@,
            night_fa: "\u{f2dc}"@,
            css_class: "snowy"@,
            description: "Heavy snow showers"@,
        }
    } else if code == 95 {
        IconEntryView {
            day_nerd: "󰖓"@,
            night_nerd: "󰖓"@,
            day_weather: "\u{e30f}"@,
            night_weather: "\u{e32a}"@,
            day_emoji: "⛈\u{fe0f}"@,
            night_emoji: "⛈\u{fe0f}"@,
            day_fa: "\u{f76c}"@,
            night_fa: "\u{f76c}"@,
            css_class: "stormy"@,
            description: "Thunderstorm"@,
        }
    } else if code == 96 {
        IconEntryView {
            day_nerd: "󰖓"@,
            night_nerd: "󰖓"@,
            day_weather: "\u{e304}"@,
            night_weather: "\u{e321}"@,
            day_emoji: "⛈\u{fe0f}"@,
            night_emoji: "⛈\u{fe0f}"@,
            day_fa: "\u{f76c}"@,
            night_fa: "\u{f76c}"@,
            css_class: "stormy"@,
            description: "Thunderstorm with hail"@,
        }
    } else if code == 99 {
        IconEntryView {
            day_nerd: "󰖓"@,
            night_nerd: "󰖓"@,
            day_weather: "\u{e31d}"@,
            night_weather: "\u{e31d}"@,
            day_emoji: "⛈\u{fe0f}"@,
            night_emoji: "⛈\u{fe0f}"@,
            day_fa: "\u{f76c}"@,
            night_fa: "\u{f76c}"@,
            css_class: "stormy"@,
            description: "Thunderstorm with heavy hail"@,
        }
    } else {
        clear_entry()
    }
}

/// The weather codes the table lists; any other resolves to the entry of 0.
pub open spec fn known_code(code: u8) -> bool {
    code == 0 || code == 1 || code == 2 || code == 3 || code == 45 || code == 48 || code == 51 || code == 53 || code == 55 || code == 56 || code == 57 || code == 61 || code == 63 || code == 65 || code == 66 || code == 67 || code == 71 || code == 73 || code == 75 || code == 77 || code == 80 || code == 81 || code == 82 || code == 85 || code == 86 || code == 95 || code == 96 || code == 99
}

/// The table entry for `code`, falling back to the clear-sky entry when
/// the code is not listed.
pub fn find_entry(code: u8) -> (r: IconEntry)
    ensures
        entry_matches(&r, entry_view(code)),
{
    match code {
        1 => IconEntry { day_nerd: "󰖙", night_nerd: "󰖔", day_weather: "\u{e30d}", night_weather: "\u{e32b}", day_emoji: "🌤\u{fe0f}", night_emoji: "🌙", day_fa: "\u{f185}", night_fa: "\u{f186}", css_class: "clear", description: "Mainly clear" },
        2 => IconEntry { day_nerd: "󰖕", night_nerd: "󰼱", day_weather: "\u{e302}", night_weather: "\u{e37e}", day_emoji: "⛅", night_emoji: "☁\u{fe0f}", day_fa: "\u{f6c4}", night_fa: "\u{f6c3}", css_class: "cloudy", description: "Partly cloudy" },
        3 => IconEntry { day_nerd: "󰖐", night_nerd: "󰖐", day_weather: "\u{e312}", night_weather: "\u{e312}", day_emoji: "☁\u{fe0f}", night_emoji: "☁\u{fe0f}", day_fa: "\u{f0c2}", night_fa: "\u{f0c2}", css_class: "cloudy", description: "Overcast" },
        45 => IconEntry { day_nerd: "󰖑", night_nerd: "󰖑", day_weather: "\u{e303}", night_weather: "\u{e346}", day_emoji: "🌫\u{fe0f}", night_emoji: "🌫\u{fe0f}", day_fa: "\u{f75f}", night_fa: "\u{f75f}", css_class: "foggy", description: "Fog" },
        48 => IconEntry { day_nerd: "󰖑", night_nerd: "󰖑", day_weather: "\u{e303}", night_weather: "\u{e346}", day_emoji: "🌫\u{fe0f}", night_emoji: "🌫\u{fe0f}", day_fa: "\u{f75f}", night_fa: "\u{f75f}", css_class: "foggy", description: "Rime fog" },
        51 => IconEntry { day_nerd: "󰖗", night_nerd: "󰖗", day_weather: "\u{e30b}", night_weather: "\u{e328}", day_emoji: "🌦\u{fe0f}", night_emoji: "🌧\u{fe0f}", day_fa: "\u{f73d}", night_fa: "\u{f73d}", css_class: "rainy", description: "Light drizzle" },
        53 => IconEntry { day_nerd: "󰖗", night_nerd: "󰖗", day_weather: "\u{e30b}", night_weather: "\u{e328}", day_emoji: "🌧\u{fe0f}", night_emoji: "🌧\u{fe0f}", day_fa: "\u{f73d}", night_fa: "\u{f73d}", css_class: "rainy", description: "Moderate drizzle" },
        55 => IconEntry { day_nerd: "󰖗", night_nerd: "󰖗", day_weather: "\u{e319}", night_weather: "\u{e319}", day_emoji: "🌧\u{fe0f}", night_emoji: "🌧\u{fe0f}", day_fa: "\u{f740}", night_fa: "\u{f740}", css_class: "rainy", description: "Dense drizzle" },
        56 => IconEntry { day_nerd: "󰖗", night_nerd: "󰖗", day_weather: "\u{e306}", night_weather: "\u{e323}", day_emoji: "🌧\u{fe0f}", night_emoji: "🌧\u{fe0f}", day_fa: "\u{f7ad}", night_fa: "\u{f7ad}", css_class: "rainy", description: "Freezing drizzle" },
        57 => IconEntry { day_nerd: "󰖗", night_nerd: "󰖗", day_weather: "\u{e316}", night_weather: "\u{e316}", day_emoji: "🌧\u{fe0f}", night_emoji: "🌧\u{fe0f}", day_fa: "\u{f7ad}", night_fa: "\u{f7ad}", css_class: "rainy", description: "Dense freezing drizzle" },
        61 => IconEntry { day_nerd: "󰖗", night_nerd: "󰖗", day_weather: "\u{e308}", night_weather: "\u{e325}", day_emoji: "🌧\u{fe0f}", night_emoji: "🌧\u{fe0f}", day_fa: "\u{f73d}", night_fa: "\u{f73d}", css_class: "rainy", description: "Slight rain" },
        63 => IconEntry { day_nerd: "󰖗", night_nerd: "󰖗", day_weather: "\u{e318}", night_weather: "\u{e318}", day_emoji: "🌧\u{fe0f}", night_emoji: "🌧\u{fe0f}", day_fa: "\u{f740}", night_fa: "\u{f740}", css_class: "rainy", description: "Moderate rain" },
        65 => IconEntry { day_nerd: "󰖗", night_nerd: "󰖗", day_weather: "\u{e318}", night_weather: "\u{e318}", day_emoji: "🌧\u{fe0f}", night_emoji: "🌧\u{fe0f}", day_fa: "\u{f740}", night_fa: "\u{f740}", css_class: "rainy", description: "Heavy rain" },
        66 => IconEntry { day_nerd: "󰖗", night_nerd: "󰖗", day_weather: "\u{e306}", night_weather: "\u{e323}", day_emoji: "🌧\u{fe0f}", night_emoji: "🌧\u{fe0f}", day_fa: "\u{f7ad}", night_fa: "\u{f7ad}", css_class: "rainy", description: "Freezing rain" },
        67 => IconEntry { day_nerd: "󰖗", night_nerd: "󰖗", day_weather: "\u{e316}", night_weather: "\u{e316}", day_emoji: "🌧\u{fe0f}", night_emoji: "🌧\u{fe0f}", day_fa: "\u{f7ad}", night_fa: "\u{f7ad}", css_class: "rainy", description: "Heavy freezing rain" },
        71 => IconEntry { day_nerd: "󰖘", night_nerd: "󰖘", day_weather: "\u{e30a}", night_weather: "\u{e327}", day_emoji: "🌨\u{fe0f}", night_emoji: "🌨\u{fe0f}", day_fa: "\u{f2dc}", night_fa: "\u{f2dc}", css_class: "snowy", description: "Slight snow" },
        73 => IconEntry { day_nerd: "󰖘", night_nerd: "󰖘", day_weather: "\u{e31a}", night_weather: "\u{e31a}", day_emoji: "🌨\u{fe0f}", night_emoji: "🌨\u{fe0f}", day_fa: "\u{f2dc}", night_fa: "\u{f2dc}", css_class: "snowy", description: "Moderate snow" },
        75 => IconEntry { day_nerd: "󰖘", night_nerd: "󰖘", day_weather: "\u{e31a}", night_weather: "\u{e31a}", day_emoji: "🌨\u{fe0f}", night_emoji: "🌨\u{fe0f}", day_fa: "\u{f2dc}", night_fa: "\u{f2dc}", css_class: "snowy", description: "Heavy snow" },
        77 => IconEntry { day_nerd: "󰖘", night_nerd: "󰖘", day_weather: "\u{e36f}", night_weather: "\u{e36f}", day_emoji: "🌨\u{fe0f}", night_emoji: "🌨\u{fe0f}", day_fa: "\u{f2dc}", night_fa: "\u{f2dc}", css_class: "snowy", description: "Snow grains" },
        80 => IconEntry { day_nerd: "󰖗", night_nerd: "󰖗", day_weather: "\u{e309}", night_weather: "\u{e326}", day_emoji: "🌧\u{fe0f}", night_emoji: "🌧\u{fe0f}", day_fa: "\u{f743}", night_fa: "\u{f73c}", css_class: "rainy", description: "Slight rain showers" },
        81 => IconEntry { day_nerd: "󰖗", night_nerd: "󰖗", day_weather: "\u{e319}", night_weather: "\u{e319}", day_emoji: "🌧\u{fe0f}", night_emoji: "🌧\u{fe0f}", day_fa: "\u{f740}", night_fa: "\u{f740}", css_class: "rainy", description: "Moderate rain showers" },
        82 => IconEntry { day_nerd: "󰖗", night_nerd: "󰖗", day_weather: "\u{e31c}", night_weather: "\u{e329}", day_emoji: "🌧\u{fe0f}", night_emoji: "🌧\u{fe0f}", day_fa: "\u{f740}", night_fa: "\u{f740}", css_class: "rainy", description: "Violent rain showers" },
        85 => IconEntry { day_nerd: "󰖘", night_nerd: "󰖘", day_weather: "\u{e30a}", night_weather: "\u{e327}", day_emoji: "🌨\u{fe0f}", night_emoji: "🌨\u{fe0f}", day_fa: "\u{f2dc}", night_fa: "\u{f2dc}", css_class: "snowy", description: "Slight snow showers" },
        86 => IconEntry { day_nerd: "󰖘", night_nerd: "󰖘", day_weather: "\u{e31a}", night_weather: "\u{e31a}", day_emoji: "🌨\u{fe0f}", night_emoji: "🌨\u{fe0f}", day_fa: "\u{f2dc}", night_fa: "\u{f2dc}", css_class: "snowy", description: "Heavy snow showers" },
        95 => IconEntry { day_nerd: "󰖓", night_nerd: "󰖓", day_weather: "\u{e30f}", night_weather: "\u{e32a}", day_emoji: "⛈\u{fe0f}", night_emoji: "⛈\u{fe0f}", day_fa: "\u{f76c}", night_fa: "\u{f76c}", css_class: "stormy", description: "Thunderstorm" },
        96 => IconEntry { day_nerd: "󰖓", night_nerd: "󰖓", day_weather: "\u{e304}", night_weather: "\u{e321}", day_emoji: "⛈\u{fe0f}", night_emoji: "⛈\u{fe0f}", day_fa: "\u{f76c}", night_fa: "\u{f76c}", css_class: "stormy", description: "Thunderstorm with hail" },
        99 => IconEntry { day_nerd: "󰖓", night_nerd: "󰖓", day_weather: "\u{e31d}", night_weather: "\u{e31d}", day_emoji: "⛈\u{fe0f}", night_emoji: "⛈\u{fe0f}", day_fa: "\u{f76c}", night_fa: "\u{f76c}", css_class: "stormy", description: "Thunderstorm with heavy hail" },
        _ => IconEntry { day_nerd: "󰖙", night_nerd: "󰖔", day_weather: "\u{e30d}", night_weather: "\u{e32b}", day_emoji: "☀\u{fe0f}", night_emoji: "🌙", day_fa: "\u{f185}", night_fa: "\u{f186}", css_class: "clear", description: "Clear sky" },
    }
}

/// Every glyph and description the tooltip composes with is free of
/// markup-significant characters.
pub proof fn lemma_entry_clean(code: u8)
    ensures
        text_clean(entry_view(code).day_nerd),
        text_clean(entry_view(code).night_nerd),
        text_clean(entry_view(code).description),
        entry_view(code).day_nerd.len() <= 8,
        entry_view(code).night_nerd.len() <= 8,
        entry_view(code).description.len() <= 40,
{
    if code == 1 {
        reveal_strlit("󰖙");
        reveal_strlit("󰖔");
        reveal_strlit("Mainly clear");
    } else if code == 2 {
        reveal_strlit("󰖕");
        reveal_strlit("󰼱");
        reveal_strlit("Partly cloudy");
    } else if code == 3 {
        reveal_strlit("󰖐");
        reveal_strlit("󰖐");
        reveal_strlit("Overcast");
    } else if code == 45 {
        reveal_strlit("󰖑");
        reveal_strlit("󰖑");
        reveal_strlit("Fog");
    } else if code == 48 {
        reveal_strlit("󰖑");
        reveal_strlit("󰖑");
        reveal_strlit("Rime fog");
    } else if code == 51 {
        reveal_strlit("󰖗");
        reveal_strlit("󰖗");
        reveal_strlit("Light drizzle");
    } else if code == 53 {
        reveal_strlit("󰖗");
        reveal_strlit("󰖗");
        reveal_strlit("Moderate drizzle");
    } else if code == 55 {
        reveal_strlit("󰖗");
        reveal_strlit("󰖗");
        reveal_strlit("Dense drizzle");
    } else if code == 56 {
        reveal_strlit("󰖗");
        reveal_strlit("󰖗");
        reveal_strlit("Freezing drizzle");
    } else if code == 57 {
        reveal_strlit("󰖗");
        reveal_strlit("󰖗");
        reveal_strlit("Dense freezing drizzle");
    } else if code == 61 {
        reveal_strlit("󰖗");
        reveal_strlit("󰖗");
        reveal_strlit("Slight rain");
    } else if code == 63 {
        reveal_strlit("󰖗");
        reveal_strlit("󰖗");
        reveal_strlit("Moderate rain");
    } else if code == 65 {
        reveal_strlit("󰖗");
        reveal_strlit("󰖗");
        reveal_strlit("Heavy rain");
    } else if code == 66 {
        reveal_strlit("󰖗");
        reveal_strlit("󰖗");
        reveal_strlit("Freezing rain");
    } else if code == 67 {
        reveal_strlit("󰖗");
        reveal_strlit("󰖗");
        reveal_strlit("Heavy freezing rain");
    } else if code == 71 {
        reveal_strlit("󰖘");
        reveal_strlit("󰖘");
        reveal_strlit("Slight snow");
    } else if code == 73 {
        reveal_strlit("󰖘");
        reveal_strlit("󰖘");
        reveal_strlit("Moderate snow");
    } else if code == 75 {
        reveal_strlit("󰖘");
        reveal_strlit("󰖘");
        reveal_strlit("Heavy snow");
    } else if code == 77 {
        reveal_strlit("󰖘");
        reveal_strlit("󰖘");
        reveal_strlit("Snow grains");
    } else if code == 80 {
        reveal_strlit("󰖗");
        reveal_strlit("󰖗");
        reveal_strlit("Slight rain showers");
    } else if code == 81 {
        reveal_strlit("󰖗");
        reveal_strlit("󰖗");
        reveal_strlit("Moderate rain showers");
    } else if code == 82 {
        reveal_strlit("󰖗");
        reveal_strlit("󰖗");
        reveal_strlit("Violent rain showers");
    } else if code == 85 {
        reveal_strlit("󰖘");
        reveal_strlit("󰖘");
        reveal_strlit("Slight snow showers");
    } else if code == 86 {
        reveal_strlit("󰖘");
        reveal_strlit("󰖘");
        reveal_strlit("Heavy snow showers");
    } else if code == 95 {
        reveal_strlit("󰖓");
        reveal_strlit("󰖓");
        reveal_strlit("Thunderstorm");
    } else if code == 96 {
        reveal_strlit("󰖓");
        reveal_strlit("󰖓");
        reveal_strlit("Thunderstorm with hail");
    } else if code == 99 {
        reveal_strlit("󰖓");
        reveal_strlit("󰖓");
        reveal_strlit("Thunderstorm with heavy hail");
    } else {
        reveal_strlit("󰖙");
        reveal_strlit("󰖔");
        reveal_strlit("Clear sky");
    }
}

/// The bare glyph for a code, time of day, and icon style.
pub open spec fn raw_glyph(code: u8, is_day: bool, set: &IconSet) -> Seq<char> {
    let e = entry_view(code);
    match set {
        IconSet::Nerd => if is_day {
            e.day_nerd
        } else {
            e.night_nerd
        },
        IconSet::Weather => if is_day {
            e.day_weather
        } else {
            e.night_weather
        },
        IconSet::Emoji => if is_day {
            e.day_emoji
        } else {
            e.night_emoji
        },
        IconSet::Fontawesome => if is_day {
            e.day_fa
        } else {
            e.night_fa
        },
    }
}

/// The glyph as emitted: Font Awesome glyphs are wrapped in a font-selection
/// span (the status bar would otherwise draw them from the default font),
/// every other style is emitted bare.
pub open spec fn icon_markup(code: u8, is_day: bool, set: &IconSet) -> Seq<char> {
    match set {
        IconSet::Fontawesome => "<span font='Font Awesome 7 Free Solid'>"@ + raw_glyph(
            code,
            is_day,
            set,
        ) + "</span> "@,
        _ => raw_glyph(code, is_day, set),
    }
}

/// Resolve the icon for a weather code: glyph in the requested style, status
/// class, and description. A code outside the table resolves to the
/// clear-sky entry, so an unrecognized code and code 0 are indistinguishable
/// here.
pub fn get_icon(code: u8, is_day: bool, icon_set: &IconSet) -> (r: IconInfo)
    ensures
        r.icon@ == icon_markup(code, is_day, icon_set),
        r.css_class@ == entry_view(code).css_class,
        r.description@ == entry_view(code).description,
        !known_code(code) ==> r.icon@ == icon_markup(0, is_day, icon_set),
        !(icon_set is Fontawesome) ==> r.icon@ == raw_glyph(code, is_day, icon_set),
        icon_set is Nerd ==> text_clean(r.icon@),
        text_clean(r.description@),
{
    proof {
        lemma_entry_clean(code);
    }
    let entry = find_entry(code);
    let raw: &'static str = match (icon_set, is_day) {
        (IconSet::Nerd, true) => entry.day_nerd,
        (IconSet::Nerd, false) => entry.night_nerd,
        (IconSet::Weather, true) => entry.day_weather,
        (IconSet::Weather, false) => entry.night_weather,
        (IconSet::Emoji, true) => entry.day_emoji,
        (IconSet::Emoji, false) => entry.night_emoji,
        (IconSet::Fontawesome, true) => entry.day_fa,
        (IconSet::Fontawesome, false) => entry.night_fa,
    };
    let icon: String = match icon_set {
        IconSet::Fontawesome => {
            let mut w = String::new();
            w.append("<span font='Font Awesome 7 Free Solid'>");
            w.append(raw);
            w.append("</span> ");
            proof {
                assert(w@ =~= icon_markup(code, is_day, icon_set));
            }
            w
        },
        _ => {
            let mut w = String::new();
            w.append(raw);
            proof {
                assert(w@ =~= icon_markup(code, is_day, icon_set));
            }
            w
        },
    };
    IconInfo { icon, css_class: entry.css_class, description: entry.description }
}

} // verus!
