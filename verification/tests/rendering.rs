//! Width measurement, markup, templates and the box primitives.

use meteobar::boxdraw::{border_line, bottom_border, content_width, empty_line, separator,
    top_border, MIN_WIDTH};
use meteobar::markup::{bold_fg, fg, pango_escape};
use meteobar::numfmt::int_to_string;
use meteobar::template::{degrees_to_cardinal, render, resolve_placeholder, FormatData};
use meteobar::urlenc::urlencoding;
use meteobar::width::visible_len;

fn sample_data() -> FormatData {
    FormatData {
        icon: "I".to_string(),
        temp: "5".to_string(),
        feels_like: "3".to_string(),
        humidity: "55".to_string(),
        wind: "12".to_string(),
        wind_dir: "E".to_string(),
        pressure: "1013".to_string(),
        city: "Oslo".to_string(),
        min: "-2".to_string(),
        max: "7".to_string(),
        rain_chance: "30".to_string(),
        description: "Clear sky".to_string(),
    }
}

#[test]
fn entity_counts_one_cell() {
    assert_eq!(visible_len("&amp;"), 1);
    assert_eq!(visible_len("a&amp;b"), 3);
}

#[test]
fn tags_count_nothing() {
    assert_eq!(visible_len("<span foreground='#61afef'>abc</span>"), 3);
    assert_eq!(visible_len(""), 0);
    assert_eq!(visible_len("plain text"), 10);
}

#[test]
fn unterminated_tag_and_entity_bias_down() {
    assert_eq!(visible_len("ab<cdef"), 2);
    assert_eq!(visible_len("ab&cdef"), 2);
}

#[test]
fn wide_characters_count_their_columns() {
    assert_eq!(visible_len("\u{1f4a7}"), 2);
    assert_eq!(visible_len("Z\u{fc}rich"), 6);
}

#[test]
fn markup_wrapping_is_transparent() {
    let text = "hello world";
    let once = fg("#61afef", text);
    let twice = bold_fg("#e06c75", &once);
    assert_eq!(visible_len(text), visible_len(&once));
    assert_eq!(visible_len(text), visible_len(&twice));
}

#[test]
fn escaping_keeps_visible_width() {
    let raw = "a&b<c>d";
    let escaped = pango_escape(raw);
    assert_eq!(escaped, "a&amp;b&lt;c&gt;d");
    assert_eq!(visible_len(&escaped), 7);
}

#[test]
fn template_totality() {
    let data = sample_data();
    assert_eq!(render("{unknown}", &data), "{unknown}");
    assert_eq!(render("{temp}\u{b0}", &data), "5\u{b0}");
    assert_eq!(render("abc{temp", &data), "abc{temp");
    assert_eq!(render("", &data), "");
    assert_eq!(render("{}", &data), "{}");
    assert_eq!(render("{icon} {temp} in {city}", &data), "I 5 in Oslo");
}

#[test]
fn placeholder_resolution() {
    let data = sample_data();
    assert_eq!(resolve_placeholder("rain_chance", &data), Some("30"));
    assert_eq!(resolve_placeholder("description", &data), Some("Clear sky"));
    assert_eq!(resolve_placeholder("bogus", &data), None);
}

#[test]
fn cardinal_mapping() {
    assert_eq!(degrees_to_cardinal(0), "N");
    assert_eq!(degrees_to_cardinal(22), "N");
    assert_eq!(degrees_to_cardinal(23), "NE");
    assert_eq!(degrees_to_cardinal(44), "NE");
    assert_eq!(degrees_to_cardinal(45), "NE");
    assert_eq!(degrees_to_cardinal(67), "NE");
    assert_eq!(degrees_to_cardinal(68), "E");
    assert_eq!(degrees_to_cardinal(90), "E");
    assert_eq!(degrees_to_cardinal(359), "N");
    assert_eq!(degrees_to_cardinal(360), "N");
}

#[test]
fn box_lines_share_one_width() {
    let bc = "#61afef";
    let dim = "#5c6370";
    let w = 24;
    let lines = [
        top_border(w, bc),
        border_line("content", w, bc),
        separator(w, bc, dim),
        empty_line(w, bc),
        border_line(&fg(dim, "styled \u{1f4a7}"), w, bc),
        bottom_border(w, bc),
    ];
    for line in lines.iter() {
        assert_eq!(visible_len(line), w + 4);
    }
}

#[test]
fn content_width_floors_at_minimum() {
    let short: Vec<String> = vec!["ab".to_string()];
    assert_eq!(content_width(&short), MIN_WIDTH);
    let long: Vec<String> = vec!["ab".to_string(), "x".repeat(31)];
    assert_eq!(content_width(&long), 31);
    let none: Vec<String> = Vec::new();
    assert_eq!(content_width(&none), MIN_WIDTH);
}

#[test]
fn decimal_rendering() {
    assert_eq!(int_to_string(0), "0");
    assert_eq!(int_to_string(-5), "-5");
    assert_eq!(int_to_string(1013), "1013");
    assert_eq!(int_to_string(-2147483648), "-2147483648");
}

#[test]
fn span_composition_is_exact() {
    assert_eq!(fg("#ff0000", "hi"), "<span foreground='#ff0000'>hi</span>");
    assert_eq!(
        bold_fg("#ff0000", "hi"),
        "<span font_weight='bold' foreground='#ff0000'>hi</span>"
    );
}

#[test]
fn border_line_pads_to_the_interior_width() {
    let line = border_line("ab", 5, "#000");
    assert_eq!(
        line,
        "<span foreground='#000'>\u{2502}</span> ab    <span foreground='#000'>\u{2502}</span>"
    );
    assert_eq!(visible_len(&line), 9);
}

#[test]
fn url_encoding() {
    assert_eq!(urlencoding("Oslo"), "Oslo");
    assert_eq!(urlencoding("Z\u{fc}rich"), "Z%C3%BCrich");
    assert_eq!(urlencoding("New York"), "New%20York");
    assert_eq!(urlencoding("a,b.c_d~e-f"), "a,b.c_d~e-f");
}
