//! The bordered-box renderer.
//!
//! Every function here draws one line of a box with interior width `W` and
//! guarantees the alignment invariant the whole tooltip depends on: once its
//! markup is stripped, an emitted line measures exactly `W + 4` columns —
//! two border characters, two single-space gutters, and `W` columns of
//! interior — no matter which glyphs or spans the content used, provided the
//! content itself is well formed and no wider than `W`.

use vstd::prelude::*;

use crate::markup::{color_wf, fg, fg_spec, lemma_fg_transparent};
use crate::width::{
    char_cells, char_width, chars_to_string, col_width, lemma_clean_strip, lemma_col_width_concat,
    lemma_narrow_width, lemma_strip_concat, scan_ok, strip_from, strip_markup, text_clean,
    vis_width, visible_len, ScanState, MAX_TEXT_LEN,
};

verus! {

/// The floor on the interior width of a tooltip box.
pub const MIN_WIDTH: usize = 20;

/// Largest interior width a box is drawn at; far beyond any real tooltip,
/// and small enough that a framed line stays measurable.
pub const MAX_BOX_WIDTH: usize = 1048576;

/// `n` spaces.
pub open spec fn spaces(n: nat) -> Seq<char> {
    Seq::new(n, |i: int| ' ')
}

/// `n` horizontal rule characters.
pub open spec fn hrule(n: nat) -> Seq<char> {
    Seq::new(n, |i: int| '─')
}

/// View of a bordered content line: colored bar, gutter, the content, right
/// padding up to the interior width, gutter, colored bar.
pub open spec fn border_line_spec(content: Seq<char>, w: nat, bc: Seq<char>) -> Seq<char> {
    let pad = if vis_width(content) <= w {
        (w - vis_width(content)) as nat
    } else {
        0
    };
    fg_spec(bc, "│"@) + " "@ + content + spaces(pad) + " "@ + fg_spec(bc, "│"@)
}

/// `n` spaces, executable.
pub(crate) fn blank_chars(n: usize) -> (r: Vec<char>)
    ensures
        r@ == spaces(n as nat),
{
    let mut r: Vec<char> = Vec::new();
    let mut i: usize = 0;
    while i < n
        invariant
            i <= n,
            r@ == spaces(i as nat),
        decreases n - i,
    {
        r.push(' ');
        proof {
            assert(r@ =~= spaces(i as nat + 1));
        }
        i = i + 1;
    }
    r
}

/// `n` horizontal rule characters, executable.
fn rule_chars(n: usize) -> (r: Vec<char>)
    ensures
        r@ == hrule(n as nat),
{
    let mut r: Vec<char> = Vec::new();
    let mut i: usize = 0;
    while i < n
        invariant
            i <= n,
            r@ == hrule(i as nat),
        decreases n - i,
    {
        r.push('─');
        proof {
            assert(r@ =~= hrule(i as nat + 1));
        }
        i = i + 1;
    }
    r
}

/// The vertical bar in the border color: one visible column, well formed.
fn colored_bar(border_color: &str) -> (r: String)
    requires
        color_wf(border_color@),
    ensures
        r@ == fg_spec(border_color@, "│"@),
        strip_markup(r@) == seq!['│'],
        scan_ok(r@),
        vis_width(r@) == 1,
{
    // Measuring a glyph through the trusted measurer makes its column
    // width available to the proof.
    let _bar_cells: usize = char_cells('│');
    let r = fg(border_color, "│");
    proof {
        reveal_strlit("│");
        assert("│"@ =~= seq!['│']);
        assert(text_clean("│"@));
        lemma_clean_strip("│"@);
        lemma_fg_transparent(border_color@, "│"@);
        crate::width::lemma_col_width_single('│');
    }
    r
}

/// One bordered content line. Its visible width is the interior width plus
/// four — or the content's own width plus four when the content overflows
/// the interior (the padding saturates at zero; callers avoid this by sizing
/// `width` from the content first).
pub fn border_line(content: &str, width: usize, border_color: &str) -> (r: String)
    requires
        content@.len() <= MAX_TEXT_LEN,
        width <= MAX_BOX_WIDTH,
        scan_ok(content@),
        color_wf(border_color@),
    ensures
        r@ == border_line_spec(content@, width as nat, border_color@),
        scan_ok(r@),
        vis_width(content@) <= width ==> vis_width(r@) == width + 4,
        vis_width(content@) > width ==> vis_width(r@) == vis_width(content@) + 4,
{
    // Measuring a glyph through the trusted measurer makes its column
    // width available to the proof.
    let _space_cells: usize = char_cells(' ');
    let vis = visible_len(content);
    let pad = if width >= vis {
        width - vis
    } else {
        0
    };
    let left = colored_bar(border_color);
    let right = colored_bar(border_color);
    let pad_string = chars_to_string(&blank_chars(pad));
    let mut r = left;
    r.append(" ");
    r.append(content);
    r.append(pad_string.as_str());
    r.append(" ");
    r.append(right.as_str());
    proof {
        reveal_strlit(" ");
        assert(" "@ =~= seq![' ']);
        let bar = fg_spec(border_color@, "│"@);
        assert(r@ =~= border_line_spec(content@, width as nat, border_color@));
        assert(text_clean(" "@));
        assert(forall|i: int| 0 <= i < spaces(pad as nat).len() ==> spaces(pad as nat)[i] == ' ');
        assert(text_clean(spaces(pad as nat)));
        lemma_clean_strip(" "@);
        lemma_clean_strip(spaces(pad as nat));
        lemma_strip_concat(bar, " "@, ScanState::Outside);
        lemma_strip_concat(bar + " "@, content@, ScanState::Outside);
        lemma_strip_concat(bar + " "@ + content@, spaces(pad as nat), ScanState::Outside);
        lemma_strip_concat(bar + " "@ + content@ + spaces(pad as nat), " "@, ScanState::Outside);
        lemma_strip_concat(
            bar + " "@ + content@ + spaces(pad as nat) + " "@,
            bar,
            ScanState::Outside,
        );
        let stripped = seq!['│'] + " "@ + strip_markup(content@) + spaces(pad as nat) + " "@
            + seq!['│'];
        assert(strip_markup(r@) =~= stripped);
        lemma_col_width_concat(seq!['│'], " "@);
        lemma_col_width_concat(seq!['│'] + " "@, strip_markup(content@));
        lemma_col_width_concat(seq!['│'] + " "@ + strip_markup(content@), spaces(pad as nat));
        lemma_col_width_concat(
            seq!['│'] + " "@ + strip_markup(content@) + spaces(pad as nat),
            " "@,
        );
        lemma_col_width_concat(
            seq!['│'] + " "@ + strip_markup(content@) + spaces(pad as nat) + " "@,
            seq!['│'],
        );
        crate::width::lemma_col_width_single('│');
        crate::width::lemma_col_width_single(' ');
        lemma_narrow_width(spaces(pad as nat));
    }
    r
}

/// A separator line: an interior of rule characters in the dim color, boxed.
pub fn separator(width: usize, border_color: &str, dim_color: &str) -> (r: String)
    requires
        width <= MAX_BOX_WIDTH,
        color_wf(border_color@),
        color_wf(dim_color@),
    ensures
        r@ == border_line_spec(
            fg_spec(dim_color@, hrule(width as nat)),
            width as nat,
            border_color@,
        ),
        scan_ok(r@),
        vis_width(r@) == width + 4,
{
    // Measuring a glyph through the trusted measurer makes its column
    // width available to the proof.
    let _rule_cells: usize = char_cells('─');
    let line = chars_to_string(&rule_chars(width));
    let inner = fg(dim_color, line.as_str());
    proof {
        assert(forall|i: int| 0 <= i < hrule(width as nat).len() ==> hrule(width as nat)[i] == '─');
        assert(text_clean(hrule(width as nat)));
        lemma_clean_strip(hrule(width as nat));
        lemma_fg_transparent(dim_color@, hrule(width as nat));
        lemma_narrow_width(hrule(width as nat));
        reveal_strlit("<span foreground='");
        reveal_strlit("'>");
        reveal_strlit("</span>");
        assert(inner@.len() <= 28 + dim_color@.len() + width);
    }
    border_line(inner.as_str(), width, border_color)
}

/// An empty interior line.
pub fn empty_line(width: usize, border_color: &str) -> (r: String)
    requires
        width <= MAX_BOX_WIDTH,
        color_wf(border_color@),
    ensures
        r@ == border_line_spec(spaces(width as nat), width as nat, border_color@),
        scan_ok(r@),
        vis_width(r@) == width + 4,
{
    // Measuring a glyph through the trusted measurer makes its column
    // width available to the proof.
    let _space_cells: usize = char_cells(' ');
    let blank = chars_to_string(&blank_chars(width));
    proof {
        assert(forall|i: int|
            0 <= i < spaces(width as nat).len() ==> spaces(width as nat)[i] == ' ');
        assert(text_clean(spaces(width as nat)));
        lemma_clean_strip(spaces(width as nat));
        lemma_narrow_width(spaces(width as nat));
    }
    border_line(blank.as_str(), width, border_color)
}

/// The top border: rounded corners around `width + 2` rule characters.
pub fn top_border(width: usize, border_color: &str) -> (r: String)
    requires
        width <= MAX_BOX_WIDTH,
        color_wf(border_color@),
    ensures
        r@ == fg_spec(border_color@, seq!['╭'] + hrule(width as nat + 2) + seq!['╮']),
        scan_ok(r@),
        vis_width(r@) == width + 4,
{
    frame_border(width, border_color, true)
}

/// The bottom border: rounded corners around `width + 2` rule characters.
pub fn bottom_border(width: usize, border_color: &str) -> (r: String)
    requires
        width <= MAX_BOX_WIDTH,
        color_wf(border_color@),
    ensures
        r@ == fg_spec(border_color@, seq!['╰'] + hrule(width as nat + 2) + seq!['╯']),
        scan_ok(r@),
        vis_width(r@) == width + 4,
{
    frame_border(width, border_color, false)
}

/// A horizontal frame line with the given corner pair.
fn frame_border(width: usize, border_color: &str, top: bool) -> (r: String)
    requires
        width <= MAX_BOX_WIDTH,
        color_wf(border_color@),
    ensures
        top ==> r@ == fg_spec(border_color@, seq!['╭'] + hrule(width as nat + 2) + seq!['╮']),
        !top ==> r@ == fg_spec(border_color@, seq!['╰'] + hrule(width as nat + 2) + seq!['╯']),
        scan_ok(r@),
        vis_width(r@) == width + 4,
{
    // Measuring the frame glyphs through the trusted measurer makes their
    // column widths available to the proof.
    let _rule_cells: usize = char_cells('─');
    let _tl: usize = char_cells('╭');
    let _tr: usize = char_cells('╮');
    let _bl: usize = char_cells('╰');
    let _br: usize = char_cells('╯');
    let mut inner: Vec<char> = Vec::new();
    inner.push(if top {
        '╭'
    } else {
        '╰'
    });
    let mut mid = rule_chars(width + 2);
    inner.append(&mut mid);
    inner.push(if top {
        '╮'
    } else {
        '╯'
    });
    let ghost corner_l = if top {
        '╭'
    } else {
        '╰'
    };
    let ghost corner_r = if top {
        '╮'
    } else {
        '╯'
    };
    proof {
        assert(inner@ =~= seq![corner_l] + hrule(width as nat + 2) + seq![corner_r]);
        assert(forall|i: int| 0 <= i < inner@.len() ==> inner@[i] != '<' && inner@[i] != '&');
        assert(text_clean(inner@));
        lemma_clean_strip(inner@);
    }
    let inner_string = chars_to_string(&inner);
    let r = fg(border_color, inner_string.as_str());
    proof {
        lemma_fg_transparent(border_color@, inner@);
        lemma_col_width_concat(seq![corner_l] + hrule(width as nat + 2), seq![corner_r]);
        lemma_col_width_concat(seq![corner_l], hrule(width as nat + 2));
        crate::width::lemma_col_width_single(corner_l);
        crate::width::lemma_col_width_single(corner_r);
        lemma_narrow_width(hrule(width as nat + 2));
    }
    r
}

/// The interior width that fits a set of content lines: the widest visible
/// width among them, floored at `MIN_WIDTH`.
pub fn content_width(items: &Vec<String>) -> (r: usize)
    requires
        forall|i: int| 0 <= i < items@.len() ==> (#[trigger] items@[i])@.len() <= MAX_TEXT_LEN / 64,
    ensures
        r >= MIN_WIDTH,
        r <= MAX_TEXT_LEN / 16,
        forall|i: int| 0 <= i < items@.len() ==> vis_width((#[trigger] items@[i])@) <= r,
        r == MIN_WIDTH || exists|i: int|
            0 <= i < items@.len() && vis_width((#[trigger] items@[i])@) == r,
{
    let n = items.len();
    let mut best: usize = MIN_WIDTH;
    let mut i: usize = 0;
    while i < n
        invariant
            n == items@.len(),
            i <= n,
            best >= MIN_WIDTH,
            best <= MAX_TEXT_LEN / 16,
            forall|m: int| 0 <= m < i ==> vis_width((#[trigger] items@[m])@) <= best,
            best == MIN_WIDTH || exists|m: int|
                0 <= m < i && vis_width((#[trigger] items@[m])@) == best,
            forall|m: int|
                0 <= m < items@.len() ==> (#[trigger] items@[m])@.len() <= MAX_TEXT_LEN / 64,
        decreases n - i,
    {
        let v = visible_len(items[i].as_str());
        if v > best {
            best = v;
        }
        i = i + 1;
    }
    best
}

} // verus!
