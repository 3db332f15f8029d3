//! Pango-style markup composition.
//!
//! Two tag forms are emitted: `<span foreground='COLOR'>...</span>` and
//! `<span font_weight='bold' foreground='COLOR'>...</span>`. Untrusted text
//! is escaped (`&` `<` `>` become entity references) before it enters a
//! composition, which keeps both rendering and width measurement sound.

use vstd::prelude::*;

use crate::width::{
    after_scan, char_width, col_width, lemma_clean_strip, lemma_col_width_concat,
    lemma_strip_concat, lemma_tag_interior, scan_ok, step_emit, step_state, strip_from,
    strip_markup, vis_width, ScanState,
};

verus! {

/// A color string may be interpolated into a tag: it must not close the tag
/// early, and it is short (a name or a hex code, with generous slack).
pub open spec fn color_wf(s: Seq<char>) -> bool {
    &&& forall|i: int| 0 <= i < s.len() ==> s[i] != '>'
    &&& s.len() <= 4096
}

/// View of a plain-color span wrapping `text`.
pub open spec fn fg_spec(color: Seq<char>, text: Seq<char>) -> Seq<char> {
    "<span foreground='"@ + color + "'>"@ + text + "</span>"@
}

/// View of a bold span wrapping `text`.
pub open spec fn bold_fg_spec(color: Seq<char>, text: Seq<char>) -> Seq<char> {
    "<span font_weight='bold' foreground='"@ + color + "'>"@ + text + "</span>"@
}

/// What one character of untrusted text becomes once escaped.
pub open spec fn escape_char(c: char) -> Seq<char> {
    if c == '&' {
        seq!['&', 'a', 'm', 'p', ';']
    } else if c == '<' {
        seq!['&', 'l', 't', ';']
    } else if c == '>' {
        seq!['&', 'g', 't', ';']
    } else {
        seq![c]
    }
}

/// Untrusted text with `&`, `<` and `>` replaced by entity references.
pub open spec fn escape_text(s: Seq<char>) -> Seq<char>
    decreases s.len(),
{
    if s.len() == 0 {
        Seq::empty()
    } else {
        escape_char(s[0]) + escape_text(s.drop_first())
    }
}

/// An opening tag (`<`, then anything free of `>`) strips to nothing and
/// leaves the scanner inside the tag.
proof fn lemma_open_tag_strip(s: Seq<char>)
    requires
        s.len() > 0,
        s[0] == '<',
        forall|i: int| 1 <= i < s.len() ==> s[i] != '>',
    ensures
        strip_from(s, ScanState::Outside) == Seq::<char>::empty(),
        after_scan(s, ScanState::Outside) == ScanState::Tag,
{
    assert(forall|i: int|
        0 <= i < s.drop_first().len() ==> s.drop_first()[i] == s[i + 1]);
    lemma_tag_interior(s.drop_first());
    assert(Seq::<char>::empty() + Seq::<char>::empty() =~= Seq::<char>::empty());
}

/// From inside a tag, anything free of `>` followed by one `>` strips to
/// nothing and returns the scanner to the outside state.
proof fn lemma_tag_end_strip(s: Seq<char>)
    requires
        s.len() > 0,
        s[s.len() - 1] == '>',
        forall|i: int| 0 <= i < s.len() - 1 ==> s[i] != '>',
    ensures
        strip_from(s, ScanState::Tag) == Seq::<char>::empty(),
        after_scan(s, ScanState::Tag) == ScanState::Outside,
{
    let head = s.take(s.len() - 1);
    assert(s =~= head + seq!['>']);
    assert(forall|i: int| 0 <= i < head.len() ==> head[i] == s[i]);
    lemma_tag_interior(head);
    lemma_strip_concat(head, seq!['>'], ScanState::Tag);
    assert(seq!['>'].drop_first() =~= Seq::<char>::empty());
    assert(strip_from(seq!['>'], ScanState::Tag) == step_emit('>', ScanState::Tag)
        + strip_from(Seq::<char>::empty(), ScanState::Outside));
    assert(after_scan(seq!['>'], ScanState::Tag) == after_scan(
        Seq::<char>::empty(),
        ScanState::Outside,
    ));
    assert(after_scan(Seq::<char>::empty(), ScanState::Outside) == ScanState::Outside);
    assert(Seq::<char>::empty() + Seq::<char>::empty() =~= Seq::<char>::empty());
}

/// A whole well-formed tag (`<`, an interior free of `>`, then `>`) strips to
/// nothing.
proof fn lemma_whole_tag_strip(s: Seq<char>)
    requires
        s.len() >= 2,
        s[0] == '<',
        s[s.len() - 1] == '>',
        forall|i: int| 1 <= i < s.len() - 1 ==> s[i] != '>',
    ensures
        strip_from(s, ScanState::Outside) == Seq::<char>::empty(),
        after_scan(s, ScanState::Outside) == ScanState::Outside,
{
    let rest = s.drop_first();
    assert(forall|i: int| 0 <= i < rest.len() ==> rest[i] == s[i + 1]);
    assert(rest[rest.len() - 1] == '>');
    lemma_tag_end_strip(rest);
    assert(Seq::<char>::empty() + Seq::<char>::empty() =~= Seq::<char>::empty());
}

/// Wrapping a well-formed text in one well-formed tag pair neither changes
/// its stripped form nor its visible width. Applied repeatedly, this extends
/// to any number of nested tags, since the wrapped text is well formed again.
pub proof fn lemma_tag_wrap_transparent(opening: Seq<char>, text: Seq<char>, closing: Seq<char>)
    requires
        opening.len() >= 2,
        opening[0] == '<',
        opening[opening.len() - 1] == '>',
        forall|i: int| 1 <= i < opening.len() - 1 ==> opening[i] != '>',
        closing.len() >= 2,
        closing[0] == '<',
        closing[closing.len() - 1] == '>',
        forall|i: int| 1 <= i < closing.len() - 1 ==> closing[i] != '>',
        scan_ok(text),
    ensures
        strip_markup(opening + text + closing) == strip_markup(text),
        scan_ok(opening + text + closing),
        vis_width(opening + text + closing) == vis_width(text),
{
    lemma_whole_tag_strip(opening);
    lemma_whole_tag_strip(closing);
    lemma_strip_concat(opening, text, ScanState::Outside);
    lemma_strip_concat(opening + text, closing, ScanState::Outside);
    assert(strip_markup(opening + text) =~= strip_markup(text));
    assert(strip_markup((opening + text) + closing) =~= strip_markup(text));
}

/// Inside an entity, everything up to the closing `;` is dropped.
proof fn lemma_entity_interior(s: Seq<char>)
    requires
        forall|i: int| 0 <= i < s.len() ==> s[i] != ';',
    ensures
        strip_from(s, ScanState::Entity) == Seq::<char>::empty(),
        after_scan(s, ScanState::Entity) == ScanState::Entity,
    decreases s.len(),
{
    if s.len() > 0 {
        assert(forall|i: int|
            0 <= i < s.drop_first().len() ==> s.drop_first()[i] == s[i + 1]);
        lemma_entity_interior(s.drop_first());
        assert(Seq::<char>::empty() + Seq::<char>::empty() =~= Seq::<char>::empty());
    }
}

/// A whole entity reference (`&`, an interior free of `;`, then `;`) strips
/// to the single stand-in cell.
proof fn lemma_whole_entity_strip(s: Seq<char>)
    requires
        s.len() >= 2,
        s[0] == '&',
        s[s.len() - 1] == ';',
        forall|i: int| 1 <= i < s.len() - 1 ==> s[i] != ';',
    ensures
        strip_from(s, ScanState::Outside) == seq!['x'],
        after_scan(s, ScanState::Outside) == ScanState::Outside,
{
    let rest = s.drop_first();
    assert(forall|i: int| 0 <= i < rest.len() ==> rest[i] == s[i + 1]);
    let head = rest.take(rest.len() - 1);
    assert(rest =~= head + seq![';']);
    assert(forall|i: int| 0 <= i < head.len() ==> head[i] == rest[i]);
    lemma_entity_interior(head);
    lemma_strip_concat(head, seq![';'], ScanState::Entity);
    assert(seq![';'].drop_first() =~= Seq::<char>::empty());
    assert(strip_from(seq![';'], ScanState::Entity) == step_emit(';', ScanState::Entity)
        + strip_from(Seq::<char>::empty(), ScanState::Outside));
    assert(after_scan(seq![';'], ScanState::Entity) == after_scan(
        Seq::<char>::empty(),
        ScanState::Outside,
    ));
    assert(after_scan(Seq::<char>::empty(), ScanState::Outside) == ScanState::Outside);
    assert(seq!['x'] + Seq::<char>::empty() =~= seq!['x']);
    assert(Seq::<char>::empty() + (seq!['x'] + Seq::<char>::empty()) =~= seq!['x']);
    assert(Seq::<char>::empty() + seq!['x'] =~= seq!['x']);
}

/// One escaped character: what the scanner makes of it.
proof fn lemma_escape_char_strip(c: char)
    ensures
        strip_from(escape_char(c), ScanState::Outside) == seq![mask_char(c)],
        after_scan(escape_char(c), ScanState::Outside) == ScanState::Outside,
{
    if c == '&' || c == '<' || c == '>' {
        lemma_whole_entity_strip(escape_char(c));
    } else {
        assert(seq![c].drop_first() =~= Seq::<char>::empty());
        assert(strip_from(seq![c], ScanState::Outside) == step_emit(c, ScanState::Outside)
            + strip_from(Seq::<char>::empty(), step_state(c, ScanState::Outside)));
        assert(after_scan(seq![c], ScanState::Outside) == after_scan(
            Seq::<char>::empty(),
            step_state(c, ScanState::Outside),
        ));
        assert(after_scan(Seq::<char>::empty(), ScanState::Outside) == ScanState::Outside);
        assert(seq![c] + Seq::<char>::empty() =~= seq![c]);
    }
}

/// What one character of untrusted text shows as, once escaped and stripped
/// again: entity references collapse to the stand-in cell.
pub open spec fn mask_char(c: char) -> char {
    if c == '&' || c == '<' || c == '>' {
        'x'
    } else {
        c
    }
}

/// The stripped form of an escaped text, character for character.
pub open spec fn masked(s: Seq<char>) -> Seq<char> {
    Seq::new(s.len(), |i: int| mask_char(s[i]))
}

/// Escaping distributes over concatenation.
pub proof fn lemma_escape_concat(a: Seq<char>, b: Seq<char>)
    ensures
        escape_text(a + b) == escape_text(a) + escape_text(b),
    decreases a.len(),
{
    if a.len() == 0 {
        assert(a + b =~= b);
        assert(escape_text(a) + escape_text(b) =~= escape_text(b));
    } else {
        assert((a + b).drop_first() =~= a.drop_first() + b);
        lemma_escape_concat(a.drop_first(), b);
        assert(escape_char(a[0]) + (escape_text(a.drop_first()) + escape_text(b))
            =~= (escape_char(a[0]) + escape_text(a.drop_first())) + escape_text(b));
    }
}

/// Escaped text is well formed, and strips to the text with every escaped
/// character replaced by the stand-in cell.
pub proof fn lemma_escape_strip(s: Seq<char>)
    ensures
        strip_markup(escape_text(s)) == masked(s),
        scan_ok(escape_text(s)),
    decreases s.len(),
{
    if s.len() == 0 {
        assert(strip_markup(escape_text(s)) =~= masked(s));
    } else {
        lemma_escape_char_strip(s[0]);
        lemma_escape_strip(s.drop_first());
        lemma_strip_concat(escape_char(s[0]), escape_text(s.drop_first()), ScanState::Outside);
        assert(masked(s) =~= seq![mask_char(s[0])] + masked(s.drop_first()));
    }
}

/// Escaping at most quintuples the length.
pub proof fn lemma_escape_len(s: Seq<char>)
    ensures
        escape_text(s).len() <= 5 * s.len(),
    decreases s.len(),
{
    if s.len() > 0 {
        lemma_escape_len(s.drop_first());
    }
}

/// Length of a plain-color span.
pub proof fn lemma_fg_len(color: Seq<char>, text: Seq<char>)
    ensures
        fg_spec(color, text).len() == 27 + color.len() + text.len(),
{
    reveal_strlit("<span foreground='");
    reveal_strlit("'>");
    reveal_strlit("</span>");
}

/// Length of a bold span.
pub proof fn lemma_bold_fg_len(color: Seq<char>, text: Seq<char>)
    ensures
        bold_fg_spec(color, text).len() == 46 + color.len() + text.len(),
{
    reveal_strlit("<span font_weight='bold' foreground='");
    reveal_strlit("'>");
    reveal_strlit("</span>");
}

/// A plain-color span is transparent to the measurer.
pub proof fn lemma_fg_transparent(color: Seq<char>, text: Seq<char>)
    requires
        color_wf(color),
        scan_ok(text),
    ensures
        strip_markup(fg_spec(color, text)) == strip_markup(text),
        scan_ok(fg_spec(color, text)),
        vis_width(fg_spec(color, text)) == vis_width(text),
{
    reveal_strlit("<span foreground='");
    reveal_strlit("'>");
    reveal_strlit("</span>");
    let l1 = "<span foreground='"@;
    let l2 = "'>"@;
    let l3 = "</span>"@;
    let opening = l1 + color + l2;
    assert(opening[0] == '<');
    assert(opening[opening.len() - 1] == '>');
    assert(forall|i: int| 1 <= i < opening.len() - 1 ==> opening[i] != '>') by {
        assert(forall|i: int| 1 <= i < 18 ==> l1[i] != '>');
        assert(forall|i: int|
            1 <= i < opening.len() - 1 && 18 <= i < 18 + color.len() ==> opening[i] == color[
                i - 18
            ]);
    }
    assert(l3[0] == '<');
    assert(l3[l3.len() - 1] == '>');
    assert(forall|i: int| 1 <= i < l3.len() - 1 ==> l3[i] != '>');
    lemma_tag_wrap_transparent(opening, text, l3);
    assert(fg_spec(color, text) =~= opening + text + l3);
}

/// A bold span is transparent to the measurer.
pub proof fn lemma_bold_fg_transparent(color: Seq<char>, text: Seq<char>)
    requires
        color_wf(color),
        scan_ok(text),
    ensures
        strip_markup(bold_fg_spec(color, text)) == strip_markup(text),
        scan_ok(bold_fg_spec(color, text)),
        vis_width(bold_fg_spec(color, text)) == vis_width(text),
{
    reveal_strlit("<span font_weight='bold' foreground='");
    reveal_strlit("'>");
    reveal_strlit("</span>");
    let l1 = "<span font_weight='bold' foreground='"@;
    let l2 = "'>"@;
    let l3 = "</span>"@;
    let opening = l1 + color + l2;
    assert(opening[0] == '<');
    assert(opening[opening.len() - 1] == '>');
    assert(forall|i: int| 1 <= i < opening.len() - 1 ==> opening[i] != '>') by {
        assert(forall|i: int| 1 <= i < 37 ==> l1[i] != '>');
        assert(forall|i: int|
            1 <= i < opening.len() - 1 && 37 <= i < 37 + color.len() ==> opening[i] == color[
                i - 37
            ]);
    }
    assert(l3[0] == '<');
    assert(l3[l3.len() - 1] == '>');
    assert(forall|i: int| 1 <= i < l3.len() - 1 ==> l3[i] != '>');
    lemma_tag_wrap_transparent(opening, text, l3);
    assert(bold_fg_spec(color, text) =~= opening + text + l3);
}

/// `text` wrapped in a span carrying the foreground color.
pub fn fg(color: &str, text: &str) -> (r: String)
    ensures
        r@ == fg_spec(color@, text@),
{
    let mut r = String::new();
    r.append("<span foreground='");
    r.append(color);
    r.append("'>");
    r.append(text);
    r.append("</span>");
    proof {
        assert(r@ =~= fg_spec(color@, text@));
    }
    r
}

/// `text` wrapped in a bold span carrying the foreground color.
pub fn bold_fg(color: &str, text: &str) -> (r: String)
    ensures
        r@ == bold_fg_spec(color@, text@),
{
    let mut r = String::new();
    r.append("<span font_weight='bold' foreground='");
    r.append(color);
    r.append("'>");
    r.append(text);
    r.append("</span>");
    proof {
        assert(r@ =~= bold_fg_spec(color@, text@));
    }
    r
}

/// Escape untrusted text for inclusion in markup: `&`, `<` and `>` become
/// entity references; everything else passes through.
pub fn pango_escape(s: &str) -> (r: String)
    ensures
        r@ == escape_text(s@),
{
    let cs = crate::width::str_to_chars(s);
    let n = cs.len();
    let mut out: Vec<char> = Vec::new();
    let mut i: usize = 0;
    while i < n
        invariant
            n == cs@.len(),
            cs@ == s@,
            i <= n,
            out@ == escape_text(s@.take(i as int)),
        decreases n - i,
    {
        let c = cs[i];
        if c == '&' {
            out.push('&');
            out.push('a');
            out.push('m');
            out.push('p');
            out.push(';');
        } else if c == '<' {
            out.push('&');
            out.push('l');
            out.push('t');
            out.push(';');
        } else if c == '>' {
            out.push('&');
            out.push('g');
            out.push('t');
            out.push(';');
        } else {
            out.push(c);
        }
        proof {
            assert(s@.take(i as int + 1) =~= s@.take(i as int) + seq![s@[i as int]]);
            lemma_escape_concat(s@.take(i as int), seq![s@[i as int]]);
            assert(seq![s@[i as int]].drop_first() =~= Seq::<char>::empty());
            assert(escape_text(Seq::<char>::empty()) == Seq::<char>::empty());
            assert(escape_text(seq![s@[i as int]]) =~= escape_char(s@[i as int]));
            assert(out@ =~= escape_text(s@.take(i as int)) + escape_char(s@[i as int]));
        }
        i = i + 1;
    }
    proof {
        assert(s@.take(n as int) =~= s@);
    }
    crate::width::chars_to_string(&out)
}

} // verus!
