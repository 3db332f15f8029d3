//! Markup-aware visible-width measurement.
//!
//! A tooltip line mixes three kinds of material: markup tags delimited by
//! `<` and `>` (zero columns), entity references delimited by `&` and `;`
//! (one column each), and plain characters (each as wide as a monospace
//! terminal draws it). The measurer strips tags, collapses entities, and sums
//! per-character display widths. An unterminated tag or entity consumes the
//! remainder of the string and contributes nothing, so malformed input can
//! only bias a width down, never up.

use vstd::prelude::*;

verus! {

/// Longest text the measurer accepts, in characters. Far beyond any tooltip
/// line; it keeps every column count well inside `usize` on any machine.
pub const MAX_TEXT_LEN: usize = 16777216;

/// State of the markup scanner: outside any construct, inside a `<...>` tag,
/// or inside a `&...;` entity reference.
#[derive(PartialEq, Eq, Structural, Clone, Copy)]
pub enum ScanState {
    Outside,
    Tag,
    Entity,
}

/// Scanner transition on one character.
pub open spec fn step_state(c: char, st: ScanState) -> ScanState {
    match st {
        ScanState::Outside => {
            if c == '<' {
                ScanState::Tag
            } else if c == '&' {
                ScanState::Entity
            } else {
                ScanState::Outside
            }
        },
        ScanState::Tag => {
            if c == '>' {
                ScanState::Outside
            } else {
                ScanState::Tag
            }
        },
        ScanState::Entity => {
            if c == ';' {
                ScanState::Outside
            } else {
                ScanState::Entity
            }
        },
    }
}

/// What one scanned character contributes to the stripped text: itself when
/// plain, nothing inside a tag, and a single stand-in cell (`x`) when an
/// entity reference closes.
pub open spec fn step_emit(c: char, st: ScanState) -> Seq<char> {
    match st {
        ScanState::Outside => {
            if c == '<' || c == '&' {
                Seq::empty()
            } else {
                seq![c]
            }
        },
        ScanState::Tag => Seq::empty(),
        ScanState::Entity => {
            if c == ';' {
                seq!['x']
            } else {
                Seq::empty()
            }
        },
    }
}

/// The stripped (markup-free) text of `s`, scanned starting in state `st`.
pub open spec fn strip_from(s: Seq<char>, st: ScanState) -> Seq<char>
    decreases s.len(),
{
    if s.len() == 0 {
        Seq::empty()
    } else {
        step_emit(s[0], st) + strip_from(s.drop_first(), step_state(s[0], st))
    }
}

/// The scanner state after running over all of `s`, starting in state `st`.
pub open spec fn after_scan(s: Seq<char>, st: ScanState) -> ScanState
    decreases s.len(),
{
    if s.len() == 0 {
        st
    } else {
        after_scan(s.drop_first(), step_state(s[0], st))
    }
}

/// The stripped text of `s`, scanned from the initial (outside) state.
pub open spec fn strip_markup(s: Seq<char>) -> Seq<char> {
    strip_from(s, ScanState::Outside)
}

/// `s` leaves the scanner back in the outside state: every tag and entity in
/// it is terminated.
pub open spec fn scan_ok(s: Seq<char>) -> bool {
    after_scan(s, ScanState::Outside) == ScanState::Outside
}

/// `s` contains no character that opens a tag or an entity: the scanner
/// passes it through verbatim.
pub open spec fn text_clean(s: Seq<char>) -> bool {
    forall|i: int| 0 <= i < s.len() ==> s[i] != '<' && s[i] != '&'
}

/// Display width of one character, in terminal columns. The meaning of this
/// function is fixed by the `unicode_width` crate (see `char_cells`); the
/// library only ever learns the facts that `char_cells` states about it.
pub uninterp spec fn char_width(c: char) -> nat;

/// Display width of a markup-free text: the sum of its characters' widths.
pub open spec fn col_width(s: Seq<char>) -> nat
    decreases s.len(),
{
    if s.len() == 0 {
        0
    } else {
        char_width(s[0]) + col_width(s.drop_first())
    }
}

/// Visible width of a markup-annotated text: the width of what survives the
/// scanner.
pub open spec fn vis_width(s: Seq<char>) -> nat {
    col_width(strip_markup(s))
}

/// Characters this library draws its frames and gutters from, all one column
/// wide: printable ASCII and the six box-drawing glyphs of the border.
pub open spec fn narrow_char(c: char) -> bool {
    (' ' <= c && c <= '~') || c == '│' || c == '─' || c == '╭' || c == '╮' || c == '╰' || c
        == '╯'
}

/// Relies on `unicode_width::UnicodeWidthChar::width`: a per-character table
/// lookup after UAX #11, independent of surrounding characters. Printable
/// ASCII (U+0020..U+007E) is one column by the crate's fast path; the
/// box-drawing characters (U+2500..U+257F) are East-Asian-Ambiguous and so
/// one column in the non-CJK reading this method implements; no character
/// exceeds three columns. A control character yields `None`, counted here as
/// zero columns, as the crate's string measurer does.
#[verifier::external_body]
pub(crate) fn char_cells(c: char) -> (r: usize)
    ensures
        r == char_width(c),
        r <= 3,
        narrow_char(c) ==> r == 1,
{
    unicode_width::UnicodeWidthChar::width(c).unwrap_or(0)
}

/// Relies on `core::iter::Iterator::collect` building a `String` from the
/// characters of the vector, in order, with nothing added or dropped.
#[verifier::external_body]
pub(crate) fn chars_to_string(v: &Vec<char>) -> (r: String)
    ensures
        r@ == v@,
{
    v.iter().collect()
}

/// The characters of `s` as a vector.
pub(crate) fn str_to_chars(s: &str) -> (r: Vec<char>)
    ensures
        r@ == s@,
{
    let n = s.unicode_len();
    let mut r: Vec<char> = Vec::new();
    let mut i: usize = 0;
    while i < n
        invariant
            n == s@.len(),
            i <= n,
            r@ == s@.take(i as int),
        decreases n - i,
    {
        let c = s.get_char(i);
        r.push(c);
        proof {
            assert(s@.take(i as int + 1) =~= s@.take(i as int) + seq![s@[i as int]]);
        }
        i = i + 1;
    }
    proof {
        assert(s@.take(n as int) =~= s@);
    }
    r
}

/// Stripping distributes over concatenation: the right part is scanned in
/// whatever state the left part ends in.
pub proof fn lemma_strip_concat(a: Seq<char>, b: Seq<char>, st: ScanState)
    ensures
        strip_from(a + b, st) == strip_from(a, st) + strip_from(b, after_scan(a, st)),
        after_scan(a + b, st) == after_scan(b, after_scan(a, st)),
    decreases a.len(),
{
    if a.len() == 0 {
        assert(a + b =~= b);
        assert(strip_from(a, st) + strip_from(b, st) =~= strip_from(b, st));
    } else {
        assert((a + b).drop_first() =~= a.drop_first() + b);
        lemma_strip_concat(a.drop_first(), b, step_state(a[0], st));
        assert(step_emit(a[0], st) + (strip_from(a.drop_first(), step_state(a[0], st))
            + strip_from(b, after_scan(a, st))) =~= (step_emit(a[0], st) + strip_from(
            a.drop_first(),
            step_state(a[0], st),
        )) + strip_from(b, after_scan(a, st)));
    }
}

/// Width sums over concatenation.
pub proof fn lemma_col_width_concat(a: Seq<char>, b: Seq<char>)
    ensures
        col_width(a + b) == col_width(a) + col_width(b),
    decreases a.len(),
{
    if a.len() == 0 {
        assert(a + b =~= b);
    } else {
        assert((a + b).drop_first() =~= a.drop_first() + b);
        lemma_col_width_concat(a.drop_first(), b);
    }
}

/// A text with no `<` and no `&` survives the scanner unchanged.
pub proof fn lemma_clean_strip(s: Seq<char>)
    requires
        text_clean(s),
    ensures
        strip_from(s, ScanState::Outside) == s,
        after_scan(s, ScanState::Outside) == ScanState::Outside,
    decreases s.len(),
{
    if s.len() == 0 {
        assert(strip_from(s, ScanState::Outside) =~= s);
    } else {
        assert(forall|i: int|
            0 <= i < s.drop_first().len() ==> s.drop_first()[i] == s[i + 1]);
        lemma_clean_strip(s.drop_first());
        assert(seq![s[0]] + s.drop_first() =~= s);
    }
}

/// Inside a tag, everything up to the closing `>` is dropped.
pub proof fn lemma_tag_interior(s: Seq<char>)
    requires
        forall|i: int| 0 <= i < s.len() ==> s[i] != '>',
    ensures
        strip_from(s, ScanState::Tag) == Seq::<char>::empty(),
        after_scan(s, ScanState::Tag) == ScanState::Tag,
    decreases s.len(),
{
    if s.len() > 0 {
        assert(forall|i: int|
            0 <= i < s.drop_first().len() ==> s.drop_first()[i] == s[i + 1]);
        lemma_tag_interior(s.drop_first());
        assert(Seq::<char>::empty() + Seq::<char>::empty() =~= Seq::<char>::empty());
    }
}

/// Well-formedness survives concatenation, and the stripped form (hence the
/// visible width) of a concatenation of well-formed parts is the
/// concatenation of the parts' stripped forms.
pub proof fn lemma_scan_ok_concat(a: Seq<char>, b: Seq<char>)
    requires
        scan_ok(a),
        scan_ok(b),
    ensures
        scan_ok(a + b),
        strip_markup(a + b) == strip_markup(a) + strip_markup(b),
    decreases a.len(),
{
    lemma_strip_concat(a, b, ScanState::Outside);
}

/// Width of a single character.
pub proof fn lemma_col_width_single(c: char)
    ensures
        col_width(seq![c]) == char_width(c),
{
    assert(seq![c].drop_first() =~= Seq::<char>::empty());
    assert(col_width(Seq::<char>::empty()) == 0);
    assert(seq![c][0] == c);
}

/// A text of narrow characters is as wide as it is long.
pub proof fn lemma_narrow_width(s: Seq<char>)
    requires
        forall|i: int| 0 <= i < s.len() ==> narrow_char(s[i]) && char_width(s[i]) == 1,
    ensures
        col_width(s) == s.len(),
    decreases s.len(),
{
    if s.len() > 0 {
        assert(forall|i: int|
            0 <= i < s.drop_first().len() ==> s.drop_first()[i] == s[i + 1]);
        lemma_narrow_width(s.drop_first());
    }
}

/// The number of display columns `s` occupies once its markup is stripped:
/// tags count zero, entities one cell each, plain characters their terminal
/// width.
pub fn visible_len(s: &str) -> (r: usize)
    requires
        s@.len() <= MAX_TEXT_LEN,
    ensures
        r == vis_width(s@),
        r <= 3 * s@.len(),
{
    let cs = str_to_chars(s);
    let n = cs.len();
    let mut plain: Vec<char> = Vec::new();
    let mut st = ScanState::Outside;
    let mut i: usize = 0;
    proof {
        assert(s@.skip(0) =~= s@);
        assert(Seq::<char>::empty() + strip_from(s@, ScanState::Outside) =~= strip_from(
            s@,
            ScanState::Outside,
        ));
    }
    while i < n
        invariant
            n == cs@.len(),
            cs@ == s@,
            i <= n,
            plain@.len() <= i,
            strip_markup(s@) == plain@ + strip_from(s@.skip(i as int), st),
        decreases n - i,
    {
        proof {
            assert(s@.skip(i as int) =~= seq![s@[i as int]] + s@.skip(i as int + 1));
            assert((seq![s@[i as int]] + s@.skip(i as int + 1)).drop_first() =~= s@.skip(
                i as int + 1,
            ));
        }
        let c = cs[i];
        let ghost old_plain = plain@;
        let ghost old_st = st;
        match st {
            ScanState::Outside => {
                if c == '<' {
                    st = ScanState::Tag;
                } else if c == '&' {
                    st = ScanState::Entity;
                } else {
                    plain.push(c);
                }
            },
            ScanState::Tag => {
                if c == '>' {
                    st = ScanState::Outside;
                }
            },
            ScanState::Entity => {
                if c == ';' {
                    st = ScanState::Outside;
                    plain.push('x');
                }
            },
        }
        proof {
            assert(st == step_state(s@[i as int], old_st));
            assert(plain@ =~= old_plain + step_emit(s@[i as int], old_st));
            assert((old_plain + step_emit(s@[i as int], old_st)) + strip_from(
                s@.skip(i as int + 1),
                step_state(s@[i as int], old_st),
            ) =~= old_plain + (step_emit(s@[i as int], old_st) + strip_from(
                s@.skip(i as int + 1),
                step_state(s@[i as int], old_st),
            )));
        }
        i = i + 1;
    }
    proof {
        assert(s@.skip(n as int) =~= Seq::<char>::empty());
        assert(plain@ + Seq::<char>::empty() =~= plain@);
    }
    let m = plain.len();
    let mut total: usize = 0;
    let mut j: usize = 0;
    while j < m
        invariant
            m == plain@.len(),
            m <= MAX_TEXT_LEN,
            j <= m,
            total == col_width(plain@.take(j as int)),
            total <= 3 * j,
        decreases m - j,
    {
        let w = char_cells(plain[j]);
        proof {
            assert(plain@.take(j as int + 1) =~= plain@.take(j as int) + seq![plain@[j as int]]);
            lemma_col_width_concat(plain@.take(j as int), seq![plain@[j as int]]);
            lemma_col_width_single(plain@[j as int]);
        }
        total = total + w;
        j = j + 1;
    }
    proof {
        assert(plain@.take(m as int) =~= plain@);
        assert(plain@.len() <= s@.len());
    }
    total
}

/// First occurrence of `c` in `v` at or after `start`.
pub(crate) fn find_char(v: &Vec<char>, start: usize, c: char) -> (r: Option<usize>)
    requires
        start <= v@.len(),
    ensures
        match r {
            Some(j) => start <= j < v@.len() && v@[j as int] == c && forall|m: int|
                start <= m < j ==> v@[m] != c,
            None => forall|m: int| start <= m < v@.len() ==> v@[m] != c,
        },
{
    let n = v.len();
    let mut j = start;
    while j < n
        invariant
            n == v@.len(),
            start <= j <= n,
            forall|m: int| start <= m < j ==> v@[m] != c,
        decreases n - j,
    {
        if v[j] == c {
            return Some(j);
        }
        j = j + 1;
    }
    None
}

} // verus!
