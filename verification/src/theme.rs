//! Theme colors.
//!
//! Eight named colors drive the tooltip's styling. Each has a built-in
//! default; a color scheme read from disk (by the host program) can replace
//! them wholesale through `from_map`. The renderer requires every color to
//! be well formed — free of the character that would close a markup tag —
//! which the defaults are and `well_formed` checks for loaded ones.

use vstd::prelude::*;

use crate::markup::color_wf;

verus! {

/// The eight named colors of the widget.
pub struct ThemeColors {
    pub border: String,
    pub text: String,
    pub dim: String,
    pub accent: String,
    pub green: String,
    pub yellow: String,
    pub orange: String,
    pub error: String,
}

/// Every color of the theme is safe to interpolate into markup.
pub open spec fn colors_wf(c: &ThemeColors) -> bool {
    &&& color_wf(c.border@)
    &&& color_wf(c.text@)
    &&& color_wf(c.dim@)
    &&& color_wf(c.accent@)
    &&& color_wf(c.green@)
    &&& color_wf(c.yellow@)
    &&& color_wf(c.orange@)
    &&& color_wf(c.error@)
}

impl Default for ThemeColors {
    /// The built-in One-Dark-like palette.
    fn default() -> (r: Self)
        ensures
            r.border@ == "#61afef"@,
            r.text@ == "#abb2bf"@,
            r.dim@ == "#5c6370"@,
            r.accent@ == "#61afef"@,
            r.green@ == "#98c379"@,
            r.yellow@ == "#e5c07b"@,
            r.orange@ == "#d19a66"@,
            r.error@ == "#e06c75"@,
            colors_wf(&r),
    {
        let r = ThemeColors {
            border: String::from_str("#61afef"),
            text: String::from_str("#abb2bf"),
            dim: String::from_str("#5c6370"),
            accent: String::from_str("#61afef"),
            green: String::from_str("#98c379"),
            yellow: String::from_str("#e5c07b"),
            orange: String::from_str("#d19a66"),
            error: String::from_str("#e06c75"),
        };
        proof {
            reveal_strlit("#61afef");
            reveal_strlit("#abb2bf");
            reveal_strlit("#5c6370");
            reveal_strlit("#98c379");
            reveal_strlit("#e5c07b");
            reveal_strlit("#d19a66");
            reveal_strlit("#e06c75");
        }
        r
    }
}

/// Whether one color string is safe to interpolate into markup.
pub fn color_clean(s: &str) -> (r: bool)
    ensures
        r == color_wf(s@),
{
    let n = s.unicode_len();
    if n > 4096 {
        return false;
    }
    let mut i: usize = 0;
    while i < n
        invariant
            n == s@.len(),
            i <= n,
            forall|m: int| 0 <= m < i ==> s@[m] != '>',
        decreases n - i,
    {
        if s.get_char(i) == '>' {
            return false;
        }
        i = i + 1;
    }
    true
}

impl ThemeColors {
    /// Whether every color of the theme is safe to interpolate into markup.
    pub fn well_formed(&self) -> (r: bool)
        ensures
            r == colors_wf(self),
    {
        color_clean(self.border.as_str()) && color_clean(self.text.as_str()) && color_clean(
            self.dim.as_str(),
        ) && color_clean(self.accent.as_str()) && color_clean(self.green.as_str()) && color_clean(
            self.yellow.as_str(),
        ) && color_clean(self.orange.as_str()) && color_clean(self.error.as_str())
    }
}

/// The value of a hexadecimal digit, or -1.
pub open spec fn hex_val(c: char) -> int {
    if '0' <= c && c <= '9' {
        c as int - '0' as int
    } else if 'a' <= c && c <= 'f' {
        10 + c as int - 'a' as int
    } else if 'A' <= c && c <= 'F' {
        10 + c as int - 'A' as int
    } else {
        -1
    }
}

/// A `#rrggbb` color: `#` and six hexadecimal digits.
pub open spec fn hex_color_ok(s: Seq<char>) -> bool {
    &&& s.len() == 7
    &&& s[0] == '#'
    &&& forall|i: int| 1 <= i < 7 ==> hex_val(#[trigger] s[i]) >= 0
}

/// The channel value at positions `i`, `i + 1`.
pub open spec fn hex_byte(s: Seq<char>, i: int) -> int {
    16 * hex_val(s[i]) + hex_val(s[i + 1])
}

/// The value of one hexadecimal digit character, or none.
fn hex_digit_val(c: char) -> (r: Option<u8>)
    ensures
        r is Some <==> hex_val(c) >= 0,
        r is Some ==> r.unwrap() as int == hex_val(c) && r.unwrap() < 16,
{
    if c >= '0' && c <= '9' {
        Some((c as u32 - '0' as u32) as u8)
    } else if c >= 'a' && c <= 'f' {
        Some((10 + c as u32 - 'a' as u32) as u8)
    } else if c >= 'A' && c <= 'F' {
        Some((10 + c as u32 - 'A' as u32) as u8)
    } else {
        None
    }
}

/// Parse a `#rrggbb` color into its three channels.
pub fn parse_hex(hex: &str) -> (r: Option<(u8, u8, u8)>)
    ensures
        r is Some <==> hex_color_ok(hex@),
        r is Some ==> {
            &&& r.unwrap().0 as int == hex_byte(hex@, 1)
            &&& r.unwrap().1 as int == hex_byte(hex@, 3)
            &&& r.unwrap().2 as int == hex_byte(hex@, 5)
        },
{
    let cs = crate::width::str_to_chars(hex);
    if cs.len() != 7 {
        return None;
    }
    if cs[0] != '#' {
        return None;
    }
    let mut vals: Vec<u8> = Vec::new();
    let mut i: usize = 1;
    while i < 7
        invariant
            cs@.len() == 7,
            cs@ == hex@,
            1 <= i <= 7,
            vals@.len() == i - 1,
            forall|m: int| 1 <= m < i ==> hex_val(#[trigger] cs@[m]) >= 0,
            forall|m: int| 0 <= m < i - 1 ==> vals@[m] as int == hex_val(cs@[m + 1]) && vals@[m]
                < 16,
        decreases 7 - i,
    {
        match hex_digit_val(cs[i]) {
            Some(v) => {
                vals.push(v);
            },
            None => {
                return None;
            },
        }
        i = i + 1;
    }
    Some(
        (
            16 * vals[0] + vals[1],
            16 * vals[2] + vals[3],
            16 * vals[4] + vals[5],
        ),
    )
}

/// The midpoint of two channel values, rounded up on halves.
pub open spec fn mid_channel(a: int, b: int) -> int {
    (a + b + 1) / 2
}

/// The lowercase hexadecimal digit for `d` (0 through 15).
pub open spec fn hex_lower(d: int) -> char {
    if d == 0 {
        '0'
    } else if d == 1 {
        '1'
    } else if d == 2 {
        '2'
    } else if d == 3 {
        '3'
    } else if d == 4 {
        '4'
    } else if d == 5 {
        '5'
    } else if d == 6 {
        '6'
    } else if d == 7 {
        '7'
    } else if d == 8 {
        '8'
    } else if d == 9 {
        '9'
    } else if d == 10 {
        'a'
    } else if d == 11 {
        'b'
    } else if d == 12 {
        'c'
    } else if d == 13 {
        'd'
    } else if d == 14 {
        'e'
    } else {
        'f'
    }
}

/// Two lowercase hexadecimal digits for a channel value.
pub open spec fn hex_pair(v: int) -> Seq<char> {
    seq![hex_lower(v / 16), hex_lower(v % 16)]
}

/// The channels of a color, or the default text / background channels when
/// it is not a well-formed hex color.
pub open spec fn channels_or(s: Seq<char>, dr: int, dg: int, db: int) -> (int, int, int) {
    if hex_color_ok(s) {
        (hex_byte(s, 1), hex_byte(s, 3), hex_byte(s, 5))
    } else {
        (dr, dg, db)
    }
}

/// The even blend of two colors, channel by channel.
pub open spec fn blend_spec(c1: Seq<char>, c2: Seq<char>) -> Seq<char> {
    let a = channels_or(c1, 171, 178, 191);
    let b = channels_or(c2, 40, 44, 52);
    seq!['#'] + hex_pair(mid_channel(a.0, b.0)) + hex_pair(mid_channel(a.1, b.1)) + hex_pair(
        mid_channel(a.2, b.2),
    )
}

/// The lowercase hexadecimal digit for `d`.
fn hex_digit_lower(d: u8) -> (c: char)
    requires
        d < 16,
    ensures
        c == hex_lower(d as int),
{
    match d {
        0 => '0',
        1 => '1',
        2 => '2',
        3 => '3',
        4 => '4',
        5 => '5',
        6 => '6',
        7 => '7',
        8 => '8',
        9 => '9',
        10 => 'a',
        11 => 'b',
        12 => 'c',
        13 => 'd',
        14 => 'e',
        _ => 'f',
    }
}

/// Blend two hex colors evenly, falling back to the default foreground and
/// background channels for one that does not parse. The result is always a
/// well-formed `#rrggbb` color.
pub fn blend_hex(c1: &str, c2: &str) -> (r: String)
    ensures
        r@ == blend_spec(c1@, c2@),
        color_wf(r@),
{
    let (r1, g1, b1) = match parse_hex(c1) {
        Some(t) => t,
        None => (171, 178, 191),
    };
    let (r2, g2, b2) = match parse_hex(c2) {
        Some(t) => t,
        None => (40, 44, 52),
    };
    let mr: u8 = ((r1 as u16 + r2 as u16 + 1) / 2) as u8;
    let mg: u8 = ((g1 as u16 + g2 as u16 + 1) / 2) as u8;
    let mb: u8 = ((b1 as u16 + b2 as u16 + 1) / 2) as u8;
    let mut out: Vec<char> = Vec::new();
    out.push('#');
    out.push(hex_digit_lower(mr / 16));
    out.push(hex_digit_lower(mr % 16));
    out.push(hex_digit_lower(mg / 16));
    out.push(hex_digit_lower(mg % 16));
    out.push(hex_digit_lower(mb / 16));
    out.push(hex_digit_lower(mb % 16));
    proof {
        assert(out@ =~= blend_spec(c1@, c2@));
        assert(forall|i: int| 0 <= i < out@.len() ==> out@[i] != '>');
    }
    crate::width::chars_to_string(&out)
}

/// The value of the last pair with the given key, as in a map filled by
/// overwriting inserts.
pub open spec fn lookup_pair(ps: Seq<(String, String)>, key: Seq<char>) -> Option<Seq<char>>
    decreases ps.len(),
{
    if ps.len() == 0 {
        None
    } else if ps.last().0@ == key {
        Some(ps.last().1@)
    } else {
        lookup_pair(ps.drop_last(), key)
    }
}

/// Look a key up among parsed pairs; the last occurrence wins.
fn lookup(pairs: &Vec<(String, String)>, key: &str) -> (r: Option<String>)
    ensures
        r is Some <==> lookup_pair(pairs@, key@) is Some,
        r is Some ==> r.unwrap()@ == lookup_pair(pairs@, key@).unwrap(),
{
    let mut i = pairs.len();
    proof {
        assert(pairs@.take(i as int) =~= pairs@);
    }
    while i > 0
        invariant
            i <= pairs@.len(),
            lookup_pair(pairs@, key@) == lookup_pair(pairs@.take(i as int), key@),
        decreases i,
    {
        i = i - 1;
        if crate::template::str_eq(pairs[i].0.as_str(), key) {
            proof {
                assert(pairs@.take(i as int + 1).last() == pairs@[i as int]);
            }
            return Some(pairs[i].1.clone());
        }
        proof {
            assert(pairs@.take(i as int + 1).last() == pairs@[i as int]);
            assert(pairs@.take(i as int + 1).drop_last() =~= pairs@.take(i as int));
        }
    }
    proof {
        assert(pairs@.take(0) =~= Seq::<(String, String)>::empty());
    }
    None
}

impl ThemeColors {
    /// Build a theme from parsed key-value pairs. `None` exactly when one of
    /// the six source keys is missing. Otherwise the accent doubles as border,
    /// the dim color is the even blend of foreground over background, and the
    /// first palette color doubles as both orange and error.
    pub fn from_map(pairs: &Vec<(String, String)>) -> (r: Option<ThemeColors>)
        ensures
            r is Some <==> {
                &&& lookup_pair(pairs@, "foreground"@) is Some
                &&& lookup_pair(pairs@, "background"@) is Some
                &&& lookup_pair(pairs@, "accent"@) is Some
                &&& lookup_pair(pairs@, "color1"@) is Some
                &&& lookup_pair(pairs@, "color2"@) is Some
                &&& lookup_pair(pairs@, "color3"@) is Some
            },
            r is Some ==> {
                let t = r.unwrap();
                &&& t.border@ == lookup_pair(pairs@, "accent"@).unwrap()
                &&& t.accent@ == lookup_pair(pairs@, "accent"@).unwrap()
                &&& t.text@ == lookup_pair(pairs@, "foreground"@).unwrap()
                &&& t.dim@ == blend_spec(
                    lookup_pair(pairs@, "foreground"@).unwrap(),
                    lookup_pair(pairs@, "background"@).unwrap(),
                )
                &&& t.green@ == lookup_pair(pairs@, "color2"@).unwrap()
                &&& t.yellow@ == lookup_pair(pairs@, "color3"@).unwrap()
                &&& t.orange@ == lookup_pair(pairs@, "color1"@).unwrap()
                &&& t.error@ == lookup_pair(pairs@, "color1"@).unwrap()
            },
    {
        let foreground = match lookup(pairs, "foreground") {
            Some(v) => v,
            None => {
                return None;
            },
        };
        let background = match lookup(pairs, "background") {
            Some(v) => v,
            None => {
                return None;
            },
        };
        let accent = match lookup(pairs, "accent") {
            Some(v) => v,
            None => {
                return None;
            },
        };
        let color1 = match lookup(pairs, "color1") {
            Some(v) => v,
            None => {
                return None;
            },
        };
        let color2 = match lookup(pairs, "color2") {
            Some(v) => v,
            None => {
                return None;
            },
        };
        let color3 = match lookup(pairs, "color3") {
            Some(v) => v,
            None => {
                return None;
            },
        };
        let dim = blend_hex(foreground.as_str(), background.as_str());
        Some(
            ThemeColors {
                border: accent.clone(),
                accent,
                text: foreground,
                dim,
                green: color2,
                yellow: color3,
                orange: color1.clone(),
                error: color1,
            },
        )
    }
}

/// What a trim pass removes: surrounding ASCII whitespace, or surrounding
/// quotes.
pub open spec fn trim_pred(c: char, quote: bool) -> bool {
    if quote {
        c == '"'
    } else {
        c == ' ' || c == '\t' || c == '\r'
    }
}

/// `s` without its leading trimmed characters.
pub open spec fn trim_front(s: Seq<char>, quote: bool) -> Seq<char>
    decreases s.len(),
{
    if s.len() > 0 && trim_pred(s[0], quote) {
        trim_front(s.drop_first(), quote)
    } else {
        s
    }
}

/// `s` without its trailing trimmed characters.
pub open spec fn trim_back(s: Seq<char>, quote: bool) -> Seq<char>
    decreases s.len(),
{
    if s.len() > 0 && trim_pred(s.last(), quote) {
        trim_back(s.drop_last(), quote)
    } else {
        s
    }
}

/// `s` without surrounding whitespace (or quotes).
pub open spec fn trimmed(s: Seq<char>, quote: bool) -> Seq<char> {
    trim_back(trim_front(s, quote), quote)
}

/// `trim_front` drops exactly the leading run of trimmed characters.
proof fn lemma_trim_front_is(s: Seq<char>, quote: bool, j: int)
    requires
        0 <= j <= s.len(),
        forall|m: int| 0 <= m < j ==> trim_pred(s[m], quote),
        j < s.len() ==> !trim_pred(s[j], quote),
    ensures
        trim_front(s, quote) == s.skip(j),
    decreases j,
{
    if j == 0 {
        assert(s.skip(0) =~= s);
    } else {
        assert(forall|m: int|
            0 <= m < s.drop_first().len() ==> s.drop_first()[m] == s[m + 1]);
        lemma_trim_front_is(s.drop_first(), quote, j - 1);
        assert(s.drop_first().skip(j - 1) =~= s.skip(j));
    }
}

/// `trim_back` drops exactly the trailing run of trimmed characters.
proof fn lemma_trim_back_is(s: Seq<char>, quote: bool, j: int)
    requires
        0 <= j <= s.len(),
        forall|m: int| j <= m < s.len() ==> trim_pred(s[m], quote),
        j > 0 ==> !trim_pred(s[j - 1], quote),
    ensures
        trim_back(s, quote) == s.take(j),
    decreases s.len() - j,
{
    if j == s.len() {
        assert(s.take(j) =~= s);
    } else {
        assert(trim_pred(s.last(), quote));
        assert(forall|m: int|
            0 <= m < s.drop_last().len() ==> s.drop_last()[m] == s[m]);
        lemma_trim_back_is(s.drop_last(), quote, j);
        assert(s.drop_last().take(j) =~= s.take(j));
    }
}

/// Whether a trim pass removes `c`.
fn is_trim(c: char, quote: bool) -> (r: bool)
    ensures
        r == trim_pred(c, quote),
{
    if quote {
        c == '"'
    } else {
        c == ' ' || c == '\t' || c == '\r'
    }
}

/// The characters of `v` between `a` and `b`.
fn sub_chars(v: &Vec<char>, a: usize, b: usize) -> (r: Vec<char>)
    requires
        a <= b <= v@.len(),
    ensures
        r@ == v@.subrange(a as int, b as int),
{
    let mut r: Vec<char> = Vec::new();
    let mut i = a;
    proof {
        assert(v@.subrange(a as int, a as int) =~= Seq::<char>::empty());
    }
    while i < b
        invariant
            a <= i <= b <= v@.len(),
            r@ == v@.subrange(a as int, i as int),
        decreases b - i,
    {
        r.push(v[i]);
        proof {
            assert(v@.subrange(a as int, i as int + 1) =~= v@.subrange(
                a as int,
                i as int,
            ).push(v@[i as int]));
        }
        i = i + 1;
    }
    r
}

/// `v` without surrounding whitespace (or quotes).
fn trim_vec(v: &Vec<char>, quote: bool) -> (r: Vec<char>)
    ensures
        r@ == trimmed(v@, quote),
{
    let n = v.len();
    let mut a: usize = 0;
    while a < n && is_trim(v[a], quote)
        invariant
            a <= n,
            n == v@.len(),
            forall|m: int| 0 <= m < a ==> trim_pred(v@[m], quote),
        decreases n - a,
    {
        a = a + 1;
    }
    let mut b: usize = n;
    while b > a && is_trim(v[b - 1], quote)
        invariant
            a <= b <= n,
            n == v@.len(),
            forall|m: int| 0 <= m < a ==> trim_pred(v@[m], quote),
            forall|m: int| b <= m < n ==> trim_pred(v@[m], quote),
        decreases b,
    {
        b = b - 1;
    }
    let r = sub_chars(v, a, b);
    proof {
        lemma_trim_front_is(v@, quote, a as int);
        let front = v@.skip(a as int);
        assert(forall|m: int| 0 <= m < front.len() ==> front[m] == v@[a as int + m]);
        lemma_trim_back_is(front, quote, b as int - a as int);
        assert(front.take(b as int - a as int) =~= v@.subrange(a as int, b as int));
    }
    r
}

/// The key-value pair one line yields: nothing for a blank or comment line
/// or one without `=`; otherwise the trimmed key before the first `=` and
/// the trimmed, unquoted value after it.
pub open spec fn line_pairs(line: Seq<char>) -> Seq<(Seq<char>, Seq<char>)> {
    let t = trimmed(line, false);
    if t.len() == 0 || t[0] == '#' {
        Seq::empty()
    } else {
        let e = crate::template::find_idx(t, '=');
        if 0 <= e && e < t.len() {
            seq![
                (
                    trimmed(t.take(e), false),
                    trimmed(trimmed(t.skip(e + 1), false), true),
                ),
            ]
        } else {
            Seq::empty()
        }
    }
}

/// The pairs of a whole file, line by line.
pub open spec fn parse_pairs(s: Seq<char>) -> Seq<(Seq<char>, Seq<char>)>
    decreases s.len(),
{
    let k = crate::template::find_idx(s, '\n');
    if 0 <= k && k < s.len() {
        line_pairs(s.take(k)) + parse_pairs(s.skip(k + 1))
    } else {
        line_pairs(s)
    }
}

/// The views of a vector of string pairs.
pub open spec fn pair_views(ps: Seq<(String, String)>) -> Seq<(Seq<char>, Seq<char>)> {
    ps.map_values(|p: (String, String)| (p.0@, p.1@))
}

/// Parse one line.
fn line_pair(line: &Vec<char>) -> (r: Option<(String, String)>)
    ensures
        line_pairs(line@) == (match r {
            Some(p) => seq![(p.0@, p.1@)],
            None => Seq::<(Seq<char>, Seq<char>)>::empty(),
        }),
{
    let t = trim_vec(line, false);
    if t.len() == 0 {
        return None;
    }
    if t[0] == '#' {
        return None;
    }
    match crate::width::find_char(&t, 0, '=') {
        None => {
            proof {
                crate::template::lemma_find_idx_none(t@, '=');
            }
            None
        },
        Some(e) => {
            proof {
                crate::template::lemma_find_idx_is(t@, '=', e as int);
            }
            let key_part = trim_vec(&sub_chars(&t, 0, e), false);
            let val_ws = trim_vec(&sub_chars(&t, e + 1, t.len()), false);
            let val_part = trim_vec(&val_ws, true);
            proof {
                assert(t@.subrange(0, e as int) =~= t@.take(e as int));
                assert(t@.subrange(e as int + 1, t@.len() as int) =~= t@.skip(e as int + 1));
            }
            let key = crate::width::chars_to_string(&key_part);
            let val = crate::width::chars_to_string(&val_part);
            Some((key, val))
        },
    }
}

/// Parse a flat `key = "value"` file into its pairs, in file order: blank
/// lines, comment lines and lines without `=` contribute nothing; keys and
/// values are trimmed of surrounding ASCII whitespace, values also of
/// surrounding quotes.
#[verifier::loop_isolation(false)]
pub fn parse_toml_flat(content: &str) -> (r: Vec<(String, String)>)
    ensures
        pair_views(r@) == parse_pairs(content@),
{
    let cs = crate::width::str_to_chars(content);
    let n = cs.len();
    let mut out: Vec<(String, String)> = Vec::new();
    let mut pos: usize = 0;
    proof {
        assert(content@.skip(0) =~= content@);
        assert(pair_views(out@) =~= Seq::<(Seq<char>, Seq<char>)>::empty());
    }
    while pos < n
        invariant
            n == cs@.len(),
            cs@ == content@,
            pos <= n,
            parse_pairs(content@) == pair_views(out@) + parse_pairs(content@.skip(pos as int)),
        decreases n - pos,
    {
        let ghost rest = content@.skip(pos as int);
        proof {
            assert(forall|m: int|
                0 <= m < rest.len() ==> rest[m] == content@[pos as int + m]);
        }
        let ghost prev_views = pair_views(out@);
        let line_end: usize;
        let next_pos: usize;
        match crate::width::find_char(&cs, pos, '\n') {
            Some(k) => {
                line_end = k;
                next_pos = k + 1;
                proof {
                    crate::template::lemma_find_idx_is(rest, '\n', k as int - pos as int);
                    assert(rest.take(k as int - pos as int) =~= content@.subrange(
                        pos as int,
                        k as int,
                    ));
                    assert(rest.skip(k as int - pos as int + 1) =~= content@.skip(
                        k as int + 1,
                    ));
                }
            },
            None => {
                line_end = n;
                next_pos = n;
                proof {
                    crate::template::lemma_find_idx_none(rest, '\n');
                }
            },
        }
        let line = sub_chars(&cs, pos, line_end);
        match line_pair(&line) {
            Some(p) => {
                out.push(p);
                proof {
                    assert(pair_views(out@) =~= prev_views + line_pairs(line@));
                }
            },
            None => {
                proof {
                    assert(prev_views + line_pairs(line@) =~= prev_views);
                }
            },
        }
        proof {
            if line_end < n {
                assert(parse_pairs(rest) == line_pairs(line@) + parse_pairs(
                    content@.skip(line_end as int + 1),
                ));
                assert(pair_views(out@) + parse_pairs(content@.skip(next_pos as int))
                    =~= prev_views + (line_pairs(line@) + parse_pairs(
                    content@.skip(next_pos as int),
                )));
            } else {
                assert(line@ =~= rest);
                assert(parse_pairs(rest) == line_pairs(line@));
                assert(content@.skip(n as int) =~= Seq::<char>::empty());
                assert(parse_pairs(Seq::<char>::empty()) =~= Seq::<(Seq<char>, Seq<char>)>::empty());
                assert(pair_views(out@) + parse_pairs(content@.skip(next_pos as int))
                    =~= prev_views + line_pairs(line@));
            }
        }
        pos = next_pos;
    }
    proof {
        assert(content@.skip(n as int) =~= Seq::<char>::empty());
        assert(parse_pairs(Seq::<char>::empty()) =~= Seq::<(Seq<char>, Seq<char>)>::empty());
        assert(pair_views(out@) + parse_pairs(content@.skip(pos as int)) =~= pair_views(out@));
    }
    out
}

} // verus!
