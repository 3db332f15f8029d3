//! The inline-label template engine, and the compass-point mapping.
//!
//! A template is scanned left to right. `{` opens a placeholder, read up to
//! the next `}`. A recognized key is substituted; an unrecognized one is
//! echoed as the literal `{key}`; a placeholder never closed is echoed as `{`
//! followed by the rest of the template. Rendering is total: no template and
//! no data can make it fail.

use vstd::prelude::*;

use crate::width::str_to_chars;

verus! {

/// The substitution values for the recognized placeholder keys.
pub struct FormatData {
    pub icon: String,
    pub temp: String,
    pub feels_like: String,
    pub humidity: String,
    pub wind: String,
    pub wind_dir: String,
    pub pressure: String,
    pub city: String,
    pub min: String,
    pub max: String,
    pub rain_chance: String,
    pub description: String,
}

/// The substitution values, as mathematical text.
pub ghost struct FormatView {
    pub icon: Seq<char>,
    pub temp: Seq<char>,
    pub feels_like: Seq<char>,
    pub humidity: Seq<char>,
    pub wind: Seq<char>,
    pub wind_dir: Seq<char>,
    pub pressure: Seq<char>,
    pub city: Seq<char>,
    pub min: Seq<char>,
    pub max: Seq<char>,
    pub rain_chance: Seq<char>,
    pub description: Seq<char>,
}

/// The mathematical content of a substitution record.
pub open spec fn fmt_view(d: &FormatData) -> FormatView {
    FormatView {
        icon: d.icon@,
        temp: d.temp@,
        feels_like: d.feels_like@,
        humidity: d.humidity@,
        wind: d.wind@,
        wind_dir: d.wind_dir@,
        pressure: d.pressure@,
        city: d.city@,
        min: d.min@,
        max: d.max@,
        rain_chance: d.rain_chance@,
        description: d.description@,
    }
}

/// The value a placeholder key stands for, if the key is recognized.
pub open spec fn placeholder_value(key: Seq<char>, d: FormatView) -> Option<Seq<char>> {
    if key == "icon"@ {
        Some(d.icon)
    } else if key == "temp"@ {
        Some(d.temp)
    } else if key == "feels_like"@ {
        Some(d.feels_like)
    } else if key == "humidity"@ {
        Some(d.humidity)
    } else if key == "wind"@ {
        Some(d.wind)
    } else if key == "wind_dir"@ {
        Some(d.wind_dir)
    } else if key == "pressure"@ {
        Some(d.pressure)
    } else if key == "city"@ {
        Some(d.city)
    } else if key == "min"@ {
        Some(d.min)
    } else if key == "max"@ {
        Some(d.max)
    } else if key == "rain_chance"@ {
        Some(d.rain_chance)
    } else if key == "description"@ {
        Some(d.description)
    } else {
        None
    }
}

/// Index of the first occurrence of `c` in `s`, or -1 when absent.
pub open spec fn find_idx(s: Seq<char>, c: char) -> int
    decreases s.len(),
{
    if s.len() == 0 {
        -1
    } else if s[0] == c {
        0
    } else {
        let r = find_idx(s.drop_first(), c);
        if r < 0 {
            -1
        } else {
            r + 1
        }
    }
}

/// `find_idx` names the first occurrence.
pub proof fn lemma_find_idx_is(s: Seq<char>, c: char, k: int)
    requires
        0 <= k < s.len(),
        s[k] == c,
        forall|m: int| 0 <= m < k ==> s[m] != c,
    ensures
        find_idx(s, c) == k,
    decreases s.len(),
{
    if k > 0 {
        assert(forall|i: int|
            0 <= i < s.drop_first().len() ==> s.drop_first()[i] == s[i + 1]);
        lemma_find_idx_is(s.drop_first(), c, k - 1);
    }
}

/// When `c` does not occur, `find_idx` says so.
pub proof fn lemma_find_idx_none(s: Seq<char>, c: char)
    requires
        forall|m: int| 0 <= m < s.len() ==> s[m] != c,
    ensures
        find_idx(s, c) == -1,
    decreases s.len(),
{
    if s.len() > 0 {
        assert(forall|i: int|
            0 <= i < s.drop_first().len() ==> s.drop_first()[i] == s[i + 1]);
        lemma_find_idx_none(s.drop_first(), c);
    }
}

/// The rendered form of a template: every recognized `{key}` replaced by its
/// value, every unrecognized one echoed, an unterminated `{` echoed with the
/// rest of the template. Total over all templates and all data.
pub open spec fn render_spec(t: Seq<char>, d: FormatView) -> Seq<char>
    decreases t.len(),
{
    if t.len() == 0 {
        Seq::empty()
    } else if t[0] != '{' {
        seq![t[0]] + render_spec(t.drop_first(), d)
    } else {
        let rest = t.drop_first();
        let k = find_idx(rest, '}');
        if 0 <= k && k < rest.len() {
            let key = rest.take(k);
            let tail = rest.skip(k + 1);
            (match placeholder_value(key, d) {
                Some(v) => v,
                None => seq!['{'] + key + seq!['}'],
            }) + render_spec(tail, d)
        } else {
            t
        }
    }
}

/// Character-wise string equality.
pub(crate) fn str_eq(a: &str, b: &str) -> (r: bool)
    ensures
        r == (a@ == b@),
{
    let na = a.unicode_len();
    let nb = b.unicode_len();
    if na != nb {
        return false;
    }
    let mut i: usize = 0;
    while i < na
        invariant
            na == a@.len(),
            na == b@.len(),
            i <= na,
            forall|m: int| 0 <= m < i ==> a@[m] == b@[m],
        decreases na - i,
    {
        if a.get_char(i) != b.get_char(i) {
            return false;
        }
        i = i + 1;
    }
    proof {
        assert(a@ =~= b@);
    }
    true
}

/// The value substituted for `key`, when `key` is one of the recognized
/// placeholder names.
pub fn resolve_placeholder<'a>(key: &str, data: &'a FormatData) -> (r: Option<&'a str>)
    ensures
        r is Some <==> placeholder_value(key@, fmt_view(data)) is Some,
        r is Some ==> r.unwrap()@ == placeholder_value(key@, fmt_view(data)).unwrap(),
{
    if str_eq(key, "icon") {
        Some(data.icon.as_str())
    } else if str_eq(key, "temp") {
        Some(data.temp.as_str())
    } else if str_eq(key, "feels_like") {
        Some(data.feels_like.as_str())
    } else if str_eq(key, "humidity") {
        Some(data.humidity.as_str())
    } else if str_eq(key, "wind") {
        Some(data.wind.as_str())
    } else if str_eq(key, "wind_dir") {
        Some(data.wind_dir.as_str())
    } else if str_eq(key, "pressure") {
        Some(data.pressure.as_str())
    } else if str_eq(key, "city") {
        Some(data.city.as_str())
    } else if str_eq(key, "min") {
        Some(data.min.as_str())
    } else if str_eq(key, "max") {
        Some(data.max.as_str())
    } else if str_eq(key, "rain_chance") {
        Some(data.rain_chance.as_str())
    } else if str_eq(key, "description") {
        Some(data.description.as_str())
    } else {
        None
    }
}

/// Interpolate `data` into `template`. Never fails, whatever the template.
#[verifier::rlimit(50)]
#[verifier::spinoff_prover]
pub fn render(template: &str, data: &FormatData) -> (r: String)
    ensures
        r@ == render_spec(template@, fmt_view(data)),
{
    let cs = str_to_chars(template);
    let n = cs.len();
    let ghost t = template@;
    let mut out: Vec<char> = Vec::new();
    let mut i: usize = 0;
    proof {
        assert(t.skip(0) =~= t);
    }
    while i < n
        invariant
            n == cs@.len(),
            cs@ == t,
            t == template@,
            i <= n,
            render_spec(t, fmt_view(data)) == out@ + render_spec(t.skip(i as int), fmt_view(data)),
        decreases n - i,
    {
        let c = cs[i];
        let ghost out_entry = out@;
        if c != '{' {
            out.push(c);
            proof {
                assert(t.skip(i as int) =~= seq![t[i as int]] + t.skip(i as int + 1));
                assert((seq![t[i as int]] + t.skip(i as int + 1)).drop_first() =~= t.skip(
                    i as int + 1,
                ));
                assert(out@ + render_spec(t.skip(i as int + 1), fmt_view(data)) =~= out_entry + (seq![
                    t[i as int],
                ] + render_spec(t.skip(i as int + 1), fmt_view(data))));
            }
            i = i + 1;
        } else {
            let mut j: usize = i + 1;
            let mut key: Vec<char> = Vec::new();
            let mut found = false;
            while j < n && !found
                invariant
                    n == cs@.len(),
                    cs@ == t,
                    i < j <= n,
                    !found ==> key@ == t.subrange(i as int + 1, j as int),
                    !found ==> forall|m: int| i < m < j ==> t[m] != '}',
                    found ==> j <= n && t[j as int - 1] == '}' && key@ == t.subrange(
                        i as int + 1,
                        j as int - 1,
                    ) && (forall|m: int| i < m < j - 1 ==> t[m] != '}'),
                decreases n - j + (if found {
                    0int
                } else {
                    1int
                }),
            {
                let cj = cs[j];
                if cj == '}' {
                    found = true;
                } else {
                    key.push(cj);
                    proof {
                        assert(t.subrange(i as int + 1, j as int + 1) =~= t.subrange(
                            i as int + 1,
                            j as int,
                        ) + seq![t[j as int]]);
                    }
                }
                j = j + 1;
            }
            let ghost rest = t.skip(i as int + 1);
            proof {
                assert(t.skip(i as int) =~= seq![t[i as int]] + rest);
                assert((seq![t[i as int]] + rest).drop_first() =~= rest);
                assert(forall|m: int| 0 <= m < rest.len() ==> rest[m] == t[i as int + 1 + m]);
            }
            if found {
                let ghost k = j as int - 1 - (i as int + 1);
                proof {
                    lemma_find_idx_is(rest, '}', k);
                    assert(rest.take(k) =~= t.subrange(i as int + 1, j as int - 1));
                    assert(rest.skip(k + 1) =~= t.skip(j as int));
                }
                let key_string = crate::width::chars_to_string(&key);
                match resolve_placeholder(key_string.as_str(), data) {
                    Some(v) => {
                        let mut vc = str_to_chars(v);
                        out.append(&mut vc);
                        proof {
                            assert(out@ =~= out_entry + placeholder_value(
                                key@,
                                fmt_view(data),
                            ).unwrap());
                        }
                    },
                    None => {
                        out.push('{');
                        out.append(&mut key);
                        out.push('}');
                        proof {
                            assert(out@ =~= out_entry + (seq!['{'] + rest.take(k) + seq![
                                '}',
                            ]));
                        }
                    },
                }
                i = j;
            } else {
                proof {
                    lemma_find_idx_none(rest, '}');
                    assert(render_spec(t.skip(i as int), fmt_view(data)) == t.skip(i as int));
                }
                out.push('{');
                out.append(&mut key);
                proof {
                    assert(out@ =~= out_entry + t.skip(i as int));
                    assert(render_spec(t.skip(n as int), fmt_view(data)) =~= Seq::<char>::empty());
                    assert(out@ + render_spec(t.skip(n as int), fmt_view(data)) =~= out@);
                }
                i = n;
            }
        }
    }
    proof {
        assert(t.skip(n as int) =~= Seq::<char>::empty());
        assert(out@ + render_spec(Seq::<char>::empty(), fmt_view(data)) =~= out@);
    }
    crate::width::chars_to_string(&out)
}

/// The eight compass points, 45 degrees apart, offset so that each bucket is
/// centered on its direction: bearings within 22.5 degrees of north map to
/// `N`, and the mapping wraps at 360.
pub open spec fn cardinal_spec(deg: int) -> Seq<char> {
    let idx = ((2 * deg + 45) / 90) % 8;
    if idx == 0 {
        "N"@
    } else if idx == 1 {
        "NE"@
    } else if idx == 2 {
        "E"@
    } else if idx == 3 {
        "SE"@
    } else if idx == 4 {
        "S"@
    } else if idx == 5 {
        "SW"@
    } else if idx == 6 {
        "W"@
    } else {
        "NW"@
    }
}

/// A compass point is short plain text.
pub proof fn lemma_cardinal_clean(deg: int)
    ensures
        crate::width::text_clean(cardinal_spec(deg)),
        cardinal_spec(deg).len() <= 2,
{
    reveal_strlit("N");
    reveal_strlit("NE");
    reveal_strlit("E");
    reveal_strlit("SE");
    reveal_strlit("S");
    reveal_strlit("SW");
    reveal_strlit("W");
    reveal_strlit("NW");
}

/// The compass point for a wind bearing in whole degrees.
pub fn degrees_to_cardinal(degrees: u16) -> (r: &'static str)
    ensures
        r@ == cardinal_spec(degrees as int),
{
    let idx = ((2 * (degrees as u32) + 45) / 90) % 8;
    match idx {
        0 => "N",
        1 => "NE",
        2 => "E",
        3 => "SE",
        4 => "S",
        5 => "SW",
        6 => "W",
        _ => "NW",
    }
}

} // verus!
