//! Percent-encoding of location queries.

use vstd::prelude::*;

use vstd::string::StringSliceAdditionalSpecFns;

verus! {

/// Bytes that pass through unencoded: ASCII letters and digits, and the few
/// marks the geocoding endpoint accepts bare.
pub open spec fn url_plain(b: u8) -> bool {
    (65 <= b && b <= 90) || (97 <= b && b <= 122) || (48 <= b && b <= 57) || b == 45 || b == 46
        || b == 95 || b == 126 || b == 44
}

/// The uppercase hexadecimal digit for `d` (0 through 15).
pub open spec fn hex_upper(d: int) -> char {
    if d == 0 {
        '0'
    } else if d == 1 {
        '1'
    } else if d == 2 {
        '2'
    } else if d == 3 {
        '3'
    } else if d == 4 {
        '4'
    } else if d == 5 {
        '5'
    } else if d == 6 {
        '6'
    } else if d == 7 {
        '7'
    } else if d == 8 {
        '8'
    } else if d == 9 {
        '9'
    } else if d == 10 {
        'A'
    } else if d == 11 {
        'B'
    } else if d == 12 {
        'C'
    } else if d == 13 {
        'D'
    } else if d == 14 {
        'E'
    } else {
        'F'
    }
}

/// What one byte contributes: itself when plain, else a percent escape.
pub open spec fn encode_byte(b: u8) -> Seq<char> {
    if url_plain(b) {
        seq![b as char]
    } else {
        seq!['%', hex_upper(b as int / 16), hex_upper(b as int % 16)]
    }
}

/// The percent-encoded form of a byte sequence.
pub open spec fn url_encode(bs: Seq<u8>) -> Seq<char>
    decreases bs.len(),
{
    if bs.len() == 0 {
        Seq::empty()
    } else {
        encode_byte(bs[0]) + url_encode(bs.drop_first())
    }
}

/// Encoding one more byte appends its contribution.
proof fn lemma_url_encode_push(bs: Seq<u8>, b: u8)
    ensures
        url_encode(bs.push(b)) == url_encode(bs) + encode_byte(b),
    decreases bs.len(),
{
    if bs.len() == 0 {
        assert(bs.push(b).drop_first() =~= Seq::<u8>::empty());
        assert(bs.push(b)[0] == b);
        assert(url_encode(Seq::<u8>::empty()) == Seq::<char>::empty());
        assert(encode_byte(b) + Seq::<char>::empty() =~= encode_byte(b));
        assert(url_encode(bs) + encode_byte(b) =~= encode_byte(b));
    } else {
        assert(bs.push(b).drop_first() =~= bs.drop_first().push(b));
        lemma_url_encode_push(bs.drop_first(), b);
        assert(encode_byte(bs[0]) + (url_encode(bs.drop_first()) + encode_byte(b)) =~= (
        encode_byte(bs[0]) + url_encode(bs.drop_first())) + encode_byte(b));
    }
}

/// The uppercase hexadecimal digit for `d`.
fn hex_digit(d: u8) -> (c: char)
    requires
        d < 16,
    ensures
        c == hex_upper(d as int),
{
    match d {
        0 => '0',
        1 => '1',
        2 => '2',
        3 => '3',
        4 => '4',
        5 => '5',
        6 => '6',
        7 => '7',
        8 => '8',
        9 => '9',
        10 => 'A',
        11 => 'B',
        12 => 'C',
        13 => 'D',
        14 => 'E',
        _ => 'F',
    }
}

/// Percent-encode a location query, byte by byte: ASCII letters, digits and
/// a few marks pass through, everything else (spaces included) becomes an
/// uppercase percent escape of its UTF-8 bytes.
pub fn urlencoding(s: &str) -> (r: String)
    ensures
        r@ == url_encode(s.spec_bytes()),
{
    let bs = s.as_bytes();
    let n = bs.len();
    let mut out: Vec<char> = Vec::new();
    let mut i: usize = 0;
    proof {
        assert(bs@.take(0) =~= Seq::<u8>::empty());
    }
    while i < n
        invariant
            n == bs@.len(),
            bs@ == s.spec_bytes(),
            i <= n,
            out@ == url_encode(bs@.take(i as int)),
        decreases n - i,
    {
        let b = bs[i];
        if (b >= 65 && b <= 90) || (b >= 97 && b <= 122) || (b >= 48 && b <= 57) || b == 45 || b
            == 46 || b == 95 || b == 126 || b == 44 {
            out.push(b as char);
        } else {
            out.push('%');
            out.push(hex_digit(b / 16));
            out.push(hex_digit(b % 16));
        }
        proof {
            assert(bs@.take(i as int + 1) =~= bs@.take(i as int).push(bs@[i as int]));
            lemma_url_encode_push(bs@.take(i as int), bs@[i as int]);
        }
        i = i + 1;
    }
    proof {
        assert(bs@.take(n as int) =~= bs@);
    }
    crate::width::chars_to_string(&out)
}

} // verus!
