//! Decimal formatting of the integers shown in the widget.
//!
//! Temperatures, percentages, wind speeds and pressures are rendered as plain
//! decimal digits with an optional leading minus sign.

use vstd::prelude::*;

use crate::width::text_clean;

verus! {

/// The decimal digit character for `d` (0 through 9).
pub open spec fn digit_char(d: int) -> char {
    if d == 0 {
        '0'
    } else if d == 1 {
        '1'
    } else if d == 2 {
        '2'
    } else if d == 3 {
        '3'
    } else if d == 4 {
        '4'
    } else if d == 5 {
        '5'
    } else if d == 6 {
        '6'
    } else if d == 7 {
        '7'
    } else if d == 8 {
        '8'
    } else {
        '9'
    }
}

/// Decimal digits of a non-negative number, most significant first.
pub open spec fn dec_digits(n: int) -> Seq<char>
    decreases n,
{
    if n < 10 {
        seq![digit_char(n)]
    } else {
        dec_digits(n / 10) + seq![digit_char(n % 10)]
    }
}

/// Decimal rendering of an integer: digits, with `-` ahead of a negative.
pub open spec fn int_str(n: int) -> Seq<char> {
    if n < 0 {
        seq!['-'] + dec_digits(-n)
    } else {
        dec_digits(n)
    }
}

/// Digit runs contain no markup-significant character.
pub proof fn lemma_dec_digits_clean(n: int)
    ensures
        text_clean(dec_digits(n)),
        forall|i: int| 0 <= i < dec_digits(n).len() ==> dec_digits(n)[i] != '>',
    decreases n,
{
    if n < 10 {
    } else {
        lemma_dec_digits_clean(n / 10);
    }
}

/// A rendered integer contains no markup-significant character.
pub proof fn lemma_int_str_clean(n: int)
    ensures
        text_clean(int_str(n)),
        forall|i: int| 0 <= i < int_str(n).len() ==> int_str(n)[i] != '>',
{
    lemma_dec_digits_clean(if n < 0 {
        -n
    } else {
        n
    });
}

/// Powers of ten.
pub open spec fn ten_pow(k: nat) -> int
    decreases k,
{
    if k == 0 {
        1
    } else {
        10 * ten_pow((k - 1) as nat)
    }
}

/// A number below the `k`-th power of ten has at most `k` digits.
pub proof fn lemma_dec_digits_len(n: int, k: nat)
    requires
        0 <= n,
        1 <= k,
        n < ten_pow(k),
    ensures
        dec_digits(n).len() <= k,
    decreases k,
{
    if n < 10 {
    } else {
        assert(ten_pow(0) == 1);
        assert(ten_pow(1) == 10);
        assert(k != 1);
        assert(ten_pow(k) == 10 * ten_pow((k - 1) as nat));
        lemma_dec_digits_len(n / 10, (k - 1) as nat);
    }
}

/// Any number this widget formats fits in eleven characters.
pub proof fn lemma_int_str_len(n: int)
    requires
        -4294967296 <= n <= 4294967296,
    ensures
        int_str(n).len() <= 11,
{
    assert(ten_pow(0) == 1);
    assert(ten_pow(1) == 10);
    assert(ten_pow(2) == 100);
    assert(ten_pow(3) == 1000);
    assert(ten_pow(4) == 10000);
    assert(ten_pow(5) == 100000);
    assert(ten_pow(6) == 1000000);
    assert(ten_pow(7) == 10000000);
    assert(ten_pow(8) == 100000000);
    assert(ten_pow(9) == 1000000000);
    assert(ten_pow(10) == 10000000000);
    if n < 0 {
        lemma_dec_digits_len(-n, 10);
    } else {
        lemma_dec_digits_len(n, 10);
    }
}

/// The decimal digit character for `d`.
fn digit_to_char(d: u32) -> (c: char)
    requires
        d < 10,
    ensures
        c == digit_char(d as int),
{
    match d {
        0 => '0',
        1 => '1',
        2 => '2',
        3 => '3',
        4 => '4',
        5 => '5',
        6 => '6',
        7 => '7',
        8 => '8',
        _ => '9',
    }
}

/// Append the decimal digits of `n`, most significant first.
fn push_decimal(n: u32, out: &mut Vec<char>)
    ensures
        final(out)@ == old(out)@ + dec_digits(n as int),
    decreases n,
{
    let ghost entry = out@;
    if n >= 10 {
        push_decimal(n / 10, out);
    }
    let d = digit_to_char(n % 10);
    out.push(d);
    proof {
        if n < 10 {
            assert(out@ =~= entry + seq![digit_char(n as int)]);
        } else {
            assert(out@ =~= entry + (dec_digits(n as int / 10) + seq![
                digit_char(n as int % 10),
            ]));
        }
    }
}

/// Decimal rendering of `n`.
pub fn int_to_string(n: i32) -> (r: String)
    ensures
        r@ == int_str(n as int),
{
    let mut out: Vec<char> = Vec::new();
    if n < 0 {
        out.push('-');
        let wide: i64 = n as i64;
        let m: u32 = (-wide) as u32;
        push_decimal(m, &mut out);
        proof {
            assert(out@ =~= seq!['-'] + dec_digits(-(n as int)));
        }
    } else {
        push_decimal(n as u32, &mut out);
        proof {
            assert(out@ =~= dec_digits(n as int));
        }
    }
    crate::width::chars_to_string(&out)
}

} // verus!
