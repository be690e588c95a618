//! Decimal rendering of 32-bit integers, used to embed the process id in a
//! MIME tag.

use vstd::prelude::*;
use vstd::string::StringExecFns;

verus! {

/// The character for a single decimal digit value.
pub open spec fn digit_char(d: int) -> char {
    if d == 0 {
        '0'
    } else if d == 1 {
        '1'
    } else if d == 2 {
        '2'
    } else if d == 3 {
        '3'
    } else if d == 4 {
        '4'
    } else if d == 5 {
        '5'
    } else if d == 6 {
        '6'
    } else if d == 7 {
        '7'
    } else if d == 8 {
        '8'
    } else {
        '9'
    }
}

/// Whether a character is a decimal digit.
pub open spec fn is_dec_digit(c: char) -> bool {
    c == '0' || c == '1' || c == '2' || c == '3' || c == '4' || c == '5' || c == '6' || c == '7'
        || c == '8' || c == '9'
}

/// The usual decimal representation of `n`: most significant digit first,
/// no leading zeros (except for `n == 0`, which is rendered as "0").
pub open spec fn dec_rep(n: nat) -> Seq<char>
    decreases n,
{
    if n < 10 {
        seq![digit_char(n as int)]
    } else {
        dec_rep(n / 10) + seq![digit_char((n % 10) as int)]
    }
}

/// A decimal representation is never empty and consists of digit
/// characters only.
pub proof fn lemma_dec_rep_digits(n: nat)
    ensures
        dec_rep(n).len() >= 1,
        forall|j: int| 0 <= j < dec_rep(n).len() ==> is_dec_digit(#[trigger] dec_rep(n)[j]),
    decreases n,
{
    if n >= 10 {
        lemma_dec_rep_digits(n / 10);
    }
}

/// Numbers with two or more decimal digits are at least 10.
proof fn lemma_dec_rep_len(n: nat)
    ensures
        n < 10 <==> dec_rep(n).len() == 1,
    decreases n,
{
    if n >= 10 {
        lemma_dec_rep_digits(n / 10);
    }
}

/// Decimal representation is injective: equal digit sequences come from
/// equal numbers.
pub proof fn lemma_dec_rep_injective(m: nat, n: nat)
    requires
        dec_rep(m) == dec_rep(n),
    ensures
        m == n,
    decreases m,
{
    lemma_dec_rep_len(m);
    lemma_dec_rep_len(n);
    if m < 10 && n < 10 {
        assert(dec_rep(m)[0] == digit_char(m as int));
        assert(dec_rep(n)[0] == digit_char(n as int));
        lemma_digit_char_injective(m as int, n as int);
    } else if m >= 10 && n >= 10 {
        assert(dec_rep(m).last() == digit_char((m % 10) as int));
        assert(dec_rep(n).last() == digit_char((n % 10) as int));
        lemma_digit_char_injective((m % 10) as int, (n % 10) as int);
        assert(dec_rep(m).drop_last() =~= dec_rep(m / 10));
        assert(dec_rep(n).drop_last() =~= dec_rep(n / 10));
        lemma_dec_rep_injective(m / 10, n / 10);
    }
}

/// Distinct decimal digit values get distinct characters.
proof fn lemma_digit_char_injective(a: int, b: int)
    requires
        0 <= a < 10,
        0 <= b < 10,
        digit_char(a) == digit_char(b),
    ensures
        a == b,
{
}

/// The one-character string for a single decimal digit value.
fn digit_str(d: u32) -> (r: &'static str)
    requires
        d < 10,
    ensures
        r@ == seq![digit_char(d as int)],
{
    proof {
        reveal_strlit("0");
        reveal_strlit("1");
        reveal_strlit("2");
        reveal_strlit("3");
        reveal_strlit("4");
        reveal_strlit("5");
        reveal_strlit("6");
        reveal_strlit("7");
        reveal_strlit("8");
        reveal_strlit("9");
    }
    let r = match d {
        0 => "0",
        1 => "1",
        2 => "2",
        3 => "3",
        4 => "4",
        5 => "5",
        6 => "6",
        7 => "7",
        8 => "8",
        _ => "9",
    };
    proof {
        assert(r@ =~= seq![digit_char(d as int)]);
    }
    r
}

/// Renders `n` in decimal, most significant digit first.
pub fn u32_to_decimal(n: u32) -> (s: String)
    ensures
        s@ == dec_rep(n as nat),
    decreases n,
{
    if n < 10 {
        String::from_str(digit_str(n))
    } else {
        let mut s = u32_to_decimal(n / 10);
        s.append(digit_str(n % 10));
        proof {
            assert(s@ =~= dec_rep(n as nat));
        }
        s
    }
}

} // verus!
