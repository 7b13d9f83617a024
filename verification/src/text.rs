//! Rendering numbers as text.

use vstd::prelude::*;
use vstd::string::*;
use crate::fixed::SCALE;

verus! {

/// The character for a single decimal digit.
pub open spec fn digit_char(d: int) -> char {
    if d == 0 {
        '0'
    } else if d == 1 {
        '1'
    } else if d == 2 {
        '2'
    } else if d == 3 {
        '3'
    } else if d == 4 {
        '4'
    } else if d == 5 {
        '5'
    } else if d == 6 {
        '6'
    } else if d == 7 {
        '7'
    } else if d == 8 {
        '8'
    } else {
        '9'
    }
}

/// Decimal digits of a natural number, without leading zeros.
pub open spec fn decimal_text(n: nat) -> Seq<char>
    decreases n,
{
    if n < 10 {
        seq![digit_char(n as int)]
    } else {
        decimal_text(n / 10).push(digit_char((n % 10) as int))
    }
}

/// Exactly three decimal digits of a number below one thousand.
pub open spec fn three_digits(n: nat) -> Seq<char> {
    seq![
        digit_char((n / 100) as int),
        digit_char(((n / 10) % 10) as int),
        digit_char((n % 10) as int),
    ]
}

/// Decimal digits in groups of three, separated by commas.
pub open spec fn grouped_text(n: nat) -> Seq<char>
    decreases n,
{
    if n < 1000 {
        decimal_text(n)
    } else {
        grouped_text(n / 1000) + seq![','] + three_digits(n % 1000)
    }
}

/// `10` to the power of `decimals`, for up to six places.
pub open spec fn pow10(decimals: int) -> int {
    if decimals <= 0 {
        1
    } else if decimals == 1 {
        10
    } else if decimals == 2 {
        100
    } else if decimals == 3 {
        1000
    } else if decimals == 4 {
        10_000
    } else if decimals == 5 {
        100_000
    } else {
        1_000_000
    }
}

/// The last `places` decimal digits of `n`, with leading zeros.
pub open spec fn padded_text(n: nat, places: int) -> Seq<char>
    decreases places,
{
    if places <= 0 {
        Seq::<char>::empty()
    } else {
        padded_text(n / 10, places - 1).push(digit_char((n % 10) as int))
    }
}

/// The number of places a stored value can be written with: at most six.
pub open spec fn places_of(decimals: int) -> int {
    if decimals > 6 {
        6
    } else {
        decimals
    }
}

/// A stored value rounded half up to `decimals` places, as text. A stored value
/// has six places; asking for more gives six.
pub open spec fn fixed_text(value: int, decimals: int) -> Seq<char> {
    let places = places_of(decimals);
    let magnitude = if value < 0 {
        -value
    } else {
        value
    };
    let steps = (magnitude * pow10(places) + SCALE / 2) / (SCALE as int);
    let sign = if value < 0 && steps > 0 {
        seq!['-']
    } else {
        Seq::<char>::empty()
    };
    let whole = decimal_text((steps / pow10(places)) as nat);
    if places <= 0 {
        sign + whole
    } else {
        sign + whole + seq!['.'] + padded_text((steps % pow10(places)) as nat, places)
    }
}

fn digit_str(d: u64) -> (r: &'static str)
    requires
        d < 10,
    ensures
        r@ == seq![digit_char(d as int)],
{
    proof {
        reveal_strlit("0");
        reveal_strlit("1");
        reveal_strlit("2");
        reveal_strlit("3");
        reveal_strlit("4");
        reveal_strlit("5");
        reveal_strlit("6");
        reveal_strlit("7");
        reveal_strlit("8");
        reveal_strlit("9");
    }
    let r = if d == 0 {
        "0"
    } else if d == 1 {
        "1"
    } else if d == 2 {
        "2"
    } else if d == 3 {
        "3"
    } else if d == 4 {
        "4"
    } else if d == 5 {
        "5"
    } else if d == 6 {
        "6"
    } else if d == 7 {
        "7"
    } else if d == 8 {
        "8"
    } else {
        "9"
    };
    assert(r@ =~= seq![digit_char(d as int)]);
    r
}

/// Appends the decimal digits of `n`.
pub fn append_decimal(s: &mut String, n: u64)
    ensures
        final(s)@ == old(s)@ + decimal_text(n as nat),
    decreases n,
{
    if n >= 10 {
        append_decimal(s, n / 10);
    }
    s.append(digit_str(n % 10));
    proof {
        if n < 10 {
            assert(final(s)@ =~= old(s)@ + decimal_text(n as nat));
        } else {
            assert(final(s)@ =~= old(s)@ + decimal_text(n as nat));
        }
    }
}

/// Appends the last `places` digits of `n`, with leading zeros.
pub fn append_padded(s: &mut String, n: u64, places: u32)
    ensures
        final(s)@ == old(s)@ + padded_text(n as nat, places as int),
    decreases places,
{
    if places > 0 {
        append_padded(s, n / 10, places - 1);
        s.append(digit_str(n % 10));
        assert(final(s)@ =~= old(s)@ + padded_text(n as nat, places as int));
    } else {
        assert(final(s)@ =~= old(s)@ + padded_text(n as nat, places as int));
    }
}

/// Appends `n` in groups of three digits separated by commas.
pub fn append_grouped(s: &mut String, n: u64)
    ensures
        final(s)@ == old(s)@ + grouped_text(n as nat),
    decreases n,
{
    if n < 1000 {
        append_decimal(s, n);
    } else {
        append_grouped(s, n / 1000);
        s.append(",");
        let low: u64 = n % 1000;
        s.append(digit_str(low / 100));
        s.append(digit_str((low / 10) % 10));
        s.append(digit_str(low % 10));
        proof {
            reveal_strlit(",");
            assert(","@ =~= seq![',']);
            assert(final(s)@ =~= old(s)@ + grouped_text(n as nat));
        }
    }
}

fn pow10_exec(decimals: u32) -> (r: u64)
    ensures
        r == pow10(decimals as int),
        1 <= r <= 1_000_000,
{
    if decimals == 0 {
        1
    } else if decimals == 1 {
        10
    } else if decimals == 2 {
        100
    } else if decimals == 3 {
        1000
    } else if decimals == 4 {
        10_000
    } else if decimals == 5 {
        100_000
    } else {
        1_000_000
    }
}

/// Appends a stored value rounded half up to `decimals` places; asking for more
/// than six places gives six.
#[verifier::rlimit(50)]
pub fn append_fixed(s: &mut String, value: i64, decimals: u32)
    ensures
        final(s)@ == old(s)@ + fixed_text(value as int, decimals as int),
{
    let decimals: u32 = if decimals > 6 {
        6
    } else {
        decimals
    };
    let magnitude: u128 = if value < 0 {
        (-(value as i128)) as u128
    } else {
        value as u128
    };
    let unit: u64 = pow10_exec(decimals);
    assert(magnitude * unit <= 0x8000_0000_0000_0000 * 1_000_000) by (nonlinear_arith)
        requires
            0 <= magnitude <= 0x8000_0000_0000_0000,
            0 <= unit <= 1_000_000,
    ;
    let steps: u128 = (magnitude * (unit as u128) + (SCALE as u128) / 2) / (SCALE as u128);
    assert(steps <= 0x8000_0000_0000_0000 + 1) by (nonlinear_arith)
        requires
            steps == (magnitude * unit + 500_000) / 1_000_000,
            magnitude * unit <= 0x8000_0000_0000_0000 * 1_000_000,
    ;
    let steps: u64 = steps as u64;
    if value < 0 && steps > 0 {
        s.append("-");
    }
    append_decimal(s, steps / unit);
    if decimals > 0 {
        s.append(".");
        append_padded(s, steps % unit, decimals);
    }
    proof {
        reveal_strlit("-");
        reveal_strlit(".");
        assert("-"@ =~= seq!['-']);
        assert("."@ =~= seq!['.']);
    }
    assert(s@ =~= old(s)@ + fixed_text(value as int, decimals as int));
}

/// Whether `needle` occurs in `haystack` as a contiguous run of characters.
pub open spec fn contains_text(haystack: Seq<char>, needle: Seq<char>) -> bool {
    exists|i: int|
        0 <= i <= haystack.len() - needle.len() && #[trigger] haystack.subrange(
            i,
            i + needle.len(),
        ) == needle
}

/// `str::contains` with a string pattern: whether the pattern occurs in the text.
#[verifier::external_body]
pub(crate) fn text_contains(haystack: &str, needle: &str) -> (r: bool)
    ensures
        r == contains_text(haystack@, needle@),
{
    haystack.contains(needle)
}

/// Whether a character is one of the ten ASCII digits.
pub open spec fn is_digit(c: char) -> bool {
    '0' <= c && c <= '9'
}

/// Number of ASCII digits among the first `n` characters.
pub open spec fn digit_count(text: Seq<char>, n: int) -> int
    decreases n,
{
    if n <= 0 {
        0
    } else {
        digit_count(text, n - 1) + if is_digit(text[n - 1]) {
            1int
        } else {
            0int
        }
    }
}

/// Counts the ASCII digits in a text.
pub fn count_digits(text: &str) -> (n: usize)
    ensures
        n == digit_count(text@, text@.len() as int),
{
    let len: usize = text.unicode_len();
    let mut n: usize = 0;
    let mut i: usize = 0;
    while i < len
        invariant
            len == text@.len(),
            i <= len,
            n == digit_count(text@, i as int),
            n <= i,
        decreases len - i,
    {
        let c: char = text.get_char(i);
        if '0' <= c && c <= '9' {
            n += 1;
        }
        i += 1;
    }
    n
}

} // verus!
