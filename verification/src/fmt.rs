//! Display-string formatting for optional metric readings.
//!
//! Fractional readings (degrees, watts, percent) are carried as integer
//! tenths, so every display string is produced by exact integer arithmetic.
//! An absent reading renders as the fixed two-character placeholder, never
//! as a number.

use vstd::prelude::*;
use vstd::string::*;

verus! {

/// The decimal digit character for `d`, for `0 <= d <= 9`.
pub open spec fn digit_char(d: int) -> char {
    if d == 0 {
        '0'
    } else if d == 1 {
        '1'
    } else if d == 2 {
        '2'
    } else if d == 3 {
        '3'
    } else if d == 4 {
        '4'
    } else if d == 5 {
        '5'
    } else if d == 6 {
        '6'
    } else if d == 7 {
        '7'
    } else if d == 8 {
        '8'
    } else {
        '9'
    }
}

/// The decimal digit string of a nonnegative integer, most significant digit
/// first, with no leading zeros (a single `'0'` for zero).
pub open spec fn dec_str(n: int) -> Seq<char>
    decreases n,
{
    if n < 10 {
        seq![digit_char(n)]
    } else {
        dec_str(n / 10).push(digit_char(n % 10))
    }
}

/// The fixed placeholder shown for an absent reading.
pub open spec fn placeholder() -> Seq<char> {
    seq!['-', '-']
}

/// What a present value formats to: its digit string; an absent one: the
/// placeholder.
pub open spec fn opt_u32_str(v: Option<u32>) -> Seq<char> {
    match v {
        Option::Some(x) => dec_str(x as int),
        Option::None => placeholder(),
    }
}

/// A value in tenths printed with one decimal place, e.g. 453 tenths as
/// `45.3`.
pub open spec fn nonneg_tenths_str(t: int) -> Seq<char> {
    dec_str(t / 10) + seq!['.'] + seq![digit_char(t % 10)]
}

/// A signed value in tenths printed with one decimal place.
pub open spec fn tenths_str(t: int) -> Seq<char> {
    if t < 0 {
        seq!['-'] + nonneg_tenths_str(-t)
    } else {
        nonneg_tenths_str(t)
    }
}

/// One-decimal formatting of an optional reading in tenths.
pub open spec fn opt_tenths_str(v: Option<i32>) -> Seq<char> {
    match v {
        Option::Some(t) => tenths_str(t as int),
        Option::None => placeholder(),
    }
}

/// A reading in tenths rounded to the nearest whole unit, halves up.
pub open spec fn round_tenths(t: int) -> int {
    (t + 5) / 10
}

/// Whole-unit formatting (rounded) of an optional reading in tenths.
pub open spec fn opt_round_str(v: Option<u32>) -> Seq<char> {
    match v {
        Option::Some(t) => dec_str(round_tenths(t as int)),
        Option::None => placeholder(),
    }
}

/// The paired used/total display: `U / T MB` when both halves are present,
/// `U MB / ? MB` when only `used` is, and the placeholder otherwise.
pub open spec fn vram_str(used: Option<u32>, total: Option<u32>) -> Seq<char> {
    match (used, total) {
        (Option::Some(u), Option::Some(t)) => dec_str(u as int) + " / "@ + dec_str(t as int)
            + " MB"@,
        (Option::Some(u), Option::None) => dec_str(u as int) + " MB / ? MB"@,
        _ => placeholder(),
    }
}

/// The one-character string for a decimal digit.
fn digit_to_str(d: u64) -> (r: &'static str)
    requires
        d < 10,
    ensures
        r@ == seq![digit_char(d as int)],
{
    proof {
        reveal_strlit("0");
        reveal_strlit("1");
        reveal_strlit("2");
        reveal_strlit("3");
        reveal_strlit("4");
        reveal_strlit("5");
        reveal_strlit("6");
        reveal_strlit("7");
        reveal_strlit("8");
        reveal_strlit("9");
    }
    let r: &'static str = match d {
        0 => "0",
        1 => "1",
        2 => "2",
        3 => "3",
        4 => "4",
        5 => "5",
        6 => "6",
        7 => "7",
        8 => "8",
        _ => "9",
    };
    proof {
        assert(r@ =~= seq![digit_char(d as int)]);
    }
    r
}

/// The decimal string of `n`.
pub fn u64_string(n: u64) -> (r: String)
    ensures
        r@ == dec_str(n as int),
    decreases n,
{
    if n < 10 {
        String::from_str(digit_to_str(n))
    } else {
        let mut s = u64_string(n / 10);
        s.append(digit_to_str(n % 10));
        proof {
            assert(s@ =~= dec_str(n as int));
        }
        s
    }
}

/// The placeholder as an owned string.
pub fn placeholder_string() -> (r: String)
    ensures
        r@ == placeholder(),
{
    let r = String::from_str("--");
    proof {
        reveal_strlit("--");
        assert(r@ =~= placeholder());
    }
    r
}

/// A present value as its decimal string, an absent one as the placeholder.
pub fn fmt_opt(v: &Option<u32>) -> (r: String)
    ensures
        r@ == opt_u32_str(*v),
{
    match v {
        Option::Some(x) => u64_string(*x as u64),
        Option::None => placeholder_string(),
    }
}

/// One decimal place from a nonnegative count of tenths.
fn nonneg_tenths_string(m: u64) -> (r: String)
    ensures
        r@ == nonneg_tenths_str(m as int),
{
    let mut s = u64_string(m / 10);
    s.append(".");
    s.append(digit_to_str(m % 10));
    proof {
        reveal_strlit(".");
        assert(s@ =~= nonneg_tenths_str(m as int));
    }
    s
}

/// One decimal place from a signed count of tenths.
pub fn tenths_string(t: i32) -> (r: String)
    ensures
        r@ == tenths_str(t as int),
{
    let w: i64 = t as i64;
    if w < 0 {
        let mut s = String::from_str("-");
        let mag: u64 = (-w) as u64;
        let tail = nonneg_tenths_string(mag);
        s.append(tail.as_str());
        proof {
            reveal_strlit("-");
            assert(s@ =~= tenths_str(t as int));
        }
        s
    } else {
        nonneg_tenths_string(w as u64)
    }
}

/// One-decimal formatting of an optional reading in tenths, placeholder when
/// absent.
pub fn fmt_opt_tenths(v: &Option<i32>) -> (r: String)
    ensures
        r@ == opt_tenths_str(*v),
{
    match v {
        Option::Some(t) => tenths_string(*t),
        Option::None => placeholder_string(),
    }
}

/// Whole-unit (rounded) formatting of an optional reading in tenths,
/// placeholder when absent.
pub fn fmt_opt_rounded(v: &Option<u32>) -> (r: String)
    ensures
        r@ == opt_round_str(*v),
{
    match v {
        Option::Some(t) => {
            let m: u64 = ((*t as u64) + 5) / 10;
            u64_string(m)
        },
        Option::None => placeholder_string(),
    }
}

/// The paired used/total display string.
pub fn fmt_vram(used: Option<u32>, total: Option<u32>) -> (r: String)
    ensures
        r@ == vram_str(used, total),
{
    match (used, total) {
        (Option::Some(u), Option::Some(t)) => {
            let mut s = u64_string(u as u64);
            s.append(" / ");
            let ts = u64_string(t as u64);
            s.append(ts.as_str());
            s.append(" MB");
            proof {
                assert(s@ =~= vram_str(used, total));
            }
            s
        },
        (Option::Some(u), Option::None) => {
            let mut s = u64_string(u as u64);
            s.append(" MB / ? MB");
            proof {
                assert(s@ =~= vram_str(used, total));
            }
            s
        },
        _ => placeholder_string(),
    }
}

/// Whether `c` is a decimal digit character.
pub open spec fn is_dec_digit(c: char) -> bool {
    c == '0' || c == '1' || c == '2' || c == '3' || c == '4' || c == '5' || c == '6' || c == '7'
        || c == '8' || c == '9'
}

/// A decimal string is nonempty and consists of digit characters only.
pub proof fn lemma_dec_str_digits(n: int)
    ensures
        dec_str(n).len() >= 1,
        forall|i: int| 0 <= i < dec_str(n).len() ==> is_dec_digit(#[trigger] dec_str(n)[i]),
    decreases n,
{
    if n >= 10 {
        lemma_dec_str_digits(n / 10);
        assert forall|i: int| 0 <= i < dec_str(n).len() implies is_dec_digit(
            #[trigger] dec_str(n)[i],
        ) by {
            if i < dec_str(n / 10).len() {
                assert(dec_str(n)[i] == dec_str(n / 10)[i]);
            } else {
                assert(dec_str(n)[i] == digit_char(n % 10));
            }
        }
    }
}

/// No decimal string is the placeholder.
pub proof fn lemma_dec_str_ne_placeholder(n: int)
    ensures
        dec_str(n) != placeholder(),
{
    lemma_dec_str_digits(n);
    assert(is_dec_digit(dec_str(n)[0]));
    assert(placeholder()[0] == '-');
    assert(!is_dec_digit('-'));
}

/// The scalar formatter yields the fixed placeholder exactly when its input
/// is absent; a present value always yields its digit string.
pub proof fn lemma_placeholder_iff_absent(v: Option<u32>)
    ensures
        (opt_u32_str(v) == placeholder()) <==> (v is None),
{
    match v {
        Option::Some(x) => lemma_dec_str_ne_placeholder(x as int),
        Option::None => {},
    }
}

/// The one-decimal formatter yields the placeholder exactly when its input
/// is absent.
pub proof fn lemma_tenths_placeholder_iff_absent(v: Option<i32>)
    ensures
        (opt_tenths_str(v) == placeholder()) <==> (v is None),
{
    match v {
        Option::Some(t) => {
            lemma_dec_str_digits((t as int) / 10);
            lemma_dec_str_digits((-(t as int)) / 10);
            assert(tenths_str(t as int).len() >= 3);
            assert(placeholder().len() == 2);
        },
        Option::None => {},
    }
}

/// The rounding formatter yields the placeholder exactly when its input is
/// absent.
pub proof fn lemma_rounded_placeholder_iff_absent(v: Option<u32>)
    ensures
        (opt_round_str(v) == placeholder()) <==> (v is None),
{
    match v {
        Option::Some(t) => lemma_dec_str_ne_placeholder(round_tenths(t as int)),
        Option::None => {},
    }
}

/// The paired formatter yields the placeholder exactly when the used half is
/// absent.
pub proof fn lemma_vram_placeholder_iff_absent(used: Option<u32>, total: Option<u32>)
    ensures
        (vram_str(used, total) == placeholder()) <==> (used is None),
{
    match (used, total) {
        (Option::Some(u), Option::Some(t)) => {
            lemma_dec_str_digits(u as int);
            assert(vram_str(used, total)[0] == dec_str(u as int)[0]);
            assert(placeholder()[0] == '-');
            assert(!is_dec_digit('-'));
        },
        (Option::Some(u), Option::None) => {
            lemma_dec_str_digits(u as int);
            assert(vram_str(used, total)[0] == dec_str(u as int)[0]);
            assert(placeholder()[0] == '-');
            assert(!is_dec_digit('-'));
        },
        _ => {},
    }
}

} // verus!
