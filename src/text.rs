//! Plain text helpers: substring search and decimal rendering.

use vstd::prelude::*;

verus! {

/// `pat` occurs in `s` as a contiguous run of characters.
pub open spec fn occurs_at(s: Seq<char>, pat: Seq<char>, i: int) -> bool {
    0 <= i && i + pat.len() <= s.len() && s.subrange(i, i + pat.len()) == pat
}

pub open spec fn contains_text(s: Seq<char>, pat: Seq<char>) -> bool {
    exists|i: int| occurs_at(s, pat, i)
}

/// Whether `pat` occurs somewhere in `s`.
pub fn text_contains(s: &str, pat: &str) -> (r: bool)
    ensures
        r == contains_text(s@, pat@),
{
    let n = s.unicode_len();
    let m = pat.unicode_len();
    if m > n {
        assert forall|i: int| !occurs_at(s@, pat@, i) by {}
        return false;
    }
    let mut i: usize = 0;
    while i <= n - m
        invariant
            n == s@.len(),
            m == pat@.len(),
            m <= n,
            i <= n - m + 1,
            forall|k: int| 0 <= k < i ==> !occurs_at(s@, pat@, k),
        decreases n - m + 1 - i,
    {
        let mut j: usize = 0;
        let mut same = true;
        while j < m
            invariant
                n == s@.len(),
                m == pat@.len(),
                i + m <= n,
                j <= m,
                same == (forall|k: int| 0 <= k < j ==> s@[i + k] == pat@[k]),
            decreases m - j,
        {
            if s.get_char(i + j) != pat.get_char(j) {
                same = false;
            }
            j = j + 1;
        }
        if same {
            assert(s@.subrange(i as int, i + m) =~= pat@);
            assert(occurs_at(s@, pat@, i as int));
            return true;
        }
        assert(!occurs_at(s@, pat@, i as int)) by {
            if s@.subrange(i as int, i + m) == pat@ {
                assert(forall|k: int| 0 <= k < m ==> s@[i + k] == #[trigger] s@.subrange(i as int, i + m)[k]);
            }
        }
        i = i + 1;
    }
    false
}

/// The character of a decimal digit.
pub open spec fn digit_char(d: int) -> char {
    seq!['0', '1', '2', '3', '4', '5', '6', '7', '8', '9'][d]
}

/// The decimal digits of `n`, most significant first, without leading zeros.
pub open spec fn decimal_digits(n: nat) -> Seq<char>
    decreases n,
{
    if n < 10 {
        seq![digit_char(n as int)]
    } else {
        decimal_digits(n / 10).push(digit_char((n % 10) as int))
    }
}

/// The last `w` decimal digits of `f`, most significant first, zeros included.
pub open spec fn padded_digits(f: nat, w: nat) -> Seq<char>
    decreases w,
{
    if w == 0 {
        seq![]
    } else {
        padded_digits(f / 10, (w - 1) as nat).push(digit_char((f % 10) as int))
    }
}

/// A `w`-digit fraction `f` with its trailing zeros dropped: the digits left
/// and how many there are.
pub open spec fn trimmed(f: nat, w: nat) -> (nat, nat)
    decreases w,
{
    if w > 0 && f % 10 == 0 {
        trimmed(f / 10, (w - 1) as nat)
    } else {
        (f, w)
    }
}

/// Base units in one coin.
pub const UNITS_PER_COIN: u128 = 100_000_000;

/// Number of fractional digits of a coin amount.
pub const FRACTION_DIGITS: u32 = 8;

pub open spec fn magnitude(x: int) -> nat {
    if x < 0 {
        (-x) as nat
    } else {
        x as nat
    }
}

/// A signed number of base units written in coins: a minus sign for a
/// negative amount, the whole coins, then a point and the fraction without
/// its trailing zeros, where there is a fraction.
pub open spec fn coin_text(units: int) -> Seq<char> {
    let a = magnitude(units);
    let sign = if units < 0 {
        seq!['-']
    } else {
        seq![]
    };
    let whole = decimal_digits(a / UNITS_PER_COIN as nat);
    let frac = a % UNITS_PER_COIN as nat;
    if frac == 0 {
        sign + whole
    } else {
        let t = trimmed(frac, FRACTION_DIGITS as nat);
        sign + whole + seq!['.'] + padded_digits(t.0, t.1)
    }
}

fn digit_str(d: u128) -> (r: &'static str)
    requires
        d < 10,
    ensures
        r@ == seq![digit_char(d as int)],
{
    if d == 0 {
        proof { reveal_strlit("0"); }
        assert("0"@ =~= seq![digit_char(0)]);
        "0"
    } else if d == 1 {
        proof { reveal_strlit("1"); }
        assert("1"@ =~= seq![digit_char(1)]);
        "1"
    } else if d == 2 {
        proof { reveal_strlit("2"); }
        assert("2"@ =~= seq![digit_char(2)]);
        "2"
    } else if d == 3 {
        proof { reveal_strlit("3"); }
        assert("3"@ =~= seq![digit_char(3)]);
        "3"
    } else if d == 4 {
        proof { reveal_strlit("4"); }
        assert("4"@ =~= seq![digit_char(4)]);
        "4"
    } else if d == 5 {
        proof { reveal_strlit("5"); }
        assert("5"@ =~= seq![digit_char(5)]);
        "5"
    } else if d == 6 {
        proof { reveal_strlit("6"); }
        assert("6"@ =~= seq![digit_char(6)]);
        "6"
    } else if d == 7 {
        proof { reveal_strlit("7"); }
        assert("7"@ =~= seq![digit_char(7)]);
        "7"
    } else if d == 8 {
        proof { reveal_strlit("8"); }
        assert("8"@ =~= seq![digit_char(8)]);
        "8"
    } else {
        proof { reveal_strlit("9"); }
        assert("9"@ =~= seq![digit_char(9)]);
        "9"
    }
}

fn push_digit(out: &mut String, d: u128)
    requires
        d < 10,
    ensures
        final(out)@ == old(out)@.push(digit_char(d as int)),
{
    let t = digit_str(d);
    out.append(t);
    assert(final(out)@ =~= old(out)@.push(digit_char(d as int)));
}

fn push_decimal(out: &mut String, n: u128)
    ensures
        final(out)@ == old(out)@ + decimal_digits(n as nat),
    decreases n,
{
    let ghost start = out@;
    if n >= 10 {
        push_decimal(out, n / 10);
    }
    push_digit(out, n % 10);
    assert(out@ =~= start + decimal_digits(n as nat));
}

fn push_padded(out: &mut String, f: u128, w: u32)
    ensures
        final(out)@ == old(out)@ + padded_digits(f as nat, w as nat),
    decreases w,
{
    let ghost start = out@;
    if w > 0 {
        push_padded(out, f / 10, w - 1);
        push_digit(out, f % 10);
    }
    assert(out@ =~= start + padded_digits(f as nat, w as nat));
}

/// `n` in decimal.
pub fn decimal_text(n: u64) -> (r: String)
    ensures
        r@ == decimal_digits(n as nat),
{
    let mut out = String::new();
    push_decimal(&mut out, n as u128);
    assert(out@ =~= decimal_digits(n as nat));
    out
}

/// A signed number of base units written in coins (see `coin_text`).
pub fn coin_amount_text(units: i128) -> (r: String)
    ensures
        r@ == coin_text(units as int),
{
    let a: u128 = if units < 0 {
        (-(units + 1)) as u128 + 1
    } else {
        units as u128
    };
    assert(a == magnitude(units as int));
    let mut out = String::new();
    if units < 0 {
        proof { reveal_strlit("-"); }
        out.append("-");
    }
    push_decimal(&mut out, a / UNITS_PER_COIN);
    let frac = a % UNITS_PER_COIN;
    if frac != 0 {
        let mut f = frac;
        let mut w: u32 = FRACTION_DIGITS;
        while w > 0 && f % 10 == 0
            invariant
                trimmed(f as nat, w as nat) == trimmed(frac as nat, FRACTION_DIGITS as nat),
            decreases w,
        {
            f = f / 10;
            w = w - 1;
        }
        proof { reveal_strlit("."); }
        out.append(".");
        push_padded(&mut out, f, w);
    }
    assert(out@ =~= coin_text(units as int));
    out
}

} // verus!
