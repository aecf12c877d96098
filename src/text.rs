//! Decimal text for exact magnitudes.
use vstd::prelude::*;
use vstd::string::{StrSliceExecFns, StringExecFns};

use crate::ratio::{Frac, Ratio};

verus! {

/// Fractional digits kept when no precision is asked for.
pub const DEFAULT_DIGITS: u32 = 15;

/// Largest precision that can be asked for.
pub const MAX_DIGITS: u32 = 18;

pub open spec fn pow10(p: nat) -> nat
    decreases p,
{
    if p == 0 {
        1
    } else {
        10 * pow10((p - 1) as nat)
    }
}

pub open spec fn abs(i: int) -> nat {
    if i < 0 {
        (-i) as nat
    } else {
        i as nat
    }
}

/// The character of a decimal digit.
pub open spec fn digit_char(d: nat) -> char {
    if d == 0 {
        '0'
    } else if d == 1 {
        '1'
    } else if d == 2 {
        '2'
    } else if d == 3 {
        '3'
    } else if d == 4 {
        '4'
    } else if d == 5 {
        '5'
    } else if d == 6 {
        '6'
    } else if d == 7 {
        '7'
    } else if d == 8 {
        '8'
    } else {
        '9'
    }
}

/// The decimal digits of `n`, without leading zeros ("0" for zero).
pub open spec fn digits(n: nat) -> Seq<char>
    decreases n,
{
    if n < 10 {
        seq![digit_char(n)]
    } else {
        digits(n / 10).push(digit_char(n % 10))
    }
}

/// The last `w` decimal digits of `n`, with leading zeros.
pub open spec fn padded(n: nat, w: nat) -> Seq<char>
    decreases w,
{
    if w == 0 {
        Seq::empty()
    } else {
        padded(n / 10, (w - 1) as nat).push(digit_char(n % 10))
    }
}

/// `|f| * 10^p`, rounded to the nearest integer, halves away from zero.
pub open spec fn scaled(f: Frac, p: nat) -> nat {
    ((2 * abs(f.num) * pow10(p) + f.den) / (2 * f.den)) as nat
}

/// A minus sign where the rounded magnitude `r` of a negative number is not zero.
pub open spec fn sign(f: Frac, r: nat) -> Seq<char> {
    if f.num < 0 && r > 0 {
        seq!['-']
    } else {
        Seq::empty()
    }
}

/// A decimal point and `w` digits of `n`, or nothing where `w` is zero.
pub open spec fn fraction(n: nat, w: nat) -> Seq<char> {
    if w == 0 {
        Seq::empty()
    } else {
        seq!['.'] + padded(n, w)
    }
}

/// `n` and `w` with the trailing zeros of the `w` low digits of `n` dropped.
pub open spec fn trimmed(n: nat, w: nat) -> (nat, nat)
    decreases w,
{
    if w > 0 && n % 10 == 0 {
        trimmed(n / 10, (w - 1) as nat)
    } else {
        (n, w)
    }
}

/// `f` rounded to `p` fractional digits; where `trim` holds, the trailing
/// zeros of the fraction are dropped, and the point with them.
pub open spec fn rounded_text(f: Frac, p: nat, trim: bool) -> Seq<char> {
    let r = scaled(f, p);
    let t = if trim {
        trimmed(r % pow10(p), p)
    } else {
        (r % pow10(p), p)
    };
    sign(f, r) + digits(r / pow10(p)) + fraction(t.0, t.1)
}

/// The text of `f`: rounded to `p` fractional digits where a precision `p`
/// is given, else rounded to `DEFAULT_DIGITS` with trailing zeros dropped.
pub open spec fn decimal(f: Frac, prec: Option<u32>) -> Seq<char> {
    match prec {
        Some(p) => rounded_text(f, p as nat, false),
        None => rounded_text(f, DEFAULT_DIGITS as nat, true),
    }
}

/// Precision that `labelled` accepts.
pub open spec fn precision_ok(prec: Option<u32>) -> bool {
    match prec {
        Some(p) => p <= MAX_DIGITS,
        None => true,
    }
}

/// `t` right-aligned in a field of `width` characters: spaces before it
/// where it is shorter.
pub open spec fn aligned(t: Seq<char>, width: nat) -> Seq<char> {
    let fill = if width > t.len() {
        (width - t.len()) as nat
    } else {
        0
    };
    Seq::new(fill, |_i: int| ' ') + t
}

/// The text of a quantity: its magnitude, right-aligned in `width`
/// characters, a space, and the unit text made of `a`, `b` and `c`.
pub fn labelled(q: Ratio, prec: Option<u32>, width: usize, a: &str, b: &str, c: &str) -> (r:
    String)
    requires
        precision_ok(prec),
    ensures
        r@ == aligned(decimal(q@, prec), width as nat) + seq![' '] + a@ + b@ + c@,
        width == 0 ==> r@ == decimal(q@, prec) + seq![' '] + a@ + b@ + c@,
{
    let mut number = String::new();
    let p = match prec {
        Some(p) => p,
        None => DEFAULT_DIGITS,
    };
    push_decimal(q.numer(), q.denom(), p, prec.is_none(), &mut number);
    let n = number.as_str().unicode_len();
    let fill = if width > n {
        width - n
    } else {
        0
    };
    proof {
        reveal_strlit(" ");
    }
    let mut s = String::new();
    let mut k: usize = 0;
    while k < fill
        invariant
            k <= fill,
            s@ =~= Seq::new(k as nat, |_i: int| ' '),
        decreases fill - k,
    {
        proof {
            reveal_strlit(" ");
        }
        s.append(" ");
        k = k + 1;
        assert(s@ =~= Seq::new(k as nat, |_i: int| ' '));
    }
    s.append(number.as_str());
    s.append(" ");
    s.append(a);
    s.append(b);
    s.append(c);
    assert(aligned(decimal(q@, prec), 0) =~= decimal(q@, prec));
    s
}

fn digit_str(d: u128) -> (r: &'static str)
    requires
        d < 10,
    ensures
        r@ == seq![digit_char(d as nat)],
{
    proof {
        reveal_strlit("0");
        reveal_strlit("1");
        reveal_strlit("2");
        reveal_strlit("3");
        reveal_strlit("4");
        reveal_strlit("5");
        reveal_strlit("6");
        reveal_strlit("7");
        reveal_strlit("8");
        reveal_strlit("9");
    }
    if d == 0 {
        "0"
    } else if d == 1 {
        "1"
    } else if d == 2 {
        "2"
    } else if d == 3 {
        "3"
    } else if d == 4 {
        "4"
    } else if d == 5 {
        "5"
    } else if d == 6 {
        "6"
    } else if d == 7 {
        "7"
    } else if d == 8 {
        "8"
    } else {
        "9"
    }
}

fn push_digits(n: u128, s: &mut String)
    ensures
        final(s)@ == old(s)@ + digits(n as nat),
    decreases n,
{
    if n >= 10 {
        push_digits(n / 10, s);
    }
    s.append(digit_str(n % 10));
}

fn push_padded(n: u128, w: u32, s: &mut String)
    ensures
        final(s)@ == old(s)@ + padded(n as nat, w as nat),
    decreases w,
{
    if w > 0 {
        push_padded(n / 10, w - 1, s);
        s.append(digit_str(n % 10));
    }
}

fn push_fraction(n: u128, w: u32, s: &mut String)
    ensures
        final(s)@ == old(s)@ + fraction(n as nat, w as nat),
{
    if w > 0 {
        proof {
            reveal_strlit(".");
        }
        s.append(".");
        push_padded(n, w, s);
    }
}

proof fn lemma_pow10_bound(p: nat)
    requires
        p <= MAX_DIGITS,
    ensures
        1 <= pow10(p) <= 1_000_000_000_000_000_000,
    decreases MAX_DIGITS - p,
{
    if p == MAX_DIGITS {
        reveal_with_fuel(pow10, 19);
    } else {
        lemma_pow10_bound(p + 1);
        assert(pow10(p + 1) == 10 * pow10(p));
    }
}

fn pow10_exec(p: u32) -> (r: u128)
    requires
        p <= MAX_DIGITS,
    ensures
        r == pow10(p as nat),
        1 <= r <= 1_000_000_000_000_000_000,
    decreases p,
{
    proof {
        lemma_pow10_bound(p as nat);
    }
    if p == 0 {
        1
    } else {
        let q = pow10_exec(p - 1);
        10 * q
    }
}

/// Appends `num / den` rounded to `p` fractional digits; trailing zeros of
/// the fraction are dropped where `trim` holds.
fn push_decimal(num: i64, den: i64, p: u32, trim: bool, s: &mut String)
    requires
        num != i64::MIN,
        den > 0,
        p <= MAX_DIGITS,
    ensures
        final(s)@ == old(s)@ + rounded_text(Frac { num: num as int, den: den as int }, p as nat, trim),
{
    let ghost f = Frac { num: num as int, den: den as int };
    let a: u128 = if num < 0 {
        (-num) as u128
    } else {
        num as u128
    };
    let scale = pow10_exec(p);
    assert(a * scale <= 9_223_372_036_854_775_807 * 1_000_000_000_000_000_000) by (nonlinear_arith)
        requires
            a <= 9_223_372_036_854_775_807,
            scale <= 1_000_000_000_000_000_000,
    ;
    let r: u128 = (2 * (a * scale) + den as u128) / (2 * den as u128);
    assert(r == scaled(f, p as nat)) by {
        assert(a == abs(num as int));
        assert(2 * abs(f.num) * pow10(p as nat) == 2 * (a * scale)) by (nonlinear_arith)
            requires
                a == abs(f.num),
                scale == pow10(p as nat),
        ;
    }
    let whole = r / scale;
    let mut frac = r % scale;
    let mut w = p;
    if num < 0 && r > 0 {
        proof {
            reveal_strlit("-");
        }
        s.append("-");
    }
    if trim {
        while w > 0 && frac % 10 == 0
            invariant
                trimmed(frac as nat, w as nat) == trimmed((r % scale) as nat, p as nat),
            decreases w,
        {
            frac = frac / 10;
            w = w - 1;
        }
    }
    push_digits(whole, s);
    push_fraction(frac, w, s);
    assert(s@ =~= old(s)@ + rounded_text(f, p as nat, trim));
}

} // verus!
