//! Exact rational magnitudes.
//!
//! `Frac` is the mathematical number, used in contracts; `Ratio` is the
//! executable value whose view is a `Frac`.
use vstd::prelude::*;

use core::cmp::Ordering;

use crate::text::abs;

verus! {

/// Largest absolute value of a numerator or a denominator.
pub const LIMIT: i64 = 9_223_372_036_854_775_807;

/// A rational number `num / den`, as mathematics sees it.
pub struct Frac {
    pub num: int,
    pub den: int,
}

impl Frac {
    /// The number fits in a `Ratio`.
    pub open spec fn fits(self) -> bool {
        &&& 0 < self.den <= LIMIT
        &&& -LIMIT <= self.num <= LIMIT
    }

    /// Exact sum (not reduced).
    pub open spec fn plus(self, o: Frac) -> Frac {
        Frac { num: self.num * o.den + o.num * self.den, den: self.den * o.den }
    }

    /// Exact difference (not reduced).
    pub open spec fn minus(self, o: Frac) -> Frac {
        Frac { num: self.num * o.den - o.num * self.den, den: self.den * o.den }
    }

    /// Exact product (not reduced).
    pub open spec fn times(self, o: Frac) -> Frac {
        Frac { num: self.num * o.num, den: self.den * o.den }
    }

    /// Exact quotient (not reduced), with the sign carried by the numerator.
    pub open spec fn over(self, o: Frac) -> Frac {
        if o.num >= 0 {
            Frac { num: self.num * o.den, den: self.den * o.num }
        } else {
            Frac { num: -(self.num * o.den), den: self.den * -o.num }
        }
    }

    /// The two fractions denote the same number.
    pub open spec fn eqv(self, o: Frac) -> bool {
        self.num * o.den == o.num * self.den
    }

    /// How the value of `self` compares with the value of `o`, where both
    /// denominators are positive.
    pub open spec fn compare(self, o: Frac) -> Ordering {
        if self.num * o.den < o.num * self.den {
            Ordering::Less
        } else if self.num * o.den == o.num * self.den {
            Ordering::Equal
        } else {
            Ordering::Greater
        }
    }

    /// The same number in lowest terms, for a positive denominator.
    pub open spec fn reduced(self) -> Frac {
        let g = gcd(abs(self.num), self.den as nat);
        let n = (abs(self.num) / g) as int;
        Frac { num: if self.num < 0 { -n } else { n }, den: self.den / (g as int) }
    }

    /// The integer `i` as a fraction.
    pub open spec fn integer(i: int) -> Frac {
        Frac { num: i, den: 1 }
    }
}

/// Greatest common divisor, by Euclid's algorithm.
pub open spec fn gcd(a: nat, b: nat) -> nat
    decreases b,
{
    if b == 0 {
        a
    } else {
        gcd(b, a % b)
    }
}

/// An exact rational magnitude, held as a numerator and a positive
/// denominator of 64 bits each.
///
/// `new` keeps the two parts as given; every arithmetic operation returns its
/// exact result in lowest terms, and asks that those terms fit in 64 bits.
/// Two ratios compare (`==`, `<`) by value, whatever their terms.
#[derive(Clone, Copy, Debug)]
pub struct Ratio {
    num: i64,
    den: i64,
}

impl View for Ratio {
    type V = Frac;

    closed spec fn view(&self) -> Frac {
        Frac { num: self.num as int, den: self.den as int }
    }
}

impl Ratio {
    #[verifier::type_invariant]
    spec fn inv(self) -> bool {
        self@.fits()
    }

    /// Builds `num / den`; the sign moves to the numerator.
    pub fn new(num: i64, den: i64) -> (r: Ratio)
        requires
            den != 0,
            num != i64::MIN,
            den != i64::MIN,
        ensures
            r@ == (if den > 0 { Frac { num: num as int, den: den as int } } else {
                Frac { num: -num, den: -den }
            }),
    {
        if den > 0 {
            Ratio { num, den }
        } else {
            Ratio { num: -num, den: -den }
        }
    }

    /// The integer `n`.
    pub fn from_integer(n: i64) -> (r: Ratio)
        requires
            n != i64::MIN,
        ensures
            r@ == Frac::integer(n as int),
    {
        Ratio { num: n, den: 1 }
    }

    /// Numerator, carrying the sign.
    pub fn numer(&self) -> (r: i64)
        ensures
            r == self@.num,
            r != i64::MIN,
    {
        proof {
            use_type_invariant(self);
        }
        self.num
    }

    /// Denominator, always positive.
    pub fn denom(&self) -> (r: i64)
        ensures
            r == self@.den,
            r > 0,
    {
        proof {
            use_type_invariant(self);
        }
        self.den
    }

    /// `num / den` in lowest terms.
    fn reduce(num: i128, den: i128) -> (r: Ratio)
        requires
            den > 0,
            num > i128::MIN,
            (Frac { num: num as int, den: den as int }).reduced().fits(),
        ensures
            r@ == (Frac { num: num as int, den: den as int }).reduced(),
    {
        let a: u128 = if num < 0 {
            (-num) as u128
        } else {
            num as u128
        };
        assert(a as nat == abs(num as int));
        let g = gcd_exec(a, den as u128);
        proof {
            lemma_gcd(a as nat, den as nat);
        }
        let n = a / g;
        let d = den as u128 / g;
        let n = n as i64;
        if num < 0 {
            Ratio { num: -n, den: d as i64 }
        } else {
            Ratio { num: n, den: d as i64 }
        }
    }

    /// Exact sum, in lowest terms.
    pub fn plus(self, o: Ratio) -> (r: Ratio)
        requires
            self@.plus(o@).reduced().fits(),
        ensures
            r@ == self@.plus(o@).reduced(),
    {
        proof {
            use_type_invariant(self);
            use_type_invariant(o);
            lemma_products_fit(self@, o@);
        }
        let n = self.num as i128 * o.den as i128 + o.num as i128 * self.den as i128;
        let d = self.den as i128 * o.den as i128;
        Ratio::reduce(n, d)
    }

    /// Exact difference, in lowest terms.
    pub fn minus(self, o: Ratio) -> (r: Ratio)
        requires
            self@.minus(o@).reduced().fits(),
        ensures
            r@ == self@.minus(o@).reduced(),
    {
        proof {
            use_type_invariant(self);
            use_type_invariant(o);
            lemma_products_fit(self@, o@);
        }
        let n = self.num as i128 * o.den as i128 - o.num as i128 * self.den as i128;
        let d = self.den as i128 * o.den as i128;
        Ratio::reduce(n, d)
    }

    /// Exact product, in lowest terms.
    pub fn times(self, o: Ratio) -> (r: Ratio)
        requires
            self@.times(o@).reduced().fits(),
        ensures
            r@ == self@.times(o@).reduced(),
    {
        proof {
            use_type_invariant(self);
            use_type_invariant(o);
            lemma_products_fit(self@, o@);
        }
        let n = self.num as i128 * o.num as i128;
        let d = self.den as i128 * o.den as i128;
        Ratio::reduce(n, d)
    }

    /// Exact quotient, in lowest terms.
    pub fn over(self, o: Ratio) -> (r: Ratio)
        requires
            o@.num != 0,
            self@.over(o@).reduced().fits(),
        ensures
            r@ == self@.over(o@).reduced(),
    {
        proof {
            use_type_invariant(self);
            use_type_invariant(o);
            lemma_products_fit(self@, o@);
            lemma_dens(self@, o@);
        }
        let n = self.num as i128 * o.den as i128;
        let d = self.den as i128 * o.num as i128;
        if o.num >= 0 {
            Ratio::reduce(n, d)
        } else {
            assert(-(self@.den * o@.num) == self@.den * -o@.num) by (nonlinear_arith);
            Ratio::reduce(-n, -d)
        }
    }

    /// The two ratios denote the same number.
    pub fn same_value(&self, o: &Ratio) -> (r: bool)
        ensures
            r == self@.eqv(o@),
    {
        proof {
            use_type_invariant(self);
            use_type_invariant(o);
            lemma_products_fit(self@, o@);
        }
        self.num as i128 * o.den as i128 == o.num as i128 * self.den as i128
    }
}

fn gcd_exec(a: u128, b: u128) -> (r: u128)
    ensures
        r == gcd(a as nat, b as nat),
{
    let mut x = a;
    let mut y = b;
    while y != 0
        invariant
            gcd(x as nat, y as nat) == gcd(a as nat, b as nat),
        decreases y,
    {
        let t = x % y;
        x = y;
        y = t;
    }
    x
}

/// The greatest common divisor of two numbers, not both zero, is positive
/// and divides both.
pub proof fn lemma_gcd(a: nat, b: nat)
    requires
        a > 0 || b > 0,
    ensures
        gcd(a, b) > 0,
        a == gcd(a, b) * (a / gcd(a, b)),
        b == gcd(a, b) * (b / gcd(a, b)),
    decreases b,
{
    if b == 0 {
        assert(a == a * (a / a)) by (nonlinear_arith)
            requires
                a > 0,
        ;
        assert(0 == a * (0nat / a)) by (nonlinear_arith)
            requires
                a > 0,
        ;
    } else {
        let r = a % b;
        lemma_gcd(b, r);
        let g = gcd(b, r);
        vstd::arithmetic::div_mod::lemma_fundamental_div_mod(a as int, b as int);
        let k = (a / b) * (b / g) + r / g;
        assert(a == g * k) by (nonlinear_arith)
            requires
                a == b * (a / b) + r,
                b == g * (b / g),
                r == g * (r / g),
                k == (a / b) * (b / g) + r / g,
        ;
        assert(a / g == k) by (nonlinear_arith)
            requires
                a == g * k,
                g > 0,
        ;
    }
}

/// Lowest terms keep the value, the sign and a positive denominator, and
/// make neither part larger.
pub proof fn lemma_reduced(f: Frac)
    requires
        f.den > 0,
    ensures
        f.reduced().den > 0,
        f.reduced().eqv(f),
        abs(f.reduced().num) <= abs(f.num),
        f.reduced().den <= f.den,
        f.num > 0 ==> f.reduced().num > 0,
        f.num < 0 ==> f.reduced().num < 0,
        f.num == 0 ==> f.reduced().num == 0,
        f.fits() ==> f.reduced().fits(),
        is_one(f) ==> is_one(f.reduced()),
{
    let a = abs(f.num);
    let d = f.den as nat;
    lemma_gcd(a, d);
    let g = gcd(a, d);
    let (qa, qd) = (a / g, d / g);
    assert(qd > 0 && qd <= d) by (nonlinear_arith)
        requires
            d == g * qd,
            d > 0,
            g > 0,
            qd >= 0,
    ;
    assert(qa <= a && (a > 0 ==> qa > 0)) by (nonlinear_arith)
        requires
            a == g * qa,
            g > 0,
            qa >= 0,
    ;
    assert(qa * d == a * qd) by (nonlinear_arith)
        requires
            a == g * qa,
            d == g * qd,
    ;
    assert((-qa) * d == (-a) * qd) by (nonlinear_arith)
        requires
            qa * d == a * qd,
    ;
}

/// Products of two parts of fitting fractions stay far inside `i128`.
proof fn lemma_products_fit(a: Frac, b: Frac)
    requires
        a.fits(),
        b.fits(),
    ensures
        -LIMIT * LIMIT <= a.num * b.den <= LIMIT * LIMIT,
        -LIMIT * LIMIT <= b.num * a.den <= LIMIT * LIMIT,
        -LIMIT * LIMIT <= a.num * b.num <= LIMIT * LIMIT,
        0 < a.den * b.den <= LIMIT * LIMIT,
{
    assert(-LIMIT * LIMIT <= a.num * b.den <= LIMIT * LIMIT) by (nonlinear_arith)
        requires a.fits(), b.fits();
    assert(-LIMIT * LIMIT <= b.num * a.den <= LIMIT * LIMIT) by (nonlinear_arith)
        requires a.fits(), b.fits();
    assert(-LIMIT * LIMIT <= a.num * b.num <= LIMIT * LIMIT) by (nonlinear_arith)
        requires a.fits(), b.fits();
    assert(0 < a.den * b.den <= LIMIT * LIMIT) by (nonlinear_arith)
        requires a.fits(), b.fits();
}

/// The quotient of two positive fractions is positive.
pub proof fn lemma_over_positive(a: Frac, b: Frac)
    requires
        a.num > 0,
        a.den > 0,
        b.num > 0,
        b.den > 0,
    ensures
        a.over(b).num > 0,
        a.over(b).den > 0,
{
    assert(a.num * b.den > 0) by (nonlinear_arith)
        requires
            a.num > 0,
            b.den > 0,
    ;
    assert(a.den * b.num > 0) by (nonlinear_arith)
        requires
            a.den > 0,
            b.num > 0,
    ;
}

/// Denominators stay positive through every operation.
pub proof fn lemma_dens(a: Frac, b: Frac)
    requires
        a.den > 0,
        b.den > 0,
    ensures
        a.plus(b).den > 0,
        a.minus(b).den > 0,
        a.times(b).den > 0,
        b.num != 0 ==> a.over(b).den > 0,
{
    assert(a.den * b.den > 0) by (nonlinear_arith)
        requires
            a.den > 0,
            b.den > 0,
    ;
    if b.num > 0 {
        assert(a.den * b.num > 0) by (nonlinear_arith)
            requires
                a.den > 0,
                b.num > 0,
        ;
    } else if b.num < 0 {
        assert(a.den * -b.num > 0) by (nonlinear_arith)
            requires
                a.den > 0,
                b.num < 0,
        ;
    }
}

/// Equality of value is transitive.
pub proof fn lemma_eqv_trans(a: Frac, b: Frac, c: Frac)
    requires
        a.eqv(b),
        b.eqv(c),
        b.den > 0,
    ensures
        a.eqv(c),
{
    assert((a.num * c.den) * b.den == (c.num * a.den) * b.den) by (nonlinear_arith)
        requires
            a.num * b.den == b.num * a.den,
            b.num * c.den == c.num * b.den,
    ;
    assert(a.num * c.den == c.num * a.den) by (nonlinear_arith)
        requires
            (a.num * c.den) * b.den == (c.num * a.den) * b.den,
            b.den > 0,
    ;
}

proof fn lemma_expand_sum(x: int, y: int, u: int, v: int, w: int)
    ensures
        (x * w + y * u) * (v * w) == (x * v) * (w * w) + y * (u * v * w),
{
    assert((x * w + y * u) * (v * w) == (x * w) * (v * w) + (y * u) * (v * w))
        by (nonlinear_arith);
    assert((x * w) * (v * w) == (x * v) * (w * w)) by (nonlinear_arith);
    assert((y * u) * (v * w) == y * (u * v * w)) by (nonlinear_arith);
}

proof fn lemma_expand(x: int, y: int, u: int, v: int, w: int)
    ensures
        (x * w + y * u) * (v * w) == (x * v) * (w * w) + y * (u * v * w),
        (x * w - y * u) * (v * w) == (x * v) * (w * w) - y * (u * v * w),
        u * v * w == v * u * w,
{
    lemma_expand_sum(x, y, u, v, w);
    lemma_expand_sum(x, -y, u, v, w);
    assert((-y) * u == -(y * u)) by (nonlinear_arith);
    assert((-y) * (u * v * w) == -(y * (u * v * w))) by (nonlinear_arith);
    assert(u * v * w == v * u * w) by (nonlinear_arith);
}

/// Operations keep equality of value in their first operand.
pub proof fn lemma_congruent(a: Frac, a2: Frac, b: Frac)
    requires
        a.eqv(a2),
    ensures
        a.plus(b).eqv(a2.plus(b)),
        a.minus(b).eqv(a2.minus(b)),
        a.times(b).eqv(a2.times(b)),
        a.over(b).eqv(a2.over(b)),
{
    lemma_expand(a.num, b.num, a.den, a2.den, b.den);
    lemma_expand(a2.num, b.num, a2.den, a.den, b.den);
    assert((a.num * b.num) * (a2.den * b.den) == (a2.num * b.num) * (a.den * b.den))
        by (nonlinear_arith)
        requires
            a.num * a2.den == a2.num * a.den,
    ;
    assert((a.num * b.den) * (a2.den * b.num) == (a2.num * b.den) * (a.den * b.num))
        by (nonlinear_arith)
        requires
            a.num * a2.den == a2.num * a.den,
    ;
    assert((-(a.num * b.den)) * (a2.den * -b.num) == (-(a2.num * b.den)) * (a.den * -b.num))
        by (nonlinear_arith)
        requires
            a.num * a2.den == a2.num * a.den,
    ;
}

/// Adding and then subtracting the same number, or the reverse, gives back
/// the same value.
pub proof fn lemma_plus_minus(w: Frac, z: Frac)
    ensures
        w.plus(z).minus(z).eqv(w),
        w.minus(z).plus(z).eqv(w),
{
    assert(((w.num * z.den + z.num * w.den) * z.den - z.num * (w.den * z.den)) * w.den == w.num
        * ((w.den * z.den) * z.den)) by (nonlinear_arith);
    assert(((w.num * z.den - z.num * w.den) * z.den + z.num * (w.den * z.den)) * w.den == w.num
        * ((w.den * z.den) * z.den)) by (nonlinear_arith);
}

/// Multiplying and then dividing by the same nonzero number, or the
/// reverse, gives back the same value.
pub proof fn lemma_times_over(v: Frac, k: Frac)
    requires
        k.num != 0,
    ensures
        v.times(k).over(k).eqv(v),
        v.over(k).times(k).eqv(v),
{
    assert((v.num * k.num * k.den) * v.den == v.num * (v.den * k.den * k.num))
        by (nonlinear_arith);
    assert((-(v.num * k.num * k.den)) * v.den == v.num * (v.den * k.den * -k.num))
        by (nonlinear_arith);
    assert((v.num * k.den * k.num) * v.den == v.num * (v.den * k.num * k.den))
        by (nonlinear_arith);
    assert((-(v.num * k.den) * k.num) * v.den == v.num * ((v.den * -k.num) * k.den))
        by (nonlinear_arith);
}

/// `p` and `q` are inverse to each other: their product is one.
pub open spec fn inverse_pair(p: Frac, q: Frac) -> bool {
    p.num * q.num == p.den * q.den
}

/// The factors `u / t` and `t / u` of two positive numbers are inverse.
pub proof fn lemma_inverse_factors(u: Frac, t: Frac)
    requires
        u.num > 0,
        t.num > 0,
    ensures
        inverse_pair(u.over(t), t.over(u)),
{
    assert((u.num * t.den) * (t.num * u.den) == (u.den * t.num) * (t.den * u.num))
        by (nonlinear_arith);
}

/// Products and quotients of inverse pairs are inverse pairs.
pub proof fn lemma_inverse_compose(p: Frac, q: Frac, p2: Frac, q2: Frac)
    requires
        inverse_pair(p, q),
        inverse_pair(p2, q2),
    ensures
        inverse_pair(p.times(p2), q.times(q2)),
        p2.num > 0 && q2.num > 0 ==> inverse_pair(p.over(p2), q.over(q2)),
{
    assert((p.num * p2.num) * (q.num * q2.num) == (p.num * q.num) * (p2.num * q2.num))
        by (nonlinear_arith);
    assert((p.den * p2.den) * (q.den * q2.den) == (p.den * q.den) * (p2.den * q2.den))
        by (nonlinear_arith);
    assert((p.num * p2.den) * (q.num * q2.den) == (p.den * p2.num) * (q.den * q2.num))
        by (nonlinear_arith)
        requires
            p.num * q.num == p.den * q.den,
            p2.num * q2.num == p2.den * q2.den,
    ;
}

/// Multiplying by both members of an inverse pair gives back the same value;
/// so does dividing by both, where they are positive.
pub proof fn lemma_round_trip(x: Frac, p: Frac, q: Frac)
    requires
        inverse_pair(p, q),
    ensures
        x.times(p).times(q).eqv(x),
        p.num > 0 && q.num > 0 ==> x.over(p).over(q).eqv(x),
{
    assert((x.num * p.num * q.num) * x.den == x.num * (x.den * p.den * q.den))
        by (nonlinear_arith)
        requires
            p.num * q.num == p.den * q.den,
    ;
    assert((x.num * p.den * q.den) * x.den == x.num * (x.den * p.num * q.num))
        by (nonlinear_arith)
        requires
            p.num * q.num == p.den * q.den,
    ;
}

/// A factor whose numerator and denominator are equal is one.
pub open spec fn is_one(p: Frac) -> bool {
    p.num == p.den
}

/// Multiplying by one keeps the value; so does dividing by one.
pub proof fn lemma_one(x: Frac, p: Frac)
    requires
        is_one(p),
    ensures
        x.times(p).eqv(x),
        p.num > 0 ==> x.over(p).eqv(x),
{
    assert((x.num * p.num) * x.den == x.num * (x.den * p.den)) by (nonlinear_arith)
        requires
            p.num == p.den,
    ;
    assert((x.num * p.den) * x.den == x.num * (x.den * p.num)) by (nonlinear_arith)
        requires
            p.num == p.den,
    ;
}

/// The factor `u / u` is one, and products and quotients of ones are one.
pub proof fn lemma_ones(u: Frac, p: Frac, q: Frac)
    ensures
        u.num > 0 ==> is_one(u.over(u)),
        is_one(p) && is_one(q) ==> is_one(p.times(q)),
        is_one(p) && is_one(q) && q.num > 0 ==> is_one(p.over(q)),
{
    assert(u.num * u.den == u.den * u.num) by (nonlinear_arith);
    assert(is_one(p) && is_one(q) ==> p.num * q.num == p.den * q.den) by (nonlinear_arith);
    assert(is_one(p) && is_one(q) ==> p.num * q.den == p.den * q.num) by (nonlinear_arith);
}

/// Lowest terms of an inverse pair are an inverse pair.
pub proof fn lemma_inverse_reduced(p: Frac, q: Frac)
    requires
        inverse_pair(p, q),
        p.den > 0,
        q.den > 0,
    ensures
        inverse_pair(p.reduced(), q.reduced()),
{
    lemma_reduced(p);
    lemma_reduced(q);
    let (p2, q2) = (p.reduced(), q.reduced());
    assert((p2.num * q2.num) * (p.den * q.den) == (p2.num * p.den) * (q2.num * q.den))
        by (nonlinear_arith);
    assert((p.num * p2.den) * (q.num * q2.den) == (p.num * q.num) * (p2.den * q2.den))
        by (nonlinear_arith);
    assert((p.den * q.den) * (p2.den * q2.den) == (p2.den * q2.den) * (p.den * q.den))
        by (nonlinear_arith);
    assert(p.den * q.den > 0) by (nonlinear_arith)
        requires
            p.den > 0,
            q.den > 0,
    ;
    assert(p2.num * q2.num == p2.den * q2.den) by (nonlinear_arith)
        requires
            (p2.num * q2.num) * (p.den * q.den) == (p2.den * q2.den) * (p.den * q.den),
            p.den * q.den > 0,
    ;
}

/// One step of a computation in lowest terms: where `a` has the value of
/// `a2`, the reduced result of an operation on `a` has the value of the same
/// operation on `a2`.
pub proof fn lemma_step(a: Frac, a2: Frac, b: Frac)
    requires
        a.eqv(a2),
        a.den > 0,
        a2.den > 0,
        b.den > 0,
    ensures
        a.plus(b).reduced().eqv(a2.plus(b)),
        a.minus(b).reduced().eqv(a2.minus(b)),
        a.times(b).reduced().eqv(a2.times(b)),
        b.num != 0 ==> a.over(b).reduced().eqv(a2.over(b)),
        a.plus(b).reduced().den > 0,
        a.minus(b).reduced().den > 0,
        a.times(b).reduced().den > 0,
        b.num != 0 ==> a.over(b).reduced().den > 0,
        a2.plus(b).den > 0,
        a2.minus(b).den > 0,
        a2.times(b).den > 0,
        b.num != 0 ==> a2.over(b).den > 0,
{
    lemma_dens(a, b);
    lemma_dens(a2, b);
    lemma_congruent(a, a2, b);
    lemma_reduced(a.plus(b));
    lemma_reduced(a.minus(b));
    lemma_reduced(a.times(b));
    lemma_eqv_trans(a.plus(b).reduced(), a.plus(b), a2.plus(b));
    lemma_eqv_trans(a.minus(b).reduced(), a.minus(b), a2.minus(b));
    lemma_eqv_trans(a.times(b).reduced(), a.times(b), a2.times(b));
    if b.num != 0 {
        lemma_reduced(a.over(b));
        lemma_eqv_trans(a.over(b).reduced(), a.over(b), a2.over(b));
    }
}

/// Scaling by a factor of value one, in lowest terms, keeps the value.
pub proof fn lemma_scaled_by_one(x: Frac, f: Frac)
    requires
        is_one(f),
        x.den > 0,
        f.den > 0,
    ensures
        x.times(f).reduced().eqv(x),
        x.over(f).reduced().eqv(x),
{
    lemma_one(x, f);
    lemma_dens(x, f);
    lemma_reduced(x.times(f));
    lemma_reduced(x.over(f));
    lemma_eqv_trans(x.times(f).reduced(), x.times(f), x);
    lemma_eqv_trans(x.over(f).reduced(), x.over(f), x);
}

/// Scaling by both members of an inverse pair, in lowest terms each time,
/// gives back the same value; so does dividing by both, where they are
/// positive.
pub proof fn lemma_scaled_round_trip(x: Frac, f: Frac, g: Frac)
    requires
        inverse_pair(f, g),
        x.den > 0,
        f.den > 0,
        g.den > 0,
    ensures
        x.times(f).reduced().times(g).reduced().eqv(x),
        f.num > 0 && g.num > 0 ==> x.over(f).reduced().over(g).reduced().eqv(x),
{
    lemma_round_trip(x, f, g);
    lemma_dens(x, f);
    lemma_reduced(x.times(f));
    lemma_step(x.times(f).reduced(), x.times(f), g);
    lemma_dens(x.times(f), g);
    lemma_eqv_trans(x.times(f).reduced().times(g).reduced(), x.times(f).times(g), x);
    if f.num > 0 && g.num > 0 {
        lemma_reduced(x.over(f));
        lemma_step(x.over(f).reduced(), x.over(f), g);
        lemma_dens(x.over(f), g);
        lemma_eqv_trans(x.over(f).reduced().over(g).reduced(), x.over(f).over(g), x);
    }
}

impl PartialEq for Ratio {
    fn eq(&self, o: &Ratio) -> (r: bool) {
        self.same_value(o)
    }
}

impl vstd::std_specs::cmp::PartialEqSpecImpl for Ratio {
    open spec fn obeys_eq_spec() -> bool {
        true
    }

    open spec fn eq_spec(&self, o: &Ratio) -> bool {
        self@.eqv(o@)
    }
}

impl PartialOrd for Ratio {
    fn partial_cmp(&self, o: &Ratio) -> (r: Option<Ordering>) {
        proof {
            use_type_invariant(self);
            use_type_invariant(o);
            lemma_products_fit(self@, o@);
        }
        let x = self.num as i128 * o.den as i128;
        let y = o.num as i128 * self.den as i128;
        if x < y {
            Some(Ordering::Less)
        } else if x == y {
            Some(Ordering::Equal)
        } else {
            Some(Ordering::Greater)
        }
    }
}

impl vstd::std_specs::cmp::PartialOrdSpecImpl for Ratio {
    open spec fn obeys_partial_cmp_spec() -> bool {
        true
    }

    open spec fn partial_cmp_spec(&self, o: &Ratio) -> Option<Ordering> {
        Some(self@.compare(o@))
    }
}

} // verus!
