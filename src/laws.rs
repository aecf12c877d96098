//! Laws of conversion and of the dimensional operations.
//!
//! Each law is stated over the mathematical values that the operations'
//! contracts speak of: a `to` call yields the magnitude times (or, for
//! frequencies, over) the factor named in its contract, in lowest terms, and
//! `eqv` is equality of rational value. Magnitudes have positive
//! denominators, as every `Ratio` does.
use vstd::prelude::*;

use crate::length;
use crate::mass;
use crate::ratio::{
    is_one, lemma_dens, lemma_eqv_trans, lemma_inverse_compose, lemma_inverse_factors,
    lemma_inverse_reduced, lemma_one, lemma_ones, lemma_over_positive, lemma_plus_minus,
    lemma_reduced, lemma_scaled_by_one, lemma_scaled_round_trip, lemma_step, lemma_times_over,
    Frac,
};
use crate::speed;
use crate::temp;
use crate::time;

verus! {

/// The factor from a unit to itself is one, and so are its square and cube.
proof fn lemma_length_self_factors<U: length::Unit>()
    ensures
        is_one(length::factor_to::<U, U>()),
        is_one(length::area_factor_to::<U, U>()),
        is_one(length::volume_factor_to::<U, U>()),
        length::factor_to::<U, U>().den > 0,
        length::area_factor_to::<U, U>().den > 0,
        length::volume_factor_to::<U, U>().den > 0,
        length::factor_to::<U, U>().num > 0,
{
    U::lemma_meters();
    let u = U::meters();
    let f = length::factor_to::<U, U>();
    lemma_ones(u, f, f);
    lemma_over_positive(u, u);
    lemma_reduced(u.over(u));
    lemma_ones(u, f.times(f), f);
    lemma_dens(f, f);
    lemma_reduced(f.times(f));
    let a = length::area_factor_to::<U, U>();
    lemma_ones(u, a, f);
    lemma_dens(a, f);
    lemma_reduced(a.times(f));
}

/// The factors between two units of length, both ways, are inverse pairs,
/// and so are their squares and cubes.
proof fn lemma_length_factors<U: length::Unit, T: length::Unit>()
    ensures
        length::factor_to::<U, T>().num > 0,
        length::factor_to::<U, T>().den > 0,
        length::area_factor_to::<U, T>().den > 0,
        length::volume_factor_to::<U, T>().den > 0,
        crate::ratio::inverse_pair(length::factor_to::<U, T>(), length::factor_to::<T, U>()),
        crate::ratio::inverse_pair(
            length::area_factor_to::<U, T>(),
            length::area_factor_to::<T, U>(),
        ),
        crate::ratio::inverse_pair(
            length::volume_factor_to::<U, T>(),
            length::volume_factor_to::<T, U>(),
        ),
{
    U::lemma_meters();
    T::lemma_meters();
    let (u, t) = (U::meters(), T::meters());
    lemma_over_positive(u, t);
    lemma_over_positive(t, u);
    lemma_reduced(u.over(t));
    lemma_reduced(t.over(u));
    lemma_inverse_factors(u, t);
    lemma_inverse_reduced(u.over(t), t.over(u));
    let (f, g) = (length::factor_to::<U, T>(), length::factor_to::<T, U>());
    lemma_inverse_compose(f, g, f, g);
    lemma_dens(f, f);
    lemma_dens(g, g);
    lemma_reduced(f.times(f));
    lemma_reduced(g.times(g));
    lemma_inverse_reduced(f.times(f), g.times(g));
    let (a, b) = (length::area_factor_to::<U, T>(), length::area_factor_to::<T, U>());
    lemma_inverse_compose(a, b, f, g);
    lemma_dens(a, f);
    lemma_dens(b, g);
    lemma_reduced(a.times(f));
    lemma_reduced(b.times(g));
    lemma_inverse_reduced(a.times(f), b.times(g));
}

/// Converting a length, an area or a volume to its own unit keeps its value.
pub proof fn law_length_to_self<U: length::Unit>(x: Frac)
    requires
        x.den > 0,
    ensures
        x.times(length::factor_to::<U, U>()).reduced().eqv(x),
        x.times(length::area_factor_to::<U, U>()).reduced().eqv(x),
        x.times(length::volume_factor_to::<U, U>()).reduced().eqv(x),
{
    lemma_length_self_factors::<U>();
    lemma_scaled_by_one(x, length::factor_to::<U, U>());
    lemma_scaled_by_one(x, length::area_factor_to::<U, U>());
    lemma_scaled_by_one(x, length::volume_factor_to::<U, U>());
}

/// Converting a length, an area or a volume to another unit and back gives
/// back its value.
pub proof fn law_length_round_trip<U: length::Unit, T: length::Unit>(x: Frac)
    requires
        x.den > 0,
    ensures
        x.times(length::factor_to::<U, T>()).reduced().times(
            length::factor_to::<T, U>(),
        ).reduced().eqv(x),
        x.times(length::area_factor_to::<U, T>()).reduced().times(
            length::area_factor_to::<T, U>(),
        ).reduced().eqv(x),
        x.times(length::volume_factor_to::<U, T>()).reduced().times(
            length::volume_factor_to::<T, U>(),
        ).reduced().eqv(x),
{
    lemma_length_factors::<U, T>();
    lemma_length_factors::<T, U>();
    lemma_scaled_round_trip(x, length::factor_to::<U, T>(), length::factor_to::<T, U>());
    lemma_scaled_round_trip(
        x,
        length::area_factor_to::<U, T>(),
        length::area_factor_to::<T, U>(),
    );
    lemma_scaled_round_trip(
        x,
        length::volume_factor_to::<U, T>(),
        length::volume_factor_to::<T, U>(),
    );
}

/// Converting a mass to its own unit keeps its value.
pub proof fn law_mass_to_self<U: mass::Unit>(x: Frac)
    requires
        x.den > 0,
    ensures
        x.times(mass::factor_to::<U, U>()).reduced().eqv(x),
{
    U::lemma_grams();
    let u = U::grams();
    lemma_ones(u, u, u);
    lemma_over_positive(u, u);
    lemma_reduced(u.over(u));
    lemma_scaled_by_one(x, mass::factor_to::<U, U>());
}

/// Converting a mass to another unit and back gives back its value.
pub proof fn law_mass_round_trip<U: mass::Unit, T: mass::Unit>(x: Frac)
    requires
        x.den > 0,
    ensures
        x.times(mass::factor_to::<U, T>()).reduced().times(
            mass::factor_to::<T, U>(),
        ).reduced().eqv(x),
{
    U::lemma_grams();
    T::lemma_grams();
    let (u, t) = (U::grams(), T::grams());
    lemma_over_positive(u, t);
    lemma_over_positive(t, u);
    lemma_reduced(u.over(t));
    lemma_reduced(t.over(u));
    lemma_inverse_factors(u, t);
    lemma_inverse_reduced(u.over(t), t.over(u));
    lemma_scaled_round_trip(x, mass::factor_to::<U, T>(), mass::factor_to::<T, U>());
}

/// Converting a period or a frequency to its own unit keeps its value.
pub proof fn law_time_to_self<U: time::Unit>(x: Frac)
    requires
        x.den > 0,
    ensures
        x.times(time::factor_to::<U, U>()).reduced().eqv(x),
        x.over(time::factor_to::<U, U>()).reduced().eqv(x),
{
    U::lemma_seconds();
    let u = U::seconds();
    lemma_ones(u, u, u);
    lemma_over_positive(u, u);
    lemma_reduced(u.over(u));
    lemma_scaled_by_one(x, time::factor_to::<U, U>());
}

/// The factors between two units of time, both ways, are a positive
/// inverse pair.
proof fn lemma_time_factors<U: time::Unit, T: time::Unit>()
    ensures
        time::factor_to::<U, T>().num > 0,
        time::factor_to::<U, T>().den > 0,
        time::factor_to::<T, U>().num > 0,
        time::factor_to::<T, U>().den > 0,
        crate::ratio::inverse_pair(time::factor_to::<U, T>(), time::factor_to::<T, U>()),
{
    U::lemma_seconds();
    T::lemma_seconds();
    let (u, t) = (U::seconds(), T::seconds());
    lemma_over_positive(u, t);
    lemma_over_positive(t, u);
    lemma_reduced(u.over(t));
    lemma_reduced(t.over(u));
    lemma_inverse_factors(u, t);
    lemma_inverse_reduced(u.over(t), t.over(u));
}

/// Converting a period or a frequency to another unit and back gives back its
/// value.
pub proof fn law_time_round_trip<U: time::Unit, T: time::Unit>(x: Frac)
    requires
        x.den > 0,
    ensures
        x.times(time::factor_to::<U, T>()).reduced().times(
            time::factor_to::<T, U>(),
        ).reduced().eqv(x),
        x.over(time::factor_to::<U, T>()).reduced().over(
            time::factor_to::<T, U>(),
        ).reduced().eqv(x),
{
    lemma_time_factors::<U, T>();
    lemma_scaled_round_trip(x, time::factor_to::<U, T>(), time::factor_to::<T, U>());
}

/// Converting a speed to its own units keeps its value.
pub proof fn law_speed_to_self<L: length::Unit, P: time::Unit>(x: Frac)
    requires
        x.den > 0,
    ensures
        x.times(speed::factor_to::<L, P, L, P>()).reduced().eqv(x),
{
    lemma_length_self_factors::<L>();
    P::lemma_seconds();
    let p = P::seconds();
    lemma_ones(p, p, p);
    lemma_over_positive(p, p);
    lemma_reduced(p.over(p));
    let (lf, tf) = (length::factor_to::<L, L>(), time::factor_to::<P, P>());
    lemma_ones(p, lf, tf);
    lemma_dens(lf, tf);
    lemma_reduced(lf.over(tf));
    lemma_scaled_by_one(x, speed::factor_to::<L, P, L, P>());
}

/// Converting a speed to other units and back gives back its value.
pub proof fn law_speed_round_trip<L: length::Unit, P: time::Unit, N: length::Unit, R: time::Unit>(
    x: Frac,
)
    requires
        x.den > 0,
    ensures
        x.times(speed::factor_to::<L, P, N, R>()).reduced().times(
            speed::factor_to::<N, R, L, P>(),
        ).reduced().eqv(x),
{
    lemma_length_factors::<L, N>();
    lemma_length_factors::<N, L>();
    lemma_time_factors::<P, R>();
    let (lf, lg) = (length::factor_to::<L, N>(), length::factor_to::<N, L>());
    let (tf, tg) = (time::factor_to::<P, R>(), time::factor_to::<R, P>());
    lemma_inverse_compose(lf, lg, tf, tg);
    lemma_dens(lf, tf);
    lemma_dens(lg, tg);
    lemma_inverse_reduced(lf.over(tf), lg.over(tg));
    lemma_reduced(lf.over(tf));
    lemma_reduced(lg.over(tg));
    lemma_scaled_round_trip(
        x,
        speed::factor_to::<L, P, N, R>(),
        speed::factor_to::<N, R, L, P>(),
    );
}

/// Converting a temperature to its own unit keeps its value.
pub proof fn law_temperature_to_self<U: temp::Unit>(x: Frac)
    requires
        x.den > 0,
    ensures
        temp::convert::<U, U>(x).eqv(x),
{
    U::lemma_kelvins();
    let (z, k) = (U::zero(), U::kelvins());
    let s = temp::steps::<U, U>(x);
    let m = x.minus(z);
    lemma_step(x, x, z);
    lemma_step(s.0, m, k);
    lemma_step(s.1, m.times(k), k);
    lemma_times_over(m, k);
    lemma_eqv_trans(s.2, m.times(k).over(k), m);
    lemma_step(s.2, m, z);
    lemma_plus_minus(x, z);
    lemma_eqv_trans(s.3, m.plus(z), x);
}

/// Converting a temperature to another unit and back gives back its value.
pub proof fn law_temperature_round_trip<U: temp::Unit, T: temp::Unit>(x: Frac)
    requires
        x.den > 0,
    ensures
        temp::convert::<T, U>(temp::convert::<U, T>(x)).eqv(x),
{
    U::lemma_kelvins();
    T::lemma_kelvins();
    let (zu, ku, zt, kt) = (U::zero(), U::kelvins(), T::zero(), T::kelvins());
    let s = temp::steps::<U, T>(x);
    let m = x.minus(zu);
    let mk = m.times(ku);
    let w = mk.over(kt);
    lemma_step(x, x, zu);
    lemma_step(s.0, m, ku);
    lemma_step(s.1, mk, kt);
    lemma_step(s.2, w, zt);
    let t = temp::steps::<T, U>(s.3);
    // back above absolute zero of T: w again
    lemma_step(s.3, w.plus(zt), zt);
    lemma_plus_minus(w, zt);
    lemma_eqv_trans(t.0, w.plus(zt).minus(zt), w);
    // in kelvins: m times ku again
    lemma_step(t.0, w, kt);
    lemma_times_over(mk, kt);
    lemma_eqv_trans(t.1, w.times(kt), mk);
    // in degrees of U above its zero: m again
    lemma_step(t.1, mk, ku);
    lemma_times_over(m, ku);
    lemma_eqv_trans(t.2, mk.over(ku), m);
    // on the scale of U: x again
    lemma_step(t.2, m, zu);
    lemma_plus_minus(x, zu);
    lemma_eqv_trans(t.3, m.plus(zu), x);
}

/// Dividing a product by its nonzero second factor gives back the first: an
/// area over one side is the other side, a volume over its height (or over
/// its base) is its base (or its height).
pub proof fn law_product_over_factor(x: Frac, y: Frac)
    requires
        x.den > 0,
        y.den > 0,
        y.num != 0,
    ensures
        x.times(y).reduced().over(y).reduced().eqv(x),
{
    lemma_times_over(x, y);
    lemma_dens(x, y);
    lemma_reduced(x.times(y));
    lemma_step(x.times(y).reduced(), x.times(y), y);
    lemma_dens(x.times(y), y);
    lemma_eqv_trans(x.times(y).reduced().over(y).reduced(), x.times(y).over(y), x);
}

} // verus!
