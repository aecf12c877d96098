//! Speed: a unit of length per unit of time.
use vstd::prelude::*;

use core::cmp::Ordering;
use core::marker::PhantomData;

use crate::length;
use crate::ratio::{Frac, Ratio};
use crate::text::{aligned, decimal, labelled, precision_ok, MAX_DIGITS};
use crate::time;

verus! {

/// A speed, in length unit `L` per time unit `P`.
///
/// Both units are part of the type: two speeds combine only where both
/// match.
#[derive(Copy, Debug)]
pub struct Speed<L: length::Unit, P: time::Unit> {
    /// Number of `L` per `P`.
    pub quantity: Ratio,
    /// The unit of length, carried by the type alone.
    pub length: PhantomData<L>,
    /// The unit of time, carried by the type alone.
    pub period: PhantomData<P>,
}

impl<L: length::Unit, P: time::Unit> Speed<L, P> {
    /// The speed whose magnitude is `quantity`.
    pub fn new(quantity: Ratio) -> (r: Self)
        ensures
            r.quantity == quantity,
    {
        Speed { quantity, length: PhantomData, period: PhantomData }
    }

    /// Sum of two speeds in the same unit.
    pub fn add(self, other: Self) -> (r: Self)
        requires
            self.quantity@.plus(other.quantity@).reduced().fits(),
        ensures
            r.quantity@ == self.quantity@.plus(other.quantity@).reduced(),
    {
        Self::new(self.quantity.plus(other.quantity))
    }

    /// Difference of two speeds in the same unit; it may be negative.
    pub fn sub(self, other: Self) -> (r: Self)
        requires
            self.quantity@.minus(other.quantity@).reduced().fits(),
        ensures
            r.quantity@ == self.quantity@.minus(other.quantity@).reduced(),
    {
        Self::new(self.quantity.minus(other.quantity))
    }

    /// The speed scaled by `scalar`.
    pub fn mul_scalar(self, scalar: Ratio) -> (r: Self)
        requires
            self.quantity@.times(scalar@).reduced().fits(),
        ensures
            r.quantity@ == self.quantity@.times(scalar@).reduced(),
    {
        Self::new(self.quantity.times(scalar))
    }

    /// The speed divided by a nonzero `scalar`.
    pub fn div_scalar(self, scalar: Ratio) -> (r: Self)
        requires
            scalar@.num != 0,
            self.quantity@.over(scalar@).reduced().fits(),
        ensures
            r.quantity@ == self.quantity@.over(scalar@).reduced(),
    {
        Self::new(self.quantity.over(scalar))
    }

    /// The magnitude to `DEFAULT_DIGITS` fractional digits, trailing zeros
    /// dropped, then a space and the unit.
    pub fn to_string(&self) -> (r: String)
        ensures
            r@ == decimal(self.quantity@, None) + seq![' '] + L::abbrev() + "/"@ + P::abbrev(),
    {
        labelled(self.quantity, None, 0, L::label(), "/", P::label())
    }

    /// The magnitude rounded to `precision` fractional digits, a space and
    /// the unit.
    pub fn to_string_prec(&self, precision: u32) -> (r: String)
        requires
            precision <= MAX_DIGITS,
        ensures
            r@ == decimal(self.quantity@, Some(precision)) + seq![' '] + L::abbrev() + "/"@ + P::abbrev(),
    {
        labelled(self.quantity, Some(precision), 0, L::label(), "/", P::label())
    }

    /// The magnitude, rounded to `precision` fractional digits where one is
    /// given (else as `to_string` has it) and right-aligned in `width`
    /// characters, then a space and the unit.
    pub fn to_string_with(&self, precision: Option<u32>, width: usize) -> (r: String)
        requires
            precision_ok(precision),
        ensures
            r@ == aligned(decimal(self.quantity@, precision), width as nat) + seq![' ']
                + L::abbrev() + "/"@ + P::abbrev(),
    {
        labelled(self.quantity, precision, width, L::label(), "/", P::label())
    }
}

impl<L: length::Unit, P: time::Unit> Clone for Speed<L, P> {
    fn clone(&self) -> (r: Self) {
        Self::new(self.quantity)
    }
}

impl<L: length::Unit, P: time::Unit> PartialEq for Speed<L, P> {
    fn eq(&self, other: &Self) -> (r: bool) {
        self.quantity.same_value(&other.quantity)
    }
}

impl<L: length::Unit, P: time::Unit> vstd::std_specs::cmp::PartialEqSpecImpl for Speed<L, P> {
    open spec fn obeys_eq_spec() -> bool {
        true
    }

    open spec fn eq_spec(&self, other: &Self) -> bool {
        self.quantity@.eqv(other.quantity@)
    }
}

impl<L: length::Unit, P: time::Unit> PartialOrd for Speed<L, P> {
    fn partial_cmp(&self, other: &Self) -> (r: Option<Ordering>) {
        self.quantity.partial_cmp(&other.quantity)
    }
}

impl<L: length::Unit, P: time::Unit> vstd::std_specs::cmp::PartialOrdSpecImpl for Speed<L, P> {
    open spec fn obeys_partial_cmp_spec() -> bool {
        true
    }

    open spec fn partial_cmp_spec(&self, other: &Self) -> Option<Ordering> {
        Some(self.quantity@.compare(other.quantity@))
    }
}

/// The speed of a body, by its other name.
pub type Velocity<L, P> = Speed<L, P>;

/// What a speed in `L` per `P` is multiplied by to give one in `N` per `R`:
/// the factor for lengths over the factor for periods, in lowest terms.
pub open spec fn factor_to<L: length::Unit, P: time::Unit, N: length::Unit, R: time::Unit>() -> Frac {
    length::factor_to::<L, N>().over(time::factor_to::<P, R>()).reduced()
}

impl<L: length::Unit, P: time::Unit> Speed<L, P> {
    /// The same speed in `N` per `R`.
    pub fn to<N: length::Unit, R: time::Unit>(self) -> (r: Speed<N, R>)
        requires
            length::factor_to::<L, N>().fits(),
            time::factor_to::<P, R>().fits(),
            factor_to::<L, P, N, R>().fits(),
            self.quantity@.times(factor_to::<L, P, N, R>()).reduced().fits(),
        ensures
            r.quantity@ == self.quantity@.times(factor_to::<L, P, N, R>()).reduced(),
    {
        proof {
            time::lemma_factor_positive::<P, R>();
        }
        let f = length::factor::<L, N>().over(time::factor::<P, R>());
        Speed::new(self.quantity.times(f))
    }
}

} // verus!
