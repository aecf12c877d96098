//! Thermodynamic temperature.
//!
//! A unit of temperature has a scale, the kelvins in one degree, and a zero
//! point, the value of absolute zero on the unit's own scale. Conversion
//! between two units is affine: subtract the source zero, rescale, add the
//! target zero.
use vstd::prelude::*;

use core::cmp::Ordering;
use core::marker::PhantomData;

use crate::ratio::{Frac, Ratio};
use crate::text::{aligned, decimal, labelled, precision_ok, MAX_DIGITS};

verus! {

/// A unit of temperature.
///
/// A caller's own marker type becomes a unit like the ones below, usable with
/// every operation of this module, by implementing this trait in verified
/// code (scale and zero are stated as spec functions as well). The scale may
/// be negative, as in the Delisle scale, but not zero.
pub trait Unit: Sized {
    /// Kelvins in one degree.
    spec fn kelvins() -> Frac;

    /// Absolute zero on this unit's own scale.
    spec fn zero() -> Frac;

    /// The unit's abbreviation.
    spec fn abbrev() -> Seq<char>;

    /// Scale and zero point fit in a `Ratio`, and the scale is not zero.
    proof fn lemma_kelvins()
        ensures
            Self::kelvins().fits(),
            Self::kelvins().num != 0,
            Self::zero().fits(),
    ;

    /// Kelvins in one degree.
    fn factor() -> (r: Ratio)
        ensures
            r@ == Self::kelvins(),
    ;

    /// Absolute zero on this unit's own scale.
    fn zero_point() -> (r: Ratio)
        ensures
            r@ == Self::zero(),
    ;

    /// The unit's abbreviation.
    fn label() -> (r: &'static str)
        ensures
            r@ == Self::abbrev(),
    ;
}

/// The steps of converting `v` from unit `U` to unit `T`: above absolute zero
/// in `U`, in kelvins, in degrees of `T`, and on the scale of `T`, each in
/// lowest terms.
pub open spec fn steps<U: Unit, T: Unit>(v: Frac) -> (Frac, Frac, Frac, Frac) {
    let above = v.minus(U::zero()).reduced();
    let k = above.times(U::kelvins()).reduced();
    let degrees = k.over(T::kelvins()).reduced();
    (above, k, degrees, degrees.plus(T::zero()).reduced())
}

/// `v` degrees of `U` expressed in degrees of `T`.
pub open spec fn convert<U: Unit, T: Unit>(v: Frac) -> Frac {
    steps::<U, T>(v).3
}

/// Every step of the conversion of `v` fits in a `Ratio`.
pub open spec fn convert_fits<U: Unit, T: Unit>(v: Frac) -> bool {
    let s = steps::<U, T>(v);
    &&& s.0.fits()
    &&& s.1.fits()
    &&& s.2.fits()
    &&& s.3.fits()
}

/// A thermodynamic temperature.
#[derive(Copy, Debug)]
pub struct Temperature<U: Unit> {
    /// Number of degrees.
    pub quantity: Ratio,
    /// The unit, carried by the type alone.
    pub unit: PhantomData<U>,
}

impl<U: Unit> Temperature<U> {
    /// The temperature whose magnitude is `quantity`.
    pub fn new(quantity: Ratio) -> (r: Self)
        ensures
            r.quantity == quantity,
    {
        Temperature { quantity, unit: PhantomData }
    }

    /// Sum of two temperatures in the same unit.
    pub fn add(self, other: Self) -> (r: Self)
        requires
            self.quantity@.plus(other.quantity@).reduced().fits(),
        ensures
            r.quantity@ == self.quantity@.plus(other.quantity@).reduced(),
    {
        Self::new(self.quantity.plus(other.quantity))
    }

    /// Difference of two temperatures in the same unit; it may be negative.
    pub fn sub(self, other: Self) -> (r: Self)
        requires
            self.quantity@.minus(other.quantity@).reduced().fits(),
        ensures
            r.quantity@ == self.quantity@.minus(other.quantity@).reduced(),
    {
        Self::new(self.quantity.minus(other.quantity))
    }

    /// The magnitude to `DEFAULT_DIGITS` fractional digits, trailing zeros
    /// dropped, then a space and the unit.
    pub fn to_string(&self) -> (r: String)
        ensures
            r@ == decimal(self.quantity@, None) + seq![' '] + U::abbrev(),
    {
        proof {
            reveal_strlit("");
        }
        labelled(self.quantity, None, 0, U::label(), "", "")
    }

    /// The magnitude rounded to `precision` fractional digits, a space and
    /// the unit.
    pub fn to_string_prec(&self, precision: u32) -> (r: String)
        requires
            precision <= MAX_DIGITS,
        ensures
            r@ == decimal(self.quantity@, Some(precision)) + seq![' '] + U::abbrev(),
    {
        proof {
            reveal_strlit("");
        }
        labelled(self.quantity, Some(precision), 0, U::label(), "", "")
    }

    /// The magnitude, rounded to `precision` fractional digits where one is
    /// given (else as `to_string` has it) and right-aligned in `width`
    /// characters, then a space and the unit.
    pub fn to_string_with(&self, precision: Option<u32>, width: usize) -> (r: String)
        requires
            precision_ok(precision),
        ensures
            r@ == aligned(decimal(self.quantity@, precision), width as nat) + seq![' ']
                + U::abbrev(),
    {
        proof {
            reveal_strlit("");
        }
        labelled(self.quantity, precision, width, U::label(), "", "")
    }
}

impl<U: Unit> Clone for Temperature<U> {
    fn clone(&self) -> (r: Self) {
        Self::new(self.quantity)
    }
}

impl<U: Unit> PartialEq for Temperature<U> {
    fn eq(&self, other: &Self) -> (r: bool) {
        self.quantity.same_value(&other.quantity)
    }
}

impl<U: Unit> vstd::std_specs::cmp::PartialEqSpecImpl for Temperature<U> {
    open spec fn obeys_eq_spec() -> bool {
        true
    }

    open spec fn eq_spec(&self, other: &Self) -> bool {
        self.quantity@.eqv(other.quantity@)
    }
}

impl<U: Unit> PartialOrd for Temperature<U> {
    fn partial_cmp(&self, other: &Self) -> (r: Option<Ordering>) {
        self.quantity.partial_cmp(&other.quantity)
    }
}

impl<U: Unit> vstd::std_specs::cmp::PartialOrdSpecImpl for Temperature<U> {
    open spec fn obeys_partial_cmp_spec() -> bool {
        true
    }

    open spec fn partial_cmp_spec(&self, other: &Self) -> Option<Ordering> {
        Some(self.quantity@.compare(other.quantity@))
    }
}

impl<U: Unit> Temperature<U> {
    /// The same temperature in unit `T`.
    pub fn to<T: Unit>(self) -> (r: Temperature<T>)
        requires
            convert_fits::<U, T>(self.quantity@),
        ensures
            r.quantity@ == convert::<U, T>(self.quantity@),
    {
        proof {
            T::lemma_kelvins();
        }
        let above = self.quantity.minus(U::zero_point());
        let k = above.times(U::factor());
        let degrees = k.over(T::factor());
        Temperature::new(degrees.plus(T::zero_point()))
    }
}

/// Degrees Celsius / centigrade.
#[derive(Clone, Copy, Debug, PartialEq, Eq)]
pub struct DegC;

impl Unit for DegC {
    open spec fn kelvins() -> Frac {
        Frac { num: 1, den: 1 }
    }

    open spec fn zero() -> Frac {
        Frac { num: -27315, den: 100 }
    }

    open spec fn abbrev() -> Seq<char> {
        "°C"@
    }

    proof fn lemma_kelvins() {
    }

    fn factor() -> (r: Ratio) {
        Ratio::new(1, 1)
    }

    fn zero_point() -> (r: Ratio) {
        Ratio::new(-27315, 100)
    }

    fn label() -> (r: &'static str) {
        "°C"
    }
}

/// Kelvin.
#[derive(Clone, Copy, Debug, PartialEq, Eq)]
pub struct DegK;

impl Unit for DegK {
    open spec fn kelvins() -> Frac {
        Frac { num: 1, den: 1 }
    }

    open spec fn zero() -> Frac {
        Frac { num: 0, den: 1 }
    }

    open spec fn abbrev() -> Seq<char> {
        "°K"@
    }

    proof fn lemma_kelvins() {
    }

    fn factor() -> (r: Ratio) {
        Ratio::new(1, 1)
    }

    fn zero_point() -> (r: Ratio) {
        Ratio::new(0, 1)
    }

    fn label() -> (r: &'static str) {
        "°K"
    }
}

/// Degrees Fahrenheit.
#[derive(Clone, Copy, Debug, PartialEq, Eq)]
pub struct DegF;

impl Unit for DegF {
    open spec fn kelvins() -> Frac {
        Frac { num: 5, den: 9 }
    }

    open spec fn zero() -> Frac {
        Frac { num: -45967, den: 100 }
    }

    open spec fn abbrev() -> Seq<char> {
        "°F"@
    }

    proof fn lemma_kelvins() {
    }

    fn factor() -> (r: Ratio) {
        Ratio::new(5, 9)
    }

    fn zero_point() -> (r: Ratio) {
        Ratio::new(-45967, 100)
    }

    fn label() -> (r: &'static str) {
        "°F"
    }
}

/// Degrees Rankine.
#[derive(Clone, Copy, Debug, PartialEq, Eq)]
pub struct DegR;

impl Unit for DegR {
    open spec fn kelvins() -> Frac {
        Frac { num: 5, den: 9 }
    }

    open spec fn zero() -> Frac {
        Frac { num: 0, den: 1 }
    }

    open spec fn abbrev() -> Seq<char> {
        "°R"@
    }

    proof fn lemma_kelvins() {
    }

    fn factor() -> (r: Ratio) {
        Ratio::new(5, 9)
    }

    fn zero_point() -> (r: Ratio) {
        Ratio::new(0, 1)
    }

    fn label() -> (r: &'static str) {
        "°R"
    }
}

/// Degrees Réaumur.
#[derive(Clone, Copy, Debug, PartialEq, Eq)]
pub struct DegRe;

impl Unit for DegRe {
    open spec fn kelvins() -> Frac {
        Frac { num: 8, den: 10 }
    }

    open spec fn zero() -> Frac {
        Frac { num: -27315, den: 100 }
    }

    open spec fn abbrev() -> Seq<char> {
        "°Ré"@
    }

    proof fn lemma_kelvins() {
    }

    fn factor() -> (r: Ratio) {
        Ratio::new(8, 10)
    }

    fn zero_point() -> (r: Ratio) {
        Ratio::new(-27315, 100)
    }

    fn label() -> (r: &'static str) {
        "°Ré"
    }
}

/// Degrees Delisle, a scale that falls as it warms.
#[derive(Clone, Copy, Debug, PartialEq, Eq)]
pub struct Delisle;

impl Unit for Delisle {
    open spec fn kelvins() -> Frac {
        Frac { num: -2, den: 3 }
    }

    open spec fn zero() -> Frac {
        Frac { num: 55973, den: 100 }
    }

    open spec fn abbrev() -> Seq<char> {
        "°D"@
    }

    proof fn lemma_kelvins() {
    }

    fn factor() -> (r: Ratio) {
        Ratio::new(-2, 3)
    }

    fn zero_point() -> (r: Ratio) {
        Ratio::new(55973, 100)
    }

    fn label() -> (r: &'static str) {
        "°D"
    }
}

} // verus!
