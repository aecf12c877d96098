//! Length, and the area and volume derived from it.
//!
//! Each unit of length is a marker type that knows how many meters it holds.
//! A `Length<U>` multiplied by a `Length<U>` is an `Area<U>`, an `Area<U>` by
//! a `Length<U>` a `Volume<U>`; only quantities of the very same unit combine.
use vstd::prelude::*;

use core::cmp::Ordering;
use core::marker::PhantomData;

use crate::ratio::{Frac, Ratio};
use crate::speed::Speed;
use crate::text::{aligned, decimal, labelled, precision_ok, MAX_DIGITS};
use crate::time::{self, Frequency, Period};

verus! {

/// A unit of length.
///
/// A caller's own marker type becomes a unit like the ones below, usable with
/// every operation of this module, by implementing this trait in verified
/// code (the factor is stated as a spec function as well).
pub trait Unit: Sized {
    /// Meters in one unit.
    spec fn meters() -> Frac;

    /// The unit's abbreviation.
    spec fn abbrev() -> Seq<char>;

    /// One unit is a positive length that fits in a `Ratio`.
    proof fn lemma_meters()
        ensures
            Self::meters().fits(),
            Self::meters().num > 0,
    ;

    /// Meters in one unit.
    fn factor() -> (r: Ratio)
        ensures
            r@ == Self::meters(),
    ;

    /// The unit's abbreviation.
    fn label() -> (r: &'static str)
        ensures
            r@ == Self::abbrev(),
    ;
}

/// What a magnitude in unit `U` is multiplied by to give one in unit `T`,
/// in lowest terms.
pub open spec fn factor_to<U: Unit, T: Unit>() -> Frac {
    U::meters().over(T::meters()).reduced()
}

/// Computes `factor_to::<U, T>()`.
pub fn factor<U: Unit, T: Unit>() -> (r: Ratio)
    requires
        factor_to::<U, T>().fits(),
    ensures
        r@ == factor_to::<U, T>(),
{
    proof {
        T::lemma_meters();
    }
    U::factor().over(T::factor())
}

/// One dimensional length, distance or range.
#[derive(Copy, Debug)]
pub struct Length<U: Unit> {
    /// Number of units.
    pub quantity: Ratio,
    /// The unit, carried by the type alone.
    pub unit: PhantomData<U>,
}

/// Two dimensional area, in a unit of length squared.
#[derive(Copy, Debug)]
pub struct Area<U: Unit> {
    /// Number of square units.
    pub quantity: Ratio,
    /// The unit, carried by the type alone.
    pub unit: PhantomData<U>,
}

/// Three dimensional volume, in a unit of length cubed.
#[derive(Copy, Debug)]
pub struct Volume<U: Unit> {
    /// Number of cubic units.
    pub quantity: Ratio,
    /// The unit, carried by the type alone.
    pub unit: PhantomData<U>,
}

impl<U: Unit> Length<U> {
    /// The length whose magnitude is `quantity`.
    pub fn new(quantity: Ratio) -> (r: Self)
        ensures
            r.quantity == quantity,
    {
        Length { quantity, unit: PhantomData }
    }

    /// Sum of two lengths in the same unit.
    pub fn add(self, other: Self) -> (r: Self)
        requires
            self.quantity@.plus(other.quantity@).reduced().fits(),
        ensures
            r.quantity@ == self.quantity@.plus(other.quantity@).reduced(),
    {
        Self::new(self.quantity.plus(other.quantity))
    }

    /// Difference of two lengths in the same unit; it may be negative.
    pub fn sub(self, other: Self) -> (r: Self)
        requires
            self.quantity@.minus(other.quantity@).reduced().fits(),
        ensures
            r.quantity@ == self.quantity@.minus(other.quantity@).reduced(),
    {
        Self::new(self.quantity.minus(other.quantity))
    }

    /// The length scaled by `scalar`.
    pub fn mul_scalar(self, scalar: Ratio) -> (r: Self)
        requires
            self.quantity@.times(scalar@).reduced().fits(),
        ensures
            r.quantity@ == self.quantity@.times(scalar@).reduced(),
    {
        Self::new(self.quantity.times(scalar))
    }

    /// The length divided by a nonzero `scalar`.
    pub fn div_scalar(self, scalar: Ratio) -> (r: Self)
        requires
            scalar@.num != 0,
            self.quantity@.over(scalar@).reduced().fits(),
        ensures
            r.quantity@ == self.quantity@.over(scalar@).reduced(),
    {
        Self::new(self.quantity.over(scalar))
    }

    /// The magnitude to `DEFAULT_DIGITS` fractional digits, trailing zeros
    /// dropped, then a space and the unit.
    pub fn to_string(&self) -> (r: String)
        ensures
            r@ == decimal(self.quantity@, None) + seq![' '] + U::abbrev(),
    {
        proof {
            reveal_strlit("");
        }
        labelled(self.quantity, None, 0, U::label(), "", "")
    }

    /// The magnitude rounded to `precision` fractional digits, a space and
    /// the unit.
    pub fn to_string_prec(&self, precision: u32) -> (r: String)
        requires
            precision <= MAX_DIGITS,
        ensures
            r@ == decimal(self.quantity@, Some(precision)) + seq![' '] + U::abbrev(),
    {
        proof {
            reveal_strlit("");
        }
        labelled(self.quantity, Some(precision), 0, U::label(), "", "")
    }

    /// The magnitude, rounded to `precision` fractional digits where one is
    /// given (else as `to_string` has it) and right-aligned in `width`
    /// characters, then a space and the unit.
    pub fn to_string_with(&self, precision: Option<u32>, width: usize) -> (r: String)
        requires
            precision_ok(precision),
        ensures
            r@ == aligned(decimal(self.quantity@, precision), width as nat) + seq![' ']
                + U::abbrev(),
    {
        proof {
            reveal_strlit("");
        }
        labelled(self.quantity, precision, width, U::label(), "", "")
    }
}

impl<U: Unit> Clone for Length<U> {
    fn clone(&self) -> (r: Self) {
        Self::new(self.quantity)
    }
}

impl<U: Unit> PartialEq for Length<U> {
    fn eq(&self, other: &Self) -> (r: bool) {
        self.quantity.same_value(&other.quantity)
    }
}

impl<U: Unit> vstd::std_specs::cmp::PartialEqSpecImpl for Length<U> {
    open spec fn obeys_eq_spec() -> bool {
        true
    }

    open spec fn eq_spec(&self, other: &Self) -> bool {
        self.quantity@.eqv(other.quantity@)
    }
}

impl<U: Unit> PartialOrd for Length<U> {
    fn partial_cmp(&self, other: &Self) -> (r: Option<Ordering>) {
        self.quantity.partial_cmp(&other.quantity)
    }
}

impl<U: Unit> vstd::std_specs::cmp::PartialOrdSpecImpl for Length<U> {
    open spec fn obeys_partial_cmp_spec() -> bool {
        true
    }

    open spec fn partial_cmp_spec(&self, other: &Self) -> Option<Ordering> {
        Some(self.quantity@.compare(other.quantity@))
    }
}

impl<U: Unit> Area<U> {
    /// The area whose magnitude is `quantity`.
    pub fn new(quantity: Ratio) -> (r: Self)
        ensures
            r.quantity == quantity,
    {
        Area { quantity, unit: PhantomData }
    }

    /// Sum of two areas in the same unit.
    pub fn add(self, other: Self) -> (r: Self)
        requires
            self.quantity@.plus(other.quantity@).reduced().fits(),
        ensures
            r.quantity@ == self.quantity@.plus(other.quantity@).reduced(),
    {
        Self::new(self.quantity.plus(other.quantity))
    }

    /// Difference of two areas in the same unit; it may be negative.
    pub fn sub(self, other: Self) -> (r: Self)
        requires
            self.quantity@.minus(other.quantity@).reduced().fits(),
        ensures
            r.quantity@ == self.quantity@.minus(other.quantity@).reduced(),
    {
        Self::new(self.quantity.minus(other.quantity))
    }

    /// The area scaled by `scalar`.
    pub fn mul_scalar(self, scalar: Ratio) -> (r: Self)
        requires
            self.quantity@.times(scalar@).reduced().fits(),
        ensures
            r.quantity@ == self.quantity@.times(scalar@).reduced(),
    {
        Self::new(self.quantity.times(scalar))
    }

    /// The area divided by a nonzero `scalar`.
    pub fn div_scalar(self, scalar: Ratio) -> (r: Self)
        requires
            scalar@.num != 0,
            self.quantity@.over(scalar@).reduced().fits(),
        ensures
            r.quantity@ == self.quantity@.over(scalar@).reduced(),
    {
        Self::new(self.quantity.over(scalar))
    }

    /// The magnitude to `DEFAULT_DIGITS` fractional digits, trailing zeros
    /// dropped, then a space and the unit.
    pub fn to_string(&self) -> (r: String)
        ensures
            r@ == decimal(self.quantity@, None) + seq![' '] + U::abbrev() + "²"@,
    {
        proof {
            reveal_strlit("");
        }
        labelled(self.quantity, None, 0, U::label(), "²", "")
    }

    /// The magnitude rounded to `precision` fractional digits, a space and
    /// the unit.
    pub fn to_string_prec(&self, precision: u32) -> (r: String)
        requires
            precision <= MAX_DIGITS,
        ensures
            r@ == decimal(self.quantity@, Some(precision)) + seq![' '] + U::abbrev() + "²"@,
    {
        proof {
            reveal_strlit("");
        }
        labelled(self.quantity, Some(precision), 0, U::label(), "²", "")
    }

    /// The magnitude, rounded to `precision` fractional digits where one is
    /// given (else as `to_string` has it) and right-aligned in `width`
    /// characters, then a space and the unit.
    pub fn to_string_with(&self, precision: Option<u32>, width: usize) -> (r: String)
        requires
            precision_ok(precision),
        ensures
            r@ == aligned(decimal(self.quantity@, precision), width as nat) + seq![' ']
                + U::abbrev() + "²"@,
    {
        proof {
            reveal_strlit("");
        }
        labelled(self.quantity, precision, width, U::label(), "²", "")
    }
}

impl<U: Unit> Clone for Area<U> {
    fn clone(&self) -> (r: Self) {
        Self::new(self.quantity)
    }
}

impl<U: Unit> PartialEq for Area<U> {
    fn eq(&self, other: &Self) -> (r: bool) {
        self.quantity.same_value(&other.quantity)
    }
}

impl<U: Unit> vstd::std_specs::cmp::PartialEqSpecImpl for Area<U> {
    open spec fn obeys_eq_spec() -> bool {
        true
    }

    open spec fn eq_spec(&self, other: &Self) -> bool {
        self.quantity@.eqv(other.quantity@)
    }
}

impl<U: Unit> PartialOrd for Area<U> {
    fn partial_cmp(&self, other: &Self) -> (r: Option<Ordering>) {
        self.quantity.partial_cmp(&other.quantity)
    }
}

impl<U: Unit> vstd::std_specs::cmp::PartialOrdSpecImpl for Area<U> {
    open spec fn obeys_partial_cmp_spec() -> bool {
        true
    }

    open spec fn partial_cmp_spec(&self, other: &Self) -> Option<Ordering> {
        Some(self.quantity@.compare(other.quantity@))
    }
}

impl<U: Unit> Volume<U> {
    /// The volume whose magnitude is `quantity`.
    pub fn new(quantity: Ratio) -> (r: Self)
        ensures
            r.quantity == quantity,
    {
        Volume { quantity, unit: PhantomData }
    }

    /// Sum of two volumes in the same unit.
    pub fn add(self, other: Self) -> (r: Self)
        requires
            self.quantity@.plus(other.quantity@).reduced().fits(),
        ensures
            r.quantity@ == self.quantity@.plus(other.quantity@).reduced(),
    {
        Self::new(self.quantity.plus(other.quantity))
    }

    /// Difference of two volumes in the same unit; it may be negative.
    pub fn sub(self, other: Self) -> (r: Self)
        requires
            self.quantity@.minus(other.quantity@).reduced().fits(),
        ensures
            r.quantity@ == self.quantity@.minus(other.quantity@).reduced(),
    {
        Self::new(self.quantity.minus(other.quantity))
    }

    /// The volume scaled by `scalar`.
    pub fn mul_scalar(self, scalar: Ratio) -> (r: Self)
        requires
            self.quantity@.times(scalar@).reduced().fits(),
        ensures
            r.quantity@ == self.quantity@.times(scalar@).reduced(),
    {
        Self::new(self.quantity.times(scalar))
    }

    /// The volume divided by a nonzero `scalar`.
    pub fn div_scalar(self, scalar: Ratio) -> (r: Self)
        requires
            scalar@.num != 0,
            self.quantity@.over(scalar@).reduced().fits(),
        ensures
            r.quantity@ == self.quantity@.over(scalar@).reduced(),
    {
        Self::new(self.quantity.over(scalar))
    }

    /// The magnitude to `DEFAULT_DIGITS` fractional digits, trailing zeros
    /// dropped, then a space and the unit.
    pub fn to_string(&self) -> (r: String)
        ensures
            r@ == decimal(self.quantity@, None) + seq![' '] + U::abbrev() + "³"@,
    {
        proof {
            reveal_strlit("");
        }
        labelled(self.quantity, None, 0, U::label(), "³", "")
    }

    /// The magnitude rounded to `precision` fractional digits, a space and
    /// the unit.
    pub fn to_string_prec(&self, precision: u32) -> (r: String)
        requires
            precision <= MAX_DIGITS,
        ensures
            r@ == decimal(self.quantity@, Some(precision)) + seq![' '] + U::abbrev() + "³"@,
    {
        proof {
            reveal_strlit("");
        }
        labelled(self.quantity, Some(precision), 0, U::label(), "³", "")
    }

    /// The magnitude, rounded to `precision` fractional digits where one is
    /// given (else as `to_string` has it) and right-aligned in `width`
    /// characters, then a space and the unit.
    pub fn to_string_with(&self, precision: Option<u32>, width: usize) -> (r: String)
        requires
            precision_ok(precision),
        ensures
            r@ == aligned(decimal(self.quantity@, precision), width as nat) + seq![' ']
                + U::abbrev() + "³"@,
    {
        proof {
            reveal_strlit("");
        }
        labelled(self.quantity, precision, width, U::label(), "³", "")
    }
}

impl<U: Unit> Clone for Volume<U> {
    fn clone(&self) -> (r: Self) {
        Self::new(self.quantity)
    }
}

impl<U: Unit> PartialEq for Volume<U> {
    fn eq(&self, other: &Self) -> (r: bool) {
        self.quantity.same_value(&other.quantity)
    }
}

impl<U: Unit> vstd::std_specs::cmp::PartialEqSpecImpl for Volume<U> {
    open spec fn obeys_eq_spec() -> bool {
        true
    }

    open spec fn eq_spec(&self, other: &Self) -> bool {
        self.quantity@.eqv(other.quantity@)
    }
}

impl<U: Unit> PartialOrd for Volume<U> {
    fn partial_cmp(&self, other: &Self) -> (r: Option<Ordering>) {
        self.quantity.partial_cmp(&other.quantity)
    }
}

impl<U: Unit> vstd::std_specs::cmp::PartialOrdSpecImpl for Volume<U> {
    open spec fn obeys_partial_cmp_spec() -> bool {
        true
    }

    open spec fn partial_cmp_spec(&self, other: &Self) -> Option<Ordering> {
        Some(self.quantity@.compare(other.quantity@))
    }
}

impl<U: Unit> Length<U> {
    /// The same length in unit `T`.
    pub fn to<T: Unit>(self) -> (r: Length<T>)
        requires
            factor_to::<U, T>().fits(),
            self.quantity@.times(factor_to::<U, T>()).reduced().fits(),
        ensures
            r.quantity@ == self.quantity@.times(factor_to::<U, T>()).reduced(),
    {
        Length::new(self.quantity.times(factor::<U, T>()))
    }

    /// Length times length: the area of the rectangle with these sides.
    pub fn mul_length(self, other: Length<U>) -> (r: Area<U>)
        requires
            self.quantity@.times(other.quantity@).reduced().fits(),
        ensures
            r.quantity@ == self.quantity@.times(other.quantity@).reduced(),
    {
        Area::new(self.quantity.times(other.quantity))
    }

    /// Length times one unit: the area of that many square units.
    pub fn mul_unit(self, unit: U) -> (r: Area<U>)
        ensures
            r.quantity == self.quantity,
    {
        Area::new(self.quantity)
    }

    /// Length per period: a speed.
    pub fn per_period<P: time::Unit>(self, period: Period<P>) -> (r: Speed<U, P>)
        requires
            period.quantity@.num != 0,
            self.quantity@.over(period.quantity@).reduced().fits(),
        ensures
            r.quantity@ == self.quantity@.over(period.quantity@).reduced(),
    {
        Speed::new(self.quantity.over(period.quantity))
    }

    /// Length per one time unit: a speed of the same magnitude.
    pub fn per_unit<P: time::Unit>(self, unit: P) -> (r: Speed<U, P>)
        ensures
            r.quantity == self.quantity,
    {
        Speed::new(self.quantity)
    }

    /// Length times frequency: a speed.
    pub fn mul_frequency<P: time::Unit>(self, freq: Frequency<P>) -> (r: Speed<U, P>)
        requires
            self.quantity@.times(freq.quantity@).reduced().fits(),
        ensures
            r.quantity@ == self.quantity@.times(freq.quantity@).reduced(),
    {
        Speed::new(self.quantity.times(freq.quantity))
    }
}

/// Factor for areas: the factor for lengths, squared, in lowest terms.
pub open spec fn area_factor_to<U: Unit, T: Unit>() -> Frac {
    factor_to::<U, T>().times(factor_to::<U, T>()).reduced()
}

/// Factor for volumes: the factor for areas times the factor for lengths,
/// in lowest terms.
pub open spec fn volume_factor_to<U: Unit, T: Unit>() -> Frac {
    area_factor_to::<U, T>().times(factor_to::<U, T>()).reduced()
}

impl<U: Unit> Area<U> {
    /// The same area in unit `T` squared.
    pub fn to<T: Unit>(self) -> (r: Area<T>)
        requires
            factor_to::<U, T>().fits(),
            area_factor_to::<U, T>().fits(),
            self.quantity@.times(area_factor_to::<U, T>()).reduced().fits(),
        ensures
            r.quantity@ == self.quantity@.times(area_factor_to::<U, T>()).reduced(),
    {
        let f = factor::<U, T>();
        Area::new(self.quantity.times(f.times(f)))
    }

    /// Area times length: a volume.
    pub fn mul_length(self, other: Length<U>) -> (r: Volume<U>)
        requires
            self.quantity@.times(other.quantity@).reduced().fits(),
        ensures
            r.quantity@ == self.quantity@.times(other.quantity@).reduced(),
    {
        Volume::new(self.quantity.times(other.quantity))
    }

    /// Area times one unit: the volume of that many cubic units.
    pub fn mul_unit(self, unit: U) -> (r: Volume<U>)
        ensures
            r.quantity == self.quantity,
    {
        Volume::new(self.quantity)
    }

    /// Area divided by a nonzero length: a length.
    pub fn div_length(self, other: Length<U>) -> (r: Length<U>)
        requires
            other.quantity@.num != 0,
            self.quantity@.over(other.quantity@).reduced().fits(),
        ensures
            r.quantity@ == self.quantity@.over(other.quantity@).reduced(),
    {
        Length::new(self.quantity.over(other.quantity))
    }
}

impl<U: Unit> Volume<U> {
    /// The same volume in unit `T` cubed.
    pub fn to<T: Unit>(self) -> (r: Volume<T>)
        requires
            factor_to::<U, T>().fits(),
            area_factor_to::<U, T>().fits(),
            volume_factor_to::<U, T>().fits(),
            self.quantity@.times(volume_factor_to::<U, T>()).reduced().fits(),
        ensures
            r.quantity@ == self.quantity@.times(volume_factor_to::<U, T>()).reduced(),
    {
        let f = factor::<U, T>();
        Volume::new(self.quantity.times(f.times(f).times(f)))
    }

    /// Volume divided by a nonzero length: an area.
    pub fn div_length(self, other: Length<U>) -> (r: Area<U>)
        requires
            other.quantity@.num != 0,
            self.quantity@.over(other.quantity@).reduced().fits(),
        ensures
            r.quantity@ == self.quantity@.over(other.quantity@).reduced(),
    {
        Area::new(self.quantity.over(other.quantity))
    }

    /// Volume divided by a nonzero area: a length.
    pub fn div_area(self, other: Area<U>) -> (r: Length<U>)
        requires
            other.quantity@.num != 0,
            self.quantity@.over(other.quantity@).reduced().fits(),
        ensures
            r.quantity@ == self.quantity@.over(other.quantity@).reduced(),
    {
        Length::new(self.quantity.over(other.quantity))
    }
}

/// Kilometer / kilometre.
#[allow(non_camel_case_types)]
#[derive(Clone, Copy, Debug, PartialEq, Eq)]
pub struct km;

impl Unit for km {
    open spec fn meters() -> Frac {
        Frac { num: 1000, den: 1 }
    }

    open spec fn abbrev() -> Seq<char> {
        "km"@
    }

    proof fn lemma_meters() {
    }

    fn factor() -> (r: Ratio) {
        Ratio::new(1000, 1)
    }

    fn label() -> (r: &'static str) {
        "km"
    }
}

/// Meter / metre.
#[allow(non_camel_case_types)]
#[derive(Clone, Copy, Debug, PartialEq, Eq)]
pub struct m;

impl Unit for m {
    open spec fn meters() -> Frac {
        Frac { num: 1, den: 1 }
    }

    open spec fn abbrev() -> Seq<char> {
        "m"@
    }

    proof fn lemma_meters() {
    }

    fn factor() -> (r: Ratio) {
        Ratio::new(1, 1)
    }

    fn label() -> (r: &'static str) {
        "m"
    }
}

/// Decimeter / decimetre.
#[allow(non_camel_case_types)]
#[derive(Clone, Copy, Debug, PartialEq, Eq)]
pub struct dm;

impl Unit for dm {
    open spec fn meters() -> Frac {
        Frac { num: 1, den: 10 }
    }

    open spec fn abbrev() -> Seq<char> {
        "dm"@
    }

    proof fn lemma_meters() {
    }

    fn factor() -> (r: Ratio) {
        Ratio::new(1, 10)
    }

    fn label() -> (r: &'static str) {
        "dm"
    }
}

/// Centimeter / centimetre.
#[allow(non_camel_case_types)]
#[derive(Clone, Copy, Debug, PartialEq, Eq)]
pub struct cm;

impl Unit for cm {
    open spec fn meters() -> Frac {
        Frac { num: 1, den: 100 }
    }

    open spec fn abbrev() -> Seq<char> {
        "cm"@
    }

    proof fn lemma_meters() {
    }

    fn factor() -> (r: Ratio) {
        Ratio::new(1, 100)
    }

    fn label() -> (r: &'static str) {
        "cm"
    }
}

/// Millimeter / millimetre.
#[allow(non_camel_case_types)]
#[derive(Clone, Copy, Debug, PartialEq, Eq)]
pub struct mm;

impl Unit for mm {
    open spec fn meters() -> Frac {
        Frac { num: 1, den: 1000 }
    }

    open spec fn abbrev() -> Seq<char> {
        "mm"@
    }

    proof fn lemma_meters() {
    }

    fn factor() -> (r: Ratio) {
        Ratio::new(1, 1000)
    }

    fn label() -> (r: &'static str) {
        "mm"
    }
}

/// Micrometer / micrometre.
#[allow(non_camel_case_types)]
#[derive(Clone, Copy, Debug, PartialEq, Eq)]
pub struct um;

impl Unit for um {
    open spec fn meters() -> Frac {
        Frac { num: 1, den: 1000000 }
    }

    open spec fn abbrev() -> Seq<char> {
        "μm"@
    }

    proof fn lemma_meters() {
    }

    fn factor() -> (r: Ratio) {
        Ratio::new(1, 1000000)
    }

    fn label() -> (r: &'static str) {
        "μm"
    }
}

/// Nanometer / nanometre.
#[allow(non_camel_case_types)]
#[derive(Clone, Copy, Debug, PartialEq, Eq)]
pub struct nm;

impl Unit for nm {
    open spec fn meters() -> Frac {
        Frac { num: 1, den: 1000000000 }
    }

    open spec fn abbrev() -> Seq<char> {
        "nm"@
    }

    proof fn lemma_meters() {
    }

    fn factor() -> (r: Ratio) {
        Ratio::new(1, 1000000000)
    }

    fn label() -> (r: &'static str) {
        "nm"
    }
}

/// Mile.
#[allow(non_camel_case_types)]
#[derive(Clone, Copy, Debug, PartialEq, Eq)]
pub struct mi;

impl Unit for mi {
    open spec fn meters() -> Frac {
        Frac { num: 1609344, den: 1000 }
    }

    open spec fn abbrev() -> Seq<char> {
        "mi"@
    }

    proof fn lemma_meters() {
    }

    fn factor() -> (r: Ratio) {
        Ratio::new(1609344, 1000)
    }

    fn label() -> (r: &'static str) {
        "mi"
    }
}

/// Foot (international).
#[allow(non_camel_case_types)]
#[derive(Clone, Copy, Debug, PartialEq, Eq)]
pub struct ft;

impl Unit for ft {
    open spec fn meters() -> Frac {
        Frac { num: 3048, den: 10000 }
    }

    open spec fn abbrev() -> Seq<char> {
        "ft"@
    }

    proof fn lemma_meters() {
    }

    fn factor() -> (r: Ratio) {
        Ratio::new(3048, 10000)
    }

    fn label() -> (r: &'static str) {
        "ft"
    }
}

/// Inch (capitalized, as `in` is a keyword).
#[derive(Clone, Copy, Debug, PartialEq, Eq)]
pub struct In;

impl Unit for In {
    open spec fn meters() -> Frac {
        Frac { num: 254, den: 10000 }
    }

    open spec fn abbrev() -> Seq<char> {
        "in"@
    }

    proof fn lemma_meters() {
    }

    fn factor() -> (r: Ratio) {
        Ratio::new(254, 10000)
    }

    fn label() -> (r: &'static str) {
        "in"
    }
}

/// Yard (international).
#[allow(non_camel_case_types)]
#[derive(Clone, Copy, Debug, PartialEq, Eq)]
pub struct yd;

impl Unit for yd {
    open spec fn meters() -> Frac {
        Frac { num: 9144, den: 10000 }
    }

    open spec fn abbrev() -> Seq<char> {
        "yd"@
    }

    proof fn lemma_meters() {
    }

    fn factor() -> (r: Ratio) {
        Ratio::new(9144, 10000)
    }

    fn label() -> (r: &'static str) {
        "yd"
    }
}

/// League (3 mi).
#[allow(non_camel_case_types)]
#[derive(Clone, Copy, Debug, PartialEq, Eq)]
pub struct league;

impl Unit for league {
    open spec fn meters() -> Frac {
        Frac { num: 4828032, den: 1000 }
    }

    open spec fn abbrev() -> Seq<char> {
        "league"@
    }

    proof fn lemma_meters() {
    }

    fn factor() -> (r: Ratio) {
        Ratio::new(4828032, 1000)
    }

    fn label() -> (r: &'static str) {
        "league"
    }
}

/// Rod (16.5 ft).
#[allow(non_camel_case_types)]
#[derive(Clone, Copy, Debug, PartialEq, Eq)]
pub struct rod;

impl Unit for rod {
    open spec fn meters() -> Frac {
        Frac { num: 50292, den: 10000 }
    }

    open spec fn abbrev() -> Seq<char> {
        "rod"@
    }

    proof fn lemma_meters() {
    }

    fn factor() -> (r: Ratio) {
        Ratio::new(50292, 10000)
    }

    fn label() -> (r: &'static str) {
        "rod"
    }
}

/// Furlong (220 yd).
#[allow(non_camel_case_types)]
#[derive(Clone, Copy, Debug, PartialEq, Eq)]
pub struct furlong;

impl Unit for furlong {
    open spec fn meters() -> Frac {
        Frac { num: 201168, den: 1000 }
    }

    open spec fn abbrev() -> Seq<char> {
        "furlong"@
    }

    proof fn lemma_meters() {
    }

    fn factor() -> (r: Ratio) {
        Ratio::new(201168, 1000)
    }

    fn label() -> (r: &'static str) {
        "furlong"
    }
}

/// Fathom (6 ft).
#[allow(non_camel_case_types)]
#[derive(Clone, Copy, Debug, PartialEq, Eq)]
pub struct fathom;

impl Unit for fathom {
    open spec fn meters() -> Frac {
        Frac { num: 18288, den: 10000 }
    }

    open spec fn abbrev() -> Seq<char> {
        "fathom"@
    }

    proof fn lemma_meters() {
    }

    fn factor() -> (r: Ratio) {
        Ratio::new(18288, 10000)
    }

    fn label() -> (r: &'static str) {
        "fathom"
    }
}

} // verus!
