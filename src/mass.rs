//! Mass.
//!
//! Each unit of mass is a marker type that knows how many grams it holds.
use vstd::prelude::*;

use core::cmp::Ordering;
use core::marker::PhantomData;

use crate::ratio::{Frac, Ratio};
use crate::text::{aligned, decimal, labelled, precision_ok, MAX_DIGITS};

verus! {

/// A unit of mass.
///
/// A caller's own marker type becomes a unit like the ones below, usable with
/// every operation of this module, by implementing this trait in verified
/// code (the factor is stated as a spec function as well).
pub trait Unit: Sized {
    /// Grams in one unit.
    spec fn grams() -> Frac;

    /// The unit's abbreviation.
    spec fn abbrev() -> Seq<char>;

    /// One unit is a positive mass that fits in a `Ratio`.
    proof fn lemma_grams()
        ensures
            Self::grams().fits(),
            Self::grams().num > 0,
    ;

    /// Grams in one unit.
    fn factor() -> (r: Ratio)
        ensures
            r@ == Self::grams(),
    ;

    /// The unit's abbreviation.
    fn label() -> (r: &'static str)
        ensures
            r@ == Self::abbrev(),
    ;
}

/// What a mass in unit `U` is multiplied by to give one in unit `T`,
/// in lowest terms.
pub open spec fn factor_to<U: Unit, T: Unit>() -> Frac {
    U::grams().over(T::grams()).reduced()
}

/// Computes `factor_to::<U, T>()`.
pub fn factor<U: Unit, T: Unit>() -> (r: Ratio)
    requires
        factor_to::<U, T>().fits(),
    ensures
        r@ == factor_to::<U, T>(),
{
    proof {
        T::lemma_grams();
    }
    U::factor().over(T::factor())
}

/// A mass.
#[derive(Copy, Debug)]
pub struct Mass<U: Unit> {
    /// Number of units.
    pub quantity: Ratio,
    /// The unit, carried by the type alone.
    pub unit: PhantomData<U>,
}

impl<U: Unit> Mass<U> {
    /// The mass whose magnitude is `quantity`.
    pub fn new(quantity: Ratio) -> (r: Self)
        ensures
            r.quantity == quantity,
    {
        Mass { quantity, unit: PhantomData }
    }

    /// Sum of two masss in the same unit.
    pub fn add(self, other: Self) -> (r: Self)
        requires
            self.quantity@.plus(other.quantity@).reduced().fits(),
        ensures
            r.quantity@ == self.quantity@.plus(other.quantity@).reduced(),
    {
        Self::new(self.quantity.plus(other.quantity))
    }

    /// Difference of two masss in the same unit; it may be negative.
    pub fn sub(self, other: Self) -> (r: Self)
        requires
            self.quantity@.minus(other.quantity@).reduced().fits(),
        ensures
            r.quantity@ == self.quantity@.minus(other.quantity@).reduced(),
    {
        Self::new(self.quantity.minus(other.quantity))
    }

    /// The mass scaled by `scalar`.
    pub fn mul_scalar(self, scalar: Ratio) -> (r: Self)
        requires
            self.quantity@.times(scalar@).reduced().fits(),
        ensures
            r.quantity@ == self.quantity@.times(scalar@).reduced(),
    {
        Self::new(self.quantity.times(scalar))
    }

    /// The mass divided by a nonzero `scalar`.
    pub fn div_scalar(self, scalar: Ratio) -> (r: Self)
        requires
            scalar@.num != 0,
            self.quantity@.over(scalar@).reduced().fits(),
        ensures
            r.quantity@ == self.quantity@.over(scalar@).reduced(),
    {
        Self::new(self.quantity.over(scalar))
    }

    /// The magnitude to `DEFAULT_DIGITS` fractional digits, trailing zeros
    /// dropped, then a space and the unit.
    pub fn to_string(&self) -> (r: String)
        ensures
            r@ == decimal(self.quantity@, None) + seq![' '] + U::abbrev(),
    {
        proof {
            reveal_strlit("");
        }
        labelled(self.quantity, None, 0, U::label(), "", "")
    }

    /// The magnitude rounded to `precision` fractional digits, a space and
    /// the unit.
    pub fn to_string_prec(&self, precision: u32) -> (r: String)
        requires
            precision <= MAX_DIGITS,
        ensures
            r@ == decimal(self.quantity@, Some(precision)) + seq![' '] + U::abbrev(),
    {
        proof {
            reveal_strlit("");
        }
        labelled(self.quantity, Some(precision), 0, U::label(), "", "")
    }

    /// The magnitude, rounded to `precision` fractional digits where one is
    /// given (else as `to_string` has it) and right-aligned in `width`
    /// characters, then a space and the unit.
    pub fn to_string_with(&self, precision: Option<u32>, width: usize) -> (r: String)
        requires
            precision_ok(precision),
        ensures
            r@ == aligned(decimal(self.quantity@, precision), width as nat) + seq![' ']
                + U::abbrev(),
    {
        proof {
            reveal_strlit("");
        }
        labelled(self.quantity, precision, width, U::label(), "", "")
    }
}

impl<U: Unit> Clone for Mass<U> {
    fn clone(&self) -> (r: Self) {
        Self::new(self.quantity)
    }
}

impl<U: Unit> PartialEq for Mass<U> {
    fn eq(&self, other: &Self) -> (r: bool) {
        self.quantity.same_value(&other.quantity)
    }
}

impl<U: Unit> vstd::std_specs::cmp::PartialEqSpecImpl for Mass<U> {
    open spec fn obeys_eq_spec() -> bool {
        true
    }

    open spec fn eq_spec(&self, other: &Self) -> bool {
        self.quantity@.eqv(other.quantity@)
    }
}

impl<U: Unit> PartialOrd for Mass<U> {
    fn partial_cmp(&self, other: &Self) -> (r: Option<Ordering>) {
        self.quantity.partial_cmp(&other.quantity)
    }
}

impl<U: Unit> vstd::std_specs::cmp::PartialOrdSpecImpl for Mass<U> {
    open spec fn obeys_partial_cmp_spec() -> bool {
        true
    }

    open spec fn partial_cmp_spec(&self, other: &Self) -> Option<Ordering> {
        Some(self.quantity@.compare(other.quantity@))
    }
}

impl<U: Unit> Mass<U> {
    /// The same mass in unit `T`.
    pub fn to<T: Unit>(self) -> (r: Mass<T>)
        requires
            factor_to::<U, T>().fits(),
            self.quantity@.times(factor_to::<U, T>()).reduced().fits(),
        ensures
            r.quantity@ == self.quantity@.times(factor_to::<U, T>()).reduced(),
    {
        Mass::new(self.quantity.times(factor::<U, T>()))
    }
}

/// Metric ton / tonne.
#[allow(non_camel_case_types)]
#[derive(Clone, Copy, Debug, PartialEq, Eq)]
pub struct t;

impl Unit for t {
    open spec fn grams() -> Frac {
        Frac { num: 1000000, den: 1 }
    }

    open spec fn abbrev() -> Seq<char> {
        "t"@
    }

    proof fn lemma_grams() {
    }

    fn factor() -> (r: Ratio) {
        Ratio::new(1000000, 1)
    }

    fn label() -> (r: &'static str) {
        "t"
    }
}

/// Kilogram.
#[allow(non_camel_case_types)]
#[derive(Clone, Copy, Debug, PartialEq, Eq)]
pub struct kg;

impl Unit for kg {
    open spec fn grams() -> Frac {
        Frac { num: 1000, den: 1 }
    }

    open spec fn abbrev() -> Seq<char> {
        "kg"@
    }

    proof fn lemma_grams() {
    }

    fn factor() -> (r: Ratio) {
        Ratio::new(1000, 1)
    }

    fn label() -> (r: &'static str) {
        "kg"
    }
}

/// Gram.
#[allow(non_camel_case_types)]
#[derive(Clone, Copy, Debug, PartialEq, Eq)]
pub struct g;

impl Unit for g {
    open spec fn grams() -> Frac {
        Frac { num: 1, den: 1 }
    }

    open spec fn abbrev() -> Seq<char> {
        "g"@
    }

    proof fn lemma_grams() {
    }

    fn factor() -> (r: Ratio) {
        Ratio::new(1, 1)
    }

    fn label() -> (r: &'static str) {
        "g"
    }
}

/// Decigram.
#[allow(non_camel_case_types)]
#[derive(Clone, Copy, Debug, PartialEq, Eq)]
pub struct dg;

impl Unit for dg {
    open spec fn grams() -> Frac {
        Frac { num: 1, den: 10 }
    }

    open spec fn abbrev() -> Seq<char> {
        "dg"@
    }

    proof fn lemma_grams() {
    }

    fn factor() -> (r: Ratio) {
        Ratio::new(1, 10)
    }

    fn label() -> (r: &'static str) {
        "dg"
    }
}

/// Centigram.
#[allow(non_camel_case_types)]
#[derive(Clone, Copy, Debug, PartialEq, Eq)]
pub struct cg;

impl Unit for cg {
    open spec fn grams() -> Frac {
        Frac { num: 1, den: 100 }
    }

    open spec fn abbrev() -> Seq<char> {
        "cg"@
    }

    proof fn lemma_grams() {
    }

    fn factor() -> (r: Ratio) {
        Ratio::new(1, 100)
    }

    fn label() -> (r: &'static str) {
        "cg"
    }
}

/// Milligram.
#[allow(non_camel_case_types)]
#[derive(Clone, Copy, Debug, PartialEq, Eq)]
pub struct mg;

impl Unit for mg {
    open spec fn grams() -> Frac {
        Frac { num: 1, den: 1000 }
    }

    open spec fn abbrev() -> Seq<char> {
        "mg"@
    }

    proof fn lemma_grams() {
    }

    fn factor() -> (r: Ratio) {
        Ratio::new(1, 1000)
    }

    fn label() -> (r: &'static str) {
        "mg"
    }
}

/// Microgram.
#[allow(non_camel_case_types)]
#[derive(Clone, Copy, Debug, PartialEq, Eq)]
pub struct ug;

impl Unit for ug {
    open spec fn grams() -> Frac {
        Frac { num: 1, den: 1000000 }
    }

    open spec fn abbrev() -> Seq<char> {
        "μg"@
    }

    proof fn lemma_grams() {
    }

    fn factor() -> (r: Ratio) {
        Ratio::new(1, 1000000)
    }

    fn label() -> (r: &'static str) {
        "μg"
    }
}

/// Nanogram.
#[allow(non_camel_case_types)]
#[derive(Clone, Copy, Debug, PartialEq, Eq)]
pub struct ng;

impl Unit for ng {
    open spec fn grams() -> Frac {
        Frac { num: 1, den: 1000000000 }
    }

    open spec fn abbrev() -> Seq<char> {
        "ng"@
    }

    proof fn lemma_grams() {
    }

    fn factor() -> (r: Ratio) {
        Ratio::new(1, 1000000000)
    }

    fn label() -> (r: &'static str) {
        "ng"
    }
}

/// Pound (imperial).
#[allow(non_camel_case_types)]
#[derive(Clone, Copy, Debug, PartialEq, Eq)]
pub struct lb;

impl Unit for lb {
    open spec fn grams() -> Frac {
        Frac { num: 45359237, den: 100000 }
    }

    open spec fn abbrev() -> Seq<char> {
        "lb"@
    }

    proof fn lemma_grams() {
    }

    fn factor() -> (r: Ratio) {
        Ratio::new(45359237, 100000)
    }

    fn label() -> (r: &'static str) {
        "lb"
    }
}

/// Slug (imperial).
#[allow(non_camel_case_types)]
#[derive(Clone, Copy, Debug, PartialEq, Eq)]
pub struct sl;

impl Unit for sl {
    open spec fn grams() -> Frac {
        Frac { num: 14593903, den: 1000 }
    }

    open spec fn abbrev() -> Seq<char> {
        "sl"@
    }

    proof fn lemma_grams() {
    }

    fn factor() -> (r: Ratio) {
        Ratio::new(14593903, 1000)
    }

    fn label() -> (r: &'static str) {
        "sl"
    }
}

} // verus!
