//! Periods of time and frequencies.
//!
//! Each unit of time is a marker type that knows how many seconds it holds,
//! its abbreviation, and the abbreviation of its inverse (the frequency of
//! one event per unit).
use vstd::prelude::*;

use core::cmp::Ordering;
use core::marker::PhantomData;

use crate::length::{self, Length};
use crate::ratio::{lemma_over_positive, lemma_reduced, Frac, Ratio};
use crate::speed::Speed;
use crate::text::{aligned, decimal, labelled, precision_ok, MAX_DIGITS};

verus! {

/// A unit of time.
///
/// A caller's own marker type becomes a unit like the ones below, usable with
/// every operation of this module, by implementing this trait in verified
/// code (the factor is stated as a spec function as well).
pub trait Unit: Sized {
    /// Seconds in one unit.
    spec fn seconds() -> Frac;

    /// The unit's abbreviation.
    spec fn abbrev() -> Seq<char>;

    /// The abbreviation of the inverse unit, for frequencies.
    spec fn inverse_abbrev() -> Seq<char>;

    /// One unit is a positive period that fits in a `Ratio`.
    proof fn lemma_seconds()
        ensures
            Self::seconds().fits(),
            Self::seconds().num > 0,
    ;

    /// Seconds in one unit.
    fn factor() -> (r: Ratio)
        ensures
            r@ == Self::seconds(),
    ;

    /// The unit's abbreviation.
    fn label() -> (r: &'static str)
        ensures
            r@ == Self::abbrev(),
    ;

    /// The abbreviation of the inverse unit.
    fn inverse() -> (r: &'static str)
        ensures
            r@ == Self::inverse_abbrev(),
    ;
}

/// What a period in unit `U` is multiplied by to give one in unit `T`,
/// in lowest terms.
pub open spec fn factor_to<U: Unit, T: Unit>() -> Frac {
    U::seconds().over(T::seconds()).reduced()
}

/// The factor between two units of time is positive.
pub proof fn lemma_factor_positive<U: Unit, T: Unit>()
    ensures
        factor_to::<U, T>().num > 0,
        factor_to::<U, T>().den > 0,
{
    U::lemma_seconds();
    T::lemma_seconds();
    lemma_over_positive(U::seconds(), T::seconds());
    lemma_reduced(U::seconds().over(T::seconds()));
}

/// Computes `factor_to::<U, T>()`.
pub fn factor<U: Unit, T: Unit>() -> (r: Ratio)
    requires
        factor_to::<U, T>().fits(),
    ensures
        r@ == factor_to::<U, T>(),
{
    proof {
        T::lemma_seconds();
    }
    U::factor().over(T::factor())
}

/// A period, duration or interval of time.
#[derive(Copy, Debug)]
pub struct Period<U: Unit> {
    /// Number of units.
    pub quantity: Ratio,
    /// The unit, carried by the type alone.
    pub unit: PhantomData<U>,
}

/// Temporal frequency of a repeating event: events per unit of time.
#[derive(Copy, Debug)]
pub struct Frequency<U: Unit> {
    /// Number of events per unit.
    pub quantity: Ratio,
    /// The unit, carried by the type alone.
    pub unit: PhantomData<U>,
}

impl<U: Unit> Period<U> {
    /// The period whose magnitude is `quantity`.
    pub fn new(quantity: Ratio) -> (r: Self)
        ensures
            r.quantity == quantity,
    {
        Period { quantity, unit: PhantomData }
    }

    /// Sum of two periods in the same unit.
    pub fn add(self, other: Self) -> (r: Self)
        requires
            self.quantity@.plus(other.quantity@).reduced().fits(),
        ensures
            r.quantity@ == self.quantity@.plus(other.quantity@).reduced(),
    {
        Self::new(self.quantity.plus(other.quantity))
    }

    /// Difference of two periods in the same unit; it may be negative.
    pub fn sub(self, other: Self) -> (r: Self)
        requires
            self.quantity@.minus(other.quantity@).reduced().fits(),
        ensures
            r.quantity@ == self.quantity@.minus(other.quantity@).reduced(),
    {
        Self::new(self.quantity.minus(other.quantity))
    }

    /// The period scaled by `scalar`.
    pub fn mul_scalar(self, scalar: Ratio) -> (r: Self)
        requires
            self.quantity@.times(scalar@).reduced().fits(),
        ensures
            r.quantity@ == self.quantity@.times(scalar@).reduced(),
    {
        Self::new(self.quantity.times(scalar))
    }

    /// The period divided by a nonzero `scalar`.
    pub fn div_scalar(self, scalar: Ratio) -> (r: Self)
        requires
            scalar@.num != 0,
            self.quantity@.over(scalar@).reduced().fits(),
        ensures
            r.quantity@ == self.quantity@.over(scalar@).reduced(),
    {
        Self::new(self.quantity.over(scalar))
    }

    /// The magnitude to `DEFAULT_DIGITS` fractional digits, trailing zeros
    /// dropped, then a space and the unit.
    pub fn to_string(&self) -> (r: String)
        ensures
            r@ == decimal(self.quantity@, None) + seq![' '] + U::abbrev(),
    {
        proof {
            reveal_strlit("");
        }
        labelled(self.quantity, None, 0, U::label(), "", "")
    }

    /// The magnitude rounded to `precision` fractional digits, a space and
    /// the unit.
    pub fn to_string_prec(&self, precision: u32) -> (r: String)
        requires
            precision <= MAX_DIGITS,
        ensures
            r@ == decimal(self.quantity@, Some(precision)) + seq![' '] + U::abbrev(),
    {
        proof {
            reveal_strlit("");
        }
        labelled(self.quantity, Some(precision), 0, U::label(), "", "")
    }

    /// The magnitude, rounded to `precision` fractional digits where one is
    /// given (else as `to_string` has it) and right-aligned in `width`
    /// characters, then a space and the unit.
    pub fn to_string_with(&self, precision: Option<u32>, width: usize) -> (r: String)
        requires
            precision_ok(precision),
        ensures
            r@ == aligned(decimal(self.quantity@, precision), width as nat) + seq![' ']
                + U::abbrev(),
    {
        proof {
            reveal_strlit("");
        }
        labelled(self.quantity, precision, width, U::label(), "", "")
    }
}

impl<U: Unit> Clone for Period<U> {
    fn clone(&self) -> (r: Self) {
        Self::new(self.quantity)
    }
}

impl<U: Unit> PartialEq for Period<U> {
    fn eq(&self, other: &Self) -> (r: bool) {
        self.quantity.same_value(&other.quantity)
    }
}

impl<U: Unit> vstd::std_specs::cmp::PartialEqSpecImpl for Period<U> {
    open spec fn obeys_eq_spec() -> bool {
        true
    }

    open spec fn eq_spec(&self, other: &Self) -> bool {
        self.quantity@.eqv(other.quantity@)
    }
}

impl<U: Unit> PartialOrd for Period<U> {
    fn partial_cmp(&self, other: &Self) -> (r: Option<Ordering>) {
        self.quantity.partial_cmp(&other.quantity)
    }
}

impl<U: Unit> vstd::std_specs::cmp::PartialOrdSpecImpl for Period<U> {
    open spec fn obeys_partial_cmp_spec() -> bool {
        true
    }

    open spec fn partial_cmp_spec(&self, other: &Self) -> Option<Ordering> {
        Some(self.quantity@.compare(other.quantity@))
    }
}

impl<U: Unit> Frequency<U> {
    /// The frequency whose magnitude is `quantity`.
    pub fn new(quantity: Ratio) -> (r: Self)
        ensures
            r.quantity == quantity,
    {
        Frequency { quantity, unit: PhantomData }
    }

    /// Sum of two frequencys in the same unit.
    pub fn add(self, other: Self) -> (r: Self)
        requires
            self.quantity@.plus(other.quantity@).reduced().fits(),
        ensures
            r.quantity@ == self.quantity@.plus(other.quantity@).reduced(),
    {
        Self::new(self.quantity.plus(other.quantity))
    }

    /// Difference of two frequencys in the same unit; it may be negative.
    pub fn sub(self, other: Self) -> (r: Self)
        requires
            self.quantity@.minus(other.quantity@).reduced().fits(),
        ensures
            r.quantity@ == self.quantity@.minus(other.quantity@).reduced(),
    {
        Self::new(self.quantity.minus(other.quantity))
    }

    /// The frequency scaled by `scalar`.
    pub fn mul_scalar(self, scalar: Ratio) -> (r: Self)
        requires
            self.quantity@.times(scalar@).reduced().fits(),
        ensures
            r.quantity@ == self.quantity@.times(scalar@).reduced(),
    {
        Self::new(self.quantity.times(scalar))
    }

    /// The frequency divided by a nonzero `scalar`.
    pub fn div_scalar(self, scalar: Ratio) -> (r: Self)
        requires
            scalar@.num != 0,
            self.quantity@.over(scalar@).reduced().fits(),
        ensures
            r.quantity@ == self.quantity@.over(scalar@).reduced(),
    {
        Self::new(self.quantity.over(scalar))
    }

    /// The magnitude to `DEFAULT_DIGITS` fractional digits, trailing zeros
    /// dropped, then a space and the unit.
    pub fn to_string(&self) -> (r: String)
        ensures
            r@ == decimal(self.quantity@, None) + seq![' '] + U::inverse_abbrev(),
    {
        proof {
            reveal_strlit("");
        }
        labelled(self.quantity, None, 0, U::inverse(), "", "")
    }

    /// The magnitude rounded to `precision` fractional digits, a space and
    /// the unit.
    pub fn to_string_prec(&self, precision: u32) -> (r: String)
        requires
            precision <= MAX_DIGITS,
        ensures
            r@ == decimal(self.quantity@, Some(precision)) + seq![' '] + U::inverse_abbrev(),
    {
        proof {
            reveal_strlit("");
        }
        labelled(self.quantity, Some(precision), 0, U::inverse(), "", "")
    }

    /// The magnitude, rounded to `precision` fractional digits where one is
    /// given (else as `to_string` has it) and right-aligned in `width`
    /// characters, then a space and the unit.
    pub fn to_string_with(&self, precision: Option<u32>, width: usize) -> (r: String)
        requires
            precision_ok(precision),
        ensures
            r@ == aligned(decimal(self.quantity@, precision), width as nat) + seq![' ']
                + U::inverse_abbrev(),
    {
        proof {
            reveal_strlit("");
        }
        labelled(self.quantity, precision, width, U::inverse(), "", "")
    }
}

impl<U: Unit> Clone for Frequency<U> {
    fn clone(&self) -> (r: Self) {
        Self::new(self.quantity)
    }
}

impl<U: Unit> PartialEq for Frequency<U> {
    fn eq(&self, other: &Self) -> (r: bool) {
        self.quantity.same_value(&other.quantity)
    }
}

impl<U: Unit> vstd::std_specs::cmp::PartialEqSpecImpl for Frequency<U> {
    open spec fn obeys_eq_spec() -> bool {
        true
    }

    open spec fn eq_spec(&self, other: &Self) -> bool {
        self.quantity@.eqv(other.quantity@)
    }
}

impl<U: Unit> PartialOrd for Frequency<U> {
    fn partial_cmp(&self, other: &Self) -> (r: Option<Ordering>) {
        self.quantity.partial_cmp(&other.quantity)
    }
}

impl<U: Unit> vstd::std_specs::cmp::PartialOrdSpecImpl for Frequency<U> {
    open spec fn obeys_partial_cmp_spec() -> bool {
        true
    }

    open spec fn partial_cmp_spec(&self, other: &Self) -> Option<Ordering> {
        Some(self.quantity@.compare(other.quantity@))
    }
}

impl<U: Unit> Period<U> {
    /// The same period in unit `T`.
    pub fn to<T: Unit>(self) -> (r: Period<T>)
        requires
            factor_to::<U, T>().fits(),
            self.quantity@.times(factor_to::<U, T>()).reduced().fits(),
        ensures
            r.quantity@ == self.quantity@.times(factor_to::<U, T>()).reduced(),
    {
        Period::new(self.quantity.times(factor::<U, T>()))
    }

    /// `count` events in this nonzero period: a frequency.
    pub fn inverse(self, count: Ratio) -> (r: Frequency<U>)
        requires
            self.quantity@.num != 0,
            count@.over(self.quantity@).reduced().fits(),
        ensures
            r.quantity@ == count@.over(self.quantity@).reduced(),
    {
        Frequency::new(count.over(self.quantity))
    }
}

impl<U: Unit> Frequency<U> {
    /// The same frequency in events per unit `T`.
    pub fn to<T: Unit>(self) -> (r: Frequency<T>)
        requires
            factor_to::<U, T>().fits(),
            self.quantity@.over(factor_to::<U, T>()).reduced().fits(),
        ensures
            r.quantity@ == self.quantity@.over(factor_to::<U, T>()).reduced(),
    {
        proof {
            lemma_factor_positive::<U, T>();
        }
        Frequency::new(self.quantity.over(factor::<U, T>()))
    }

    /// The period in which this nonzero frequency gives `count` events.
    pub fn inverse(self, count: Ratio) -> (r: Period<U>)
        requires
            self.quantity@.num != 0,
            count@.over(self.quantity@).reduced().fits(),
        ensures
            r.quantity@ == count@.over(self.quantity@).reduced(),
    {
        Period::new(count.over(self.quantity))
    }

    /// Frequency times length: a speed.
    pub fn mul_length<L: length::Unit>(self, len: Length<L>) -> (r: Speed<L, U>)
        requires
            self.quantity@.times(len.quantity@).reduced().fits(),
        ensures
            r.quantity@ == self.quantity@.times(len.quantity@).reduced(),
    {
        Speed::new(self.quantity.times(len.quantity))
    }
}

/// Gigasecond.
#[derive(Clone, Copy, Debug, PartialEq, Eq)]
pub struct Gs;

impl Unit for Gs {
    open spec fn seconds() -> Frac {
        Frac { num: 1000000000, den: 1 }
    }

    open spec fn abbrev() -> Seq<char> {
        "Gs"@
    }

    open spec fn inverse_abbrev() -> Seq<char> {
        "nHz"@
    }

    proof fn lemma_seconds() {
    }

    fn factor() -> (r: Ratio) {
        Ratio::new(1000000000, 1)
    }

    fn label() -> (r: &'static str) {
        "Gs"
    }

    fn inverse() -> (r: &'static str) {
        "nHz"
    }
}

/// Megasecond.
#[derive(Clone, Copy, Debug, PartialEq, Eq)]
pub struct Ms;

impl Unit for Ms {
    open spec fn seconds() -> Frac {
        Frac { num: 1000000, den: 1 }
    }

    open spec fn abbrev() -> Seq<char> {
        "Ms"@
    }

    open spec fn inverse_abbrev() -> Seq<char> {
        "μHz"@
    }

    proof fn lemma_seconds() {
    }

    fn factor() -> (r: Ratio) {
        Ratio::new(1000000, 1)
    }

    fn label() -> (r: &'static str) {
        "Ms"
    }

    fn inverse() -> (r: &'static str) {
        "μHz"
    }
}

/// Kilosecond.
#[derive(Clone, Copy, Debug, PartialEq, Eq)]
pub struct Ks;

impl Unit for Ks {
    open spec fn seconds() -> Frac {
        Frac { num: 1000, den: 1 }
    }

    open spec fn abbrev() -> Seq<char> {
        "Ks"@
    }

    open spec fn inverse_abbrev() -> Seq<char> {
        "mHz"@
    }

    proof fn lemma_seconds() {
    }

    fn factor() -> (r: Ratio) {
        Ratio::new(1000, 1)
    }

    fn label() -> (r: &'static str) {
        "Ks"
    }

    fn inverse() -> (r: &'static str) {
        "mHz"
    }
}

/// Week.
#[allow(non_camel_case_types)]
#[derive(Clone, Copy, Debug, PartialEq, Eq)]
pub struct wk;

impl Unit for wk {
    open spec fn seconds() -> Frac {
        Frac { num: 604800, den: 1 }
    }

    open spec fn abbrev() -> Seq<char> {
        "wk"@
    }

    open spec fn inverse_abbrev() -> Seq<char> {
        "/wk"@
    }

    proof fn lemma_seconds() {
    }

    fn factor() -> (r: Ratio) {
        Ratio::new(604800, 1)
    }

    fn label() -> (r: &'static str) {
        "wk"
    }

    fn inverse() -> (r: &'static str) {
        "/wk"
    }
}

/// Day.
#[allow(non_camel_case_types)]
#[derive(Clone, Copy, Debug, PartialEq, Eq)]
pub struct d;

impl Unit for d {
    open spec fn seconds() -> Frac {
        Frac { num: 86400, den: 1 }
    }

    open spec fn abbrev() -> Seq<char> {
        "d"@
    }

    open spec fn inverse_abbrev() -> Seq<char> {
        "/d"@
    }

    proof fn lemma_seconds() {
    }

    fn factor() -> (r: Ratio) {
        Ratio::new(86400, 1)
    }

    fn label() -> (r: &'static str) {
        "d"
    }

    fn inverse() -> (r: &'static str) {
        "/d"
    }
}

/// Hour.
#[allow(non_camel_case_types)]
#[derive(Clone, Copy, Debug, PartialEq, Eq)]
pub struct h;

impl Unit for h {
    open spec fn seconds() -> Frac {
        Frac { num: 3600, den: 1 }
    }

    open spec fn abbrev() -> Seq<char> {
        "h"@
    }

    open spec fn inverse_abbrev() -> Seq<char> {
        "/h"@
    }

    proof fn lemma_seconds() {
    }

    fn factor() -> (r: Ratio) {
        Ratio::new(3600, 1)
    }

    fn label() -> (r: &'static str) {
        "h"
    }

    fn inverse() -> (r: &'static str) {
        "/h"
    }
}

/// Minute.
#[allow(non_camel_case_types)]
#[derive(Clone, Copy, Debug, PartialEq, Eq)]
pub struct min;

impl Unit for min {
    open spec fn seconds() -> Frac {
        Frac { num: 60, den: 1 }
    }

    open spec fn abbrev() -> Seq<char> {
        "min"@
    }

    open spec fn inverse_abbrev() -> Seq<char> {
        "/min"@
    }

    proof fn lemma_seconds() {
    }

    fn factor() -> (r: Ratio) {
        Ratio::new(60, 1)
    }

    fn label() -> (r: &'static str) {
        "min"
    }

    fn inverse() -> (r: &'static str) {
        "/min"
    }
}

/// Second.
#[allow(non_camel_case_types)]
#[derive(Clone, Copy, Debug, PartialEq, Eq)]
pub struct s;

impl Unit for s {
    open spec fn seconds() -> Frac {
        Frac { num: 1, den: 1 }
    }

    open spec fn abbrev() -> Seq<char> {
        "s"@
    }

    open spec fn inverse_abbrev() -> Seq<char> {
        "㎐"@
    }

    proof fn lemma_seconds() {
    }

    fn factor() -> (r: Ratio) {
        Ratio::new(1, 1)
    }

    fn label() -> (r: &'static str) {
        "s"
    }

    fn inverse() -> (r: &'static str) {
        "㎐"
    }
}

/// Decisecond.
#[allow(non_camel_case_types)]
#[derive(Clone, Copy, Debug, PartialEq, Eq)]
pub struct ds;

impl Unit for ds {
    open spec fn seconds() -> Frac {
        Frac { num: 1, den: 10 }
    }

    open spec fn abbrev() -> Seq<char> {
        "ds"@
    }

    open spec fn inverse_abbrev() -> Seq<char> {
        "daHz"@
    }

    proof fn lemma_seconds() {
    }

    fn factor() -> (r: Ratio) {
        Ratio::new(1, 10)
    }

    fn label() -> (r: &'static str) {
        "ds"
    }

    fn inverse() -> (r: &'static str) {
        "daHz"
    }
}

/// Millisecond.
#[allow(non_camel_case_types)]
#[derive(Clone, Copy, Debug, PartialEq, Eq)]
pub struct ms;

impl Unit for ms {
    open spec fn seconds() -> Frac {
        Frac { num: 1, den: 1000 }
    }

    open spec fn abbrev() -> Seq<char> {
        "ms"@
    }

    open spec fn inverse_abbrev() -> Seq<char> {
        "㎑"@
    }

    proof fn lemma_seconds() {
    }

    fn factor() -> (r: Ratio) {
        Ratio::new(1, 1000)
    }

    fn label() -> (r: &'static str) {
        "ms"
    }

    fn inverse() -> (r: &'static str) {
        "㎑"
    }
}

/// Microsecond.
#[allow(non_camel_case_types)]
#[derive(Clone, Copy, Debug, PartialEq, Eq)]
pub struct us;

impl Unit for us {
    open spec fn seconds() -> Frac {
        Frac { num: 1, den: 1000000 }
    }

    open spec fn abbrev() -> Seq<char> {
        "μs"@
    }

    open spec fn inverse_abbrev() -> Seq<char> {
        "㎒"@
    }

    proof fn lemma_seconds() {
    }

    fn factor() -> (r: Ratio) {
        Ratio::new(1, 1000000)
    }

    fn label() -> (r: &'static str) {
        "μs"
    }

    fn inverse() -> (r: &'static str) {
        "㎒"
    }
}

/// Nanosecond.
#[allow(non_camel_case_types)]
#[derive(Clone, Copy, Debug, PartialEq, Eq)]
pub struct ns;

impl Unit for ns {
    open spec fn seconds() -> Frac {
        Frac { num: 1, den: 1000000000 }
    }

    open spec fn abbrev() -> Seq<char> {
        "ns"@
    }

    open spec fn inverse_abbrev() -> Seq<char> {
        "㎓"@
    }

    proof fn lemma_seconds() {
    }

    fn factor() -> (r: Ratio) {
        Ratio::new(1, 1000000000)
    }

    fn label() -> (r: &'static str) {
        "ns"
    }

    fn inverse() -> (r: &'static str) {
        "㎓"
    }
}

/// Picosecond.
#[allow(non_camel_case_types)]
#[derive(Clone, Copy, Debug, PartialEq, Eq)]
pub struct ps;

impl Unit for ps {
    open spec fn seconds() -> Frac {
        Frac { num: 1, den: 1000000000000 }
    }

    open spec fn abbrev() -> Seq<char> {
        "ps"@
    }

    open spec fn inverse_abbrev() -> Seq<char> {
        "㎔"@
    }

    proof fn lemma_seconds() {
    }

    fn factor() -> (r: Ratio) {
        Ratio::new(1, 1000000000000)
    }

    fn label() -> (r: &'static str) {
        "ps"
    }

    fn inverse() -> (r: &'static str) {
        "㎔"
    }
}

} // verus!
