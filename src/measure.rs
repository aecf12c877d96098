//! Measures: the kinds of quantity that units belong to.
use vstd::prelude::*;

verus! {

/// Measure of length (and of the areas and volumes built from it).
#[derive(Clone, Copy, Debug, PartialEq, Eq)]
pub struct Length;

/// Measure of time.
#[derive(Clone, Copy, Debug, PartialEq, Eq)]
pub struct Time;

/// Measure of mass.
#[derive(Clone, Copy, Debug, PartialEq, Eq)]
pub struct Mass;

/// Measure of thermodynamic temperature.
#[derive(Clone, Copy, Debug, PartialEq, Eq)]
pub struct Temperature;

/// Marker for measures whose quantities scale by multiplication and division
/// with a plain number. Temperature is affine and has no such operations.
pub trait MulUnit {}

impl MulUnit for Length {}

impl MulUnit for Time {}

impl MulUnit for Mass {}

} // verus!
