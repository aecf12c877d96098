//! Unit-safe physical quantities: length, area, volume, mass, time,
//! frequency, temperature and speed.
//!
//! Every quantity carries its unit as a type parameter, so that quantities
//! of different units cannot be added, subtracted or compared by accident;
//! `to` converts a quantity to another unit of the same measure. Magnitudes
//! are exact rationals (`ratio::Ratio`), so conversions and arithmetic lose
//! nothing; text output rounds only when it is written.
//!
//! - `length`, `mass`, `time`, `temp`: units and quantities of each measure
//! - `speed`: a unit of length per unit of time
//! - `ratio`, `text`: exact magnitudes and their decimal text
//! - `laws`: conversion and dimensional laws, proved
use vstd::prelude::*;

pub mod laws;
pub mod length;
pub mod mass;
pub mod measure;
pub mod ratio;
pub mod speed;
pub mod temp;
pub mod text;
pub mod time;

pub use length::{Area, Length, Volume};
pub use speed::Speed;
pub use time::{Frequency, Period};
