//! Derived statistics for the countries of a parsed grand-strategy save.
//!
//! Fractional game quantities are held as integer thousandths ("milli"
//! values); every rounded output is a milli value that is a multiple of ten,
//! that is, a number with two decimal digits.

pub mod fixed;
pub mod calendar;
pub mod model;
pub mod reign;
pub mod text;
pub mod province;
pub mod ledger;
pub mod mana;
pub mod scoring;
pub mod military;
pub mod stats;
pub mod localisation;
