//! Money that cannot be mixed across currencies, that keeps its precision,
//! and that is consumed when it is spent.

mod currency;
mod money;
mod price;
mod render;
mod value;

/// Currencies ready for use in examples and tests.
pub mod test;

pub use crate::currency::{iso_subunit_fraction, minor_unit_of, Currency};
pub use crate::money::Money;
pub use crate::price::{
    lemma_settlement_ignores_width, remaining_after, taken_from, unpaid_after, PaymentError, Price,
};
pub use crate::render::{decimal, digit_char, digit_count, fraction_width, padded, rendered};
pub use crate::value::MinorValue;
use vstd::prelude::*;

verus! {

/// The default width of an amount of money in minor units.
pub type MinorUnit = u128;

} // verus!
