use crate::currency::{minor_unit_of, Currency};
use crate::render::{render, rendered};
use crate::value::MinorValue;
use crate::MinorUnit;
use core::marker::PhantomData;
use vstd::prelude::*;

verus! {

/// A non-negative balance of currency `C`, counted in minor units held in `V`.
#[derive(Debug, PartialEq, Eq, PartialOrd)]
pub struct Money<C: Currency, V: MinorValue = MinorUnit> {
    pub(crate) minor_unit: V,
    pub(crate) currency: PhantomData<C>,
}

impl<C: Currency, V: MinorValue> Money<C, V> {
    /// The balance in minor units.
    pub open(crate) spec fn value(&self) -> nat {
        self.minor_unit.units()
    }

    /// Creates money from an amount in major units (euros, not cents).
    pub fn new(value: V) -> (r: Money<C, V>)
        requires
            value.units() * minor_unit_of(C::code()) <= V::max_units(),
        ensures
            r.value() == value.units() * minor_unit_of(C::code()),
    {
        let scale = C::minor_unit();
        let major = value.to_u128();
        proof {
            value.lemma_units_bounded();
        }
        let scaled = major * (scale as u128);
        Self::in_minor_unit(V::from_u128(scaled).unwrap())
    }

    /// Creates money from an amount in major units, or `None` when the amount
    /// in minor units does not fit in `V`.
    pub fn checked_new(value: V) -> (r: Option<Money<C, V>>)
        ensures
            r is Some <==> value.units() * minor_unit_of(C::code()) <= V::max_units(),
            r matches Some(m) ==> m.value() == value.units() * minor_unit_of(C::code()),
    {
        let scale = C::minor_unit();
        let major = value.to_u128();
        proof {
            value.lemma_units_bounded();
        }
        match major.checked_mul(scale as u128) {
            Some(scaled) => match V::from_u128(scaled) {
                Some(_) => Some(Self::new(value)),
                None => None,
            },
            None => None,
        }
    }

    /// Creates money from an amount in minor units (cents, not euros).
    pub fn in_minor_unit(minor_unit: V) -> (r: Money<C, V>)
        ensures
            r.value() == minor_unit.units(),
    {
        Money { minor_unit, currency: PhantomData }
    }

    /// The balance as text: major units, a point, the minor units zero-padded
    /// to the width the currency's scale implies, and the currency code, such
    /// as `"1.33 SEK"`.
    pub fn to_string(&self) -> (r: String)
        ensures
            r@ == rendered(self.value(), minor_unit_of(C::code()), C::code()),
    {
        render(self.minor_unit.to_u128(), C::minor_unit(), C::alphabetic_code())
    }
}

impl<C: Currency, V: MinorValue> Default for Money<C, V> {
    /// No money at all.
    fn default() -> (r: Money<C, V>)
        ensures
            r.value() == 0,
    {
        Money::in_minor_unit(V::zero())
    }
}

} // verus!
