use crate::currency::{minor_unit_of, Currency};
use crate::money::Money;
use crate::value::MinorValue;
use crate::MinorUnit;
use core::cmp::Ordering;
use core::marker::PhantomData;
use vstd::prelude::*;

verus! {

/// A non-negative amount of currency `C` that is owed, counted in minor
/// units held in `V`.
#[derive(Debug, PartialEq, Eq)]
pub struct Price<C: Currency, V: MinorValue = MinorUnit> {
    pub(crate) minor_unit: V,
    pub(crate) currency: PhantomData<C>,
}

/// Why a guarded payment did not go through.
#[derive(Debug)]
pub enum PaymentError<C: Currency, MV: MinorValue = MinorUnit, AV: MinorValue = MinorUnit> {
    /// The money does not cover the price; both are handed back untouched.
    NotEnoughMoney { required: Price<C, AV>, availible: Money<C, MV> },
}

/// What is left of a balance after an amount is settled against it.
pub open spec fn remaining_after(balance: nat, amount: nat) -> nat {
    if amount <= balance {
        (balance - amount) as nat
    } else {
        0
    }
}

/// The part of an amount that a balance covers: never more than the balance.
pub open spec fn taken_from(balance: nat, amount: nat) -> nat {
    if amount <= balance {
        amount
    } else {
        balance
    }
}

/// The part of an amount that a balance leaves unpaid.
pub open spec fn unpaid_after(balance: nat, amount: nat) -> nat {
    (amount - taken_from(balance, amount)) as nat
}

impl<C: Currency, V: MinorValue> Price<C, V> {
    /// The price in minor units.
    pub open(crate) spec fn value(&self) -> nat {
        self.minor_unit.units()
    }

    /// Creates a price from an amount in major units (euros, not cents).
    pub fn new(amount: V) -> (r: Price<C, V>)
        requires
            amount.units() * minor_unit_of(C::code()) <= V::max_units(),
        ensures
            r.value() == amount.units() * minor_unit_of(C::code()),
    {
        let scale = C::minor_unit();
        let major = amount.to_u128();
        proof {
            amount.lemma_units_bounded();
        }
        let scaled = major * (scale as u128);
        Self::in_minor_unit(V::from_u128(scaled).unwrap())
    }

    /// Creates a price from an amount in major units, or `None` when the
    /// amount in minor units does not fit in `V`.
    pub fn checked_new(amount: V) -> (r: Option<Price<C, V>>)
        ensures
            r is Some <==> amount.units() * minor_unit_of(C::code()) <= V::max_units(),
            r matches Some(p) ==> p.value() == amount.units() * minor_unit_of(C::code()),
    {
        let scale = C::minor_unit();
        let major = amount.to_u128();
        proof {
            amount.lemma_units_bounded();
        }
        match major.checked_mul(scale as u128) {
            Some(scaled) => match V::from_u128(scaled) {
                Some(_) => Some(Self::new(amount)),
                None => None,
            },
            None => None,
        }
    }

    /// Creates a price from an amount in minor units (cents, not euros).
    pub fn in_minor_unit(minor_unit: V) -> (r: Price<C, V>)
        ensures
            r.value() == minor_unit.units(),
    {
        Price { minor_unit, currency: PhantomData }
    }
}

impl<C: Currency, MV: MinorValue, AV: MinorValue> PartialEq<Money<C, MV>> for Price<C, AV> {
    fn eq(&self, other: &Money<C, MV>) -> (r: bool) {
        self.minor_unit.to_u128() == other.minor_unit.to_u128()
    }
}

impl<C: Currency, MV: MinorValue, AV: MinorValue> vstd::std_specs::cmp::PartialEqSpecImpl<Money<C, MV>> for Price<C, AV> {
    open spec fn obeys_eq_spec() -> bool {
        true
    }

    open spec fn eq_spec(&self, other: &Money<C, MV>) -> bool {
        self.value() == other.value()
    }
}

impl<C: Currency, MV: MinorValue, AV: MinorValue> PartialOrd<Money<C, MV>> for Price<C, AV> {
    fn partial_cmp(&self, other: &Money<C, MV>) -> (r: Option<Ordering>) {
        Some(self.minor_unit.to_u128().cmp(&other.minor_unit.to_u128()))
    }
}

impl<C: Currency, MV: MinorValue, AV: MinorValue> vstd::std_specs::cmp::PartialOrdSpecImpl<Money<C, MV>> for Price<C, AV> {
    open spec fn obeys_partial_cmp_spec() -> bool {
        true
    }

    open spec fn partial_cmp_spec(&self, other: &Money<C, MV>) -> Option<Ordering> {
        if self.value() < other.value() {
            Some(Ordering::Less)
        } else if self.value() == other.value() {
            Some(Ordering::Equal)
        } else {
            Some(Ordering::Greater)
        }
    }
}

impl<C: Currency, V: MinorValue> Money<C, V> {
    /// Settles `price` against this money.
    ///
    /// Returns what remains of the money and how much of the price it covered,
    /// in the price's own width. The money is used up when it does not cover
    /// the whole price.
    pub fn take<AV: MinorValue>(self, price: Price<C, AV>) -> (r: (Money<C, V>, Price<C, AV>))
        ensures
            r.0.value() == remaining_after(self.value(), price.value()),
            r.1.value() == taken_from(self.value(), price.value()),
            price.value() <= self.value() ==> r.0.value() == self.value() - price.value()
                && r.1.value() == price.value(),
            price.value() == self.value() ==> r.0.value() == 0 && r.1.value() == price.value(),
            price.value() > self.value() ==> r.0.value() == 0 && r.1.value() == self.value(),
            price.value() == 0 ==> r.0.value() == self.value() && r.1.value() == 0,
    {
        proof {
            self.minor_unit.lemma_units_bounded();
            price.minor_unit.lemma_units_bounded();
        }
        // The price in the money's width, clamped to the largest money there is.
        let needed = match V::from_u128(price.minor_unit.to_u128()) {
            Some(n) => n,
            None => V::max_value(),
        };
        match needed.compare(&self.minor_unit) {
            Ordering::Less => {
                let remaining = self.minor_unit.checked_sub(&needed).unwrap();
                let taken = AV::from_u128(needed.to_u128()).unwrap();
                (Money::in_minor_unit(remaining), Price::in_minor_unit(taken))
            },
            _ => {
                let taken = AV::from_u128(self.minor_unit.to_u128()).unwrap();
                (Money::in_minor_unit(V::zero()), Price::in_minor_unit(taken))
            },
        }
    }

    /// Pays as much of `price` as this money covers.
    ///
    /// Returns what remains of the money and what is still owed of the price.
    pub fn pay<AV: MinorValue>(self, price: Price<C, AV>) -> (r: (Money<C, V>, Price<C, AV>))
        ensures
            r.0.value() == remaining_after(self.value(), price.value()),
            r.1.value() == unpaid_after(self.value(), price.value()),
    {
        proof {
            price.minor_unit.lemma_units_bounded();
        }
        let requested = price.minor_unit.to_u128();
        let (remaining, taken) = self.take(price);
        let unpaid = requested.checked_sub(taken.minor_unit.to_u128()).unwrap();
        (remaining, Price::in_minor_unit(AV::from_u128(unpaid).unwrap()))
    }

    /// Pays `price` in full, or hands both back when this money does not cover it.
    pub fn try_pay<AV: MinorValue>(self, price: Price<C, AV>) -> (r: Result<
        Money<C, V>,
        PaymentError<C, V, AV>,
    >)
        ensures
            r is Ok <==> price.value() <= self.value(),
            r matches Ok(change) ==> change.value() == self.value() - price.value(),
            r matches Err(PaymentError::NotEnoughMoney { required, availible }) ==> required
                == price && availible == self,
    {
        if price <= self {
            let (change, _) = self.pay(price);
            Ok(change)
        } else {
            Err(PaymentError::NotEnoughMoney { required: price, availible: self })
        }
    }
}

/// Settlement depends on the amounts in minor units alone: settling equal
/// amounts gives equal results, whichever widths hold the money and the price.
pub proof fn lemma_settlement_ignores_width<
    C: Currency,
    MV1: MinorValue,
    AV1: MinorValue,
    MV2: MinorValue,
    AV2: MinorValue,
>(money1: Money<C, MV1>, price1: Price<C, AV1>, money2: Money<C, MV2>, price2: Price<C, AV2>)
    requires
        money1.value() == money2.value(),
        price1.value() == price2.value(),
    ensures
        remaining_after(money1.value(), price1.value()) == remaining_after(
            money2.value(),
            price2.value(),
        ),
        taken_from(money1.value(), price1.value()) == taken_from(money2.value(), price2.value()),
        unpaid_after(money1.value(), price1.value()) == unpaid_after(
            money2.value(),
            price2.value(),
        ),
{
}

} // verus!
