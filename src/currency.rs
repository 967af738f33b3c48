use vstd::prelude::*;

verus! {

/// What iso_currency's ISO 4217 table gives as the number of minor units in
/// one major unit of the currency with this alphabetic code.
pub uninterp spec fn iso_subunit_fraction(code: Seq<char>) -> Option<u16>;

/// Relies on iso_currency's `Currency::from_code`, which finds the ISO 4217
/// currency with this alphabetic code, and `Currency::subunit_fraction`, which
/// gives its minor units per major unit as `10_u16.pow(exponent)`; `None` for
/// an unknown code or a currency without minor units.
#[verifier::external_body]
fn subunit_fraction(code: &str) -> (r: Option<u16>)
    ensures
        r == iso_subunit_fraction(code@),
        r matches Some(f) ==> f >= 1,
{
    match iso_currency::Currency::from_code(code) {
        Some(c) => c.subunit_fraction(),
        None => None,
    }
}

/// Minor units in one major unit of the currency with this code; a currency
/// without minor units counts in whole units.
pub open spec fn minor_unit_of(code: Seq<char>) -> nat {
    match iso_subunit_fraction(code) {
        Some(f) => f as nat,
        None => 1,
    }
}

/// A monetary unit, used only as a compile-time tag on amounts of money.
pub trait Currency {
    /// The ISO 4217 alphabetic code of this currency.
    spec fn code() -> Seq<char>;

    /// The ISO 4217 alphabetic code of this currency, such as `"EUR"`.
    fn alphabetic_code() -> (r: &'static str)
        ensures
            r@ == Self::code(),
    ;

    /// How many minor units make one major unit (100 cents in a euro).
    fn minor_unit() -> (r: u16)
        ensures
            r as nat == minor_unit_of(Self::code()),
            r >= 1,
    {
        match subunit_fraction(Self::alphabetic_code()) {
            Some(f) => f,
            None => 1,
        }
    }
}

} // verus!
