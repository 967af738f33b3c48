use crate::currency::Currency;
use vstd::prelude::*;

verus! {

/// The Swedish krona.
#[derive(Debug, PartialEq, PartialOrd)]
pub struct SEK();

impl Currency for SEK {
    open spec fn code() -> Seq<char> {
        "SEK"@
    }

    fn alphabetic_code() -> (r: &'static str) {
        "SEK"
    }
}

/// The euro.
#[derive(Debug, PartialEq, PartialOrd)]
pub struct EUR();

impl Currency for EUR {
    open spec fn code() -> Seq<char> {
        "EUR"@
    }

    fn alphabetic_code() -> (r: &'static str) {
        "EUR"
    }
}

/// The Japanese yen, which has no minor unit.
#[derive(Debug, PartialEq, PartialOrd)]
pub struct JPY();

impl Currency for JPY {
    open spec fn code() -> Seq<char> {
        "JPY"@
    }

    fn alphabetic_code() -> (r: &'static str) {
        "JPY"
    }
}

/// The Kuwaiti dinar, of a thousand fils.
#[derive(Debug, PartialEq, PartialOrd)]
pub struct KWD();

impl Currency for KWD {
    open spec fn code() -> Seq<char> {
        "KWD"@
    }

    fn alphabetic_code() -> (r: &'static str) {
        "KWD"
    }
}

} // verus!
