use katjing::test::{EUR, JPY, KWD, SEK};
use katjing::{Currency, Money};

#[test]
fn shows_value() {
    let one_sek = Money::<SEK>::new(1);
    assert_eq!(one_sek.to_string(), "1.00 SEK")
}

#[test]
fn shows_minor_unit() {
    let one_thirtythree_sek = Money::<SEK>::in_minor_unit(133);
    assert_eq!(one_thirtythree_sek.to_string(), "1.33 SEK");
}

#[test]
fn shows_zero() {
    assert_eq!(Money::<EUR>::in_minor_unit(0).to_string(), "0.00 EUR");
}

#[test]
fn pads_minor_part_with_zeros() {
    assert_eq!(Money::<EUR>::in_minor_unit(1205).to_string(), "12.05 EUR");
    assert_eq!(Money::<EUR>::in_minor_unit(7).to_string(), "0.07 EUR");
}

#[test]
fn shows_currency_without_minor_unit() {
    assert_eq!(Money::<JPY>::in_minor_unit(1500).to_string(), "1500 JPY");
}

#[test]
fn shows_three_minor_digits() {
    assert_eq!(Money::<KWD>::in_minor_unit(12005).to_string(), "12.005 KWD");
}

#[test]
fn shows_narrow_width() {
    assert_eq!(Money::<SEK, u8>::in_minor_unit(255).to_string(), "2.55 SEK");
}

#[test]
fn shows_largest_amount() {
    assert_eq!(
        Money::<SEK>::in_minor_unit(u128::MAX).to_string(),
        "3402823669209384634633746074317682114.55 SEK"
    );
}

#[test]
fn minor_units_come_from_iso_table() {
    assert_eq!(SEK::minor_unit(), 100);
    assert_eq!(EUR::minor_unit(), 100);
    assert_eq!(JPY::minor_unit(), 1);
    assert_eq!(KWD::minor_unit(), 1000);
    assert_eq!(SEK::alphabetic_code(), "SEK");
}
