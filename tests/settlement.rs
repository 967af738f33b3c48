use katjing::test::SEK;
use katjing::{Money, Price};

#[test]
fn take_less_than_balance() {
    let (remaining, taken) = Money::<SEK>::in_minor_unit(500).take(Price::<SEK>::in_minor_unit(120));
    assert_eq!(remaining, Money::in_minor_unit(380));
    assert_eq!(taken, Price::in_minor_unit(120));
}

#[test]
fn take_whole_balance() {
    let (remaining, taken) = Money::<SEK>::in_minor_unit(250).take(Price::<SEK>::in_minor_unit(250));
    assert_eq!(remaining, Money::in_minor_unit(0));
    assert_eq!(taken, Price::in_minor_unit(250));
}

#[test]
fn take_more_than_balance() {
    let (remaining, taken) = Money::<SEK>::in_minor_unit(190).take(Price::<SEK>::in_minor_unit(200));
    assert_eq!(remaining, Money::in_minor_unit(0));
    assert_eq!(taken, Price::in_minor_unit(190));
}

#[test]
fn take_nothing() {
    let (remaining, taken) = Money::<SEK>::in_minor_unit(77).take(Price::<SEK>::in_minor_unit(0));
    assert_eq!(remaining, Money::in_minor_unit(77));
    assert_eq!(taken, Price::in_minor_unit(0));
    let (remaining, taken) = Money::<SEK, u8>::in_minor_unit(0).take(Price::<SEK, u64>::in_minor_unit(0));
    assert_eq!(remaining, Money::in_minor_unit(0));
    assert_eq!(taken, Price::in_minor_unit(0));
}

#[test]
fn narrow_balance_wide_price() {
    let (remaining, taken) = Money::<SEK, u8>::in_minor_unit(15).take(Price::<SEK, u32>::in_minor_unit(20));
    assert_eq!(remaining, Money::in_minor_unit(0));
    assert_eq!(taken, Price::<SEK, u32>::in_minor_unit(15));
}

#[test]
fn wide_balance_narrow_price() {
    let (remaining, taken) = Money::<SEK, u16>::in_minor_unit(512).take(Price::<SEK, u8>::in_minor_unit(128));
    assert_eq!(remaining, Money::<SEK, u16>::in_minor_unit(384));
    assert_eq!(taken, Price::in_minor_unit(128));
}

#[test]
fn price_beyond_balance_width_is_clamped() {
    let (remaining, taken) = Money::<SEK, u8>::in_minor_unit(200).take(Price::<SEK, u128>::in_minor_unit(1000));
    assert_eq!(remaining, Money::in_minor_unit(0));
    assert_eq!(taken, Price::in_minor_unit(200));
    let (remaining, taken) = Money::<SEK, u8>::in_minor_unit(255).take(Price::<SEK, u16>::in_minor_unit(300));
    assert_eq!(remaining, Money::in_minor_unit(0));
    assert_eq!(taken, Price::in_minor_unit(255));
}

#[test]
fn settlement_same_in_every_width() {
    let (r1, t1) = Money::<SEK, u8>::in_minor_unit(90).take(Price::<SEK, u64>::in_minor_unit(60));
    let (r2, t2) = Money::<SEK, u128>::in_minor_unit(90).take(Price::<SEK, u16>::in_minor_unit(60));
    assert_eq!(r1, Money::in_minor_unit(30));
    assert_eq!(r2, Money::in_minor_unit(30));
    assert_eq!(t1, Price::in_minor_unit(60));
    assert_eq!(t2, Price::in_minor_unit(60));
    let (r1, t1) = Money::<SEK, u8>::in_minor_unit(40).take(Price::<SEK, u64>::in_minor_unit(60));
    let (r2, t2) = Money::<SEK, u64>::in_minor_unit(40).take(Price::<SEK, u8>::in_minor_unit(60));
    assert_eq!(r1, Money::in_minor_unit(0));
    assert_eq!(r2, Money::in_minor_unit(0));
    assert_eq!(t1, Price::in_minor_unit(40));
    assert_eq!(t2, Price::in_minor_unit(40));
}

#[test]
fn largest_balance_covers_largest_price() {
    let (remaining, taken) =
        Money::<SEK>::in_minor_unit(u128::MAX).take(Price::<SEK>::in_minor_unit(u128::MAX));
    assert_eq!(remaining, Money::in_minor_unit(0));
    assert_eq!(taken, Price::in_minor_unit(u128::MAX));
}
