use price_oracle::errors::{FeedError, PriceError};
use price_oracle::fiat::FiatCurrency;
use price_oracle::pipeline::{plan_update, snapshot_or_fallback};
use price_oracle::rates::{validate, Prices};

fn zero_snapshot() -> Prices {
    Prices::default()
}

#[test]
fn test_price_filtering_logic() {
    // Snapshot with a few valid quotes; everything else stays 0.
    let mut test_price = zero_snapshot();
    test_price.EUR = 850_000; // 0.85
    test_price.GBP = 750_000; // 0.75
    test_price.SGD = 1_300_000; // 1.30
    // ARS, BRL, CAD, etc. remain 0

    let valid_prices = validate(&test_price);

    // Should only have 3 valid prices
    assert_eq!(valid_prices.len(), 3);
    assert!(valid_prices
        .iter()
        .any(|v| matches!(v.currency, FiatCurrency::EUR)));
    assert!(valid_prices
        .iter()
        .any(|v| matches!(v.currency, FiatCurrency::GBP)));
    assert!(valid_prices
        .iter()
        .any(|v| matches!(v.currency, FiatCurrency::SGD)));

    // Should not have zero-priced currencies
    assert!(!valid_prices
        .iter()
        .any(|v| matches!(v.currency, FiatCurrency::ARS)));
    assert!(!valid_prices
        .iter()
        .any(|v| matches!(v.currency, FiatCurrency::BRL)));
}

#[test]
fn test_zero_price_protection() {
    // All-zero snapshot, then a partial feed response with some valid prices.
    let mut test_prices = zero_snapshot();
    test_prices.EUR = 862_166; // 0.862166
    test_prices.GBP = 746_083; // 0.746083
    test_prices.SGD = 1_290_295; // 1.290295

    // Verify we can detect zero prices
    assert_eq!(test_prices.ARS, 0);
    assert_eq!(test_prices.BRL, 0);
    assert!(test_prices.EUR > 0);
    assert!(test_prices.GBP > 0);
    assert!(test_prices.SGD > 0);

    println!("Zero price protection test passed");
}

#[test]
fn validate_rejects_negative_and_zero() {
    let mut p = zero_snapshot();
    p.ARS = -5; // malformed quote
    p.EUR = 1; // smallest valid quote
    let valid = validate(&p);
    assert_eq!(valid.len(), 1);
    assert!(matches!(valid[0].currency, FiatCurrency::EUR));
    assert_eq!(valid[0].rate_micros, 1);
}

#[test]
fn validate_keeps_enumeration_order() {
    let mut p = zero_snapshot();
    p.VND = 24_000_000_000; // 24000.0
    p.ARS = 350_000_000; // 350.0
    p.EUR = 850_000;
    let valid = validate(&p);
    let order: Vec<FiatCurrency> = valid.iter().map(|v| v.currency).collect();
    assert_eq!(
        order,
        vec![FiatCurrency::ARS, FiatCurrency::EUR, FiatCurrency::VND]
    );
}

#[test]
fn all_zero_snapshot_validates_empty() {
    let p = zero_snapshot();
    assert!(validate(&p).is_empty());
    let planned = plan_update(&p);
    assert_eq!(planned, Err(PriceError::NoValidPrices));
}

#[test]
fn feed_failure_falls_back_to_zero_and_halts() {
    // Feed call failed entirely: the fallback snapshot is all-zero and the
    // plan is the distinct no-valid-prices error, so no ledger call follows.
    let p = snapshot_or_fallback(Err(FeedError::Transport));
    assert_eq!(p, Prices::default());
    assert_eq!(plan_update(&p), Err(PriceError::NoValidPrices));
}

#[test]
fn feed_success_keeps_snapshot() {
    let mut fetched = zero_snapshot();
    fetched.THB = 36_000_000;
    let p = snapshot_or_fallback(Ok(fetched));
    assert_eq!(p, fetched);
}
