use price_oracle::codec::{account_url, encode_update_prices, parse_u64_dec, u64_to_dec};
use price_oracle::errors::{PriceError, RpcError};
use price_oracle::fiat::FiatCurrency;
use price_oracle::fixed::to_fixed_point;
use price_oracle::identity::parse_account_meta;
use price_oracle::pipeline::plan_update;
use price_oracle::rates::Prices;

#[test]
fn fixed_point_rounds_to_nearest() {
    // 0.862166 * 100 rounds to 86
    assert_eq!(to_fixed_point(862_166), 86);
    // 1.295 * 100 = 129.5 rounds away from zero to 130
    assert_eq!(to_fixed_point(1_295_000), 130);
    assert_eq!(to_fixed_point(850_000), 85);
    assert_eq!(to_fixed_point(750_000), 75);
    assert_eq!(to_fixed_point(1_300_000), 130);
    // below half a step rounds down
    assert_eq!(to_fixed_point(1_294_999), 129);
    // the smallest valid rate rounds to zero on-chain
    assert_eq!(to_fixed_point(1), 0);
}

#[test]
fn decimal_rendering() {
    assert_eq!(u64_to_dec(0), "0");
    assert_eq!(u64_to_dec(7), "7");
    assert_eq!(u64_to_dec(130), "130");
    assert_eq!(u64_to_dec(u64::MAX), "18446744073709551615");
}

#[test]
fn decimal_parsing() {
    assert_eq!(parse_u64_dec("7"), Some(7));
    assert_eq!(parse_u64_dec("0"), Some(0));
    assert_eq!(parse_u64_dec("007"), Some(7));
    assert_eq!(parse_u64_dec("18446744073709551615"), Some(u64::MAX));
    assert_eq!(parse_u64_dec(""), None);
    assert_eq!(parse_u64_dec("12a"), None);
    assert_eq!(parse_u64_dec("-3"), None);
    assert_eq!(parse_u64_dec(" 7"), None);
    // one past u64::MAX overflows
    assert_eq!(parse_u64_dec("18446744073709551616"), None);
}

#[test]
fn account_meta_parses_decimal_strings() {
    // sequence "7" must become the integer 7, never a silent default
    let meta = parse_account_meta("7", "42").unwrap();
    assert_eq!(meta.sequence, 7);
    assert_eq!(meta.account_number, 42);
}

#[test]
fn account_meta_rejects_non_numeric() {
    assert_eq!(
        parse_account_meta("seven", "42"),
        Err(RpcError::MalformedSequence)
    );
    assert_eq!(parse_account_meta("", "42"), Err(RpcError::MalformedSequence));
    assert_eq!(
        parse_account_meta("7", "4x"),
        Err(RpcError::MalformedAccountNumber)
    );
}

#[test]
fn account_url_shape() {
    assert_eq!(
        account_url("http://localhost:1317/", "wasm1abc"),
        "http://localhost:1317/cosmos/auth/v1beta1/accounts/wasm1abc"
    );
}

#[test]
fn update_message_end_to_end() {
    // snapshot {EUR: 0.85, GBP: 0.75, SGD: 1.30, ARS: 0.0, BRL: 0.0}
    let mut p = Prices::default();
    p.EUR = 850_000;
    p.GBP = 750_000;
    p.SGD = 1_300_000;
    p.ARS = 0;
    p.BRL = 0;

    let entries = plan_update(&p).unwrap();
    assert_eq!(entries.len(), 3);
    assert!(matches!(entries[0].currency, FiatCurrency::EUR));
    assert!(matches!(entries[1].currency, FiatCurrency::GBP));
    assert!(matches!(entries[2].currency, FiatCurrency::SGD));
    assert_eq!(entries[0].usd_price, 85);
    assert_eq!(entries[1].usd_price, 75);
    assert_eq!(entries[2].usd_price, 130);
    assert!(entries.iter().all(|e| e.updated_at == 0));
    assert!(!entries
        .iter()
        .any(|e| matches!(e.currency, FiatCurrency::ARS)));
    assert!(!entries
        .iter()
        .any(|e| matches!(e.currency, FiatCurrency::BRL)));

    let msg = encode_update_prices(&entries);
    assert_eq!(
        msg,
        "{\"update_prices\":[\
         {\"currency\":\"EUR\",\"usd_price\":\"85\",\"updated_at\":0},\
         {\"currency\":\"GBP\",\"usd_price\":\"75\",\"updated_at\":0},\
         {\"currency\":\"SGD\",\"usd_price\":\"130\",\"updated_at\":0}]}"
    );
}

#[test]
fn update_message_single_entry() {
    let mut p = Prices::default();
    p.VES = 36_500_000; // 36.5
    let entries = plan_update(&p).unwrap();
    let msg = encode_update_prices(&entries);
    assert_eq!(
        msg,
        "{\"update_prices\":[{\"currency\":\"VES\",\"usd_price\":\"3650\",\"updated_at\":0}]}"
    );
}

#[test]
fn no_valid_prices_is_the_only_plan_error() {
    let p = Prices::default();
    match plan_update(&p) {
        Err(PriceError::NoValidPrices) => {}
        other => panic!("expected NoValidPrices, got {:?}", other),
    }
}
