use vstd::arithmetic::div_mod::lemma_fundamental_div_mod;
use vstd::prelude::*;

use crate::fiat::FiatCurrency;
use crate::rates::ValidatedPrice;

verus! {

/// The on-chain form of one validated price: the currency, its USD rate as
/// an unsigned fixed-point integer with two implied decimal places, and the
/// protocol-mandated `updated_at` placeholder (always zero in this flow: the
/// contract stamps the real time on-chain).
#[derive(Clone, Copy, PartialEq, Eq, Structural, Debug)]
pub struct CurrencyPriceEntry {
    pub currency: FiatCurrency,
    pub usd_price: u64,
    pub updated_at: u64,
}

/// The fixed-point value of a rate given in micro-units: the rate scaled by
/// 100 (two implied decimals) and rounded to the nearest integer, ties away
/// from zero. In micro-units that is division by 10_000 after adding half a
/// step.
pub open spec fn fixed_of(rate_micros: u64) -> u64 {
    (((rate_micros as nat) + 5000) / 10000) as u64
}

/// Converts one positive micro-unit rate to its two-decimal fixed-point
/// integer: round to nearest, ties away from zero. Rates of zero or below
/// never reach this function (the validator filters them out), so they are
/// excluded rather than wrapped into a garbage integer.
pub fn to_fixed_point(rate_micros: u64) -> (r: u64)
    requires
        rate_micros >= 1,
        rate_micros <= u64::MAX - 5000,
    ensures
        r == fixed_of(rate_micros),
{
    (rate_micros + 5000) / 10000
}

/// `fixed_of` really is rounding to the nearest multiple of 10_000
/// micro-units, with a tie (a remainder of exactly half a step) rounded away
/// from zero: the chosen integer differs from the exact scaled rate by at
/// most half a step, and only the upper deviation reaches the full 5000.
pub proof fn lemma_fixed_point_nearest(rate_micros: u64)
    ensures
        (fixed_of(rate_micros) as int) * 10000 - 5000 <= rate_micros as int,
        rate_micros as int <= (fixed_of(rate_micros) as int) * 10000 + 4999,
{
    lemma_fundamental_div_mod(rate_micros as int + 5000, 10000);
}

/// The on-chain entry of one validated price: same currency, fixed-point
/// rate, zero timestamp placeholder.
pub open spec fn entry_of(v: ValidatedPrice) -> CurrencyPriceEntry {
    CurrencyPriceEntry { currency: v.currency, usd_price: fixed_of(v.rate_micros), updated_at: 0 }
}

/// The on-chain entries of a validated price list, in the same order.
pub open spec fn entries_of(s: Seq<ValidatedPrice>) -> Seq<CurrencyPriceEntry> {
    s.map_values(|v: ValidatedPrice| entry_of(v))
}

/// Conversion to on-chain entries keeps length, order and currencies: the
/// currencies that reach the transaction are exactly the validated ones —
/// a subset of the fixed enumeration — each with its rounded rate and a
/// zero timestamp placeholder.
pub proof fn lemma_entries_preserve_currencies(s: Seq<ValidatedPrice>)
    ensures
        entries_of(s).len() == s.len(),
        forall|i: int|
            0 <= i < s.len() ==> (#[trigger] entries_of(s)[i]).currency == s[i].currency,
        forall|i: int| 0 <= i < s.len() ==> (#[trigger] entries_of(s)[i]).usd_price == fixed_of(s[i].rate_micros),
        forall|i: int| 0 <= i < s.len() ==> (#[trigger] entries_of(s)[i]).updated_at == 0,
{
}

/// Converts every validated price to its on-chain entry, keeping order and
/// currencies unchanged.
pub fn convert_prices(prices: &Vec<ValidatedPrice>) -> (r: Vec<CurrencyPriceEntry>)
    requires
        forall|i: int|
            0 <= i < prices@.len() ==> 1 <= (#[trigger] prices@[i]).rate_micros <= u64::MAX - 5000,
    ensures
        r@ == entries_of(prices@),
{
    let mut r: Vec<CurrencyPriceEntry> = Vec::new();
    let n = prices.len();
    for k in 0..n
        invariant
            n == prices@.len(),
            forall|i: int|
                0 <= i < prices@.len() ==> 1 <= (#[trigger] prices@[i]).rate_micros <= u64::MAX
                    - 5000,
            r@ == entries_of(prices@.take(k as int)),
    {
        let v = prices[k];
        let usd_price = to_fixed_point(v.rate_micros);
        r.push(CurrencyPriceEntry { currency: v.currency, usd_price, updated_at: 0 });
        assert(r@ =~= entries_of(prices@.take(k + 1 as int)));
    }
    assert(prices@.take(n as int) =~= prices@);
    r
}

} // verus!
