use vstd::prelude::*;

use crate::errors::{FeedError, PriceError};
use crate::fixed::{convert_prices, entries_of, CurrencyPriceEntry};
use crate::rates::{
    lemma_all_zero_validates_empty, lemma_validated_positive, validate, validated_of, Prices,
};

verus! {

/// Settles what the pipeline works on after the feed stage: the fetched
/// snapshot when the feed succeeded, the all-zero fallback when it failed.
/// A feed failure is recovered here, never fatal by itself; the "no usable
/// data" decision is deferred to the validation stage.
pub fn snapshot_or_fallback(fetched: Result<Prices, FeedError>) -> (r: Prices)
    ensures
        fetched matches Ok(p) ==> r == p,
        fetched is Err ==> r.is_all_zero(),
{
    match fetched {
        Ok(p) => p,
        Err(_) => Prices::default(),
    }
}

/// Decides the run from a snapshot: the on-chain price entries to publish,
/// or the distinct no-valid-prices error when every rate was filtered out —
/// in which case the caller must halt before any ledger traffic, since
/// posting zero prices is disallowed. Succeeds exactly when at least one
/// rate in the snapshot is strictly positive.
pub fn plan_update(p: &Prices) -> (r: Result<Vec<CurrencyPriceEntry>, PriceError>)
    ensures
        (r is Ok) <==> validated_of(*p).len() > 0,
        r matches Ok(entries) ==> entries@ == entries_of(validated_of(*p)) && entries@.len() > 0,
        r matches Err(e) ==> e == PriceError::NoValidPrices,
{
    let valid = validate(p);
    if valid.is_empty() {
        return Err(PriceError::NoValidPrices);
    }
    proof {
        assert(forall|i: int|
            0 <= i < valid@.len() ==> 1 <= (#[trigger] valid@[i]).rate_micros <= u64::MAX - 5000);
    }
    Ok(convert_prices(&valid))
}

/// No entry the validator passes on carries a rate of zero or below: every
/// validated price is strictly positive, and it is the snapshot's own quote
/// for a currency of the fixed enumeration.
pub proof fn lemma_validate_only_positive(p: Prices)
    ensures
        forall|i: int|
            0 <= i < validated_of(p).len() ==> 0 < (#[trigger] validated_of(p)[i]).rate_micros,
        forall|i: int|
            0 <= i < validated_of(p).len() ==> (exists|j: int|
                0 <= j < p.pairs().len() && p.pairs()[j].0 > 0 && (#[trigger] validated_of(p)[i])
                    == (crate::rates::ValidatedPrice {
                    currency: p.pairs()[j].1,
                    rate_micros: p.pairs()[j].0 as u64,
                })),
{
    lemma_validated_positive(p.pairs());
}

/// The feed-failure fallback halts the run: an all-zero snapshot validates
/// to nothing, so `plan_update` returns the no-valid-prices error and no
/// transaction — hence no ledger traffic — can follow.
pub proof fn lemma_all_zero_plans_nothing(p: Prices)
    requires
        p.is_all_zero(),
    ensures
        validated_of(p).len() == 0,
        entries_of(validated_of(p)).len() == 0,
{
    lemma_all_zero_validates_empty(p);
}

} // verus!
