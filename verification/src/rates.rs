use vstd::prelude::*;

use crate::fiat::FiatCurrency;

verus! {

/// One snapshot of the feed's USD exchange rates, one field per supported
/// currency, in micro-units: a rate of 0.85 fiat per USD is stored as
/// 850_000. A rate of 0 means "no usable quote" (the feed's fallback value);
/// a negative value is a malformed quote. Both are filtered out by
/// [`validate`].
#[derive(Clone, Copy, PartialEq, Eq, Structural, Debug)]
#[allow(non_snake_case)]
pub struct Prices {
    pub ARS: i64,
    pub BRL: i64,
    pub CAD: i64,
    pub CLP: i64,
    pub COP: i64,
    pub EUR: i64,
    pub GBP: i64,
    pub IDR: i64,
    pub MXN: i64,
    pub MYR: i64,
    pub NGN: i64,
    pub PHP: i64,
    pub SGD: i64,
    pub THB: i64,
    pub VES: i64,
    pub VND: i64,
}

impl Prices {
    /// True when every rate is zero: the snapshot used as fallback when the
    /// feed fails entirely.
    pub open spec fn is_all_zero(self) -> bool {
        &&& self.ARS == 0
        &&& self.BRL == 0
        &&& self.CAD == 0
        &&& self.CLP == 0
        &&& self.COP == 0
        &&& self.EUR == 0
        &&& self.GBP == 0
        &&& self.IDR == 0
        &&& self.MXN == 0
        &&& self.MYR == 0
        &&& self.NGN == 0
        &&& self.PHP == 0
        &&& self.SGD == 0
        &&& self.THB == 0
        &&& self.VES == 0
        &&& self.VND == 0
    }

    /// The snapshot as (rate, currency) pairs in enumeration order.
    pub open spec fn pairs(self) -> Seq<(i64, FiatCurrency)> {
        seq![
            (self.ARS, FiatCurrency::ARS),
            (self.BRL, FiatCurrency::BRL),
            (self.CAD, FiatCurrency::CAD),
            (self.CLP, FiatCurrency::CLP),
            (self.COP, FiatCurrency::COP),
            (self.EUR, FiatCurrency::EUR),
            (self.GBP, FiatCurrency::GBP),
            (self.IDR, FiatCurrency::IDR),
            (self.MXN, FiatCurrency::MXN),
            (self.MYR, FiatCurrency::MYR),
            (self.NGN, FiatCurrency::NGN),
            (self.PHP, FiatCurrency::PHP),
            (self.SGD, FiatCurrency::SGD),
            (self.THB, FiatCurrency::THB),
            (self.VES, FiatCurrency::VES),
            (self.VND, FiatCurrency::VND),
        ]
    }

    /// The snapshot as an exec vector of (rate, currency) pairs, in
    /// enumeration order.
    pub fn to_pairs(&self) -> (r: Vec<(i64, FiatCurrency)>)
        ensures
            r@ == self.pairs(),
    {
        let r: Vec<(i64, FiatCurrency)> = vec![
            (self.ARS, FiatCurrency::ARS),
            (self.BRL, FiatCurrency::BRL),
            (self.CAD, FiatCurrency::CAD),
            (self.CLP, FiatCurrency::CLP),
            (self.COP, FiatCurrency::COP),
            (self.EUR, FiatCurrency::EUR),
            (self.GBP, FiatCurrency::GBP),
            (self.IDR, FiatCurrency::IDR),
            (self.MXN, FiatCurrency::MXN),
            (self.MYR, FiatCurrency::MYR),
            (self.NGN, FiatCurrency::NGN),
            (self.PHP, FiatCurrency::PHP),
            (self.SGD, FiatCurrency::SGD),
            (self.THB, FiatCurrency::THB),
            (self.VES, FiatCurrency::VES),
            (self.VND, FiatCurrency::VND),
        ];
        assert(r@ =~= self.pairs());
        r
    }
}

impl Default for Prices {
    /// The all-zero snapshot, substituted when the feed fails.
    fn default() -> (r: Self)
        ensures
            r.is_all_zero(),
    {
        Prices {
            ARS: 0,
            BRL: 0,
            CAD: 0,
            CLP: 0,
            COP: 0,
            EUR: 0,
            GBP: 0,
            IDR: 0,
            MXN: 0,
            MYR: 0,
            NGN: 0,
            PHP: 0,
            SGD: 0,
            THB: 0,
            VES: 0,
            VND: 0,
        }
    }
}

/// A currency together with a rate that survived the positivity filter:
/// strictly positive, still in micro-units.
#[derive(Clone, Copy, PartialEq, Eq, Structural, Debug)]
pub struct ValidatedPrice {
    pub currency: FiatCurrency,
    pub rate_micros: u64,
}

/// The validated prices of one (rate, currency) pair: a singleton when the
/// rate is strictly positive, empty otherwise. Zero, negative, and absent
/// quotes are all rejected here.
pub open spec fn validated_of_pair(p: (i64, FiatCurrency)) -> Seq<ValidatedPrice> {
    if p.0 > 0 {
        seq![ValidatedPrice { currency: p.1, rate_micros: p.0 as u64 }]
    } else {
        Seq::empty()
    }
}

/// The validated prices of a sequence of pairs, in order.
pub open spec fn validated_of_pairs(s: Seq<(i64, FiatCurrency)>) -> Seq<ValidatedPrice>
    decreases s.len(),
{
    if s.len() == 0 {
        Seq::empty()
    } else {
        validated_of_pairs(s.drop_last()) + validated_of_pair(s.last())
    }
}

/// What `validate` returns on a snapshot: its pairs, in enumeration order,
/// filtered down to the strictly positive rates.
pub open spec fn validated_of(p: Prices) -> Seq<ValidatedPrice> {
    validated_of_pairs(p.pairs())
}

/// Every validated price has a strictly positive rate, and it is the
/// snapshot's own rate for that currency (as recorded in the pair sequence).
pub proof fn lemma_validated_positive(s: Seq<(i64, FiatCurrency)>)
    ensures
        forall|i: int|
            0 <= i < validated_of_pairs(s).len() ==> 0 < (
            #[trigger] validated_of_pairs(s)[i]).rate_micros <= i64::MAX as u64,
        forall|i: int|
            0 <= i < validated_of_pairs(s).len() ==> (exists|j: int|
                0 <= j < s.len() && s[j].0 > 0 && (#[trigger] validated_of_pairs(s)[i])
                    == (ValidatedPrice { currency: s[j].1, rate_micros: s[j].0 as u64 })),
    decreases s.len(),
{
    if s.len() > 0 {
        lemma_validated_positive(s.drop_last());
        assert forall|i: int| 0 <= i < validated_of_pairs(s).len() implies (exists|j: int|
            0 <= j < s.len() && s[j].0 > 0 && (#[trigger] validated_of_pairs(s)[i])
                == (ValidatedPrice { currency: s[j].1, rate_micros: s[j].0 as u64 })) by {
            let pre = validated_of_pairs(s.drop_last());
            if i < pre.len() {
                let j = choose|j: int|
                    0 <= j < s.drop_last().len() && s.drop_last()[j].0 > 0 && pre[i]
                        == ValidatedPrice {
                        currency: s.drop_last()[j].1,
                        rate_micros: s.drop_last()[j].0 as u64,
                    };
                assert(s[j] == s.drop_last()[j]);
            } else {
                assert(s[s.len() - 1] == s.last());
            }
        }
    }
}

/// An all-zero snapshot validates to the empty sequence: when the feed
/// failed there is nothing fit to publish.
pub proof fn lemma_all_zero_validates_empty(p: Prices)
    requires
        p.is_all_zero(),
    ensures
        validated_of(p).len() == 0,
{
    assert(validated_of(p) =~= Seq::<ValidatedPrice>::empty()) by {
        reveal_with_fuel(validated_of_pairs, 17);
    }
}

/// Appends the validated form of one quote: the pair itself when its rate is
/// strictly positive, nothing otherwise.
fn push_validated(acc: &mut Vec<ValidatedPrice>, rate: i64, currency: FiatCurrency)
    ensures
        final(acc)@ == old(acc)@ + validated_of_pair((rate, currency)),
{
    let ghost before = acc@;
    if rate > 0 {
        acc.push(ValidatedPrice { currency, rate_micros: rate as u64 });
    }
    assert(acc@ =~= before + validated_of_pair((rate, currency)));
}

/// Filters a snapshot down to the usable quotes: walks the currency
/// enumeration in declaration order and keeps exactly the strictly positive
/// rates. Returns the empty vector precisely when no rate is positive.
pub fn validate(p: &Prices) -> (r: Vec<ValidatedPrice>)
    ensures
        r@ == validated_of(*p),
        forall|i: int| 0 <= i < r@.len() ==> 0 < (#[trigger] r@[i]).rate_micros <= i64::MAX as u64,
{
    let pairs = p.to_pairs();
    let mut acc: Vec<ValidatedPrice> = Vec::new();
    let n = pairs.len();
    for k in 0..n
        invariant
            n == pairs@.len(),
            pairs@ == p.pairs(),
            acc@ == validated_of_pairs(pairs@.take(k as int)),
    {
        let (rate, currency) = pairs[k];
        push_validated(&mut acc, rate, currency);
        proof {
            let t = pairs@.take(k + 1 as int);
            assert(t.drop_last() =~= pairs@.take(k as int));
            assert(t.last() == pairs@[k as int]);
        }
    }
    proof {
        assert(pairs@.take(n as int) =~= pairs@);
        lemma_validated_positive(pairs@);
    }
    acc
}

} // verus!
