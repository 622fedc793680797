use vstd::prelude::*;

verus! {

/// The closed set of fiat currencies whose USD rates the oracle publishes.
/// Declaration order is the canonical enumeration order: every sequence the
/// library produces lists currencies in this order.
#[derive(Clone, Copy, PartialEq, Eq, Structural, Debug)]
pub enum FiatCurrency {
    ARS,
    BRL,
    CAD,
    CLP,
    COP,
    EUR,
    GBP,
    IDR,
    MXN,
    MYR,
    NGN,
    PHP,
    SGD,
    THB,
    VES,
    VND,
}

impl FiatCurrency {
    /// The three-letter ISO code of the currency, as a character sequence.
    pub open spec fn code_chars(self) -> Seq<char> {
        match self {
            FiatCurrency::ARS => "ARS"@,
            FiatCurrency::BRL => "BRL"@,
            FiatCurrency::CAD => "CAD"@,
            FiatCurrency::CLP => "CLP"@,
            FiatCurrency::COP => "COP"@,
            FiatCurrency::EUR => "EUR"@,
            FiatCurrency::GBP => "GBP"@,
            FiatCurrency::IDR => "IDR"@,
            FiatCurrency::MXN => "MXN"@,
            FiatCurrency::MYR => "MYR"@,
            FiatCurrency::NGN => "NGN"@,
            FiatCurrency::PHP => "PHP"@,
            FiatCurrency::SGD => "SGD"@,
            FiatCurrency::THB => "THB"@,
            FiatCurrency::VES => "VES"@,
            FiatCurrency::VND => "VND"@,
        }
    }

    /// The three-letter ISO code of the currency.
    pub fn code(self) -> (r: &'static str)
        ensures
            r@ == self.code_chars(),
    {
        match self {
            FiatCurrency::ARS => "ARS",
            FiatCurrency::BRL => "BRL",
            FiatCurrency::CAD => "CAD",
            FiatCurrency::CLP => "CLP",
            FiatCurrency::COP => "COP",
            FiatCurrency::EUR => "EUR",
            FiatCurrency::GBP => "GBP",
            FiatCurrency::IDR => "IDR",
            FiatCurrency::MXN => "MXN",
            FiatCurrency::MYR => "MYR",
            FiatCurrency::NGN => "NGN",
            FiatCurrency::PHP => "PHP",
            FiatCurrency::SGD => "SGD",
            FiatCurrency::THB => "THB",
            FiatCurrency::VES => "VES",
            FiatCurrency::VND => "VND",
        }
    }
}

} // verus!
