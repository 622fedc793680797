use vstd::prelude::*;

use crate::fixed::CurrencyPriceEntry;

verus! {

/// The character of one decimal digit.
pub open spec fn digit_char(d: nat) -> char
    recommends
        d < 10,
{
    if d == 0 {
        '0'
    } else if d == 1 {
        '1'
    } else if d == 2 {
        '2'
    } else if d == 3 {
        '3'
    } else if d == 4 {
        '4'
    } else if d == 5 {
        '5'
    } else if d == 6 {
        '6'
    } else if d == 7 {
        '7'
    } else if d == 8 {
        '8'
    } else {
        '9'
    }
}

/// The decimal representation of a number, without leading zeroes (a lone
/// zero for 0).
pub open spec fn dec_chars(n: nat) -> Seq<char>
    decreases n,
{
    if n < 10 {
        seq![digit_char(n)]
    } else {
        dec_chars(n / 10).push(digit_char(n % 10))
    }
}

/// The string of one decimal digit.
fn digit_str(d: u64) -> (r: &'static str)
    requires
        d < 10,
    ensures
        r@ =~= seq![digit_char(d as nat)],
{
    proof {
        reveal_strlit("0");
        reveal_strlit("1");
        reveal_strlit("2");
        reveal_strlit("3");
        reveal_strlit("4");
        reveal_strlit("5");
        reveal_strlit("6");
        reveal_strlit("7");
        reveal_strlit("8");
        reveal_strlit("9");
    }
    match d {
        0 => "0",
        1 => "1",
        2 => "2",
        3 => "3",
        4 => "4",
        5 => "5",
        6 => "6",
        7 => "7",
        8 => "8",
        _ => "9",
    }
}

/// Renders a number in decimal, most significant digit first, no leading
/// zeroes.
pub fn u64_to_dec(n: u64) -> (r: String)
    ensures
        r@ == dec_chars(n as nat),
    decreases n,
{
    if n < 10 {
        digit_str(n).to_owned()
    } else {
        let mut s = u64_to_dec(n / 10);
        s.append(digit_str(n % 10));
        proof {
            assert(s@ =~= dec_chars((n / 10) as nat).push(digit_char((n % 10) as nat)));
        }
        s
    }
}

/// Whether a character is a decimal digit.
pub open spec fn is_dec_digit(c: char) -> bool {
    48 <= c as u32 <= 57
}

/// The numeric value of a decimal digit character.
pub open spec fn digit_val(c: char) -> nat
    recommends
        is_dec_digit(c),
{
    (c as u32 - 48) as nat
}

/// Whether every character of a sequence is a decimal digit.
pub open spec fn all_dec_digits(s: Seq<char>) -> bool {
    forall|i: int| 0 <= i < s.len() ==> is_dec_digit(#[trigger] s[i])
}

/// The numeric value of a digit string, most significant digit first.
pub open spec fn dec_val(s: Seq<char>) -> nat
    recommends
        all_dec_digits(s),
    decreases s.len(),
{
    if s.len() == 0 {
        0
    } else {
        dec_val(s.drop_last()) * 10 + digit_val(s.last())
    }
}

/// A digit character is a digit, and carries the digit's value.
proof fn lemma_digit_char_val(d: nat)
    requires
        d < 10,
    ensures
        is_dec_digit(digit_char(d)),
        digit_val(digit_char(d)) == d,
{
}

/// The decimal codec round-trips: what `u64_to_dec` renders is all digits,
/// and parsing it back yields the number rendered.
pub proof fn lemma_dec_round_trip(n: nat)
    ensures
        all_dec_digits(dec_chars(n)),
        dec_val(dec_chars(n)) == n,
    decreases n,
{
    if n < 10 {
        lemma_digit_char_val(n);
        assert(dec_chars(n) =~= seq![digit_char(n)]);
        assert(dec_chars(n).drop_last() =~= Seq::<char>::empty());
        assert(dec_val(Seq::<char>::empty()) == 0);
        assert(dec_val(dec_chars(n)) == dec_val(dec_chars(n).drop_last()) * 10 + digit_val(
            dec_chars(n).last(),
        ));
    } else {
        lemma_dec_round_trip(n / 10);
        lemma_digit_char_val(n % 10);
        let prefix = dec_chars(n / 10);
        let c = digit_char(n % 10);
        assert(dec_chars(n).drop_last() =~= prefix);
        assert(dec_chars(n).last() == c);
        assert forall|i: int| 0 <= i < dec_chars(n).len() implies is_dec_digit(
            #[trigger] dec_chars(n)[i],
        ) by {
            if i < prefix.len() {
                assert(dec_chars(n)[i] == prefix[i]);
            } else {
                assert(dec_chars(n)[i] == c);
            }
        }
        vstd::arithmetic::div_mod::lemma_fundamental_div_mod(n as int, 10);
        assert(dec_val(dec_chars(n)) == dec_val(prefix) * 10 + digit_val(c));
    }
}

/// A digit string's value never falls below the value of any of its
/// prefixes: appending digits only multiplies and adds.
proof fn lemma_dec_val_take_mono(s: Seq<char>, j: int)
    requires
        0 <= j <= s.len(),
    ensures
        dec_val(s.take(j)) <= dec_val(s),
    decreases s.len() - j,
{
    if j < s.len() {
        lemma_dec_val_take_mono(s, j + 1);
        let t = s.take(j + 1);
        assert(t.drop_last() =~= s.take(j));
        assert(dec_val(s.take(j)) <= dec_val(t));
    } else {
        assert(s.take(j) =~= s);
    }
}

/// Parses a decimal string to an unsigned integer. Returns the value exactly
/// when the string is nonempty, all digits, and the value fits in 64 bits;
/// anything else is an error — never a silent default.
pub fn parse_u64_dec(s: &str) -> (r: Option<u64>)
    ensures
        r is Some <==> s@.len() > 0 && all_dec_digits(s@) && dec_val(s@) <= u64::MAX,
        r is Some ==> r->0 == dec_val(s@),
{
    let len = s.unicode_len();
    if len == 0 {
        return None;
    }
    let mut n: u64 = 0;
    for i in 0..len
        invariant
            len == s@.len(),
            all_dec_digits(s@.take(i as int)),
            n == dec_val(s@.take(i as int)),
    {
        let c = s.get_char(i);
        let v = c as u32;
        proof {
            assert(s@.take(i + 1 as int).drop_last() =~= s@.take(i as int));
        }
        if v < 48 || v > 57 {
            assert(!is_dec_digit(s@[i as int]));
            return None;
        }
        let d = (v - 48) as u64;
        let shifted = match n.checked_mul(10) {
            Some(m) => m,
            None => {
                proof {
                    lemma_dec_val_take_mono(s@, i + 1);
                }
                return None;
            },
        };
        let next = match shifted.checked_add(d) {
            Some(m) => m,
            None => {
                proof {
                    lemma_dec_val_take_mono(s@, i + 1);
                }
                return None;
            },
        };
        n = next;
    }
    proof {
        assert(s@.take(len as int) =~= s@);
    }
    Some(n)
}

/// One price entry in the contract's execute-message encoding: the currency
/// code and the fixed-point price as a JSON string, the timestamp
/// placeholder as a bare number.
pub open spec fn entry_json(e: CurrencyPriceEntry) -> Seq<char> {
    "{\"currency\":\""@ + e.currency.code_chars() + "\",\"usd_price\":\""@ + dec_chars(
        e.usd_price as nat,
    ) + "\",\"updated_at\":"@ + dec_chars(e.updated_at as nat) + "}"@
}

/// A comma-separated list of encoded price entries, in sequence order.
pub open spec fn entries_json(s: Seq<CurrencyPriceEntry>) -> Seq<char>
    decreases s.len(),
{
    if s.len() == 0 {
        Seq::empty()
    } else if s.len() == 1 {
        entry_json(s[0])
    } else {
        entries_json(s.drop_last()) + ","@ + entry_json(s.last())
    }
}

/// The contract's execute message: the tagged `update_prices` variant
/// carrying the encoded price list.
pub open spec fn update_prices_json(s: Seq<CurrencyPriceEntry>) -> Seq<char> {
    "{\"update_prices\":["@ + entries_json(s) + "]}"@
}

/// Renders one price entry in the contract's encoding.
fn entry_json_string(e: &CurrencyPriceEntry) -> (r: String)
    ensures
        r@ == entry_json(*e),
{
    let mut s = ("{\"currency\":\"").to_owned();
    s.append(e.currency.code());
    s.append("\",\"usd_price\":\"");
    let price = u64_to_dec(e.usd_price);
    s.append(price.as_str());
    s.append("\",\"updated_at\":");
    let ts = u64_to_dec(e.updated_at);
    s.append(ts.as_str());
    s.append("}");
    proof {
        assert(s@ =~= entry_json(*e));
    }
    s
}

/// Serializes the price entries into the contract's expected execute-message
/// encoding: the `update_prices` tagged variant carrying the full list, in
/// the order given.
pub fn encode_update_prices(entries: &Vec<CurrencyPriceEntry>) -> (r: String)
    ensures
        r@ == update_prices_json(entries@),
{
    let mut s = ("{\"update_prices\":[").to_owned();
    let n = entries.len();
    for k in 0..n
        invariant
            n == entries@.len(),
            s@ == "{\"update_prices\":["@ + entries_json(entries@.take(k as int)),
    {
        if k > 0 {
            s.append(",");
        }
        let piece = entry_json_string(&entries[k]);
        s.append(piece.as_str());
        proof {
            let t = entries@.take(k + 1 as int);
            assert(t.drop_last() =~= entries@.take(k as int));
            assert(t.last() == entries@[k as int]);
            assert(s@ =~= "{\"update_prices\":["@ + entries_json(t));
        }
    }
    s.append("]}");
    proof {
        assert(entries@.take(n as int) =~= entries@);
        assert(s@ =~= update_prices_json(entries@));
    }
    s
}

/// The ledger REST path that answers an account query for an address.
pub open spec fn account_path() -> Seq<char> {
    "cosmos/auth/v1beta1/accounts/"@
}

/// Builds the account-query URL for an address from the LCD base URL (which
/// carries its own trailing slash, as configured).
pub fn account_url(lcd_base: &str, address: &str) -> (r: String)
    ensures
        r@ == lcd_base@ + account_path() + address@,
{
    let mut s = lcd_base.to_owned();
    s.append("cosmos/auth/v1beta1/accounts/");
    s.append(address);
    proof {
        assert(s@ =~= lcd_base@ + account_path() + address@);
    }
    s
}

} // verus!
