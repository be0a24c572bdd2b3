//! 256-bit unsigned quantities.
//!
//! An [`Amount`] keeps its four 64-bit words as plain values, least significant
//! first, and its view is the natural number they spell. Arithmetic is carried out
//! by `ethers::types::U256`; the functions that call it are the only unproved
//! parts of this module and each one says what it relies on.

use vstd::prelude::*;
use std::str::FromStr;
use ethers::types::U256;

verus! {

/// One more than the largest value an `Amount` can hold: two to the power 256.
pub open spec fn amount_limit() -> nat {
    0x1_0000_0000_0000_0000_0000_0000_0000_0000_0000_0000_0000_0000_0000_0000_0000_0000nat
}

/// The number spelled by four 64-bit words, least significant first.
pub open spec fn words_value(w0: u64, w1: u64, w2: u64, w3: u64) -> nat {
    (w0 as nat) + (w1 as nat) * 0x1_0000_0000_0000_0000nat
        + (w2 as nat) * 0x1_0000_0000_0000_0000_0000_0000_0000_0000nat
        + (w3 as nat) * 0x1_0000_0000_0000_0000_0000_0000_0000_0000_0000_0000_0000_0000nat
}

/// The ten decimal digits.
pub open spec fn decimal_digits() -> Seq<char> {
    seq!['0', '1', '2', '3', '4', '5', '6', '7', '8', '9']
}

/// A number in decimal, without leading zeros; zero is `0`.
pub open spec fn decimal_text(n: nat) -> Seq<char>
    decreases n,
{
    if n < 10 {
        seq![decimal_digits()[n as int]]
    } else {
        decimal_text(n / 10).push(decimal_digits()[(n % 10) as int])
    }
}

/// The value of a hexadecimal digit of either case.
pub open spec fn hex_digit_value(c: char) -> Option<nat> {
    let code = c as u32;
    if 48 <= code <= 57 {
        Some((code - 48) as nat)
    } else if 97 <= code <= 102 {
        Some((code - 87) as nat)
    } else if 65 <= code <= 70 {
        Some((code - 55) as nat)
    } else {
        None
    }
}

/// The number spelled by hexadecimal digits, most significant first.
pub open spec fn hex_number(digits: Seq<char>) -> nat
    decreases digits.len(),
{
    if digits.len() == 0 {
        0
    } else {
        16 * hex_number(digits.drop_last()) + match hex_digit_value(digits.last()) {
            Some(v) => v,
            None => 0,
        }
    }
}

/// The text without a leading `0x`, if it has one.
pub open spec fn without_prefix(text: Seq<char>) -> Seq<char> {
    if text.len() >= 2 && text[0] == '0' && text[1] == 'x' {
        text.skip(2)
    } else {
        text
    }
}

/// The amount a hexadecimal text spells: after an optional `0x`, at most
/// sixty-four digits of either case. The empty text spells zero.
pub open spec fn parsed_amount(text: Seq<char>) -> Option<nat> {
    let digits = without_prefix(text);
    if digits.len() <= 64 && forall|i: int|
        0 <= i < digits.len() ==> hex_digit_value(#[trigger] digits[i]) is Some {
        Some(hex_number(digits))
    } else {
        None
    }
}

/// The amount a hexadecimal text spells if it holds at least one digit; a text
/// without digits spells nothing.
pub open spec fn parsed_quantity(text: Seq<char>) -> Option<nat> {
    if without_prefix(text).len() == 0 {
        None
    } else {
        parsed_amount(text)
    }
}

/// An unsigned quantity below two to the power 256.
#[derive(Clone, Copy, Debug, PartialEq, Eq, Structural)]
pub struct Amount {
    pub w0: u64,
    pub w1: u64,
    pub w2: u64,
    pub w3: u64,
}

impl View for Amount {
    type V = nat;

    open spec fn view(&self) -> nat {
        words_value(self.w0, self.w1, self.w2, self.w3)
    }
}

/// Two amounts with the same value have the same words, and every value is below the limit.
pub proof fn lemma_amount_value(a: Amount, b: Amount)
    ensures
        a@ < amount_limit(),
        a@ == b@ <==> a == b,
{
    let base: int = 0x1_0000_0000_0000_0000;
    let upper_a: int = a.w1 + a.w2 * base + a.w3 * 0x1_0000_0000_0000_0000_0000_0000_0000_0000int;
    let upper_b: int = b.w1 + b.w2 * base + b.w3 * 0x1_0000_0000_0000_0000_0000_0000_0000_0000int;
    assert(a@ == a.w0 + upper_a * base);
    assert(b@ == b.w0 + upper_b * base);
    if a@ == b@ {
        assert(upper_a == upper_b) by {
            if upper_a < upper_b {
                assert((upper_b - upper_a) * base >= base);
            }
            if upper_b < upper_a {
                assert((upper_a - upper_b) * base >= base);
            }
        }
        let top_a: int = a.w2 + a.w3 * base;
        let top_b: int = b.w2 + b.w3 * base;
        assert(upper_a == a.w1 + top_a * base);
        assert(upper_b == b.w1 + top_b * base);
        assert(top_a == top_b) by {
            if top_a < top_b {
                assert((top_b - top_a) * base >= base);
            }
            if top_b < top_a {
                assert((top_a - top_b) * base >= base);
            }
        }
        assert(a.w3 == b.w3) by {
            if a.w3 < b.w3 {
                assert((b.w3 - a.w3) * base >= base);
            }
            if b.w3 < a.w3 {
                assert((a.w3 - b.w3) * base >= base);
            }
        }
    }
}

/// `U256::checked_add`: the sum when it is below two to the power 256, otherwise nothing.
#[verifier::external_body]
fn wide_checked_add(a: Amount, b: Amount) -> (r: Option<Amount>)
    ensures
        r is Some <==> a@ + b@ < amount_limit(),
        r matches Some(s) ==> s@ == a@ + b@,
{
    match U256([a.w0, a.w1, a.w2, a.w3]).checked_add(U256([b.w0, b.w1, b.w2, b.w3])) {
        Some(s) => Some(Amount { w0: s.0[0], w1: s.0[1], w2: s.0[2], w3: s.0[3] }),
        None => None,
    }
}

/// `U256::checked_sub`: the difference when the subtrahend is not larger, otherwise nothing.
#[verifier::external_body]
fn wide_checked_sub(a: Amount, b: Amount) -> (r: Option<Amount>)
    ensures
        r is Some <==> b@ <= a@,
        r matches Some(d) ==> d@ == a@ - b@,
{
    match U256([a.w0, a.w1, a.w2, a.w3]).checked_sub(U256([b.w0, b.w1, b.w2, b.w3])) {
        Some(d) => Some(Amount { w0: d.0[0], w1: d.0[1], w2: d.0[2], w3: d.0[3] }),
        None => None,
    }
}

/// `U256::checked_mul`: the product when it is below two to the power 256, otherwise nothing.
#[verifier::external_body]
fn wide_checked_mul(a: Amount, b: Amount) -> (r: Option<Amount>)
    ensures
        r is Some <==> a@ * b@ < amount_limit(),
        r matches Some(p) ==> p@ == a@ * b@,
{
    match U256([a.w0, a.w1, a.w2, a.w3]).checked_mul(U256([b.w0, b.w1, b.w2, b.w3])) {
        Some(p) => Some(Amount { w0: p.0[0], w1: p.0[1], w2: p.0[2], w3: p.0[3] }),
        None => None,
    }
}

/// `U256::div_mod`: quotient and remainder of the division by a divisor that is not zero
/// (the call aborts on a zero divisor, which the precondition rules out).
#[verifier::external_body]
fn wide_div_mod(a: Amount, b: Amount) -> (r: (Amount, Amount))
    requires
        b@ != 0,
    ensures
        r.0@ == a@ / b@,
        r.1@ == a@ % b@,
{
    let (q, m) = U256([a.w0, a.w1, a.w2, a.w3]).div_mod(U256([b.w0, b.w1, b.w2, b.w3]));
    (
        Amount { w0: q.0[0], w1: q.0[1], w2: q.0[2], w3: q.0[3] },
        Amount { w0: m.0[0], w1: m.0[1], w2: m.0[2], w3: m.0[3] },
    )
}

/// The `Display` form of `U256`: the value in decimal.
#[verifier::external_body]
fn wide_to_decimal(a: Amount) -> (r: String)
    ensures
        r@ == decimal_text(a@),
{
    U256([a.w0, a.w1, a.w2, a.w3]).to_string()
}

/// `U256::from_str`: the value of a hexadecimal text, or nothing when the text
/// is too long or holds anything but digits after an optional `0x`.
#[verifier::external_body]
fn wide_from_hex(text: &str) -> (r: Option<Amount>)
    ensures
        match parsed_amount(text@) {
            Some(value) => r matches Some(a) && a@ == value,
            None => r is None,
        },
{
    match U256::from_str(text) {
        Ok(v) => Some(Amount { w0: v.0[0], w1: v.0[1], w2: v.0[2], w3: v.0[3] }),
        Err(_) => None,
    }
}

impl Amount {
    /// The amount zero.
    pub fn zero() -> (r: Amount)
        ensures
            r@ == 0,
    {
        Amount { w0: 0, w1: 0, w2: 0, w3: 0 }
    }

    /// The amount with the given 64-bit value.
    pub fn from_u64(x: u64) -> (r: Amount)
        ensures
            r@ == x,
    {
        Amount { w0: x, w1: 0, w2: 0, w3: 0 }
    }

    /// The amount with the given 128-bit value.
    pub fn from_u128(x: u128) -> (r: Amount)
        ensures
            r@ == x,
    {
        let low: u128 = x % 0x1_0000_0000_0000_0000;
        let high: u128 = x / 0x1_0000_0000_0000_0000;
        Amount { w0: low as u64, w1: high as u64, w2: 0, w3: 0 }
    }

    /// The amount spelled by four words, least significant first.
    pub fn from_words(w0: u64, w1: u64, w2: u64, w3: u64) -> (r: Amount)
        ensures
            r@ == words_value(w0, w1, w2, w3),
            r == (Amount { w0, w1, w2, w3 }),
    {
        Amount { w0, w1, w2, w3 }
    }

    /// Whether the amount is zero.
    pub fn is_zero(&self) -> (r: bool)
        ensures
            r == (self@ == 0),
    {
        self.w0 == 0 && self.w1 == 0 && self.w2 == 0 && self.w3 == 0
    }

    /// The value as a 128-bit integer, when it fits.
    pub fn to_u128(&self) -> (r: Option<u128>)
        ensures
            r is Some <==> self@ <= u128::MAX,
            r matches Some(v) ==> v == self@,
    {
        if self.w2 == 0 && self.w3 == 0 {
            let high: u128 = self.w1 as u128;
            let low: u128 = self.w0 as u128;
            Some(high * 0x1_0000_0000_0000_0000 + low)
        } else {
            None
        }
    }

    /// The sum, unless it does not fit in 256 bits.
    pub fn checked_add(self, other: Amount) -> (r: Option<Amount>)
        ensures
            r is Some <==> self@ + other@ < amount_limit(),
            r matches Some(s) ==> s@ == self@ + other@,
    {
        wide_checked_add(self, other)
    }

    /// The difference, unless `other` is larger than `self`.
    pub fn checked_sub(self, other: Amount) -> (r: Option<Amount>)
        ensures
            r is Some <==> other@ <= self@,
            r matches Some(d) ==> d@ == self@ - other@,
    {
        wide_checked_sub(self, other)
    }

    /// The product, unless it does not fit in 256 bits.
    pub fn checked_mul(self, other: Amount) -> (r: Option<Amount>)
        ensures
            r is Some <==> self@ * other@ < amount_limit(),
            r matches Some(p) ==> p@ == self@ * other@,
    {
        wide_checked_mul(self, other)
    }

    /// Quotient and remainder, unless the divisor is zero.
    pub fn div_rem(self, divisor: Amount) -> (r: Option<(Amount, Amount)>)
        ensures
            r is Some <==> divisor@ != 0,
            r matches Some(qr) ==> qr.0@ == self@ / divisor@ && qr.1@ == self@ % divisor@,
    {
        if divisor.is_zero() {
            None
        } else {
            Some(wide_div_mod(self, divisor))
        }
    }

    /// The value in decimal.
    pub fn to_decimal(&self) -> (r: String)
        ensures
            r@ == decimal_text(self@),
    {
        wide_to_decimal(*self)
    }

    /// Reads an amount from hexadecimal text, with or without a leading `0x`.
    pub fn parse(text: &str) -> (r: Option<Amount>)
        ensures
            match parsed_amount(text@) {
                Some(value) => r matches Some(a) && a@ == value,
                None => r is None,
            },
    {
        wide_from_hex(text)
    }

    /// Reads an amount from hexadecimal text that holds at least one digit,
    /// with or without a leading `0x`.
    pub fn parse_quantity(text: &str) -> (r: Option<Amount>)
        ensures
            match parsed_quantity(text@) {
                Some(value) => r matches Some(a) && a@ == value,
                None => r is None,
            },
    {
        let length = text.unicode_len();
        if length == 0 {
            return None;
        }
        if length == 2 && text.get_char(0) == '0' && text.get_char(1) == 'x' {
            return None;
        }
        wide_from_hex(text)
    }
}

} // verus!
