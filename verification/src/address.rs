//! Account addresses and transaction hashes, kept as plain bytes.
//!
//! Parsing and printing are done by `ethers::types::H160` and `H256`; the
//! functions that call them are the unproved parts of this module.

use vstd::prelude::*;
use std::str::FromStr;
use ethers::types::{H160, H256};
use crate::amount::{hex_digit_value, without_prefix};
use crate::error::RestakingError;

verus! {

/// The sixteen hexadecimal digits, lower case.
pub open spec fn hex_digits() -> Seq<char> {
    seq!['0', '1', '2', '3', '4', '5', '6', '7', '8', '9', 'a', 'b', 'c', 'd', 'e', 'f']
}

/// The two digits of one byte, high digit first.
pub open spec fn byte_hex(b: u8) -> Seq<char> {
    seq![hex_digits()[(b / 16) as int], hex_digits()[(b % 16) as int]]
}

/// The digits of a byte string, first byte first.
pub open spec fn lower_hex(bytes: Seq<u8>) -> Seq<char>
    decreases bytes.len(),
{
    if bytes.len() == 0 {
        Seq::<char>::empty()
    } else {
        lower_hex(bytes.drop_last()) + byte_hex(bytes.last())
    }
}

/// `0x` followed by the digits of a byte string.
pub open spec fn prefixed_hex(bytes: Seq<u8>) -> Seq<char> {
    seq!['0', 'x'] + lower_hex(bytes)
}

/// The characters that may stand anywhere between the digits of an address.
pub open spec fn is_blank(c: char) -> bool {
    c == ' ' || c == '\r' || c == '\n' || c == '\t'
}

/// The text without its blanks.
pub open spec fn without_blanks(text: Seq<char>) -> Seq<char>
    decreases text.len(),
{
    if text.len() == 0 {
        Seq::<char>::empty()
    } else if is_blank(text.last()) {
        without_blanks(text.drop_last())
    } else {
        without_blanks(text.drop_last()).push(text.last())
    }
}

/// The value of a hexadecimal digit, or zero for any other character.
pub open spec fn digit_value(c: char) -> nat {
    match hex_digit_value(c) {
        Some(v) => v,
        None => 0,
    }
}

/// The bytes spelled by pairs of hexadecimal digits, high digit first.
pub open spec fn digit_pairs(digits: Seq<char>) -> Seq<u8> {
    Seq::new(
        digits.len() / 2,
        |i: int| (16 * digit_value(digits[2 * i]) + digit_value(digits[2 * i + 1])) as u8,
    )
}

/// The address a text spells: after an optional `0x`, exactly forty hexadecimal
/// digits of either case, with blanks anywhere between them. Anything else
/// spells no address.
pub open spec fn address_from_text(text: Seq<char>) -> Option<Seq<u8>> {
    let digits = without_blanks(without_prefix(text));
    if digits.len() == 40 && forall|i: int|
        0 <= i < digits.len() ==> hex_digit_value(#[trigger] digits[i]) is Some {
        Some(digit_pairs(digits))
    } else {
        None
    }
}

/// A text without blanks is left as it is.
pub proof fn lemma_no_blanks(text: Seq<char>)
    requires
        forall|i: int| 0 <= i < text.len() ==> !is_blank(#[trigger] text[i]),
    ensures
        without_blanks(text) == text,
    decreases text.len(),
{
    if text.len() > 0 {
        lemma_no_blanks(text.drop_last());
        assert(text.drop_last().push(text.last()) =~= text);
    }
}

/// A twenty-byte account or contract address.
#[derive(Clone, Copy, Debug, PartialEq, Eq, Hash)]
pub struct Address {
    pub bytes: [u8; 20],
}

impl View for Address {
    type V = Seq<u8>;

    open spec fn view(&self) -> Seq<u8> {
        self.bytes@
    }
}

/// A thirty-two-byte transaction hash.
#[derive(Clone, Copy, Debug, PartialEq, Eq, Hash)]
pub struct TxHash {
    pub bytes: [u8; 32],
}

impl View for TxHash {
    type V = Seq<u8>;

    open spec fn view(&self) -> Seq<u8> {
        self.bytes@
    }
}

/// `H160::from_str`: the address a text spells, or nothing when the text is
/// refused. The call drops one leading `0x`, skips blanks, reads pairs of digits
/// into twenty bytes and refuses a text that holds anything else, or more or
/// fewer than forty digits.
#[verifier::external_body]
fn address_parse(text: &str) -> (r: Option<Address>)
    ensures
        match address_from_text(text@) {
            Some(bytes) => r matches Some(a) && a@ == bytes,
            None => r is None,
        },
{
    match H160::from_str(text) {
        Ok(h) => Some(Address { bytes: h.0 }),
        Err(_) => None,
    }
}

/// The `Debug` form of `H160`: `0x` and forty lower-case digits.
#[verifier::external_body]
fn address_text(address: &Address) -> (r: String)
    ensures
        r@ == prefixed_hex(address@),
{
    format!("{:?}", H160(address.bytes))
}

/// The `Debug` form of `H256`: `0x` and sixty-four lower-case digits.
#[verifier::external_body]
fn hash_text(hash: &TxHash) -> (r: String)
    ensures
        r@ == prefixed_hex(hash@),
{
    format!("{:?}", H256(hash.bytes))
}

impl Address {
    /// The address of twenty zero bytes.
    pub fn zero() -> (r: Address)
        ensures
            r@ == Seq::new(20, |i: int| 0u8),
    {
        let r = Address { bytes: [0u8; 20] };
        assert(r@ =~= Seq::new(20, |i: int| 0u8));
        r
    }

    /// The address with the given bytes.
    pub fn from_bytes(bytes: [u8; 20]) -> (r: Address)
        ensures
            r@ == bytes@,
    {
        Address { bytes }
    }

    /// Reads an address from its hexadecimal text; a text that does not spell an
    /// address is a validation failure.
    pub fn parse(text: &str) -> (r: Result<Address, RestakingError>)
        ensures
            match address_from_text(text@) {
                Some(bytes) => r matches Ok(a) && a@ == bytes,
                None => r == Err::<Address, RestakingError>(RestakingError::ValidationError),
            },
    {
        match address_parse(text) {
            Some(a) => Ok(a),
            None => Err(RestakingError::ValidationError),
        }
    }

    /// The full hexadecimal text, with its `0x` prefix.
    pub fn to_hex(&self) -> (r: String)
        ensures
            r@ == prefixed_hex(self@),
    {
        address_text(self)
    }

    /// Whether both addresses hold the same bytes.
    pub fn same(&self, other: &Address) -> (r: bool)
        ensures
            r == (self@ == other@),
    {
        let mut i: usize = 0;
        while i < 20
            invariant
                i <= 20,
                forall|k: int| 0 <= k < i ==> self.bytes@[k] == other.bytes@[k],
            decreases 20 - i,
        {
            if self.bytes[i] != other.bytes[i] {
                return false;
            }
            i = i + 1;
        }
        assert(self@ =~= other@);
        true
    }
}

impl TxHash {
    /// The hash with the given bytes.
    pub fn from_bytes(bytes: [u8; 32]) -> (r: TxHash)
        ensures
            r@ == bytes@,
    {
        TxHash { bytes }
    }

    /// The full hexadecimal text, with its `0x` prefix.
    pub fn to_hex(&self) -> (r: String)
        ensures
            r@ == prefixed_hex(self@),
    {
        hash_text(self)
    }
}

} // verus!
