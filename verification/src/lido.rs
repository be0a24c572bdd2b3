//! The on-chain adapter for the Lido liquid-staking contract.
//!
//! Staking is a value-bearing call of the contract's `submit` method with no
//! referral. The contract offers no direct withdrawal and this adapter reads no
//! balance, so both are refused as unsupported.

use vstd::prelude::*;
use crate::adapter::RestakingProtocol;
use crate::address::{
    address_from_text,
    digit_pairs,
    is_blank,
    lemma_no_blanks,
    prefixed_hex,
    Address,
};
use crate::amount::{hex_digit_value, without_prefix, Amount};
use crate::error::RestakingError;
use crate::protocol::ProtocolId;
use crate::transport::{
    url_accepted,
    url_parses,
    AdapterCall,
    AdapterReply,
    ContractCall,
    TransactionReceipt,
};

verus! {

/// The address of the Lido staking contract on the main network, as text.
pub open spec fn lido_contract_text() -> Seq<char> {
    "0xae7ab96520DE3A18E5e111B5EaAb095312D7fE84"@
}

/// The address of the Lido staking contract on the main network.
pub open spec fn lido_contract_bytes() -> Seq<u8> {
    seq![
        0xaeu8, 0x7a, 0xb9, 0x65, 0x20, 0xde, 0x3a, 0x18, 0xe5, 0xe1,
        0x11, 0xb5, 0xea, 0xab, 0x09, 0x53, 0x12, 0xd7, 0xfe, 0x84,
    ]
}

/// Whether a statement holds of every index below a bound.
spec fn holds_below(bound: nat, statement: spec_fn(int) -> bool) -> bool
    decreases bound,
{
    bound == 0 || (statement(bound - 1) && holds_below((bound - 1) as nat, statement))
}

/// What holds below a bound holds of every index below it.
proof fn lemma_holds_below(bound: nat, statement: spec_fn(int) -> bool)
    requires
        holds_below(bound, statement),
    ensures
        forall|i: int| 0 <= i < bound ==> #[trigger] statement(i),
    decreases bound,
{
    if bound > 0 {
        lemma_holds_below((bound - 1) as nat, statement);
    }
}

/// The text of the contract address spells the contract address.
pub proof fn lemma_lido_contract()
    ensures
        address_from_text(lido_contract_text()) == Some(lido_contract_bytes()),
{
    reveal_strlit("0xae7ab96520DE3A18E5e111B5EaAb095312D7fE84");
    let text = lido_contract_text();
    let digits = text.skip(2);
    let bytes = lido_contract_bytes();
    assert(without_prefix(text) == digits);
    let is_digit = |i: int| !is_blank(digits[i]) && hex_digit_value(digits[i]) is Some;
    assert(holds_below(40, is_digit)) by {
        reveal_with_fuel(holds_below, 41);
    }
    lemma_holds_below(40, is_digit);
    assert forall|i: int| 0 <= i < digits.len() implies !is_blank(#[trigger] digits[i]) by {
        assert(is_digit(i));
    }
    lemma_no_blanks(digits);
    assert forall|i: int| 0 <= i < digits.len() implies hex_digit_value(
        #[trigger] digits[i],
    ) is Some by {
        assert(is_digit(i));
    }
    let is_byte = |k: int| digit_pairs(digits)[k] == bytes[k];
    assert(holds_below(20, is_byte)) by {
        reveal_with_fuel(holds_below, 21);
    }
    lemma_holds_below(20, is_byte);
    assert forall|k: int| 0 <= k < 20 implies digit_pairs(digits)[k] == bytes[k] by {
        assert(is_byte(k));
    }
    assert(digit_pairs(digits) =~= bytes);
}

/// The staking contract behind one RPC endpoint.
#[derive(Debug, PartialEq, Eq)]
pub struct Lido {
    pub rpc_url: String,
    pub contract: Address,
}

impl Lido {
    /// The adapter for the main-network contract, reached through `rpc_url`. An
    /// address that is no URL is refused as a validation failure.
    pub fn new(rpc_url: &str) -> (r: Result<Lido, RestakingError>)
        ensures
            match r {
                Ok(lido) => url_accepted(rpc_url@) && lido.rpc_url@ == rpc_url@ && lido.contract@
                    == lido_contract_bytes(),
                Err(e) => !url_accepted(rpc_url@) && e == RestakingError::ValidationError,
            },
    {
        proof {
            lemma_lido_contract();
        }
        if !url_parses(rpc_url) {
            return Err(RestakingError::ValidationError);
        }
        match Address::parse("0xae7ab96520DE3A18E5e111B5EaAb095312D7fE84") {
            Ok(contract) => Ok(Lido { rpc_url: rpc_url.to_owned(), contract }),
            Err(e) => Err(e),
        }
    }

    /// The adapter for a contract at another address. An RPC address that is no
    /// URL is refused as a validation failure.
    pub fn at(rpc_url: &str, contract: Address) -> (r: Result<Lido, RestakingError>)
        ensures
            match r {
                Ok(lido) => url_accepted(rpc_url@) && lido.rpc_url@ == rpc_url@ && lido.contract
                    == contract,
                Err(e) => !url_accepted(rpc_url@) && e == RestakingError::ValidationError,
            },
    {
        if !url_parses(rpc_url) {
            return Err(RestakingError::ValidationError);
        }
        Ok(Lido { rpc_url: rpc_url.to_owned(), contract })
    }

    /// What `confirm_stake` makes of a reply: a receipt only for a transaction
    /// that the network accepted.
    pub open spec fn stake_fault(reply: AdapterReply) -> Option<RestakingError> {
        match reply {
            AdapterReply::Accepted { .. } => None,
            AdapterReply::Unreachable => Some(RestakingError::NetworkError),
            AdapterReply::Refused => Some(RestakingError::ValidationError),
            AdapterReply::Answered { .. } => Some(RestakingError::ValidationError),
        }
    }
}

impl RestakingProtocol for Lido {
    open spec fn id(&self) -> Seq<char> {
        "lido"@
    }

    fn protocol_id(&self) -> (r: ProtocolId) {
        ProtocolId::new("lido")
    }

    /// There is nothing to prepare.
    fn initialize(&self) -> (r: Result<Option<AdapterCall>, RestakingError>)
        ensures
            r == Ok::<Option<AdapterCall>, RestakingError>(None),
    {
        Ok(None)
    }

    /// A call of `submit` with no referral that carries `amount` as its value.
    fn stake(&self, amount: Amount) -> (r: Result<AdapterCall, RestakingError>)
        ensures
            r matches Ok(AdapterCall::Submit(call)) && call.rpc_url@ == self.rpc_url@
                && call.contract == self.contract && call.referral@ == Seq::new(
                20,
                |i: int| 0u8,
            ) && call.value == amount,
    {
        Ok(
            AdapterCall::Submit(
                ContractCall {
                    rpc_url: self.rpc_url.clone(),
                    contract: self.contract,
                    referral: Address::zero(),
                    value: amount,
                },
            ),
        )
    }

    /// The contract has no withdrawal path.
    fn unstake(&self, amount: Amount) -> (r: Result<AdapterCall, RestakingError>)
        ensures
            r == Err::<AdapterCall, RestakingError>(RestakingError::UnsupportedOperation),
    {
        Err(RestakingError::UnsupportedOperation)
    }

    /// This adapter reads no balance.
    fn balance(&self, holder: &Address) -> (r: Result<AdapterCall, RestakingError>)
        ensures
            r == Err::<AdapterCall, RestakingError>(RestakingError::UnsupportedOperation),
    {
        Err(RestakingError::UnsupportedOperation)
    }

    /// No call was made, so no reply is in order: a missing answer is a network
    /// failure and anything else is malformed.
    fn confirm_initialize(&self, reply: &AdapterReply) -> (r: Result<(), RestakingError>)
        ensures
            *reply is Unreachable ==> r == Err::<(), RestakingError>(RestakingError::NetworkError),
            !(*reply is Unreachable) ==> r == Err::<(), RestakingError>(
                RestakingError::ValidationError,
            ),
    {
        match reply {
            AdapterReply::Unreachable => Err(RestakingError::NetworkError),
            _ => Err(RestakingError::ValidationError),
        }
    }

    /// The receipt of an accepted transaction carries the transaction hash in
    /// hexadecimal and the time of acceptance.
    fn confirm_stake(&self, amount: Amount, reply: &AdapterReply) -> (r: Result<
        TransactionReceipt,
        RestakingError,
    >)
        ensures
            match *reply {
                AdapterReply::Accepted { tx_hash, timestamp } => r matches Ok(receipt)
                    && receipt.protocol_id@ == "lido"@ && receipt.amount == amount
                    && receipt.tx_or_reference_id@ == prefixed_hex(tx_hash@) && receipt.timestamp
                    == timestamp,
                _ => Lido::stake_fault(*reply) matches Some(e) && r == Err::<
                    TransactionReceipt,
                    RestakingError,
                >(e),
            },
    {
        match reply {
            AdapterReply::Accepted { tx_hash, timestamp } => Ok(
                TransactionReceipt {
                    protocol_id: ProtocolId::new("lido"),
                    amount,
                    tx_or_reference_id: tx_hash.to_hex(),
                    timestamp: *timestamp,
                },
            ),
            AdapterReply::Unreachable => Err(RestakingError::NetworkError),
            AdapterReply::Refused => Err(RestakingError::ValidationError),
            AdapterReply::Answered { .. } => Err(RestakingError::ValidationError),
        }
    }

    /// Never a receipt: the contract has no withdrawal path.
    fn confirm_unstake(&self, amount: Amount, reply: &AdapterReply) -> (r: Result<
        TransactionReceipt,
        RestakingError,
    >)
        ensures
            r == Err::<TransactionReceipt, RestakingError>(RestakingError::UnsupportedOperation),
    {
        Err(RestakingError::UnsupportedOperation)
    }

    /// Never a balance: this adapter reads none.
    fn read_balance(&self, reply: &AdapterReply) -> (r: Result<Amount, RestakingError>)
        ensures
            r == Err::<Amount, RestakingError>(RestakingError::UnsupportedOperation),
    {
        Err(RestakingError::UnsupportedOperation)
    }
}

} // verus!
