//! The capability set every staking backend offers.
//!
//! An adapter never talks to its backend itself. Each capability comes in two
//! halves: one that describes the call to make, and one that reads the reply the
//! transport brought back. Both halves are pure, so an adapter holds nothing but
//! its configuration.

use vstd::prelude::*;
use crate::address::Address;
use crate::amount::Amount;
use crate::error::RestakingError;
use crate::protocol::ProtocolId;
use crate::transport::{AdapterCall, AdapterReply, TransactionReceipt};

verus! {

/// What every staking backend can do: prepare itself, stake, withdraw, and report
/// a balance. A backend that lacks a capability refuses it as unsupported.
pub trait RestakingProtocol {
    /// The name of the protocol this adapter serves.
    spec fn id(&self) -> Seq<char>;

    /// The identifier of the protocol this adapter serves.
    fn protocol_id(&self) -> (r: ProtocolId)
        ensures
            r@ == self.id(),
    ;

    /// The call that prepares the backend, or nothing when there is nothing to prepare.
    fn initialize(&self) -> (r: Result<Option<AdapterCall>, RestakingError>);

    /// The call that stakes `amount`, whatever the amount is.
    fn stake(&self, amount: Amount) -> (r: Result<AdapterCall, RestakingError>);

    /// The call that withdraws `amount`, whatever the amount is.
    fn unstake(&self, amount: Amount) -> (r: Result<AdapterCall, RestakingError>);

    /// The call that asks for the balance of `holder`.
    fn balance(&self, holder: &Address) -> (r: Result<AdapterCall, RestakingError>);

    /// Reads the reply to the call of `initialize`.
    fn confirm_initialize(&self, reply: &AdapterReply) -> (r: Result<(), RestakingError>);

    /// Reads the reply to the call of `stake`. A receipt is for this protocol and
    /// for the amount that was staked.
    fn confirm_stake(&self, amount: Amount, reply: &AdapterReply) -> (r: Result<
        TransactionReceipt,
        RestakingError,
    >)
        ensures
            r matches Ok(receipt) ==> receipt.protocol_id@ == self.id() && receipt.amount == amount,
    ;

    /// Reads the reply to the call of `unstake`. A receipt is for this protocol and
    /// for the amount that was withdrawn.
    fn confirm_unstake(&self, amount: Amount, reply: &AdapterReply) -> (r: Result<
        TransactionReceipt,
        RestakingError,
    >)
        ensures
            r matches Ok(receipt) ==> receipt.protocol_id@ == self.id() && receipt.amount == amount,
    ;

    /// Reads the reply to the call of `balance`.
    fn read_balance(&self, reply: &AdapterReply) -> (r: Result<Amount, RestakingError>);
}

} // verus!
