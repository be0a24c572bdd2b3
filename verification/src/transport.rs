//! What an adapter asks the transport to do, and what the transport reports back.
//!
//! Nothing here performs a call. An adapter describes the call as plain data; the
//! caller carries it out and hands the reply back as plain data.

use vstd::prelude::*;
use reqwest::Url;
use crate::address::{Address, TxHash};
use crate::amount::Amount;
use crate::error::RestakingError;
use crate::protocol::ProtocolId;

verus! {

/// The request methods the custodial service is called with.
#[derive(Clone, Copy, Debug, PartialEq, Eq, Structural)]
pub enum HttpMethod {
    Get,
    Post,
}

/// One text member of a JSON request body.
#[derive(Debug, PartialEq, Eq)]
pub struct BodyField {
    pub name: String,
    pub value: String,
}

/// An authenticated REST call. `fields` are the members of the JSON object sent
/// as the body; a call without a body has none.
#[derive(Debug, PartialEq, Eq)]
pub struct ApiRequest {
    pub method: HttpMethod,
    pub url: String,
    pub authorization: String,
    pub content_type_json: bool,
    pub fields: Vec<BodyField>,
}

/// The members of a request body as pairs of name and value.
pub open spec fn field_texts(fields: Seq<BodyField>) -> Seq<(Seq<char>, Seq<char>)> {
    Seq::new(fields.len(), |i: int| (fields[i].name@, fields[i].value@))
}

/// A value-bearing call of the staking contract's `submit(referral)` method.
#[derive(Debug, PartialEq, Eq)]
pub struct ContractCall {
    pub rpc_url: String,
    pub contract: Address,
    pub referral: Address,
    pub value: Amount,
}

/// A call for the transport to carry out.
#[derive(Debug, PartialEq, Eq)]
pub enum AdapterCall {
    /// Send a transaction to a contract.
    Submit(ContractCall),
    /// Send a REST request.
    Http(ApiRequest),
}

/// What came of a call.
#[derive(Debug, PartialEq, Eq)]
pub enum AdapterReply {
    /// No answer arrived.
    Unreachable,
    /// The node answered and did not take the transaction.
    Refused,
    /// The network accepted the transaction.
    Accepted { tx_hash: TxHash, timestamp: u64 },
    /// The service answered with a status and a body.
    Answered { status: u16, body: String, timestamp: u64 },
}

/// Proof that a stake or an unstake was taken by the backend.
#[derive(Debug, PartialEq, Eq)]
pub struct TransactionReceipt {
    pub protocol_id: ProtocolId,
    pub amount: Amount,
    pub tx_or_reference_id: String,
    pub timestamp: u64,
}

/// The failure an HTTP status stands for, if it is not a success: refused
/// credentials are an authorization failure, a timeout, a rate limit or a fault
/// of the server is transient, and every other status outside 200 to 299 says
/// the request was malformed.
pub open spec fn status_fault(status: u16) -> Option<RestakingError> {
    if 200 <= status <= 299 {
        None
    } else if status == 401 || status == 403 {
        Some(RestakingError::AuthError)
    } else if status == 408 || status == 429 || 500 <= status <= 599 {
        Some(RestakingError::NetworkError)
    } else {
        Some(RestakingError::ValidationError)
    }
}

/// Sorts an HTTP status into success or the failure it stands for.
pub fn classify_status(status: u16) -> (r: Result<(), RestakingError>)
    ensures
        match status_fault(status) {
            Some(e) => r == Err::<(), RestakingError>(e),
            None => r == Ok::<(), RestakingError>(()),
        },
{
    if 200 <= status && status <= 299 {
        Ok(())
    } else if status == 401 || status == 403 {
        Err(RestakingError::AuthError)
    } else if status == 408 || status == 429 || (500 <= status && status <= 599) {
        Err(RestakingError::NetworkError)
    } else {
        Err(RestakingError::ValidationError)
    }
}

/// Whether `Url::parse` accepts a text as the address of an endpoint.
pub uninterp spec fn url_accepted(text: Seq<char>) -> bool;

/// `Url::parse`: whether the text is accepted as an absolute URL.
#[verifier::external_body]
pub(crate) fn url_parses(text: &str) -> (r: bool)
    ensures
        r == url_accepted(text@),
{
    Url::parse(text).is_ok()
}

/// The value of the `Authorization` header for an API key.
pub fn bearer(api_key: &str) -> (r: String)
    ensures
        r@ == "Bearer "@ + api_key@,
{
    let mut header = "Bearer ".to_owned();
    header.append(api_key);
    header
}

/// The address of an endpoint: the base address followed by the path.
pub fn endpoint(base_url: &str, path: &str) -> (r: String)
    ensures
        r@ == base_url@ + path@,
{
    let mut url = base_url.to_owned();
    url.append(path);
    url
}

} // verus!
