//! The custodial adapter: restaking through the P2P service's REST interface.
//!
//! Every call carries the API key as a bearer token. A reply counts as success
//! only if its status is between 200 and 299 and its body is JSON; the reply to
//! the creation of an EigenPod must also have the shape of that answer.

use vstd::prelude::*;
use crate::adapter::RestakingProtocol;
use crate::address::{prefixed_hex, Address};
use crate::amount::{decimal_text, parsed_amount, Amount};
use crate::eigenpod::{pod_answer_in, read_create_pod, CreatePodResponse, CreatePodResponseView};
use crate::error::RestakingError;
use crate::json::{is_json, parse_json, read_text_member, text_member};
use crate::protocol::ProtocolId;
use crate::transport::{
    bearer,
    classify_status,
    endpoint,
    field_texts,
    status_fault,
    AdapterCall,
    AdapterReply,
    ApiRequest,
    BodyField,
    HttpMethod,
    TransactionReceipt,
};

verus! {

/// The account at the custodial service: where it is reached, the key that
/// authorizes the calls, and the validator and token that stakes are made for.
#[derive(Debug, PartialEq, Eq)]
pub struct P2PRestaker {
    pub api_key: String,
    pub base_url: String,
    pub validator: Address,
    pub token: String,
}

/// Why a reply is no acknowledgement, if it is none: no answer, an answer of
/// the wrong kind, a status that is no success, or a body that is not JSON.
pub open spec fn reply_fault(reply: AdapterReply) -> Option<RestakingError> {
    match reply {
        AdapterReply::Unreachable => Some(RestakingError::NetworkError),
        AdapterReply::Refused => Some(RestakingError::ValidationError),
        AdapterReply::Accepted { .. } => Some(RestakingError::ValidationError),
        AdapterReply::Answered { status, body, .. } => match status_fault(status) {
            Some(e) => Some(e),
            None => if is_json(body@) {
                None
            } else {
                Some(RestakingError::ValidationError)
            },
        },
    }
}

/// What a reply to the creation of an EigenPod holds: the answer of the service,
/// if the status is a success and the body is JSON of the answer's shape.
pub open spec fn eigenpod_in(reply: AdapterReply) -> Result<CreatePodResponseView, RestakingError> {
    match reply {
        AdapterReply::Unreachable => Err(RestakingError::NetworkError),
        AdapterReply::Refused => Err(RestakingError::ValidationError),
        AdapterReply::Accepted { .. } => Err(RestakingError::ValidationError),
        AdapterReply::Answered { status, body, .. } => match status_fault(status) {
            Some(e) => Err(e),
            None => match pod_answer_in(body@) {
                Some(answer) => Ok(answer),
                None => Err(RestakingError::ValidationError),
            },
        },
    }
}

/// Reads the answer to the creation of an EigenPod out of a reply.
pub fn read_eigenpod(reply: &AdapterReply) -> (r: Result<CreatePodResponse, RestakingError>)
    ensures
        match eigenpod_in(*reply) {
            Ok(view) => r matches Ok(answer) && answer@ == view,
            Err(e) => r == Err::<CreatePodResponse, RestakingError>(e),
        },
{
    match reply {
        AdapterReply::Unreachable => Err(RestakingError::NetworkError),
        AdapterReply::Refused => Err(RestakingError::ValidationError),
        AdapterReply::Accepted { .. } => Err(RestakingError::ValidationError),
        AdapterReply::Answered { status, body, .. } => match classify_status(*status) {
            Err(e) => Err(e),
            Ok(()) => read_create_pod(body.as_str()),
        },
    }
}

/// Whether a reply acknowledges the call it answers.
pub fn acknowledged(reply: &AdapterReply) -> (r: Result<(), RestakingError>)
    ensures
        match reply_fault(*reply) {
            Some(e) => r == Err::<(), RestakingError>(e),
            None => r == Ok::<(), RestakingError>(()),
        },
{
    match reply {
        AdapterReply::Unreachable => Err(RestakingError::NetworkError),
        AdapterReply::Refused => Err(RestakingError::ValidationError),
        AdapterReply::Accepted { .. } => Err(RestakingError::ValidationError),
        AdapterReply::Answered { status, body, .. } => {
            match classify_status(*status) {
                Err(e) => Err(e),
                Ok(()) => match parse_json(body.as_str()) {
                    Some(_) => Ok(()),
                    None => Err(RestakingError::ValidationError),
                },
            }
        },
    }
}

/// The balance that a member spells, if the member is there and spells one.
pub open spec fn balance_in(member: Option<Seq<char>>) -> Option<nat> {
    match member {
        Some(text) => parsed_amount(text),
        None => None,
    }
}

/// The balance a `balance` member spells: it must be there, be text, and be a
/// hexadecimal amount.
pub fn balance_from_member(member: Option<String>) -> (r: Result<Amount, RestakingError>)
    ensures
        match member {
            Some(text) => match parsed_amount(text@) {
                Some(value) => r matches Ok(amount) && amount@ == value,
                None => r == Err::<Amount, RestakingError>(RestakingError::ValidationError),
            },
            None => r == Err::<Amount, RestakingError>(RestakingError::ValidationError),
        },
{
    match member {
        Some(text) => match Amount::parse(text.as_str()) {
            Some(amount) => Ok(amount),
            None => Err(RestakingError::ValidationError),
        },
        None => Err(RestakingError::ValidationError),
    }
}

/// The receipt for an acknowledged call: the service's answer is the reference.
fn receipt_for(amount: Amount, reply: &AdapterReply) -> (r: Result<
    TransactionReceipt,
    RestakingError,
>)
    ensures
        match reply_fault(*reply) {
            Some(e) => r == Err::<TransactionReceipt, RestakingError>(e),
            None => r matches Ok(receipt) && receipt.protocol_id@ == "eigenlayer-p2p"@
                && receipt.amount == amount && (*reply matches AdapterReply::Answered {
                body,
                timestamp,
                ..
            } && receipt.tx_or_reference_id@ == body@ && receipt.timestamp == timestamp),
        },
{
    match acknowledged(reply) {
        Err(e) => Err(e),
        Ok(()) => match reply {
            AdapterReply::Answered { body, timestamp, .. } => Ok(
                TransactionReceipt {
                    protocol_id: ProtocolId::new("eigenlayer-p2p"),
                    amount,
                    tx_or_reference_id: body.clone(),
                    timestamp: *timestamp,
                },
            ),
            _ => Err(RestakingError::ValidationError),
        },
    }
}

impl P2PRestaker {
    /// An account at the test service.
    pub fn new(api_key: String, validator: Address, token: String) -> (r: P2PRestaker)
        ensures
            r.api_key@ == api_key@,
            r.base_url@ == "https://api-test-holesky.p2p.org"@,
            r.validator == validator,
            r.token@ == token@,
    {
        P2PRestaker {
            api_key,
            base_url: "https://api-test-holesky.p2p.org".to_owned(),
            validator,
            token,
        }
    }

    /// The same account at another service address.
    pub fn with_base_url(self, base_url: String) -> (r: P2PRestaker)
        ensures
            r.api_key@ == self.api_key@,
            r.base_url@ == base_url@,
            r.validator == self.validator,
            r.token@ == self.token@,
    {
        P2PRestaker {
            api_key: self.api_key,
            base_url,
            validator: self.validator,
            token: self.token,
        }
    }

    /// The request that creates an EigenPod.
    pub fn create_eigenpod(&self) -> (r: ApiRequest)
        ensures
            r.method == HttpMethod::Post,
            r.url@ == self.base_url@ + "/api/v1/eth/staking/eigenlayer/tx/create-pod"@,
            r.authorization@ == "Bearer "@ + self.api_key@,
            r.content_type_json,
            r.fields@.len() == 0,
    {
        ApiRequest {
            method: HttpMethod::Post,
            url: endpoint(self.base_url.as_str(), "/api/v1/eth/staking/eigenlayer/tx/create-pod"),
            authorization: bearer(self.api_key.as_str()),
            content_type_json: true,
            fields: Vec::new(),
        }
    }

    /// The request that restakes `amount` of `token` for `validator`.
    pub fn restake(&self, validator: &Address, amount: Amount, token: &str) -> (r: ApiRequest)
        ensures
            r.method == HttpMethod::Post,
            r.url@ == self.base_url@ + "/api/v1/eth/staking/restake"@,
            r.authorization@ == "Bearer "@ + self.api_key@,
            r.content_type_json,
            field_texts(r.fields@) == seq![
                ("validator_address"@, prefixed_hex(validator@)),
                ("amount"@, decimal_text(amount@)),
                ("token"@, token@),
            ],
    {
        let mut fields: Vec<BodyField> = Vec::new();
        fields.push(BodyField { name: "validator_address".to_owned(), value: validator.to_hex() });
        fields.push(BodyField { name: "amount".to_owned(), value: amount.to_decimal() });
        fields.push(BodyField { name: "token".to_owned(), value: token.to_owned() });
        assert(field_texts(fields@) =~= seq![
            ("validator_address"@, prefixed_hex(validator@)),
            ("amount"@, decimal_text(amount@)),
            ("token"@, token@),
        ]);
        ApiRequest {
            method: HttpMethod::Post,
            url: endpoint(self.base_url.as_str(), "/api/v1/eth/staking/restake"),
            authorization: bearer(self.api_key.as_str()),
            content_type_json: true,
            fields,
        }
    }

    /// The request that asks for the balance of `validator`.
    pub fn get_balance(&self, validator: &Address) -> (r: ApiRequest)
        ensures
            r.method == HttpMethod::Get,
            r.url@ == self.base_url@ + "/api/v1/eth/staking/balance/"@ + prefixed_hex(validator@),
            r.authorization@ == "Bearer "@ + self.api_key@,
            !r.content_type_json,
            r.fields@.len() == 0,
    {
        let mut url = endpoint(self.base_url.as_str(), "/api/v1/eth/staking/balance/");
        url.append(validator.to_hex().as_str());
        ApiRequest {
            method: HttpMethod::Get,
            url,
            authorization: bearer(self.api_key.as_str()),
            content_type_json: false,
            fields: Vec::new(),
        }
    }

    /// The request that withdraws `amount` for `validator`.
    pub fn unstake_request(&self, validator: &Address, amount: Amount) -> (r: ApiRequest)
        ensures
            r.method == HttpMethod::Post,
            r.url@ == self.base_url@ + "/api/v1/eth/staking/unstake"@,
            r.authorization@ == "Bearer "@ + self.api_key@,
            r.content_type_json,
            field_texts(r.fields@) == seq![
                ("validator_address"@, prefixed_hex(validator@)),
                ("amount"@, decimal_text(amount@)),
            ],
    {
        let mut fields: Vec<BodyField> = Vec::new();
        fields.push(BodyField { name: "validator_address".to_owned(), value: validator.to_hex() });
        fields.push(BodyField { name: "amount".to_owned(), value: amount.to_decimal() });
        assert(field_texts(fields@) =~= seq![
            ("validator_address"@, prefixed_hex(validator@)),
            ("amount"@, decimal_text(amount@)),
        ]);
        ApiRequest {
            method: HttpMethod::Post,
            url: endpoint(self.base_url.as_str(), "/api/v1/eth/staking/unstake"),
            authorization: bearer(self.api_key.as_str()),
            content_type_json: true,
            fields,
        }
    }
}

impl RestakingProtocol for P2PRestaker {
    open spec fn id(&self) -> Seq<char> {
        "eigenlayer-p2p"@
    }

    fn protocol_id(&self) -> (r: ProtocolId) {
        ProtocolId::new("eigenlayer-p2p")
    }

    /// Preparing the account means creating its EigenPod.
    fn initialize(&self) -> (r: Result<Option<AdapterCall>, RestakingError>)
        ensures
            r matches Ok(Some(AdapterCall::Http(request))) && request.method == HttpMethod::Post
                && request.url@ == self.base_url@ + "/api/v1/eth/staking/eigenlayer/tx/create-pod"@
                && request.authorization@ == "Bearer "@ + self.api_key@
                && request.content_type_json && request.fields@.len() == 0,
    {
        Ok(Some(AdapterCall::Http(self.create_eigenpod())))
    }

    /// The restake request for the account's validator and token.
    fn stake(&self, amount: Amount) -> (r: Result<AdapterCall, RestakingError>)
        ensures
            r matches Ok(AdapterCall::Http(request)) && request.method == HttpMethod::Post
                && request.url@ == self.base_url@ + "/api/v1/eth/staking/restake"@
                && request.authorization@ == "Bearer "@ + self.api_key@ && request.content_type_json
                && field_texts(request.fields@) == seq![
                ("validator_address"@, prefixed_hex(self.validator@)),
                ("amount"@, decimal_text(amount@)),
                ("token"@, self.token@),
            ],
    {
        Ok(AdapterCall::Http(self.restake(&self.validator, amount, self.token.as_str())))
    }

    /// The unstake request for the account's validator.
    fn unstake(&self, amount: Amount) -> (r: Result<AdapterCall, RestakingError>)
        ensures
            r matches Ok(AdapterCall::Http(request)) && request.method == HttpMethod::Post
                && request.url@ == self.base_url@ + "/api/v1/eth/staking/unstake"@
                && request.authorization@ == "Bearer "@ + self.api_key@ && request.content_type_json
                && field_texts(request.fields@) == seq![
                ("validator_address"@, prefixed_hex(self.validator@)),
                ("amount"@, decimal_text(amount@)),
            ],
    {
        Ok(AdapterCall::Http(self.unstake_request(&self.validator, amount)))
    }

    /// The balance request for `holder`.
    fn balance(&self, holder: &Address) -> (r: Result<AdapterCall, RestakingError>)
        ensures
            r matches Ok(AdapterCall::Http(request)) && request.method == HttpMethod::Get
                && request.url@ == self.base_url@ + "/api/v1/eth/staking/balance/"@ + prefixed_hex(
                holder@,
            ) && request.authorization@ == "Bearer "@ + self.api_key@
                && !request.content_type_json && request.fields@.len() == 0,
    {
        Ok(AdapterCall::Http(self.get_balance(holder)))
    }

    /// The account is prepared when the service answers the creation of the
    /// EigenPod with a success and an answer of the right shape.
    fn confirm_initialize(&self, reply: &AdapterReply) -> (r: Result<(), RestakingError>)
        ensures
            match eigenpod_in(*reply) {
                Ok(_) => r == Ok::<(), RestakingError>(()),
                Err(e) => r == Err::<(), RestakingError>(e),
            },
    {
        match read_eigenpod(reply) {
            Ok(_) => Ok(()),
            Err(e) => Err(e),
        }
    }

    fn confirm_stake(&self, amount: Amount, reply: &AdapterReply) -> (r: Result<
        TransactionReceipt,
        RestakingError,
    >)
        ensures
            match reply_fault(*reply) {
                Some(e) => r == Err::<TransactionReceipt, RestakingError>(e),
                None => r matches Ok(receipt) && receipt.protocol_id@ == "eigenlayer-p2p"@
                    && receipt.amount == amount && (*reply matches AdapterReply::Answered {
                    body,
                    timestamp,
                    ..
                } && receipt.tx_or_reference_id@ == body@ && receipt.timestamp == timestamp),
            },
    {
        receipt_for(amount, reply)
    }

    fn confirm_unstake(&self, amount: Amount, reply: &AdapterReply) -> (r: Result<
        TransactionReceipt,
        RestakingError,
    >)
        ensures
            match reply_fault(*reply) {
                Some(e) => r == Err::<TransactionReceipt, RestakingError>(e),
                None => r matches Ok(receipt) && receipt.protocol_id@ == "eigenlayer-p2p"@
                    && receipt.amount == amount && (*reply matches AdapterReply::Answered {
                    body,
                    timestamp,
                    ..
                } && receipt.tx_or_reference_id@ == body@ && receipt.timestamp == timestamp),
            },
    {
        receipt_for(amount, reply)
    }

    /// The balance is the `balance` member of the answer, a hexadecimal text.
    fn read_balance(&self, reply: &AdapterReply) -> (r: Result<Amount, RestakingError>)
        ensures
            match reply_fault(*reply) {
                Some(e) => r == Err::<Amount, RestakingError>(e),
                None => *reply matches AdapterReply::Answered { body, .. } && match balance_in(
                    text_member(body@, "balance"@),
                ) {
                    Some(value) => r matches Ok(amount) && amount@ == value,
                    None => r == Err::<Amount, RestakingError>(RestakingError::ValidationError),
                },
            },
    {
        match acknowledged(reply) {
            Err(e) => Err(e),
            Ok(()) => match reply {
                AdapterReply::Answered { body, .. } => balance_from_member(
                    read_text_member(body.as_str(), "balance"),
                ),
                _ => Err(RestakingError::ValidationError),
            },
        }
    }
}

} // verus!
