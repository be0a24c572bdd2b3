//! The answer of the custodial service to the creation of an EigenPod.
//!
//! The answer is a JSON object with two optional members: `result`, the
//! transaction that creates the pod, for the caller to sign, and `error`, a
//! message. A member that is absent or `null` is nothing; a member of the wrong
//! shape makes the whole answer malformed.

use vstd::prelude::*;
use serde_json::Value;
use crate::error::RestakingError;
use crate::json::{
    decoded,
    json_is_null,
    json_is_object,
    json_member,
    json_text,
    json_view,
    member_of,
    parse_json,
    read_text_at,
    text_at,
    text_in,
    JsonView,
};

verus! {

/// The transaction that creates an EigenPod. Every field is the text of the
/// member of the same name, as the service sent it.
#[derive(Debug, PartialEq, Eq)]
pub struct CreatePodResult {
    pub serialize_tx: String,
    pub to: String,
    pub gas_limit: String,
    pub data: String,
    pub value: String,
    pub chain_id: String,
    pub type_: String,
    pub max_fee_per_gas: String,
    pub max_priority_fee_per_gas: String,
}

/// The texts of a [`CreatePodResult`].
pub struct CreatePodResultView {
    pub serialize_tx: Seq<char>,
    pub to: Seq<char>,
    pub gas_limit: Seq<char>,
    pub data: Seq<char>,
    pub value: Seq<char>,
    pub chain_id: Seq<char>,
    pub type_: Seq<char>,
    pub max_fee_per_gas: Seq<char>,
    pub max_priority_fee_per_gas: Seq<char>,
}

impl View for CreatePodResult {
    type V = CreatePodResultView;

    open spec fn view(&self) -> CreatePodResultView {
        CreatePodResultView {
            serialize_tx: self.serialize_tx@,
            to: self.to@,
            gas_limit: self.gas_limit@,
            data: self.data@,
            value: self.value@,
            chain_id: self.chain_id@,
            type_: self.type_@,
            max_fee_per_gas: self.max_fee_per_gas@,
            max_priority_fee_per_gas: self.max_priority_fee_per_gas@,
        }
    }
}

/// The answer to the creation of an EigenPod.
#[derive(Debug, PartialEq, Eq)]
pub struct CreatePodResponse {
    pub result: Option<CreatePodResult>,
    pub error: Option<String>,
}

/// The texts of a [`CreatePodResponse`].
pub struct CreatePodResponseView {
    pub result: Option<CreatePodResultView>,
    pub error: Option<Seq<char>>,
}

impl View for CreatePodResponse {
    type V = CreatePodResponseView;

    open spec fn view(&self) -> CreatePodResponseView {
        CreatePodResponseView {
            result: match self.result {
                Some(result) => Some(result@),
                None => None,
            },
            error: match self.error {
                Some(error) => Some(error@),
                None => None,
            },
        }
    }
}

/// The transaction a document spells: an object with all nine members, each a string.
pub open spec fn pod_result_in(document: JsonView) -> Option<CreatePodResultView> {
    let serialize_tx = text_at(document, "serializeTx"@);
    let to = text_at(document, "to"@);
    let gas_limit = text_at(document, "gasLimit"@);
    let data = text_at(document, "data"@);
    let value = text_at(document, "value"@);
    let chain_id = text_at(document, "chainId"@);
    let type_ = text_at(document, "type"@);
    let max_fee_per_gas = text_at(document, "maxFeePerGas"@);
    let max_priority_fee_per_gas = text_at(document, "maxPriorityFeePerGas"@);
    if serialize_tx is Some && to is Some && gas_limit is Some && data is Some && value is Some
        && chain_id is Some && type_ is Some && max_fee_per_gas is Some
        && max_priority_fee_per_gas is Some {
        Some(
            CreatePodResultView {
                serialize_tx: serialize_tx->Some_0,
                to: to->Some_0,
                gas_limit: gas_limit->Some_0,
                data: data->Some_0,
                value: value->Some_0,
                chain_id: chain_id->Some_0,
                type_: type_->Some_0,
                max_fee_per_gas: max_fee_per_gas->Some_0,
                max_priority_fee_per_gas: max_priority_fee_per_gas->Some_0,
            },
        )
    } else {
        None
    }
}

/// What an optional text member spells. The outer value is nothing when the
/// member is there and is neither `null` nor a string.
pub open spec fn optional_text(member: Option<JsonView>) -> Option<Option<Seq<char>>> {
    match member {
        None => Some(None),
        Some(document) => if document is Null {
            Some(None)
        } else {
            match text_in(document) {
                Some(text) => Some(Some(text)),
                None => None,
            }
        },
    }
}

/// What an optional `result` member spells. The outer value is nothing when the
/// member is there and is neither `null` nor a complete transaction.
pub open spec fn optional_result(member: Option<JsonView>) -> Option<Option<CreatePodResultView>> {
    match member {
        None => Some(None),
        Some(document) => if document is Null {
            Some(None)
        } else {
            match pod_result_in(document) {
                Some(result) => Some(Some(result)),
                None => None,
            }
        },
    }
}

/// The answer a document spells, if it is an object whose `result` and `error`
/// members are well-formed.
pub open spec fn create_pod_in(document: JsonView) -> Option<CreatePodResponseView> {
    if document is Object {
        match (
            optional_result(member_of(document, "result"@)),
            optional_text(member_of(document, "error"@)),
        ) {
            (Some(result), Some(error)) => Some(CreatePodResponseView { result, error }),
            _ => None,
        }
    } else {
        None
    }
}

/// The answer a text spells, if it is JSON of the right shape.
pub open spec fn pod_answer_in(text: Seq<char>) -> Option<CreatePodResponseView> {
    match decoded(text) {
        Some(document) => create_pod_in(document),
        None => None,
    }
}

/// Reads the transaction out of a decoded document.
fn read_pod_result(document: &Value) -> (r: Option<CreatePodResult>)
    ensures
        match pod_result_in(json_view(*document)) {
            Some(view) => r matches Some(result) && result@ == view,
            None => r is None,
        },
{
    let serialize_tx = read_text_at(document, "serializeTx");
    let to = read_text_at(document, "to");
    let gas_limit = read_text_at(document, "gasLimit");
    let data = read_text_at(document, "data");
    let value = read_text_at(document, "value");
    let chain_id = read_text_at(document, "chainId");
    let type_ = read_text_at(document, "type");
    let max_fee_per_gas = read_text_at(document, "maxFeePerGas");
    let max_priority_fee_per_gas = read_text_at(document, "maxPriorityFeePerGas");
    match (
        serialize_tx,
        to,
        gas_limit,
        data,
        value,
        chain_id,
        type_,
        max_fee_per_gas,
        max_priority_fee_per_gas,
    ) {
        (
            Some(serialize_tx),
            Some(to),
            Some(gas_limit),
            Some(data),
            Some(value),
            Some(chain_id),
            Some(type_),
            Some(max_fee_per_gas),
            Some(max_priority_fee_per_gas),
        ) => Some(
            CreatePodResult {
                serialize_tx,
                to,
                gas_limit,
                data,
                value,
                chain_id,
                type_,
                max_fee_per_gas,
                max_priority_fee_per_gas,
            },
        ),
        _ => None,
    }
}

/// Reads an optional text member. The outer value is nothing when the member is malformed.
fn read_optional_text(document: &Value, name: &str) -> (r: Option<Option<String>>)
    ensures
        match optional_text(member_of(json_view(*document), name@)) {
            Some(Some(text)) => r matches Some(Some(s)) && s@ == text,
            Some(None) => r == Some(None::<String>),
            None => r is None,
        },
{
    match json_member(document, name) {
        None => Some(None),
        Some(member) => if json_is_null(member) {
            Some(None)
        } else {
            match json_text(member) {
                Some(text) => Some(Some(text)),
                None => None,
            }
        },
    }
}

/// Reads the optional `result` member. The outer value is nothing when the member is malformed.
fn read_optional_result(document: &Value) -> (r: Option<Option<CreatePodResult>>)
    ensures
        match optional_result(member_of(json_view(*document), "result"@)) {
            Some(Some(view)) => r matches Some(Some(result)) && result@ == view,
            Some(None) => r == Some(None::<CreatePodResult>),
            None => r is None,
        },
{
    match json_member(document, "result") {
        None => Some(None),
        Some(member) => if json_is_null(member) {
            Some(None)
        } else {
            match read_pod_result(member) {
                Some(result) => Some(Some(result)),
                None => None,
            }
        },
    }
}

/// Reads the answer to the creation of an EigenPod from the body of a reply.
/// A body that is not JSON, or not of the answer's shape, is a validation failure.
pub fn read_create_pod(body: &str) -> (r: Result<CreatePodResponse, RestakingError>)
    ensures
        match pod_answer_in(body@) {
            Some(view) => r matches Ok(answer) && answer@ == view,
            None => r == Err::<CreatePodResponse, RestakingError>(RestakingError::ValidationError),
        },
{
    let document = match parse_json(body) {
        Some(document) => document,
        None => {
            return Err(RestakingError::ValidationError);
        },
    };
    if !json_is_object(&document) {
        return Err(RestakingError::ValidationError);
    }
    let result = read_optional_result(&document);
    let error = read_optional_text(&document, "error");
    match (result, error) {
        (Some(result), Some(error)) => Ok(CreatePodResponse { result, error }),
        _ => Err(RestakingError::ValidationError),
    }
}

} // verus!
