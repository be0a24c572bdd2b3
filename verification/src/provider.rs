//! The statistics source: the requests that fetch market data and the reading
//! of their replies.
//!
//! A reply that cannot be read is a failure. Nothing is ever filled in for
//! statistics that did not arrive. The status of an answer plays no part here:
//! what counts is whether the answer holds what was asked for.

use vstd::prelude::*;
use crate::amount::{parsed_quantity, Amount};
use crate::error::RestakingError;
use crate::json::{read_text_member, text_member};
use crate::protocol::{ProtocolId, ProtocolStats};
use crate::strategy::StakingStrategy;
use crate::transport::{
    bearer,
    endpoint,
    AdapterReply,
    ApiRequest,
    HttpMethod,
};

verus! {

/// Why a reply holds no answer at all, if it holds none: nothing arrived, which
/// is a network failure, or what arrived is no answer of the service.
pub open spec fn stats_fault(reply: AdapterReply) -> Option<RestakingError> {
    match reply {
        AdapterReply::Unreachable => Some(RestakingError::NetworkError),
        AdapterReply::Refused => Some(RestakingError::ParseError),
        AdapterReply::Accepted { .. } => Some(RestakingError::ParseError),
        AdapterReply::Answered { .. } => None,
    }
}

/// Why a reply holds no market analysis, if it holds none. Every answer of the
/// service holds one, whatever its status.
pub open spec fn analysis_fault(reply: AdapterReply) -> Option<RestakingError> {
    match reply {
        AdapterReply::Unreachable => Some(RestakingError::NetworkError),
        AdapterReply::Refused => Some(RestakingError::ValidationError),
        AdapterReply::Accepted { .. } => Some(RestakingError::ValidationError),
        AdapterReply::Answered { .. } => None,
    }
}

/// Yield, total value locked and risk score, if every part is there and the
/// total value locked is a hexadecimal amount of at least one digit.
pub open spec fn stats_in(apy: Option<u32>, tvl: Option<Seq<char>>, risk_score: Option<u32>) -> Option<
    (u32, nat, u32),
> {
    match (apy, tvl, risk_score) {
        (Some(a), Some(text), Some(k)) => match parsed_quantity(text) {
            Some(value) => Some((a, value, k)),
            None => None,
        },
        _ => None,
    }
}

/// Statistics from their decoded parts. Every part must be there, and the total
/// value locked must be a hexadecimal amount of at least one digit; otherwise
/// the response is malformed.
pub fn stats_from_parts(apy: Option<u32>, tvl: Option<String>, risk_score: Option<u32>) -> (r:
    Result<ProtocolStats, RestakingError>)
    ensures
        match (apy, tvl, risk_score) {
            (Some(a), Some(text), Some(k)) => match parsed_quantity(text@) {
                Some(value) => r matches Ok(stats) && stats.apy == a && stats.tvl@ == value
                    && stats.risk_score == k,
                None => r == Err::<ProtocolStats, RestakingError>(RestakingError::ParseError),
            },
            _ => r == Err::<ProtocolStats, RestakingError>(RestakingError::ParseError),
        },
{
    match (apy, tvl, risk_score) {
        (Some(a), Some(text), Some(k)) => match Amount::parse_quantity(text.as_str()) {
            Some(value) => Ok(ProtocolStats { apy: a, tvl: value, risk_score: k }),
            None => Err(RestakingError::ParseError),
        },
        _ => Err(RestakingError::ParseError),
    }
}

impl StakingStrategy {
    /// The request that fetches the statistics of one protocol.
    pub fn get_protocol_stats(&self, protocol: &ProtocolId) -> (r: ApiRequest)
        ensures
            r.method == HttpMethod::Get,
            r.url@ == self.base_url@ + "/api/v1/eth/staking/"@ + protocol@ + "/stats"@,
            r.authorization@ == "Bearer "@ + self.api_key@,
            !r.content_type_json,
            r.fields@.len() == 0,
    {
        let mut url = endpoint(self.base_url.as_str(), "/api/v1/eth/staking/");
        url.append(protocol.as_str());
        url.append("/stats");
        ApiRequest {
            method: HttpMethod::Get,
            url,
            authorization: bearer(self.api_key.as_str()),
            content_type_json: false,
            fields: Vec::new(),
        }
    }

    /// The request that fetches the current market analysis.
    pub fn get_market_analysis(&self) -> (r: ApiRequest)
        ensures
            r.method == HttpMethod::Get,
            r.url@ == self.base_url@ + "/api/v1/eth/staking/market/analysis"@,
            r.authorization@ == "Bearer "@ + self.api_key@,
            !r.content_type_json,
            r.fields@.len() == 0,
    {
        ApiRequest {
            method: HttpMethod::Get,
            url: endpoint(self.base_url.as_str(), "/api/v1/eth/staking/market/analysis"),
            authorization: bearer(self.api_key.as_str()),
            content_type_json: false,
            fields: Vec::new(),
        }
    }

    /// Reads the statistics out of a reply.
    ///
    /// `apy` and `risk_score` are the two numbers of the answer in fixed point, as
    /// the caller decoded them, or nothing where the answer has no such number. The
    /// total value locked is the `tvl` member of the answer, a hexadecimal text.
    /// The status of the answer is not looked at: an answer that holds the
    /// statistics gives them, and an answer with a part missing or malformed is
    /// malformed as a whole.
    pub fn read_stats(reply: &AdapterReply, apy: Option<u32>, risk_score: Option<u32>) -> (r:
        Result<ProtocolStats, RestakingError>)
        ensures
            match stats_fault(*reply) {
                Some(e) => r == Err::<ProtocolStats, RestakingError>(e),
                None => *reply matches AdapterReply::Answered { body, .. } && match stats_in(
                    apy,
                    text_member(body@, "tvl"@),
                    risk_score,
                ) {
                    Some(parts) => r matches Ok(stats) && stats.apy == parts.0 && stats.tvl@
                        == parts.1 && stats.risk_score == parts.2,
                    None => r == Err::<ProtocolStats, RestakingError>(RestakingError::ParseError),
                },
            },
    {
        match reply {
            AdapterReply::Unreachable => Err(RestakingError::NetworkError),
            AdapterReply::Refused => Err(RestakingError::ParseError),
            AdapterReply::Accepted { .. } => Err(RestakingError::ParseError),
            AdapterReply::Answered { body, .. } => stats_from_parts(
                apy,
                read_text_member(body.as_str(), "tvl"),
                risk_score,
            ),
        }
    }

    /// Reads the market analysis out of a reply: the body of the answer, whatever
    /// its status.
    pub fn read_market_analysis(reply: &AdapterReply) -> (r: Result<String, RestakingError>)
        ensures
            match analysis_fault(*reply) {
                Some(e) => r == Err::<String, RestakingError>(e),
                None => r matches Ok(text) && (*reply matches AdapterReply::Answered { body, .. }
                    && text@ == body@),
            },
    {
        match reply {
            AdapterReply::Unreachable => Err(RestakingError::NetworkError),
            AdapterReply::Refused => Err(RestakingError::ValidationError),
            AdapterReply::Accepted { .. } => Err(RestakingError::ValidationError),
            AdapterReply::Answered { body, .. } => Ok(body.clone()),
        }
    }
}

} // verus!
