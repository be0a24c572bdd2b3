use restaking_mechanism::address::TxHash;
use restaking_mechanism::amount::Amount;
use restaking_mechanism::error::RestakingError;
use restaking_mechanism::protocol::{ProtocolId, ProtocolStats, ScoringWeights};
use restaking_mechanism::provider::stats_from_parts;
use restaking_mechanism::strategy::StakingStrategy;
use restaking_mechanism::transport::{AdapterReply, ApiRequest, HttpMethod};

fn answered(status: u16, body: &str) -> AdapterReply {
    AdapterReply::Answered { status, body: body.to_string(), timestamp: 5 }
}

#[test]
fn strategy_starts_with_the_standard_weights() {
    let s = StakingStrategy::new("k".to_string());
    assert_eq!(s.api_key, "k");
    assert_eq!(s.base_url, "https://api.p2p.org");
    assert_eq!(s.weights, ScoringWeights { apy_weight: 7, risk_weight: 3 });
    let t = s.with_weights(ScoringWeights { apy_weight: 1, risk_weight: 1 });
    assert_eq!(t.weights, ScoringWeights { apy_weight: 1, risk_weight: 1 });
    assert_eq!(t.api_key, "k");
}

#[test]
fn statistics_request_names_the_protocol() {
    let s = StakingStrategy::new("k".to_string());
    assert_eq!(
        s.get_protocol_stats(&ProtocolId::new("lido")),
        ApiRequest {
            method: HttpMethod::Get,
            url: "https://api.p2p.org/api/v1/eth/staking/lido/stats".to_string(),
            authorization: "Bearer k".to_string(),
            content_type_json: false,
            fields: vec![],
        }
    );
    assert_eq!(
        s.get_market_analysis(),
        ApiRequest {
            method: HttpMethod::Get,
            url: "https://api.p2p.org/api/v1/eth/staking/market/analysis".to_string(),
            authorization: "Bearer k".to_string(),
            content_type_json: false,
            fields: vec![],
        }
    );
}

#[test]
fn statistics_are_read_from_a_successful_answer() {
    let body = "{\"apy\": 5.0, \"tvl\": \"0x3e8\", \"risk_score\": 0.2}";
    assert_eq!(
        StakingStrategy::read_stats(&answered(200, body), Some(500), Some(20)),
        Ok(ProtocolStats { apy: 500, tvl: Amount::from_u64(1000), risk_score: 20 })
    );
}

#[test]
fn missing_statistics_are_never_filled_in() {
    let body = "{\"apy\": 5.0, \"tvl\": \"0x3e8\", \"risk_score\": 0.2}";
    let parse = Err(RestakingError::ParseError);
    assert_eq!(StakingStrategy::read_stats(&answered(200, body), None, Some(20)), parse);
    assert_eq!(StakingStrategy::read_stats(&answered(200, body), Some(500), None), parse);
    assert_eq!(StakingStrategy::read_stats(&answered(200, "{\"apy\": 5.0}"), Some(500), Some(20)), parse);
    assert_eq!(
        StakingStrategy::read_stats(&answered(200, "{\"tvl\": 1000}"), Some(500), Some(20)),
        parse
    );
    assert_eq!(
        StakingStrategy::read_stats(&answered(200, "{\"tvl\": \"lots\"}"), Some(500), Some(20)),
        parse
    );
    assert_eq!(StakingStrategy::read_stats(&answered(200, "{"), Some(500), Some(20)), parse);
    assert_eq!(StakingStrategy::read_stats(&AdapterReply::Refused, Some(500), Some(20)), parse);
    let accepted = AdapterReply::Accepted { tx_hash: TxHash::from_bytes([0u8; 32]), timestamp: 1 };
    assert_eq!(StakingStrategy::read_stats(&accepted, Some(500), Some(20)), parse);
    assert_eq!(
        StakingStrategy::read_stats(&AdapterReply::Unreachable, Some(500), Some(20)),
        Err(RestakingError::NetworkError)
    );
}

#[test]
fn statistics_do_not_depend_on_the_status() {
    let body = "{\"apy\": 5.0, \"tvl\": \"0x3e8\", \"risk_score\": 0.2}";
    let stats = Ok(ProtocolStats { apy: 500, tvl: Amount::from_u64(1000), risk_score: 20 });
    for status in [0, 200, 204, 301, 401, 404, 500, 503] {
        assert_eq!(StakingStrategy::read_stats(&answered(status, body), Some(500), Some(20)), stats);
        assert_eq!(
            StakingStrategy::read_stats(&answered(status, "{\"error\":\"x\"}"), None, None),
            Err(RestakingError::ParseError)
        );
        assert_eq!(
            StakingStrategy::read_stats(&answered(status, "<html>"), Some(500), Some(20)),
            Err(RestakingError::ParseError)
        );
    }
}

#[test]
fn total_value_locked_needs_a_digit() {
    let parse = Err(RestakingError::ParseError);
    assert_eq!(stats_from_parts(Some(1), Some(String::new()), Some(3)), parse);
    assert_eq!(stats_from_parts(Some(1), Some("0x".to_string()), Some(3)), parse);
    assert_eq!(
        StakingStrategy::read_stats(&answered(200, "{\"tvl\": \"\"}"), Some(500), Some(20)),
        parse
    );
    assert_eq!(
        StakingStrategy::read_stats(&answered(200, "{\"tvl\": \"0x\"}"), Some(500), Some(20)),
        parse
    );
    assert_eq!(
        stats_from_parts(Some(1), Some("0x0".to_string()), Some(3)),
        Ok(ProtocolStats { apy: 1, tvl: Amount::zero(), risk_score: 3 })
    );
    assert_eq!(
        stats_from_parts(Some(1), Some("0".to_string()), Some(3)),
        Ok(ProtocolStats { apy: 1, tvl: Amount::zero(), risk_score: 3 })
    );
    assert_eq!(Amount::parse_quantity("x"), None);
    assert_eq!(Amount::parse_quantity("0x1f"), Some(Amount::from_u64(31)));
    assert_eq!(Amount::parse_quantity("0y"), None);
}

#[test]
fn statistics_need_every_part() {
    assert_eq!(
        stats_from_parts(Some(1), Some("0x2".to_string()), Some(3)),
        Ok(ProtocolStats { apy: 1, tvl: Amount::from_u64(2), risk_score: 3 })
    );
    assert_eq!(stats_from_parts(None, Some("0x2".to_string()), Some(3)), Err(RestakingError::ParseError));
    assert_eq!(stats_from_parts(Some(1), None, Some(3)), Err(RestakingError::ParseError));
    assert_eq!(stats_from_parts(Some(1), Some("0x2".to_string()), None), Err(RestakingError::ParseError));
    assert_eq!(stats_from_parts(Some(1), Some("2.5".to_string()), Some(3)), Err(RestakingError::ParseError));
}

#[test]
fn market_analysis_is_the_body_of_every_answer() {
    assert_eq!(StakingStrategy::read_market_analysis(&answered(200, "bullish")), Ok("bullish".to_string()));
    assert_eq!(StakingStrategy::read_market_analysis(&answered(200, "")), Ok(String::new()));
    assert_eq!(StakingStrategy::read_market_analysis(&answered(500, "x")), Ok("x".to_string()));
    assert_eq!(StakingStrategy::read_market_analysis(&answered(403, "denied")), Ok("denied".to_string()));
    assert_eq!(StakingStrategy::read_market_analysis(&answered(404, "{}")), Ok("{}".to_string()));
    assert_eq!(
        StakingStrategy::read_market_analysis(&AdapterReply::Unreachable),
        Err(RestakingError::NetworkError)
    );
    assert_eq!(
        StakingStrategy::read_market_analysis(&AdapterReply::Refused),
        Err(RestakingError::ValidationError)
    );
    let accepted = AdapterReply::Accepted { tx_hash: TxHash::from_bytes([0u8; 32]), timestamp: 1 };
    assert_eq!(
        StakingStrategy::read_market_analysis(&accepted),
        Err(RestakingError::ValidationError)
    );
}
