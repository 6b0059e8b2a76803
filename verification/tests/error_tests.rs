use relay::error::RelayError;

#[test]
fn each_error_has_its_message() {
    assert_eq!(RelayError::Config("x".into()).to_message(), "config: x");
    assert_eq!(
        RelayError::Api { status: 500, message: "API error".into(), body: Some("b".into()) }.to_message(),
        "api error (500): API error"
    );
    assert_eq!(RelayError::RateLimit("slow".into()).to_message(), "rate limited: slow");
    assert_eq!(RelayError::Auth("bad key".into()).to_message(), "auth failed: bad key");
    assert_eq!(RelayError::Network("down".into()).to_message(), "network: down");
    assert_eq!(RelayError::Tool("t".into()).to_message(), "tool: t");
    assert_eq!(RelayError::Memory("m".into()).to_message(), "memory: m");
    assert_eq!(RelayError::Skill("s".into()).to_message(), "skill: s");
}
