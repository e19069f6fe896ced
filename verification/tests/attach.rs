use squalo::attach::{prepare_legacy_stream, prepare_stream, AttachError};
use squalo::session::{Plan, Session};

#[test]
fn bridge_is_prepared_for_the_named_stream() {
    let (endpoint, session) = prepare_stream::<String>("private".to_string()).unwrap();
    assert_eq!(endpoint.as_str(), "wss://ws-auth.kraken.com/");
    assert_eq!(session, Session::Connecting(Plan::Bridge));
    let (endpoint, session) = prepare_stream::<String>("public".to_string()).unwrap();
    assert_eq!(endpoint.as_str(), "wss://ws.kraken.com/");
    assert_eq!(session, Session::Connecting(Plan::Bridge));
}

#[test]
fn legacy_session_is_prepared_for_the_class_of_its_payload() {
    let payload = "{\"event\":\"subscribe\", \"subscription\":{\"name\":\"trade\"}}".to_string();
    let (endpoint, session) = prepare_legacy_stream(payload.clone()).unwrap();
    assert_eq!(endpoint.as_str(), "wss://ws.kraken.com/");
    assert_eq!(session, Session::Connecting(Plan::Legacy(payload)));

    let payload = "{\"event\":\"subscribe\", \"subscription\":{\"name\":\"ownTrades\", \"token\":\"T\"}}".to_string();
    let (endpoint, session) = prepare_legacy_stream(payload.clone()).unwrap();
    assert_eq!(endpoint.as_str(), "wss://ws-auth.kraken.com/");
    assert_eq!(session, Session::Connecting(Plan::Legacy(payload)));
}

#[test]
fn legacy_session_is_refused_for_an_unroutable_payload() {
    assert_eq!(
        prepare_legacy_stream("{\"event\":\"subscribe\"}".to_string()),
        Err(AttachError::Unroutable)
    );
    assert_eq!(prepare_legacy_stream(String::new()), Err(AttachError::Unroutable));
}
