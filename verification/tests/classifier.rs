use squalo::classifier::{classify, Classification, StreamClass};

#[test]
fn payload_without_keyword_is_unroutable() {
    assert_eq!(classify(""), Classification::Unroutable);
    assert_eq!(classify("{\"event\":\"subscribe\"}"), Classification::Unroutable);
    assert_eq!(classify("hello"), Classification::Unroutable);
    assert_eq!(classify("Ping TRADE Book"), Classification::Unroutable);
}

#[test]
fn every_public_keyword_makes_a_payload_public() {
    for keyword in ["ping", "trade", "book", "ticker", "spread", "ohlc"] {
        let payload = format!("{{\"event\":\"subscribe\",\"subscription\":{{\"name\":\"{}\"}}}}", keyword);
        assert_eq!(classify(&payload), Classification::Public);
        assert_eq!(classify(keyword), Classification::Public);
    }
}

#[test]
fn every_private_keyword_makes_a_payload_private() {
    for keyword in [
        "ownTrades",
        "openOrders",
        "addOrder",
        "cancelOrder",
        "cancelAll",
        "cancelAllOrdersAfter",
    ] {
        let payload = format!("{{\"event\":\"{}\",\"token\":\"T\"}}", keyword);
        assert_eq!(classify(&payload), Classification::Private);
        assert_eq!(classify(keyword), Classification::Private);
    }
}

#[test]
fn public_keyword_wins_over_private_keyword() {
    assert_eq!(classify("ownTrades and trade"), Classification::Public);
    assert_eq!(classify("addOrder ping"), Classification::Public);
    assert_eq!(classify("cancelAll openOrders ohlc"), Classification::Public);
    assert_eq!(
        classify("{\"event\":\"addOrder\",\"pair\":\"XBT/USD\",\"note\":\"spread\"}"),
        Classification::Public
    );
}

#[test]
fn keywords_are_found_inside_longer_words() {
    assert_eq!(classify("trades"), Classification::Public);
    assert_eq!(classify("bookkeeping"), Classification::Public);
    assert_eq!(classify("xxcancelOrderxx"), Classification::Private);
}

#[test]
fn subscription_examples_are_classified() {
    assert_eq!(
        classify("{\"event\":\"subscribe\", \"subscription\":{\"name\":\"trade\"}, \"pair\":[\"XRP/EUR\", \"ETH/USD\"]}"),
        Classification::Public
    );
    assert_eq!(
        classify("{\"event\":\"subscribe\", \"subscription\":{\"name\":\"ownTrades\", \"token\":\"ABC123\"}}"),
        Classification::Private
    );
}

#[test]
fn classification_names_its_stream_class() {
    assert_eq!(Classification::Public.stream_class(), Some(StreamClass::Public));
    assert_eq!(Classification::Private.stream_class(), Some(StreamClass::Private));
    assert_eq!(Classification::Unroutable.stream_class(), None);
}
