use squalo::utils::{extract_token, try_extract_token, QUOTE, TOKEN_FIELD};

#[test]
fn token_is_the_eighth_quote_delimited_field() {
    let body = "{\"error\":[],\"result\":{\"token\":\"ABC123\",\"expires\":900}}";
    assert_eq!(extract_token(body.to_string()), "ABC123");
    assert_eq!(try_extract_token(body), Some("ABC123".to_string()));
}

#[test]
fn token_position_is_fixed() {
    assert_eq!(QUOTE, '"');
    assert_eq!(TOKEN_FIELD, 7);
    let body = "0\"1\"2\"3\"4\"5\"6\"7\"8\"token";
    assert_eq!(extract_token(body.to_string()), "7");
}

#[test]
fn body_without_token_yields_empty_text() {
    assert_eq!(extract_token("{\"error\":[\"EGeneral:Permission denied\"]}".to_string()), "");
    assert_eq!(extract_token(String::new()), "");
    assert_eq!(try_extract_token("a\"b\"c\"d\"e\"f\"g\"h\"i"), Some(String::new()));
}

#[test]
fn reordered_body_yields_another_field() {
    let body = "{\"result\":{\"token\":\"ABC123\",\"expires\":900},\"error\":[]}";
    assert_eq!(extract_token(body.to_string()), "expires");
}

#[test]
fn token_may_be_empty() {
    let body = "{\"error\":[],\"result\":{\"token\":\"\",\"expires\":900}}";
    assert_eq!(extract_token(body.to_string()), "");
    assert_eq!(try_extract_token(body), Some(String::new()));
}

#[test]
fn token_field_may_be_the_last() {
    assert_eq!(try_extract_token("token\"1\"2\"3\"4\"5\"6\"x"), Some("x".to_string()));
    assert_eq!(try_extract_token("token\"1\"2\"3\"4\"5\"6\""), Some(String::new()));
}

#[test]
fn body_with_token_and_too_few_fields_is_refused() {
    assert_eq!(try_extract_token("token"), None);
    assert_eq!(try_extract_token("{\"token\":\"ABC123\"}"), None);
    assert_eq!(try_extract_token("token\"1\"2\"3\"4\"5\"6"), None);
}
