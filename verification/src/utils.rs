//! Extraction of the token from the raw body of a token response.

use crate::text::{contains, field, field_count, nth_field, occurs_in};
use vstd::prelude::*;

verus! {

/// The character that delimits the fields of a response body.
pub const QUOTE: char = '"';

/// The number, counted from 0, of the quote-delimited field that holds the
/// token in a body of the shape
/// `{"error":[],"result":{"token":"...","expires":...}}`.
pub const TOKEN_FIELD: usize = 7;

/// The REST method that answers with a token for the private stream.
pub const TOKEN_METHOD: &'static str = "GetWebSocketsToken";

/// The body speaks of a token at all.
pub open spec fn mentions_token(payload: Seq<char>) -> bool {
    occurs_in(payload, "token"@)
}

/// The quotes divide the body into enough fields for one to stand at the
/// token's position.
pub open spec fn has_token_field(payload: Seq<char>) -> bool {
    field_count(payload, QUOTE) > TOKEN_FIELD
}

/// The token that a body yields: the field at the token's position where the
/// body speaks of a token, and the empty text where it does not.
pub open spec fn token_of(payload: Seq<char>) -> Seq<char> {
    if mentions_token(payload) {
        field(payload, QUOTE, TOKEN_FIELD as nat)
    } else {
        Seq::empty()
    }
}

/// Extracts the token from a response body, or returns `None` for a body
/// that speaks of a token but has too few quote-delimited fields to hold one.
///
/// The extraction is positional: it does not read the body as JSON, and a
/// body whose keys stand in another order yields another field.
pub fn try_extract_token(payload: &str) -> (token: Option<String>)
    ensures
        token is None <==> mentions_token(payload@) && !has_token_field(payload@),
        token matches Some(t) ==> t@ == token_of(payload@),
        token matches Some(t) ==> !mentions_token(payload@) ==> t@ == Seq::<char>::empty(),
        token matches Some(t) ==> mentions_token(payload@) ==> t@ == field(
            payload@,
            QUOTE,
            TOKEN_FIELD as nat,
        ),
{
    if contains(payload, "token") {
        nth_field(payload, QUOTE, TOKEN_FIELD)
    } else {
        Some(String::new())
    }
}

/// Extracts the token from a response body: the content of the field at the
/// token's position where the body holds the text `token`, and the empty text
/// where it does not.
///
/// A body that speaks of a token must have a field at the token's position;
/// `try_extract_token` takes every body.
pub fn extract_token(payload: String) -> (token: String)
    requires
        mentions_token(payload@) ==> has_token_field(payload@),
    ensures
        token@ == token_of(payload@),
        !mentions_token(payload@) ==> token@ == Seq::<char>::empty(),
        mentions_token(payload@) ==> token@ == field(payload@, QUOTE, TOKEN_FIELD as nat),
{
    try_extract_token(payload.as_str()).unwrap()
}

} // verus!
