//! Endpoint resolution: from a stream class to the URL that a session
//! connects to.

use crate::classifier::StreamClass;
use vstd::prelude::*;
use vstd::string::StringExecFns;

verus! {

/// The error of `url::Url::parse`. Nothing is known of a value of it.
#[verifier::external_type_specification]
#[verifier::external_body]
pub struct ExParseError(url::ParseError);

/// The serialization of the URL that `url::Url::parse` reads from `input`, or
/// `None` where it reads none. It stands for the URL parser of the `url`
/// crate, which works on its input alone.
pub uninterp spec fn parsed_url(input: Seq<char>) -> Option<Seq<char>>;

/// Calls `url::Url::parse` on `input`. On success it hands back the
/// serialization of the parsed URL, the text that `Url::as_str` shows; on
/// failure, the parser's error. The contract claims only that this outcome is
/// the one that `parsed_url` names for `input`.
#[verifier::external_body]
fn parse_url(input: &str) -> (parsed: Result<String, url::ParseError>)
    ensures
        parsed matches Ok(text) ==> parsed_url(input@) == Some(text@),
        parsed is Err ==> parsed_url(input@) is None,
{
    match url::Url::parse(input) {
        Ok(url) => Ok(String::from(url)),
        Err(error) => Err(error),
    }
}

/// The name that a caller gives to the private stream class.
pub open spec fn private_name() -> Seq<char> {
    "private"@
}

/// The stream class that a name stands for: the private class for the name
/// `private`, the public class for every other name.
pub open spec fn class_named(name: Seq<char>) -> StreamClass {
    if name == private_name() {
        StreamClass::Private
    } else {
        StreamClass::Public
    }
}

/// The text of the endpoint of a stream class, before it is parsed.
pub open spec fn endpoint_text(class: StreamClass) -> Seq<char> {
    match class {
        StreamClass::Public => "wss://ws.kraken.com"@,
        StreamClass::Private => "wss://ws-auth.kraken.com"@,
    }
}

/// A connection target: the serialization of a URL that the parser accepted.
#[derive(Clone, Debug, PartialEq, Eq)]
pub struct Endpoint {
    url: String,
}

/// Why no endpoint was resolved.
#[derive(Clone, Copy, Debug, PartialEq, Eq)]
pub enum EndpointError {
    /// The text is no absolute URL; the parser's error says why.
    InvalidUrl(url::ParseError),
}

impl View for Endpoint {
    type V = Seq<char>;

    closed spec fn view(&self) -> Seq<char> {
        self.url@
    }
}

impl Endpoint {
    /// The endpoint is the serialization of a parsed URL.
    pub open spec fn wf(&self) -> bool {
        exists|input: Seq<char>| parsed_url(input) == Some(self@)
    }

    /// Parses `text` as an absolute URL. The endpoint is the parsed URL's
    /// serialization; text that is no absolute URL is refused.
    pub fn parse(text: &str) -> (endpoint: Result<Endpoint, EndpointError>)
        ensures
            endpoint is Ok <==> parsed_url(text@) is Some,
            endpoint matches Ok(e) ==> Some(e@) == parsed_url(text@) && e.wf(),
    {
        match parse_url(text) {
            Ok(url) => Ok(Endpoint { url }),
            Err(error) => Err(EndpointError::InvalidUrl(error)),
        }
    }

    /// The endpoint's URL as text.
    pub fn as_str(&self) -> (text: &str)
        ensures
            text@ == self@,
    {
        self.url.as_str()
    }

    /// The endpoint's URL as an owned string.
    pub fn into_string(self) -> (text: String)
        ensures
            text@ == self@,
    {
        self.url
    }
}

impl StreamClass {
    /// The stream class that `name` stands for: `private` names the private
    /// class, and every other name the public one.
    pub fn from_name(name: &str) -> (class: StreamClass)
        ensures
            class == class_named(name@),
    {
        if String::from_str(name) == String::from_str("private") {
            StreamClass::Private
        } else {
            StreamClass::Public
        }
    }

    /// The text of the class's endpoint, before it is parsed.
    pub fn endpoint_text(self) -> (text: &'static str)
        ensures
            text@ == endpoint_text(self),
    {
        match self {
            StreamClass::Public => "wss://ws.kraken.com",
            StreamClass::Private => "wss://ws-auth.kraken.com",
        }
    }
}

/// Resolves the endpoint of a stream class. It is computed anew at every
/// call. The two candidate texts are fixed, so an error means that the URL
/// parser refuses one of them.
pub fn resolve(class: StreamClass) -> (endpoint: Result<Endpoint, EndpointError>)
    ensures
        endpoint is Ok <==> parsed_url(endpoint_text(class)) is Some,
        endpoint matches Ok(e) ==> Some(e@) == parsed_url(endpoint_text(class)) && e.wf(),
{
    Endpoint::parse(class.endpoint_text())
}

/// Resolves the endpoint of the stream class that `stream_type` names.
pub fn get_kraken_websockets_api_url(stream_type: String) -> (endpoint: Result<
    Endpoint,
    EndpointError,
>)
    ensures
        endpoint is Ok <==> parsed_url(endpoint_text(class_named(stream_type@))) is Some,
        endpoint matches Ok(e) ==> Some(e@) == parsed_url(endpoint_text(class_named(stream_type@)))
            && e.wf(),
{
    resolve(StreamClass::from_name(stream_type.as_str()))
}

} // verus!
