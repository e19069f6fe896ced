//! What is settled before a session connects: where to connect, and the
//! state that the session starts in.

use crate::classifier::{classification_of, classify, Classification};
use crate::config::{
    class_named, endpoint_text, get_kraken_websockets_api_url, parsed_url, resolve, Endpoint,
    EndpointError,
};
use crate::session::{Plan, Session};
use vstd::prelude::*;

verus! {

/// Why no session was prepared.
#[derive(Clone, Copy, Debug, PartialEq, Eq)]
pub enum AttachError {
    /// The payload names no known event, so no stream class follows from it.
    /// Such a payload is refused: no endpoint is resolved for it.
    Unroutable,
    /// No endpoint was resolved for the stream class.
    Endpoint(EndpointError),
}

/// Prepares a bridge to the stream that `stream_type` names: resolves the
/// endpoint and returns it with a bridge that has yet to connect.
pub fn prepare_stream<M>(stream_type: String) -> (prepared: Result<
    (Endpoint, Session<M>),
    EndpointError,
>)
    ensures
        prepared is Ok <==> parsed_url(endpoint_text(class_named(stream_type@))) is Some,
        prepared matches Ok((endpoint, session)) ==> {
            &&& Some(endpoint@) == parsed_url(endpoint_text(class_named(stream_type@)))
            &&& endpoint.wf()
            &&& session == Session::<M>::Connecting(Plan::Bridge)
        },
{
    match get_kraken_websockets_api_url(stream_type) {
        Ok(endpoint) => Ok((endpoint, Session::bridge())),
        Err(error) => Err(error),
    }
}

/// Prepares a legacy session for `payload`: classifies the payload, resolves
/// the endpoint of its stream class, and returns it with a session that will
/// write the payload as its opening message. An unroutable payload is
/// refused.
pub fn prepare_legacy_stream(payload: String) -> (prepared: Result<
    (Endpoint, Session<String>),
    AttachError,
>)
    ensures
        classification_of(payload@) is Unroutable ==> prepared matches Err(
            AttachError::Unroutable,
        ),
        classification_of(payload@).class() matches Some(class) ==> {
            &&& prepared is Ok <==> parsed_url(endpoint_text(class)) is Some
            &&& prepared matches Ok((endpoint, session)) ==> {
                &&& Some(endpoint@) == parsed_url(endpoint_text(class))
                &&& endpoint.wf()
                &&& session == Session::Connecting(Plan::Legacy(payload))
            }
            &&& prepared matches Err(error) ==> error is Endpoint
        },
{
    match classify(payload.as_str()).stream_class() {
        None => Err(AttachError::Unroutable),
        Some(class) => match resolve(class) {
            Ok(endpoint) => Ok((endpoint, Session::legacy(payload))),
            Err(error) => Err(AttachError::Endpoint(error)),
        },
    }
}

} // verus!
