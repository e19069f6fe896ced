//! Client-side logic for the Kraken exchange WebSocket API.
//!
//! The crate decides and computes; it performs no input or output. It
//! resolves the endpoint of a stream class, classifies a payload by the event
//! names in it, extracts the token from the body of a token response, and
//! holds the state machine of a streaming session: what to do with every
//! event that the socket and the outbound queue can bring.

pub mod attach;
pub mod classifier;
pub mod config;
pub mod info;
pub mod laws;
pub mod report;
pub mod session;
pub mod text;
pub mod utils;
