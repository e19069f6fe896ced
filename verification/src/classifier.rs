//! Stream classes, and the classification of an outbound payload by the
//! event names it holds.

use crate::text::{chars_of, contains_chars, occurs_in};
use vstd::prelude::*;

verus! {

/// The class of a stream: it decides the host that a session connects to.
#[derive(Clone, Copy, Debug, PartialEq, Eq)]
pub enum StreamClass {
    Public,
    Private,
}

/// What the content of a payload says of the stream it belongs on.
#[derive(Clone, Copy, Debug, PartialEq, Eq)]
pub enum Classification {
    Public,
    Private,
    /// The payload names no known event: it belongs on neither stream.
    Unroutable,
}

/// The payload holds the name of an event of the public stream.
pub open spec fn has_public_keyword(payload: Seq<char>) -> bool {
    ||| occurs_in(payload, "ping"@)
    ||| occurs_in(payload, "trade"@)
    ||| occurs_in(payload, "book"@)
    ||| occurs_in(payload, "ticker"@)
    ||| occurs_in(payload, "spread"@)
    ||| occurs_in(payload, "ohlc"@)
}

/// The payload holds the name of an event of the private stream.
pub open spec fn has_private_keyword(payload: Seq<char>) -> bool {
    ||| occurs_in(payload, "ownTrades"@)
    ||| occurs_in(payload, "openOrders"@)
    ||| occurs_in(payload, "addOrder"@)
    ||| occurs_in(payload, "cancelOrder"@)
    ||| occurs_in(payload, "cancelAll"@)
    ||| occurs_in(payload, "cancelAllOrdersAfter"@)
}

/// The classification of a payload: public where it holds a public event
/// name, whatever else it holds; private where it holds a private event name
/// and no public one; unroutable where it holds neither.
pub open spec fn classification_of(payload: Seq<char>) -> Classification {
    if has_public_keyword(payload) {
        Classification::Public
    } else if has_private_keyword(payload) {
        Classification::Private
    } else {
        Classification::Unroutable
    }
}

fn holds(payload: &Vec<char>, keyword: &str) -> (found: bool)
    ensures
        found == occurs_in(payload@, keyword@),
{
    let keyword_chars = chars_of(keyword);
    contains_chars(payload, &keyword_chars)
}

fn holds_public_keyword(payload: &Vec<char>) -> (found: bool)
    ensures
        found == has_public_keyword(payload@),
{
    holds(payload, "ping") || holds(payload, "trade") || holds(payload, "book") || holds(
        payload,
        "ticker",
    ) || holds(payload, "spread") || holds(payload, "ohlc")
}

fn holds_private_keyword(payload: &Vec<char>) -> (found: bool)
    ensures
        found == has_private_keyword(payload@),
{
    holds(payload, "ownTrades") || holds(payload, "openOrders") || holds(payload, "addOrder")
        || holds(payload, "cancelOrder") || holds(payload, "cancelAll") || holds(
        payload,
        "cancelAllOrdersAfter",
    )
}

/// Classifies a payload by the event names it holds. The public names are
/// looked for first, so a payload that holds names of both kinds is public.
pub fn classify(payload: &str) -> (class: Classification)
    ensures
        class == classification_of(payload@),
        has_public_keyword(payload@) ==> class == Classification::Public,
        !has_public_keyword(payload@) && has_private_keyword(payload@) ==> class
            == Classification::Private,
        !has_public_keyword(payload@) && !has_private_keyword(payload@) ==> class
            == Classification::Unroutable,
{
    let chars = chars_of(payload);
    if holds_public_keyword(&chars) {
        Classification::Public
    } else if holds_private_keyword(&chars) {
        Classification::Private
    } else {
        Classification::Unroutable
    }
}

impl Classification {
    /// The stream class that the classification names, if it names one.
    pub open spec fn class(self) -> Option<StreamClass> {
        match self {
            Classification::Public => Some(StreamClass::Public),
            Classification::Private => Some(StreamClass::Private),
            Classification::Unroutable => None,
        }
    }

    /// The stream class that the classification names, or `None` for a
    /// payload that belongs on neither stream.
    pub fn stream_class(self) -> (class: Option<StreamClass>)
        ensures
            class == self.class(),
    {
        match self {
            Classification::Public => Some(StreamClass::Public),
            Classification::Private => Some(StreamClass::Private),
            Classification::Unroutable => None,
        }
    }
}

} // verus!
