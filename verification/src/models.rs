//! The Beckn message shapes that the gateway sends and receives.

use vstd::prelude::*;

verus! {

/// A point in time in UTC: whole seconds since the Unix epoch, and the
/// nanoseconds past that second (from 1_000_000_000 on, a leap second).
#[derive(Clone, Copy, Debug, PartialEq, Eq, Structural)]
pub struct Timestamp {
    pub secs: i64,
    pub nanos: u32,
}

/// The context that heads every Beckn message.
#[derive(Clone, Debug, PartialEq, Eq)]
pub struct Context {
    pub domain: String,
    pub country: String,
    pub city: String,
    pub action: String,
    pub core_version: String,
    pub bap_id: String,
    pub bap_uri: String,
    pub transaction_id: String,
    pub message_id: String,
    pub timestamp: Timestamp,
}

/// A Beckn request: a context and a message of type `T`.
#[derive(Clone, Debug, PartialEq, Eq)]
pub struct BecknRequest<T> {
    pub context: Context,
    pub message: T,
}

/// The message of a search.
#[derive(Clone, Debug, PartialEq, Eq)]
pub struct SearchMessage {
    pub intent: Intent,
}

/// What a buyer intends to find.
#[derive(Clone, Debug, PartialEq, Eq)]
pub struct Intent {
    pub fulfillment: Fulfillment,
}

/// Where a ride starts and ends.
#[derive(Clone, Debug, PartialEq, Eq)]
pub struct Fulfillment {
    pub start: Location,
    pub end: Location,
}

/// A place, as GPS coordinates in text.
#[derive(Clone, Debug, PartialEq, Eq)]
pub struct Location {
    pub gps: String,
}

/// What providers offer.
#[derive(Clone, Debug, PartialEq, Eq)]
pub struct Catalog {
    pub providers: Vec<Provider>,
}

/// A provider and its items.
#[derive(Clone, Debug, PartialEq, Eq)]
pub struct Provider {
    pub id: String,
    pub descriptor: Descriptor,
    pub items: Vec<Item>,
}

/// A display name.
#[derive(Clone, Debug, PartialEq, Eq)]
pub struct Descriptor {
    pub name: String,
}

/// An item on offer and its price.
#[derive(Clone, Debug, PartialEq, Eq)]
pub struct Item {
    pub id: String,
    pub descriptor: Descriptor,
    pub price: Price,
}

/// A price: an amount in text and a currency code.
#[derive(Clone, Debug, PartialEq, Eq)]
pub struct Price {
    pub value: String,
    pub currency: String,
}

/// An acknowledgement message.
#[derive(Clone, Debug, PartialEq, Eq)]
pub struct AckMessage {
    pub ack: AckStatus,
}

/// The status of an acknowledgement.
#[derive(Clone, Debug, PartialEq, Eq)]
pub struct AckStatus {
    pub status: String,
}

/// The claims of a login token: its subject and its expiry, in seconds
/// since the Unix epoch.
#[derive(Clone, Debug, PartialEq, Eq)]
pub struct Claims {
    pub sub: String,
    pub exp: u64,
}

} // verus!
