//! The Beckn context that the gateway puts on the messages it starts.

use vstd::prelude::*;
use crate::models::{Context, Timestamp};

verus! {

/// Whether `c` is a digit of lower-case hexadecimal.
pub open spec fn is_lower_hex_digit(c: char) -> bool {
    ('0' <= c && c <= '9') || ('a' <= c && c <= 'f')
}

/// Whether `s` is the hyphenated lower-case text of a random (version 4,
/// RFC 9562 variant) UUID, such as `67e55044-10b1-426f-9247-bb680e5fe0c8`.
pub open spec fn is_random_uuid_text(s: Seq<char>) -> bool {
    &&& s.len() == 36
    &&& forall|i: int|
        0 <= i < 36 ==> if i == 8 || i == 13 || i == 18 || i == 23 {
            #[trigger] s[i] == '-'
        } else {
            is_lower_hex_digit(s[i])
        }
    &&& s[14] == '4'
    &&& (s[19] == '8' || s[19] == '9' || s[19] == 'a' || s[19] == 'b')
}

/// Whether `t` is a time that the clock can report: not before the Unix
/// epoch, and the nanoseconds past the second below two seconds' worth
/// (the second one a leap second).
pub open spec fn is_clock_reading(t: Timestamp) -> bool {
    t.secs >= 0 && t.nanos < 2_000_000_000
}

/// Whether `ctx` is the gateway's context for `action` in transaction
/// `transaction_id`, with message id `message_id`, stamped `timestamp`.
pub open spec fn is_gateway_context(
    ctx: Context,
    action: Seq<char>,
    transaction_id: Seq<char>,
    message_id: Seq<char>,
    timestamp: Timestamp,
) -> bool {
    &&& ctx.domain@ == "nic2004:60221"@
    &&& ctx.country@ == "IND"@
    &&& ctx.city@ == "std:080"@
    &&& ctx.action@ == action
    &&& ctx.core_version@ == "1.0.0"@
    &&& ctx.bap_id@ == "bap.gateway.com"@
    &&& ctx.bap_uri@ == "http://localhost:8080"@
    &&& ctx.transaction_id@ == transaction_id
    &&& ctx.message_id@ == message_id
    &&& ctx.timestamp == timestamp
}

/// Calls `uuid::Uuid::new_v4()` and formats it with `to_string`.
/// Claimed, as the crate's source shows (`new_v4` masks in the version and
/// variant bits, `Display` writes the lower-case hyphenated form): the
/// text is that of a random UUID. Which one is left to chance; the crate
/// panics if the system's random source fails.
#[verifier::external_body]
fn fresh_uuid() -> (id: String)
    ensures
        is_random_uuid_text(id@),
{
    uuid::Uuid::new_v4().to_string()
}

/// Reads `chrono::Utc::now()` as `timestamp()` seconds and
/// `timestamp_subsec_nanos()`. Claimed, as chrono's source and
/// documentation show: `now` measures the time since the Unix epoch (it
/// panics on a clock set before it), so the seconds are not negative; the
/// nanoseconds exceed 999,999,999 only within a leap second, and stay
/// below 2,000,000,000. The time itself is left to the clock.
#[verifier::external_body]
fn utc_now() -> (now: Timestamp)
    ensures
        is_clock_reading(now),
{
    let now = chrono::Utc::now();
    Timestamp { secs: now.timestamp(), nanos: now.timestamp_subsec_nanos() }
}

/// The gateway's context for `action`, with the given transaction id,
/// message id and time.
pub fn context_with(action: &str, transaction_id: String, message_id: String, timestamp: Timestamp) -> (ctx: Context)
    ensures
        is_gateway_context(ctx, action@, transaction_id@, message_id@, timestamp),
{
    Context {
        domain: "nic2004:60221".to_owned(),
        country: "IND".to_owned(),
        city: "std:080".to_owned(),
        action: action.to_owned(),
        core_version: "1.0.0".to_owned(),
        bap_id: "bap.gateway.com".to_owned(),
        bap_uri: "http://localhost:8080".to_owned(),
        transaction_id,
        message_id,
        timestamp,
    }
}

/// The gateway's context for `action`, stamped now, with a fresh message
/// id. It continues `transaction_id` where one is given, and starts a
/// transaction with a fresh id where none is.
///
/// Fresh ids are random version-4 UUIDs and the stamp is what the system
/// clock reads; neither keeps a record of earlier calls, so this contract
/// states the form of every outcome, not which one comes out.
pub fn create_context(action: &str, transaction_id: Option<String>) -> (ctx: Context)
    ensures
        is_gateway_context(ctx, action@, ctx.transaction_id@, ctx.message_id@, ctx.timestamp),
        match transaction_id {
            Some(t) => ctx.transaction_id@ == t@,
            None => is_random_uuid_text(ctx.transaction_id@),
        },
        is_random_uuid_text(ctx.message_id@),
        is_clock_reading(ctx.timestamp),
{
    let transaction_id = match transaction_id {
        Some(t) => t,
        None => fresh_uuid(),
    };
    let message_id = fresh_uuid();
    let timestamp = utc_now();
    context_with(action, transaction_id, message_id, timestamp)
}

} // verus!
