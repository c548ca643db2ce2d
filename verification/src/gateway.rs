//! What each endpoint of the gateway decides.
//!
//! The outside work of an endpoint (reading the request, the key-value
//! store, writing the response) is done by its caller; the functions here
//! take the outcome of that work and say what to store and what to answer.

use vstd::prelude::*;
use crate::context::{create_context, is_clock_reading, is_gateway_context, is_random_uuid_text};
use crate::crypto::{ed25519_verifying_key, sign_data, signature_accepted, signature_text, signed_by};
use crate::models::{AckMessage, AckStatus, Catalog, Claims, Context, Descriptor, Item, Price, Provider};
use crate::registry::{gateway_subscriber_id, verify_incoming_request, CryptoState};

verus! {

/// The body of a reply.
#[derive(Clone, Debug, PartialEq, Eq)]
pub enum ReplyBody {
    /// No body.
    Empty,
    /// Text passed through as it is.
    Text(String),
    /// A JSON object `{"status": ..}` with this status text.
    Status(String),
    /// A JSON object `{"message": ..}` with this acknowledgement.
    Ack(AckMessage),
    /// A JSON object `{"message": .., "context": ..}`.
    AckWithContext(AckMessage, Context),
    /// A JSON string: a login token.
    Token(String),
}

/// A reply: its HTTP status code, the gateway's signature header if any,
/// and its body.
#[derive(Clone, Debug, PartialEq, Eq)]
pub struct Reply {
    pub status: u16,
    pub signature: Option<String>,
    pub body: ReplyBody,
}

/// A value to store in the key-value store under a key.
#[derive(Clone, Debug, PartialEq, Eq)]
pub struct StoreWrite {
    pub key: String,
    pub value: String,
}

/// What an endpoint does once the store is reachable: one write, then the
/// reply. Where the store cannot be reached, the reply is
/// `store_unavailable()` instead.
#[derive(Clone, Debug, PartialEq, Eq)]
pub struct Plan {
    pub write: StoreWrite,
    pub reply: Reply,
}

/// Whether a signed request is refused, with this reply, or goes ahead.
#[derive(Clone, Debug, PartialEq, Eq)]
pub enum Decision {
    Refuse(Reply),
    Proceed(Plan),
}

/// The outcome of reading a key from the store.
#[derive(Clone, Debug, PartialEq, Eq)]
pub enum StoreRead {
    /// No connection to the store could be made.
    Unavailable,
    /// The read failed, or found no text under the key.
    Failed,
    /// The text stored under the key.
    Found(String),
}

/// The outcome of carrying out a plan's write.
#[derive(Clone, Debug, PartialEq, Eq)]
pub enum StoreAccess {
    /// No connection to the store could be made; nothing was written.
    Unavailable,
    /// The value was written.
    Written,
}

/// The record that a search starts with, while its results are awaited.
pub open spec fn pending_record() -> Seq<char> {
    "{\"status\":\"pending\"}"@
}

/// Whether `m` is the acknowledgement `{"ack": {"status": "ACK"}}`.
pub open spec fn is_ack(m: AckMessage) -> bool {
    m.ack.status@ == "ACK"@
}

/// Whether `r` is a reply with status `status`, no signature header, and a
/// status body with text `text`.
pub open spec fn is_status_reply(r: Reply, status: u16, text: Seq<char>) -> bool {
    &&& r.status == status
    &&& r.signature is None
    &&& r.body matches ReplyBody::Status(t) && t@ == text
}

/// Whether `r` is a plain reply with status `status` and no body.
pub open spec fn is_empty_reply(r: Reply, status: u16) -> bool {
    &&& r.status == status
    &&& r.signature is None
    &&& r.body is Empty
}

/// Whether `r` acknowledges with status 200 and carries `ctx`, without a
/// signature header.
pub open spec fn is_ack_with_context(r: Reply, ctx: Context) -> bool {
    &&& r.status == 200
    &&& r.signature is None
    &&& r.body matches ReplyBody::AckWithContext(m, c) && is_ack(m) && c == ctx
}

/// Whether `r` is the plain acknowledgement with status 200.
pub open spec fn is_plain_ack(r: Reply) -> bool {
    &&& r.status == 200
    &&& r.signature is None
    &&& r.body matches ReplyBody::Ack(m) && is_ack(m)
}

/// The signature text carried by an optional signature header; a missing
/// header counts as empty text.
pub open spec fn header_text(signature: Option<&str>) -> Seq<char> {
    match signature {
        Some(s) => s@,
        None => Seq::empty(),
    }
}

/// Whether a request body with signature text `signature`, from the
/// gateway's own subscriber id, passes the check against the registry with
/// contents `registry`.
pub open spec fn accepted_from_gateway(registry: Map<Seq<char>, Seq<u8>>, body: Seq<char>, signature: Seq<char>) -> bool {
    &&& registry.contains_key(gateway_subscriber_id())
    &&& signature_accepted(body, signature, registry[gateway_subscriber_id()])
}

/// The acknowledgement `{"ack": {"status": "ACK"}}`.
pub fn ack() -> (m: AckMessage)
    ensures
        is_ack(m),
{
    AckMessage { ack: AckStatus { status: "ACK".to_owned() } }
}

/// The reply when the key-value store cannot be reached: status 500, no
/// body.
pub fn store_unavailable() -> (r: Reply)
    ensures
        is_empty_reply(r, 500),
{
    Reply { status: 500, signature: None, body: ReplyBody::Empty }
}

/// The reply of an endpoint that planned `plan`, once its write was tried:
/// the planned reply where the value was written, status 500 where the
/// store could not be reached.
pub fn conclude(plan: Plan, access: StoreAccess) -> (r: Reply)
    ensures
        access is Written ==> r == plan.reply,
        access is Unavailable ==> is_empty_reply(r, 500),
{
    match access {
        StoreAccess::Written => plan.reply,
        StoreAccess::Unavailable => store_unavailable(),
    }
}

/// The reply to a request whose signature does not check out: status 401,
/// no body.
pub fn unauthorized() -> (r: Reply)
    ensures
        is_empty_reply(r, 401),
{
    Reply { status: 401, signature: None, body: ReplyBody::Empty }
}

/// The reply of the root endpoint: the gateway is running.
pub fn index() -> (r: Reply)
    ensures
        is_status_reply(r, 200, "running"@),
{
    Reply { status: 200, signature: None, body: ReplyBody::Status("running".to_owned()) }
}

/// The reply of the endpoints whose counterpart is not built yet.
pub fn implemented_soon() -> (r: Reply)
    ensures
        is_status_reply(r, 200, "implemented soon"@),
{
    Reply { status: 200, signature: None, body: ReplyBody::Status("implemented soon".to_owned()) }
}

/// The claims of the token that a login hands out: subject `user123`,
/// expiring at 10,000,000,000 seconds after the Unix epoch.
pub fn login_claims() -> (claims: Claims)
    ensures
        claims.sub@ == "user123"@,
        claims.exp == 10_000_000_000u64,
{
    Claims { sub: "user123".to_owned(), exp: 10_000_000_000u64 }
}

/// The secret with which login tokens are signed (HMAC-SHA256).
pub fn token_secret() -> (secret: &'static str)
    ensures
        secret@ == "secret"@,
{
    "secret"
}

/// The reply of a login: the token, as a JSON string, with status 200.
pub fn login(token: String) -> (r: Reply)
    ensures
        r.status == 200,
        r.signature is None,
        r.body == ReplyBody::Token(token),
{
    Reply { status: 200, signature: None, body: ReplyBody::Token(token) }
}

/// The reply to a poll for a search's results, given what reading the
/// transaction's key gave: the stored text as it is (200); while nothing
/// can be read, `{"status": "pending"}` (202); without the store, 500.
pub fn poll_search(read: StoreRead) -> (r: Reply)
    ensures
        match read {
            StoreRead::Unavailable => is_empty_reply(r, 500),
            StoreRead::Failed => is_status_reply(r, 202, "pending"@),
            StoreRead::Found(text) => r.status == 200 && r.signature is None && r.body == ReplyBody::Text(text),
        },
{
    match read {
        StoreRead::Unavailable => store_unavailable(),
        StoreRead::Failed => Reply { status: 202, signature: None, body: ReplyBody::Status("pending".to_owned()) },
        StoreRead::Found(text) => Reply { status: 200, signature: None, body: ReplyBody::Text(text) },
    }
}

/// The plan of a search in the transaction that `context` heads: store the
/// pending record under the transaction id, and acknowledge with the
/// context, signing the pending record with the gateway's key in the
/// signature header. The gateway's own verifying key accepts that header
/// over the stored record.
pub fn search_with(crypto: &CryptoState, context: Context) -> (plan: Plan)
    ensures
        plan.write.key@ == context.transaction_id@,
        plan.write.value@ == pending_record(),
        plan.reply.status == 200,
        plan.reply.body matches ReplyBody::AckWithContext(m, c) && is_ack(m) && c == context,
        plan.reply.signature matches Some(sig) && sig@ == signature_text(crypto.signing_key@, pending_record())
            && signed_by(
                crypto.signing_key@,
                ed25519_verifying_key(crypto.signing_key@),
                plan.write.value@,
                sig@,
            ),
{
    let message = "{\"status\":\"pending\"}";
    let signature = sign_data(message, &crypto.signing_key);
    let key = context.transaction_id.clone();
    Plan {
        write: StoreWrite { key, value: message.to_owned() },
        reply: Reply { status: 200, signature: Some(signature), body: ReplyBody::AckWithContext(ack(), context) },
    }
}

/// The plan of a search: as `search_with`, in a new transaction whose
/// context is made now.
pub fn search(crypto: &CryptoState) -> (plan: Plan)
    ensures
        is_random_uuid_text(plan.write.key@),
        plan.write.value@ == pending_record(),
        plan.reply.status == 200,
        plan.reply.body matches ReplyBody::AckWithContext(m, c) && is_ack(m)
            && is_gateway_context(c, "search"@, plan.write.key@, c.message_id@, c.timestamp)
            && is_random_uuid_text(c.message_id@) && is_clock_reading(c.timestamp),
        plan.reply.signature matches Some(sig) && sig@ == signature_text(crypto.signing_key@, pending_record())
            && signed_by(
                crypto.signing_key@,
                ed25519_verifying_key(crypto.signing_key@),
                plan.write.value@,
                sig@,
            ),
{
    let context = create_context("search", None);
    search_with(crypto, context)
}

/// The signature text of an optional signature header.
fn signature_or_empty<'a>(signature: Option<&'a str>) -> (text: &'a str)
    ensures
        text@ == header_text(signature),
{
    match signature {
        Some(s) => s,
        None => {
            proof {
                reveal_strlit("");
            }
            ""
        },
    }
}

/// The decision on the results of a search. `message_json` is the
/// results' message as it was signed, `stored_json` the text to store for
/// it, `signature` the signature header. The message must carry a valid
/// signature of the gateway's own subscriber id (status 401 otherwise);
/// then the text is stored under the transaction id and acknowledged.
pub fn on_search(
    crypto: &CryptoState,
    message_json: &str,
    stored_json: String,
    signature: Option<&str>,
    transaction_id: String,
) -> (d: Decision)
    ensures
        accepted_from_gateway(crypto.participant_registry@, message_json@, header_text(signature)) ==> (d matches Decision::Proceed(plan)
            && plan.write == StoreWrite { key: transaction_id, value: stored_json } && is_plain_ack(plan.reply)),
        !accepted_from_gateway(crypto.participant_registry@, message_json@, header_text(signature)) ==> (d matches Decision::Refuse(r)
            && is_empty_reply(r, 401)),
        forall|secret: Seq<u8>|
            crypto.participant_registry@.contains_key(gateway_subscriber_id()) && #[trigger] signed_by(
                secret,
                crypto.participant_registry@[gateway_subscriber_id()],
                message_json@,
                header_text(signature),
            ) ==> d is Proceed,
{
    let sig = signature_or_empty(signature);
    if !verify_incoming_request(message_json, sig, "bap.gateway.com", &crypto.participant_registry) {
        return Decision::Refuse(unauthorized());
    }
    Decision::Proceed(
        Plan {
            write: StoreWrite { key: transaction_id, value: stored_json },
            reply: Reply { status: 200, signature: None, body: ReplyBody::Ack(ack()) },
        },
    )
}

/// The acknowledgement of a step `action` of transaction `transaction_id`,
/// with a context made now.
fn continue_transaction(action: &str, transaction_id: String) -> (r: Reply)
    ensures
        r.status == 200,
        r.signature is None,
        r.body matches ReplyBody::AckWithContext(m, c) && is_ack(m)
            && is_gateway_context(c, action@, transaction_id@, c.message_id@, c.timestamp)
            && is_random_uuid_text(c.message_id@) && is_clock_reading(c.timestamp),
{
    let context = create_context(action, Some(transaction_id));
    Reply { status: 200, signature: None, body: ReplyBody::AckWithContext(ack(), context) }
}

/// The acknowledgement of a selection in transaction `transaction_id`.
pub fn select(transaction_id: String) -> (r: Reply)
    ensures
        r.status == 200,
        r.signature is None,
        r.body matches ReplyBody::AckWithContext(m, c) && is_ack(m)
            && is_gateway_context(c, "select"@, transaction_id@, c.message_id@, c.timestamp)
            && is_random_uuid_text(c.message_id@) && is_clock_reading(c.timestamp),
{
    continue_transaction("select", transaction_id)
}

/// The acknowledgement of an initialisation in transaction `transaction_id`.
pub fn init(transaction_id: String) -> (r: Reply)
    ensures
        r.status == 200,
        r.signature is None,
        r.body matches ReplyBody::AckWithContext(m, c) && is_ack(m)
            && is_gateway_context(c, "init"@, transaction_id@, c.message_id@, c.timestamp)
            && is_random_uuid_text(c.message_id@) && is_clock_reading(c.timestamp),
{
    continue_transaction("init", transaction_id)
}

/// The acknowledgement of a confirmation in transaction `transaction_id`.
pub fn confirm(transaction_id: String) -> (r: Reply)
    ensures
        r.status == 200,
        r.signature is None,
        r.body matches ReplyBody::AckWithContext(m, c) && is_ack(m)
            && is_gateway_context(c, "confirm"@, transaction_id@, c.message_id@, c.timestamp)
            && is_random_uuid_text(c.message_id@) && is_clock_reading(c.timestamp),
{
    continue_transaction("confirm", transaction_id)
}

/// Whether `catalog` is the catalog with which a provider's answer to a
/// search is simulated: one provider `provider_456` ("ONDC Ride
/// Provider") with one item `item_123` ("Standard Cab") at 250.0 INR.
pub open spec fn is_simulated_catalog(catalog: Catalog) -> bool {
    &&& catalog.providers@.len() == 1
    &&& catalog.providers@[0].id@ == "provider_456"@
    &&& catalog.providers@[0].descriptor.name@ == "ONDC Ride Provider"@
    &&& catalog.providers@[0].items@.len() == 1
    &&& catalog.providers@[0].items@[0].id@ == "item_123"@
    &&& catalog.providers@[0].items@[0].descriptor.name@ == "Standard Cab"@
    &&& catalog.providers@[0].items@[0].price.value@ == "250.0"@
    &&& catalog.providers@[0].items@[0].price.currency@ == "INR"@
}

/// The catalog with which a provider's answer to a search is simulated.
pub fn simulated_catalog() -> (catalog: Catalog)
    ensures
        is_simulated_catalog(catalog),
{
    let item = Item {
        id: "item_123".to_owned(),
        descriptor: Descriptor { name: "Standard Cab".to_owned() },
        price: Price { value: "250.0".to_owned(), currency: "INR".to_owned() },
    };
    let mut items: Vec<Item> = Vec::new();
    items.push(item);
    let provider = Provider {
        id: "provider_456".to_owned(),
        descriptor: Descriptor { name: "ONDC Ride Provider".to_owned() },
        items,
    };
    let mut providers: Vec<Provider> = Vec::new();
    providers.push(provider);
    Catalog { providers }
}

/// The JSON text of the simulated catalog (`simulated_catalog`), with the
/// keys of each object in order, as the gateway stores it.
pub open spec fn simulated_catalog_text() -> Seq<char> {
    "{\"providers\":[{\"descriptor\":{\"name\":\"ONDC Ride Provider\"},\"id\":\"provider_456\",\"items\":[{\"descriptor\":{\"name\":\"Standard Cab\"},\"id\":\"item_123\",\"price\":{\"currency\":\"INR\",\"value\":\"250.0\"}}]}]}"@
}

/// The JSON text of the simulated catalog.
pub fn simulated_catalog_json() -> (text: String)
    ensures
        text@ == simulated_catalog_text(),
{
    "{\"providers\":[{\"descriptor\":{\"name\":\"ONDC Ride Provider\"},\"id\":\"provider_456\",\"items\":[{\"descriptor\":{\"name\":\"Standard Cab\"},\"id\":\"item_123\",\"price\":{\"currency\":\"INR\",\"value\":\"250.0\"}}]}]}".to_owned()
}

/// The plan of a simulated answer to search `transaction_id`: store the
/// simulated catalog's text under the transaction id, and say that the
/// callback was simulated.
pub fn simulate_on_search(transaction_id: String) -> (plan: Plan)
    ensures
        plan.write.key == transaction_id,
        plan.write.value@ == simulated_catalog_text(),
        is_status_reply(plan.reply, 200, "callback_simulated"@),
{
    Plan {
        write: StoreWrite { key: transaction_id, value: simulated_catalog_json() },
        reply: Reply { status: 200, signature: None, body: ReplyBody::Status("callback_simulated".to_owned()) },
    }
}

/// The decision on a raised issue. `message_json` is the issue message as
/// it was signed, `stored_issue_json` the text to store for the issue,
/// `signature` the signature header. The message must carry a valid
/// signature of the gateway's own subscriber id (status 401 otherwise);
/// then the issue is stored under its id and acknowledged with the
/// request's context.
pub fn issue(
    crypto: &CryptoState,
    message_json: &str,
    stored_issue_json: String,
    signature: Option<&str>,
    context: Context,
    issue_id: String,
) -> (d: Decision)
    ensures
        accepted_from_gateway(crypto.participant_registry@, message_json@, header_text(signature)) ==> (d matches Decision::Proceed(plan)
            && plan.write == StoreWrite { key: issue_id, value: stored_issue_json } && is_ack_with_context(plan.reply, context)),
        !accepted_from_gateway(crypto.participant_registry@, message_json@, header_text(signature)) ==> (d matches Decision::Refuse(r)
            && is_empty_reply(r, 401)),
        forall|secret: Seq<u8>|
            crypto.participant_registry@.contains_key(gateway_subscriber_id()) && #[trigger] signed_by(
                secret,
                crypto.participant_registry@[gateway_subscriber_id()],
                message_json@,
                header_text(signature),
            ) ==> d is Proceed,
{
    let sig = signature_or_empty(signature);
    if !verify_incoming_request(message_json, sig, "bap.gateway.com", &crypto.participant_registry) {
        return Decision::Refuse(unauthorized());
    }
    Decision::Proceed(
        Plan {
            write: StoreWrite { key: issue_id, value: stored_issue_json },
            reply: Reply { status: 200, signature: None, body: ReplyBody::AckWithContext(ack(), context) },
        },
    )
}

/// The plan of an answer to an issue: store `stored_issue_json` under the
/// issue's id and acknowledge.
pub fn on_issue(issue_id: String, stored_issue_json: String) -> (plan: Plan)
    ensures
        plan.write == (StoreWrite { key: issue_id, value: stored_issue_json }),
        is_plain_ack(plan.reply),
{
    Plan {
        write: StoreWrite { key: issue_id, value: stored_issue_json },
        reply: Reply { status: 200, signature: None, body: ReplyBody::Ack(ack()) },
    }
}

} // verus!
