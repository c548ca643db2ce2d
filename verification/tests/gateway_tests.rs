use backend_gateway::context::{context_with, create_context};
use backend_gateway::crypto::{sign_data, verify_data};
use backend_gateway::gateway::{
    ack, confirm, implemented_soon, index, init, issue, login, login_claims, on_issue, on_search,
    poll_search, search, search_with, select, simulate_on_search, simulated_catalog, store_unavailable,
    token_secret, unauthorized, Decision, Plan, Reply, ReplyBody, StoreRead, StoreWrite,
};
use backend_gateway::gateway::{conclude, simulated_catalog_json, StoreAccess};
use backend_gateway::models::{Context, Timestamp};
use backend_gateway::registry::{verify_incoming_request, CryptoState, ParticipantRegistry};

fn hex32(s: &str) -> [u8; 32] {
    let mut out = [0u8; 32];
    for i in 0..32 {
        out[i] = u8::from_str_radix(&s[2 * i..2 * i + 2], 16).unwrap();
    }
    out
}

// RFC 8032, section 7.1, test 1.
const SECRET_1: &str = "9d61b19deffd5a60ba844af492ec2cc44449c5697b326919703bac031cae7f60";
const PUBLIC_1: &str = "d75a980182b10ab7d54bfed3c964073a0ee172f3daa62325af021a68f707511a";
const SIGNATURE_1_B64: &str = "5VZDAMNgrHKQhuLMgG6CioSHfx645dl02HPgZSJJAVVfuIIVkKM7rMYeOXAc+bRr0lv18FlbviRlUUFDjnoQCw==";
// RFC 8032, section 7.1, test 2 (message: the single byte 0x72, "r").
const SECRET_2: &str = "4ccd089b28ff96da9db6c346ec114e0f5b8a319f35aba624da8cf6ed4fb8a6fb";
const PUBLIC_2: &str = "3d4017c3e843895a92b70aa74d1b7ebc9c982ccf2ec4968cc0cd55f12af4660c";
const SIGNATURE_2_B64: &str = "kqAJqfDUyrhyDoILX2QlQKKye1QWUD+Ps3YiI+vbadoIWsHkPhWZbkWPNhPQ8R2MOHsurrQwKu6wDSkWErsMAA==";

fn sample_context() -> Context {
    context_with(
        "search",
        "tx-1".to_string(),
        "msg-1".to_string(),
        Timestamp { secs: 1_700_000_000, nanos: 5 },
    )
}

fn is_uuid_v4_text(s: &str) -> bool {
    let b = s.as_bytes();
    b.len() == 36
        && b.iter().enumerate().all(|(i, c)| match i {
            8 | 13 | 18 | 23 => *c == b'-',
            _ => c.is_ascii_digit() || (b'a'..=b'f').contains(c),
        })
        && b[14] == b'4'
        && matches!(b[19], b'8' | b'9' | b'a' | b'b')
}

#[test]
fn sign_data_gives_rfc8032_signature_for_empty_message() {
    assert_eq!(sign_data("", &hex32(SECRET_1)), SIGNATURE_1_B64);
}

#[test]
fn sign_data_gives_rfc8032_signature_for_one_byte_message() {
    assert_eq!(sign_data("r", &hex32(SECRET_2)), SIGNATURE_2_B64);
}

#[test]
fn verify_data_accepts_rfc8032_signatures() {
    assert!(verify_data("", SIGNATURE_1_B64, &hex32(PUBLIC_1)));
    assert!(verify_data("r", SIGNATURE_2_B64, &hex32(PUBLIC_2)));
}

#[test]
fn verify_data_refuses_other_message_or_key() {
    assert!(!verify_data("s", SIGNATURE_2_B64, &hex32(PUBLIC_2)));
    assert!(!verify_data("r", SIGNATURE_2_B64, &hex32(PUBLIC_1)));
    assert!(!verify_data("r", SIGNATURE_1_B64, &hex32(PUBLIC_2)));
}

#[test]
fn verify_data_refuses_text_that_is_not_base64() {
    assert!(!verify_data("r", "not base64!", &hex32(PUBLIC_2)));
    assert!(!verify_data("r", "", &hex32(PUBLIC_2)));
    // Unpadded text is not accepted by the padded engine.
    let unpadded = SIGNATURE_2_B64.trim_end_matches('=');
    assert!(!verify_data("r", unpadded, &hex32(PUBLIC_2)));
}

#[test]
fn verify_data_refuses_signatures_of_the_wrong_length() {
    // Three bytes, and 63 bytes, of valid Base64.
    assert!(!verify_data("r", "AAAA", &hex32(PUBLIC_2)));
    let short = "A".repeat(84);
    assert!(!verify_data("r", &short, &hex32(PUBLIC_2)));
}

#[test]
fn signature_roundtrip_with_own_registry() {
    let crypto = CryptoState::new([7u8; 32]);
    for data in ["hello", "", "{\"status\":\"pending\"}", "ünïcödé ✓"] {
        let sig = sign_data(data, &crypto.signing_key);
        assert!(verify_incoming_request(data, &sig, "bap.gateway.com", &crypto.participant_registry));
    }
}

#[test]
fn incoming_request_from_unknown_subscriber_is_refused() {
    let crypto = CryptoState::new([7u8; 32]);
    let sig = sign_data("hello", &crypto.signing_key);
    assert!(!verify_incoming_request("hello", &sig, "someone.else", &crypto.participant_registry));
}

#[test]
fn incoming_request_with_tampered_body_is_refused() {
    let crypto = CryptoState::new([7u8; 32]);
    let sig = sign_data("hello", &crypto.signing_key);
    assert!(!verify_incoming_request("hellp", &sig, "bap.gateway.com", &crypto.participant_registry));
}

#[test]
fn crypto_state_registers_own_verifying_key() {
    let crypto = CryptoState::new(hex32(SECRET_1));
    assert_eq!(crypto.signing_key, hex32(SECRET_1));
    assert_eq!(crypto.participant_registry.get("bap.gateway.com"), Some(hex32(PUBLIC_1)));
    assert_eq!(crypto.participant_registry.get("bap.gateway.co"), None);
}

#[test]
fn registry_lookup_after_register() {
    let mut registry = ParticipantRegistry::new();
    assert_eq!(registry.get("a"), None);
    registry.insert("a".to_string(), [1u8; 32]);
    registry.insert("b".to_string(), [2u8; 32]);
    assert_eq!(registry.get("a"), Some([1u8; 32]));
    assert_eq!(registry.get("b"), Some([2u8; 32]));
    registry.insert("a".to_string(), [3u8; 32]);
    assert_eq!(registry.get("a"), Some([3u8; 32]));
    assert_eq!(registry.get("b"), Some([2u8; 32]));
    assert_eq!(registry.get("c"), None);
}

#[test]
fn registry_key_verifies_for_other_participant() {
    let mut registry = ParticipantRegistry::new();
    registry.insert("provider.example".to_string(), hex32(PUBLIC_2));
    assert!(verify_incoming_request("r", SIGNATURE_2_B64, "provider.example", &registry));
    assert!(!verify_incoming_request("r", SIGNATURE_2_B64, "bap.gateway.com", &registry));
}

#[test]
fn context_with_sets_gateway_constants() {
    let ctx = sample_context();
    assert_eq!(ctx.domain, "nic2004:60221");
    assert_eq!(ctx.country, "IND");
    assert_eq!(ctx.city, "std:080");
    assert_eq!(ctx.action, "search");
    assert_eq!(ctx.core_version, "1.0.0");
    assert_eq!(ctx.bap_id, "bap.gateway.com");
    assert_eq!(ctx.bap_uri, "http://localhost:8080");
    assert_eq!(ctx.transaction_id, "tx-1");
    assert_eq!(ctx.message_id, "msg-1");
    assert_eq!(ctx.timestamp, Timestamp { secs: 1_700_000_000, nanos: 5 });
}

#[test]
fn create_context_keeps_given_transaction() {
    let ctx = create_context("select", Some("tx-42".to_string()));
    assert_eq!(ctx.action, "select");
    assert_eq!(ctx.transaction_id, "tx-42");
    assert!(is_uuid_v4_text(&ctx.message_id));
    assert!(ctx.timestamp.nanos < 2_000_000_000);
    assert!(ctx.timestamp.secs > 1_600_000_000);
}

#[test]
fn create_context_starts_new_transaction() {
    let a = create_context("search", None);
    let b = create_context("search", None);
    assert!(is_uuid_v4_text(&a.transaction_id));
    assert!(is_uuid_v4_text(&a.message_id));
    assert_ne!(a.transaction_id, a.message_id);
    assert_ne!(a.transaction_id, b.transaction_id);
}

#[test]
fn fixed_replies() {
    assert_eq!(index(), Reply { status: 200, signature: None, body: ReplyBody::Status("running".to_string()) });
    assert_eq!(
        implemented_soon(),
        Reply { status: 200, signature: None, body: ReplyBody::Status("implemented soon".to_string()) }
    );
    assert_eq!(store_unavailable(), Reply { status: 500, signature: None, body: ReplyBody::Empty });
    assert_eq!(unauthorized(), Reply { status: 401, signature: None, body: ReplyBody::Empty });
    assert_eq!(ack().ack.status, "ACK");
}

#[test]
fn login_claims_and_reply() {
    let claims = login_claims();
    assert_eq!(claims.sub, "user123");
    assert_eq!(claims.exp, 10_000_000_000);
    assert_eq!(token_secret(), "secret");
    assert_eq!(
        login("t.o.k".to_string()),
        Reply { status: 200, signature: None, body: ReplyBody::Token("t.o.k".to_string()) }
    );
}

#[test]
fn poll_search_replies() {
    assert_eq!(poll_search(StoreRead::Unavailable), store_unavailable());
    assert_eq!(
        poll_search(StoreRead::Failed),
        Reply { status: 202, signature: None, body: ReplyBody::Status("pending".to_string()) }
    );
    assert_eq!(
        poll_search(StoreRead::Found("{\"providers\":[]}".to_string())),
        Reply { status: 200, signature: None, body: ReplyBody::Text("{\"providers\":[]}".to_string()) }
    );
}

#[test]
fn search_with_signs_the_pending_record() {
    let crypto = CryptoState::new(hex32(SECRET_1));
    let plan = search_with(&crypto, sample_context());
    assert_eq!(
        plan.write,
        StoreWrite { key: "tx-1".to_string(), value: "{\"status\":\"pending\"}".to_string() }
    );
    assert_eq!(plan.reply.status, 200);
    assert_eq!(plan.reply.body, ReplyBody::AckWithContext(ack(), sample_context()));
    let sig = plan.reply.signature.clone().unwrap();
    assert_eq!(sig, sign_data("{\"status\":\"pending\"}", &hex32(SECRET_1)));
    assert!(verify_data(&plan.write.value, &sig, &hex32(PUBLIC_1)));
}

#[test]
fn search_starts_a_transaction() {
    let crypto = CryptoState::new([9u8; 32]);
    let plan = search(&crypto);
    assert!(is_uuid_v4_text(&plan.write.key));
    match &plan.reply.body {
        ReplyBody::AckWithContext(m, c) => {
            assert_eq!(m.ack.status, "ACK");
            assert_eq!(c.action, "search");
            assert_eq!(c.transaction_id, plan.write.key);
        }
        other => panic!("unexpected body {:?}", other),
    }
    let sig = plan.reply.signature.clone().unwrap();
    assert!(verify_incoming_request(&plan.write.value, &sig, "bap.gateway.com", &crypto.participant_registry));
}

#[test]
fn on_search_accepts_own_signature() {
    let crypto = CryptoState::new([5u8; 32]);
    let body = "{\"providers\":[]}";
    let sig = sign_data(body, &crypto.signing_key);
    let d = on_search(&crypto, body, "{\"providers\":[] }".to_string(), Some(&sig), "tx-9".to_string());
    assert_eq!(
        d,
        Decision::Proceed(Plan {
            write: StoreWrite { key: "tx-9".to_string(), value: "{\"providers\":[] }".to_string() },
            reply: Reply { status: 200, signature: None, body: ReplyBody::Ack(ack()) },
        })
    );
}

#[test]
fn on_search_refuses_missing_or_wrong_signature() {
    let crypto = CryptoState::new([5u8; 32]);
    let body = "{\"providers\":[]}";
    assert_eq!(
        on_search(&crypto, body, body.to_string(), None, "tx-9".to_string()),
        Decision::Refuse(unauthorized())
    );
    let other = sign_data(body, &[6u8; 32]);
    assert_eq!(
        on_search(&crypto, body, body.to_string(), Some(&other), "tx-9".to_string()),
        Decision::Refuse(unauthorized())
    );
}

#[test]
fn select_init_confirm_acknowledge_with_context() {
    for (action, reply) in [
        ("select", select("tx-3".to_string())),
        ("init", init("tx-3".to_string())),
        ("confirm", confirm("tx-3".to_string())),
    ] {
        assert_eq!(reply.status, 200);
        assert_eq!(reply.signature, None);
        match reply.body {
            ReplyBody::AckWithContext(m, c) => {
                assert_eq!(m, ack());
                assert_eq!(c.action, action);
                assert_eq!(c.transaction_id, "tx-3");
                assert_eq!(c.bap_id, "bap.gateway.com");
                assert!(is_uuid_v4_text(&c.message_id));
            }
            other => panic!("unexpected body {:?}", other),
        }
    }
}

#[test]
fn simulated_catalog_contents() {
    let catalog = simulated_catalog();
    assert_eq!(catalog.providers.len(), 1);
    let p = &catalog.providers[0];
    assert_eq!(p.id, "provider_456");
    assert_eq!(p.descriptor.name, "ONDC Ride Provider");
    assert_eq!(p.items.len(), 1);
    assert_eq!(p.items[0].id, "item_123");
    assert_eq!(p.items[0].descriptor.name, "Standard Cab");
    assert_eq!(p.items[0].price.value, "250.0");
    assert_eq!(p.items[0].price.currency, "INR");
}

const CATALOG_TEXT: &str = "{\"providers\":[{\"descriptor\":{\"name\":\"ONDC Ride Provider\"},\"id\":\"provider_456\",\"items\":[{\"descriptor\":{\"name\":\"Standard Cab\"},\"id\":\"item_123\",\"price\":{\"currency\":\"INR\",\"value\":\"250.0\"}}]}]}";

#[test]
fn simulated_catalog_json_is_the_catalog_text() {
    assert_eq!(simulated_catalog_json(), CATALOG_TEXT);
    let value: serde_json::Value = serde_json::from_str(&simulated_catalog_json()).unwrap();
    assert_eq!(value["providers"][0]["items"][0]["price"]["value"], "250.0");
    assert_eq!(value.to_string(), CATALOG_TEXT);
}

#[test]
fn simulate_on_search_stores_catalog() {
    let plan = simulate_on_search("tx-5".to_string());
    assert_eq!(plan.write, StoreWrite { key: "tx-5".to_string(), value: CATALOG_TEXT.to_string() });
    assert_eq!(
        plan.reply,
        Reply { status: 200, signature: None, body: ReplyBody::Status("callback_simulated".to_string()) }
    );
}

#[test]
fn issue_checks_signature_then_stores() {
    let crypto = CryptoState::new([4u8; 32]);
    let body = "{\"issue\":{\"id\":\"I1\"}}";
    let sig = sign_data(body, &crypto.signing_key);
    let d = issue(&crypto, body, "{\"id\":\"I1\"}".to_string(), Some(&sig), sample_context(), "I1".to_string());
    assert_eq!(
        d,
        Decision::Proceed(Plan {
            write: StoreWrite { key: "I1".to_string(), value: "{\"id\":\"I1\"}".to_string() },
            reply: Reply { status: 200, signature: None, body: ReplyBody::AckWithContext(ack(), sample_context()) },
        })
    );
    let refused = issue(&crypto, "{}", "{}".to_string(), Some(&sig), sample_context(), "I1".to_string());
    assert_eq!(refused, Decision::Refuse(unauthorized()));
}

#[test]
fn on_issue_stores_and_acknowledges() {
    let plan = on_issue("I2".to_string(), "{\"id\":\"I2\"}".to_string());
    assert_eq!(plan.write, StoreWrite { key: "I2".to_string(), value: "{\"id\":\"I2\"}".to_string() });
    assert_eq!(plan.reply, Reply { status: 200, signature: None, body: ReplyBody::Ack(ack()) });
}

#[test]
fn sign_data_text_has_88_characters_and_two_pads() {
    for data in ["", "r", "hello", "{\"status\":\"pending\"}"] {
        let sig = sign_data(data, &[3u8; 32]);
        assert_eq!(sig.len(), 88);
        assert!(sig.ends_with("=="));
    }
}

#[test]
fn verify_data_refuses_unpadded_own_signature() {
    let crypto = CryptoState::new(hex32(SECRET_1));
    let sig = sign_data("hello", &crypto.signing_key);
    let unpadded = sig.trim_end_matches('=');
    assert_eq!(unpadded.len(), 86);
    assert!(!verify_data("hello", unpadded, &hex32(PUBLIC_1)));
    assert!(verify_data("hello", &sig, &hex32(PUBLIC_1)));
}

#[test]
fn verify_data_refuses_non_canonical_last_symbol() {
    // The last sextet before the padding carries bits that no encoding sets.
    let mut bad = SIGNATURE_2_B64.to_string();
    bad.replace_range(84..86, "AB");
    assert!(!verify_data("r", &bad, &hex32(PUBLIC_2)));
}

#[test]
fn conclude_after_write() {
    let plan = on_issue("I3".to_string(), "{}".to_string());
    assert_eq!(conclude(plan.clone(), StoreAccess::Written), plan.reply);
    assert_eq!(conclude(plan, StoreAccess::Unavailable), store_unavailable());
}
