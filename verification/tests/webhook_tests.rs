use ledger_engine::error::AppError;
use ledger_engine::ledger::Ledger;
use ledger_engine::models::account::Account;
use ledger_engine::models::transaction::{TransactionKind, TransactionStatus};
use ledger_engine::models::webhook::{
    NewWebhookEvent, TransactionWebhookData, WebhookEndpoint, WebhookEndpointRequest,
    WebhookEndpointResponse, WebhookPayload,
};
use ledger_engine::platform::ParsedUrl;
use ledger_engine::registry::WebhookRegistry;
use ledger_engine::services::delivery::{
    build_request, record_delivery, Attempt, DeliveryOutcome, EventSeed, Notifier, NotifyReply,
    NotifyStep, Stage, DELIVERY_TIMEOUT_SECONDS,
};
use ledger_engine::services::transaction_service::{credit_row, execute_credit, transfer_row};
use ledger_engine::services::webhook_service::{
    create_webhook_endpoint, delete_webhook_endpoint, deliver_with, draft_endpoint,
    endpoint_responses,
    generate_secret, generate_signature, judge_url, list_webhook_endpoints,
    notify_transaction_webhooks, prepare_endpoint, register_endpoint, registered_response,
    removal, secret_from, signature_header, validate_webhook_url, MAX_URL_LENGTH,
};
use ledger_engine::models::webhook::{frame_payload, frame_transaction};

const OWNER: u128 = 1;
const OTHER: u128 = 2;

fn invalid(reason: &str) -> Result<(), AppError> {
    Err(AppError::InvalidRequest(reason.to_string()))
}

fn endpoint(id: u128, owner: u128, url: &str, active: bool, created_at: i64) -> WebhookEndpoint {
    WebhookEndpoint {
        id,
        api_key_id: owner,
        url: url.to_string(),
        secret: format!("secret-{}", id),
        is_active: active,
        created_at,
    }
}

#[test]
fn plain_http_to_a_public_host_is_rejected() {
    assert_eq!(
        validate_webhook_url("http://example.com/hook"),
        invalid("HTTP is only allowed for localhost. Use HTTPS for production.")
    );
}

#[test]
fn plain_http_to_localhost_is_accepted() {
    assert_eq!(validate_webhook_url("http://localhost/hook"), Ok(()));
    assert_eq!(validate_webhook_url("http://localhost:8080/hook"), Ok(()));
    assert_eq!(validate_webhook_url("http://127.0.0.1/hook"), Ok(()));
    assert_eq!(validate_webhook_url("http://0.0.0.0:3000/"), Ok(()));
}

#[test]
fn https_is_accepted() {
    assert_eq!(validate_webhook_url("https://example.com/hook"), Ok(()));
    assert_eq!(validate_webhook_url("HTTPS://Example.COM/hook"), Ok(()));
}

#[test]
fn other_schemes_are_rejected() {
    assert_eq!(validate_webhook_url("ftp://example.com/hook"), invalid("URL must use HTTP or HTTPS"));
    assert_eq!(validate_webhook_url("mailto:a@example.com"), invalid("URL must use HTTP or HTTPS"));
}

#[test]
fn text_that_is_no_url_is_rejected() {
    assert_eq!(validate_webhook_url("not a url"), invalid("Invalid URL format"));
    assert_eq!(validate_webhook_url(""), invalid("Invalid URL format"));
    assert_eq!(validate_webhook_url("https://"), invalid("Invalid URL format"));
}

#[test]
fn url_length_limit_is_2048_characters() {
    assert_eq!(MAX_URL_LENGTH, 2048);
    let prefix = "https://example.com/";
    let fits = format!("{}{}", prefix, "a".repeat(2048 - prefix.len()));
    assert_eq!(fits.len(), 2048);
    assert_eq!(validate_webhook_url(&fits), Ok(()));
    let too_long = format!("{}a", fits);
    assert_eq!(validate_webhook_url(&too_long), invalid("URL exceeds 2048 characters"));
    let long_garbage = "x".repeat(3000);
    assert_eq!(validate_webhook_url(&long_garbage), invalid("URL exceeds 2048 characters"));
}

#[test]
fn url_length_counts_characters() {
    let prefix = "https://example.com/";
    let fits = format!("{}{}", prefix, "\u{e9}".repeat(2048 - prefix.len()));
    assert!(fits.len() > 2048);
    assert_eq!(fits.chars().count(), 2048);
    assert_eq!(validate_webhook_url(&fits), Ok(()));
}

#[test]
fn judged_by_scheme_and_host() {
    let parsed = |scheme: &str, host: Option<&str>| {
        Some(ParsedUrl { scheme: scheme.to_string(), host: host.map(String::from) })
    };
    assert_eq!(judge_url(10, parsed("https", Some("example.com"))), Ok(()));
    assert_eq!(judge_url(10, parsed("https", None)), Ok(()));
    assert_eq!(judge_url(10, parsed("http", Some("localhost"))), Ok(()));
    assert_eq!(
        judge_url(10, parsed("http", None)),
        invalid("HTTP is only allowed for localhost. Use HTTPS for production.")
    );
    assert_eq!(
        judge_url(10, parsed("http", Some("localhost.example.com"))),
        invalid("HTTP is only allowed for localhost. Use HTTPS for production.")
    );
    assert_eq!(judge_url(10, parsed("ws", Some("localhost"))), invalid("URL must use HTTP or HTTPS"));
    assert_eq!(judge_url(10, None), invalid("Invalid URL format"));
    assert_eq!(judge_url(2048, parsed("https", None)), Ok(()));
    assert_eq!(judge_url(2049, parsed("https", None)), invalid("URL exceeds 2048 characters"));
}

#[test]
fn signature_matches_the_published_test_vector() {
    let header = generate_signature("Jefe", "what do ya want for nothing?");
    assert_eq!(
        header,
        "sha256=5bdcc146bf60754e6a042426089575c75a003f089d2739839dec58b964ec3843"
    );
}

#[test]
fn signature_depends_on_secret_and_payload() {
    let base = generate_signature("secret", "{}");
    assert_eq!(base, generate_signature("secret", "{}"));
    assert_ne!(base, generate_signature("secret2", "{}"));
    assert_ne!(base, generate_signature("secret", "{ }"));
    assert_eq!(base.len(), 71);
    assert!(base.starts_with("sha256="));
    assert!(base[7..].chars().all(|c| c.is_ascii_digit() || ('a'..='f').contains(&c)));
}

#[test]
fn signature_of_empty_secret_and_payload() {
    assert_eq!(
        generate_signature("", ""),
        "sha256=b613679a0814d9ec772f95d778c35fc5ff1697c493715653c6c712144292c5ad"
    );
}

#[test]
fn secret_is_64_hexadecimal_digits() {
    let secret = generate_secret();
    assert_eq!(secret.len(), 64);
    assert!(secret.chars().all(|c| c.is_ascii_digit() || ('a'..='f').contains(&c)));
    assert_ne!(secret, generate_secret());
}

#[test]
fn registration_shows_the_secret_once() {
    let mut registry = WebhookRegistry::new();
    let request = WebhookEndpointRequest { url: "https://example.com/hook".to_string() };
    let created = create_webhook_endpoint(&mut registry, OWNER, request).unwrap();
    let secret = created.secret.clone().unwrap();
    assert_eq!(secret.len(), 64);
    assert!(created.is_active);
    assert_eq!(created.url, "https://example.com/hook");
    let listed = list_webhook_endpoints(&registry, OWNER).unwrap();
    assert_eq!(listed.len(), 1);
    assert_eq!(listed[0].id, created.id);
    assert_eq!(listed[0].secret, None);
    let stored = &registry.endpoints()[0];
    assert_eq!(stored.secret, secret);
    assert_eq!(stored.api_key_id, OWNER);
}

#[test]
fn registration_with_a_bad_url_changes_nothing() {
    let mut registry = WebhookRegistry::new();
    let request = WebhookEndpointRequest { url: "http://example.com/hook".to_string() };
    assert_eq!(
        create_webhook_endpoint(&mut registry, OWNER, request),
        Err(AppError::InvalidRequest(
            "HTTP is only allowed for localhost. Use HTTPS for production.".to_string()
        ))
    );
    assert!(registry.endpoints().is_empty());
}

#[test]
fn register_endpoint_is_exact() {
    let mut registry = WebhookRegistry::new();
    let response = register_endpoint(
        &mut registry,
        OWNER,
        "https://a.example/".to_string(),
        "s1".to_string(),
        10,
        500,
    );
    assert_eq!(
        response,
        Ok(WebhookEndpointResponse {
            id: 10,
            url: "https://a.example/".to_string(),
            secret: Some("s1".to_string()),
            is_active: true,
            created_at: 500,
        })
    );
    let again = register_endpoint(
        &mut registry,
        OTHER,
        "https://b.example/".to_string(),
        "s2".to_string(),
        10,
        600,
    );
    assert_eq!(again, Err(AppError::Database("storage failure".to_string())));
    assert_eq!(registry.endpoints().len(), 1);
}

#[test]
fn endpoints_are_listed_newest_first_per_owner() {
    let mut registry = WebhookRegistry::new();
    assert!(registry.register(endpoint(1, OWNER, "https://a/", true, 100)));
    assert!(registry.register(endpoint(2, OTHER, "https://b/", true, 150)));
    assert!(registry.register(endpoint(3, OWNER, "https://c/", true, 300)));
    assert!(registry.register(endpoint(4, OWNER, "https://d/", false, 400)));
    assert!(registry.register(endpoint(5, OWNER, "https://e/", true, 200)));
    assert!(!registry.register(endpoint(5, OWNER, "https://f/", true, 900)));
    let ids: Vec<u128> = list_webhook_endpoints(&registry, OWNER).unwrap().iter().map(|e| e.id).collect();
    assert_eq!(ids, vec![3, 5, 1]);
    let ids: Vec<u128> = list_webhook_endpoints(&registry, OTHER).unwrap().iter().map(|e| e.id).collect();
    assert_eq!(ids, vec![2]);
    assert!(list_webhook_endpoints(&registry, 99).unwrap().is_empty());
    let all: Vec<u128> = registry.endpoints().iter().map(|e| e.id).collect();
    assert_eq!(all, vec![4, 3, 5, 2, 1]);
}

#[test]
fn deleting_switches_the_endpoint_off_and_keeps_it() {
    let mut registry = WebhookRegistry::new();
    assert!(registry.register(endpoint(1, OWNER, "https://a/", true, 100)));
    registry.record(NewWebhookEvent::new(70, 1, 5, "{}".to_string(), Some(200), None), 101);
    assert_eq!(delete_webhook_endpoint(&mut registry, OWNER, 1), Ok(()));
    assert!(list_webhook_endpoints(&registry, OWNER).unwrap().is_empty());
    assert_eq!(registry.endpoints().len(), 1);
    assert!(!registry.endpoints()[0].is_active);
    assert_eq!(registry.endpoints()[0].url, "https://a/");
    assert_eq!(registry.attempts(1), 1);
    assert_eq!(delete_webhook_endpoint(&mut registry, OWNER, 1), Ok(()));
}

#[test]
fn deleting_an_endpoint_of_another_owner_is_not_found() {
    let mut registry = WebhookRegistry::new();
    assert!(registry.register(endpoint(1, OWNER, "https://a/", true, 100)));
    assert_eq!(delete_webhook_endpoint(&mut registry, OTHER, 1), Err(AppError::WebhookNotFound));
    assert_eq!(delete_webhook_endpoint(&mut registry, OWNER, 2), Err(AppError::WebhookNotFound));
    assert!(registry.endpoints()[0].is_active);
}

#[test]
fn payload_announces_the_transaction() {
    let transaction = transfer_row(3, 4, 250, Some("rent".to_string()), Some("k".to_string()), 9, 77);
    let payload = WebhookPayload::at(55, 88, transaction);
    assert_eq!(payload.event_type, "transaction.completed");
    assert_eq!(payload.event_id, 55);
    assert_eq!(payload.created_at, 88);
    assert_eq!(
        payload.data.transaction,
        TransactionWebhookData {
            id: 9,
            transaction_type: TransactionKind::Transfer,
            from_account_id: Some(3),
            to_account_id: Some(4),
            amount_cents: 250,
            currency: "USD".to_string(),
            description: Some("rent".to_string()),
            status: TransactionStatus::Completed,
            created_at: 77,
        }
    );
    let now = WebhookPayload::new(56, credit_row(3, 1, None, None, 10, 0));
    assert_eq!(now.event_id, 56);
    assert!(now.created_at > 1_600_000_000_000_000);
}

#[test]
fn request_carries_signature_and_event_id() {
    let target = WebhookEndpoint {
        id: 1,
        api_key_id: OWNER,
        url: "https://example.com/hook".to_string(),
        secret: "Jefe".to_string(),
        is_active: true,
        created_at: 0,
    };
    let request = build_request(
        &target,
        0xa1a2a3a4b1b2c1c2d1d2d3d4d5d6d7d8,
        "what do ya want for nothing?",
    );
    assert_eq!(request.url, "https://example.com/hook");
    assert_eq!(request.body, "what do ya want for nothing?");
    assert_eq!(request.timeout_seconds, 5);
    assert_eq!(DELIVERY_TIMEOUT_SECONDS, 5);
    assert_eq!(
        request.headers(),
        vec![
            ("Content-Type".to_string(), "application/json".to_string()),
            (
                "X-Webhook-Signature".to_string(),
                "sha256=5bdcc146bf60754e6a042426089575c75a003f089d2739839dec58b964ec3843"
                    .to_string()
            ),
            (
                "X-Webhook-Event-Id".to_string(),
                "a1a2a3a4-b1b2-c1c2-d1d2-d3d4d5d6d7d8".to_string()
            ),
        ]
    );
    let small = build_request(&target, 0x1f, "{}");
    assert_eq!(small.event_id, "00000000-0000-0000-0000-00000000001f");
}

#[test]
fn every_outcome_is_recorded() {
    let answered = record_delivery(
        1,
        2,
        3,
        "{}".to_string(),
        DeliveryOutcome::Response { status: 500, body: Some("boom".to_string()) },
    );
    assert_eq!(
        answered,
        NewWebhookEvent {
            id: 1,
            webhook_endpoint_id: 2,
            transaction_id: 3,
            payload: "{}".to_string(),
            response_status: Some(500),
            response_body: Some("boom".to_string()),
        }
    );
    let unreadable = record_delivery(
        1,
        2,
        3,
        "{}".to_string(),
        DeliveryOutcome::Response { status: 204, body: None },
    );
    assert_eq!(unreadable.response_status, Some(204));
    assert_eq!(unreadable.response_body, None);
    let failed = record_delivery(
        1,
        2,
        3,
        "{}".to_string(),
        DeliveryOutcome::Failed { error: "operation timed out".to_string() },
    );
    assert_eq!(failed.response_status, None);
    assert_eq!(failed.response_body, Some("Request failed: operation timed out".to_string()));
    let top = record_delivery(
        1,
        2,
        3,
        "{}".to_string(),
        DeliveryOutcome::Response { status: u16::MAX, body: None },
    );
    assert_eq!(top.response_status, Some(65535));
}

fn seed(n: u128) -> EventSeed {
    EventSeed { event_id: 1000 + n, created_at: 5000 + n as i64 }
}

#[test]
fn one_attempt_per_active_endpoint_whatever_the_outcome() {
    let mut ledger = Ledger::new();
    assert!(ledger.add_account(Account {
        id: 42,
        api_key_id: OWNER,
        account_name: "main".to_string(),
        balance_cents: 0,
        currency: "USD".to_string(),
        created_at: 0,
        updated_at: 0,
    }));
    let mut registry = WebhookRegistry::new();
    assert!(registry.register(endpoint(1, OWNER, "https://up.example/", true, 100)));
    assert!(registry.register(endpoint(2, OWNER, "https://down.example/", true, 200)));
    assert!(registry.register(endpoint(3, OWNER, "https://off.example/", false, 300)));
    assert!(registry.register(endpoint(4, OTHER, "https://other.example/", true, 400)));
    assert!(registry.register(endpoint(5, OWNER, "https://error.example/", true, 500)));

    let transaction = execute_credit(&mut ledger, 42, 500, None, None).unwrap();
    assert_eq!(transaction.status, TransactionStatus::Completed);
    assert_eq!(ledger.balance_of(42), Some(500));

    let mut posted = Vec::new();
    let mut n = 0;
    let (mut notifier, mut step) = notify_transaction_webhooks(&registry, &transaction, OWNER, seed(n));
    assert_eq!(notifier.recipient_count(), 3);
    loop {
        n += 1;
        let reply = match step {
            NotifyStep::Done => break,
            NotifyStep::Report(error) => panic!("nothing should fail: {:?}", error),
            NotifyStep::Post(request) => {
                posted.push(request.url.clone());
                let secret = match request.url.as_str() {
                    "https://up.example/" => "secret-1",
                    "https://down.example/" => "secret-2",
                    _ => "secret-5",
                };
                assert_eq!(request.signature, generate_signature(secret, &request.body));
                assert!(request.body.contains(&request.event_id));
                assert!(request.body.starts_with("{\"event_type\":\"transaction.completed\""));
                NotifyReply::Delivered(match request.url.as_str() {
                    "https://up.example/" => {
                        DeliveryOutcome::Response { status: 200, body: Some("ok".to_string()) }
                    }
                    "https://down.example/" => {
                        DeliveryOutcome::Failed { error: "connection refused".to_string() }
                    }
                    _ => DeliveryOutcome::Response { status: 503, body: None },
                })
            }
            NotifyStep::Store(event) => {
                assert_eq!(event.transaction_id, transaction.id);
                registry.record(event, 9000);
                NotifyReply::Stored
            }
        };
        let next = notifier.advance(reply, seed(n));
        notifier = next.0;
        step = next.1;
    }
    assert_eq!(notifier.stage(), Stage::Done);
    assert_eq!(
        posted,
        vec!["https://error.example/", "https://down.example/", "https://up.example/"]
    );
    assert_eq!(registry.event_count(), 3);
    assert_eq!(registry.attempts(1), 1);
    assert_eq!(registry.attempts(2), 1);
    assert_eq!(registry.attempts(5), 1);
    assert_eq!(registry.attempts(3), 0);
    assert_eq!(registry.attempts(4), 0);
    assert_eq!(ledger.balance_of(42), Some(500));
    assert_eq!(ledger.find(transaction.id), Some(transaction));
}

#[test]
fn fan_out_survives_failures_at_every_stage() {
    let endpoints = vec![
        endpoint(1, OWNER, "https://a/", true, 300),
        endpoint(2, OWNER, "https://b/", true, 200),
        endpoint(3, OWNER, "https://c/", true, 100),
    ];
    let transaction = credit_row(42, 5, None, None, 7, 0);
    let (notifier, step) = Notifier::start(transaction, &endpoints, OWNER, seed(0));
    match &step {
        NotifyStep::Post(request) => {
            assert_eq!(request.url, "https://a/");
            assert_eq!(request.event_id, "00000000-0000-0000-0000-0000000003e8");
        }
        other => panic!("expected a request, got {:?}", other),
    }
    assert_eq!(notifier.stage(), Stage::Posting);
    let (notifier, step) = notifier.advance(NotifyReply::NotStored, seed(1));
    match &step {
        NotifyStep::Store(event) => {
            assert_eq!(event.id, 1000);
            assert_eq!(event.webhook_endpoint_id, 1);
            assert_eq!(event.transaction_id, 7);
            assert!(event.payload.contains("\"amount_cents\":5,"));
            assert_eq!(event.response_status, None);
            assert_eq!(event.response_body, Some("Request failed: no response".to_string()));
        }
        other => panic!("expected a record, got {:?}", other),
    }
    assert_eq!(notifier.stage(), Stage::Storing);
    let (notifier, step) = notifier.advance(NotifyReply::NotStored, seed(2));
    let body = match &step {
        NotifyStep::Post(request) => {
            assert_eq!(request.url, "https://b/");
            assert_eq!(request.event_id, "00000000-0000-0000-0000-0000000003ea");
            request.body.clone()
        }
        other => panic!("expected a request, got {:?}", other),
    };
    let (notifier, step) = notifier.advance(
        NotifyReply::Delivered(DeliveryOutcome::Failed { error: "timed out".to_string() }),
        seed(3),
    );
    match &step {
        NotifyStep::Store(event) => {
            assert_eq!(event.id, 1002);
            assert_eq!(event.webhook_endpoint_id, 2);
            assert_eq!(event.payload, body);
            assert_eq!(event.response_body, Some("Request failed: timed out".to_string()));
        }
        other => panic!("expected a record, got {:?}", other),
    }
    let (notifier, step) = notifier.advance(NotifyReply::Stored, seed(4));
    match &step {
        NotifyStep::Post(request) => assert_eq!(request.url, "https://c/"),
        other => panic!("expected a request, got {:?}", other),
    }
    let (notifier, step) = notifier.advance(
        NotifyReply::Delivered(DeliveryOutcome::Response { status: 404, body: None }),
        seed(5),
    );
    assert!(matches!(step, NotifyStep::Store(_)));
    let (notifier, step) = notifier.advance(NotifyReply::Stored, seed(6));
    assert_eq!(step, NotifyStep::Done);
    let (notifier, step) = notifier.advance(NotifyReply::Stored, seed(7));
    assert_eq!(step, NotifyStep::Done);
    assert_eq!(notifier.stage(), Stage::Done);
}

#[test]
fn payload_that_cannot_be_serialized_is_noted_and_skipped() {
    let endpoints = vec![
        endpoint(1, OWNER, "https://a/", true, 300),
        endpoint(2, OWNER, "https://b/", true, 200),
    ];
    let transaction = credit_row(42, 5, None, None, 7, 0);
    let unwritable = EventSeed { event_id: 1, created_at: i64::MAX };
    let (notifier, step) = Notifier::start(transaction, &endpoints, OWNER, unwritable);
    assert_eq!(
        step,
        NotifyStep::Report(AppError::InvalidRequest("Failed to serialize payload".to_string()))
    );
    assert_eq!(notifier.stage(), Stage::Reporting);
    let (notifier, step) = notifier.advance(NotifyReply::Noted, seed(1));
    match &step {
        NotifyStep::Post(request) => assert_eq!(request.url, "https://b/"),
        other => panic!("expected a request, got {:?}", other),
    }
    assert_eq!(notifier.stage(), Stage::Posting);
}

#[test]
fn payload_is_written_member_by_member() {
    let transaction = transfer_row(
        0xa1a2a3a4b1b2c1c2d1d2d3d4d5d6d7d8,
        0x11,
        250,
        Some("rent \"May\"\n".to_string()),
        Some("k".to_string()),
        0x22,
        1_736_937_000_000_000,
    );
    let payload = WebhookPayload::at(0x33, 1_736_937_000_123_000, transaction);
    let expected = [
        "{\"event_type\":\"transaction.completed\",",
        "\"event_id\":\"00000000-0000-0000-0000-000000000033\",",
        "\"created_at\":\"2025-01-15T10:30:00.123Z\",",
        "\"data\":{\"transaction\":{",
        "\"id\":\"00000000-0000-0000-0000-000000000022\",",
        "\"type\":\"transfer\",",
        "\"from_account_id\":\"a1a2a3a4-b1b2-c1c2-d1d2-d3d4d5d6d7d8\",",
        "\"to_account_id\":\"00000000-0000-0000-0000-000000000011\",",
        "\"amount_cents\":250,",
        "\"currency\":\"USD\",",
        "\"description\":\"rent \\\"May\\\"\\n\",",
        "\"status\":\"completed\",",
        "\"created_at\":\"2025-01-15T10:30:00Z\"",
        "}}}",
    ]
    .join("");
    assert_eq!(payload.to_json(), Some(expected));
}

#[test]
fn payload_of_a_credit_has_null_members() {
    let payload = WebhookPayload::at(1, 0, credit_row(2, i64::MAX, None, None, 3, -1));
    let json = payload.to_json().unwrap();
    let value: serde_json::Value = serde_json::from_str(&json).unwrap();
    assert_eq!(value["event_type"], "transaction.completed");
    assert_eq!(value["created_at"], "1970-01-01T00:00:00Z");
    let told = &value["data"]["transaction"];
    assert_eq!(told["type"], "credit");
    assert!(told["from_account_id"].is_null());
    assert_eq!(told["to_account_id"], "00000000-0000-0000-0000-000000000002");
    assert_eq!(told["amount_cents"], 9223372036854775807i64);
    assert!(told["description"].is_null());
    assert_eq!(told["status"], "completed");
    assert_eq!(told["created_at"], "1969-12-31T23:59:59.999999Z");
    assert_eq!(told.as_object().unwrap().len(), 9);
    assert_eq!(value.as_object().unwrap().len(), 4);
    assert!(json.contains("\"amount_cents\":9223372036854775807,"));
}

#[test]
fn negative_amounts_are_written_with_a_sign() {
    let mut row = credit_row(2, 1, None, None, 3, 0);
    row.amount_cents = -15;
    let json = TransactionWebhookData::from(row).to_json().unwrap();
    assert!(json.contains("\"amount_cents\":-15,"));
    let mut row = credit_row(2, 1, None, None, 3, 0);
    row.amount_cents = i64::MIN;
    let json = TransactionWebhookData::from(row).to_json().unwrap();
    assert!(json.contains("\"amount_cents\":-9223372036854775808,"));
    let mut row = credit_row(2, 1, None, None, 3, 0);
    row.created_at = i64::MIN;
    assert_eq!(TransactionWebhookData::from(row).to_json(), None);
}

#[test]
fn owner_without_endpoints_is_done_at_once() {
    let registry = WebhookRegistry::new();
    let transaction = credit_row(42, 5, None, None, 7, 0);
    let (notifier, step) = notify_transaction_webhooks(&registry, &transaction, OWNER, seed(0));
    assert_eq!(step, NotifyStep::Done);
    assert_eq!(notifier.recipient_count(), 0);
    let fresh = EventSeed::fresh();
    assert_eq!((fresh.event_id >> 76) & 0xf, 4);
}

#[test]
fn response_with_secret_keeps_the_rest() {
    let shown = WebhookEndpointResponse::from(endpoint(1, OWNER, "https://a/", true, 100));
    assert_eq!(shown.secret, None);
    let with = shown.with_secret("abc".to_string());
    assert_eq!(
        with,
        WebhookEndpointResponse {
            id: 1,
            url: "https://a/".to_string(),
            secret: Some("abc".to_string()),
            is_active: true,
            created_at: 100,
        }
    );
    let stored = NewWebhookEvent::new(1, 2, 3, "{}".to_string(), None, None).stored(44);
    assert_eq!(stored.sent_at, 44);
    assert_eq!(stored.webhook_endpoint_id, 2);
}

#[test]
fn endpoint_is_prepared_before_it_is_stored() {
    let drafted = draft_endpoint(OWNER, "https://a.example/".to_string(), "s".to_string(), 5, 9);
    assert_eq!(
        drafted,
        Ok(WebhookEndpoint {
            id: 5,
            api_key_id: OWNER,
            url: "https://a.example/".to_string(),
            secret: "s".to_string(),
            is_active: true,
            created_at: 9,
        })
    );
    assert_eq!(
        draft_endpoint(OWNER, "gopher://a/".to_string(), "s".to_string(), 5, 9),
        Err(AppError::InvalidRequest("URL must use HTTP or HTTPS".to_string()))
    );
    let prepared =
        prepare_endpoint(OWNER, WebhookEndpointRequest { url: "http://localhost/".to_string() })
            .unwrap();
    assert_eq!(prepared.secret.len(), 64);
    assert!(prepared.is_active);
    let secret = prepared.secret.clone();
    let shown = registered_response(prepared.clone());
    assert_eq!(shown.secret, Some(secret));
    assert_eq!(endpoint_responses(vec![prepared])[0].secret, None);
    assert_eq!(removal(0), Err(AppError::WebhookNotFound));
    assert_eq!(removal(1), Ok(()));
    assert_eq!(removal(2), Ok(()));
}

#[test]
fn bytes_are_written_as_lower_case_hexadecimal() {
    assert_eq!(secret_from(&[]), "");
    assert_eq!(secret_from(&[0x00, 0x0f, 0x10, 0xab, 0xff]), "000f10abff");
    assert_eq!(signature_header(&[0xde, 0xad, 0xbe, 0xef]), "sha256=deadbeef");
    assert_eq!(signature_header(&[]), "sha256=");
    let all: Vec<u8> = (0..=255u8).collect();
    let text = secret_from(&all);
    assert_eq!(text.len(), 512);
    assert_eq!(&text[0..8], "00010203");
    assert_eq!(&text[504..512], "fcfdfeff");
}

#[test]
fn members_are_framed_in_order() {
    assert_eq!(
        frame_transaction("1", "2", "3", "4", "5", "6", "7", "8", "9"),
        [
            "{\"id\":1,\"type\":2,\"from_account_id\":3,\"to_account_id\":4,",
            "\"amount_cents\":5,\"currency\":6,\"description\":7,\"status\":8,",
            "\"created_at\":9}",
        ]
        .join("")
    );
    assert_eq!(
        frame_payload("1", "2", "3", "4"),
        "{\"event_type\":1,\"event_id\":2,\"created_at\":3,\"data\":{\"transaction\":4}}"
    );
}

#[test]
fn every_served_endpoint_leaves_one_record() {
    let mut registry = WebhookRegistry::new();
    assert!(registry.register(endpoint(1, OWNER, "https://a/", true, 300)));
    assert!(registry.register(endpoint(2, OWNER, "https://b/", true, 200)));
    assert!(registry.register(endpoint(3, OTHER, "https://c/", true, 250)));
    assert!(registry.register(endpoint(4, OWNER, "https://d/", false, 100)));
    let transaction = credit_row(42, 500, None, None, 7, 0);
    let attempts = vec![
        Attempt {
            seed: seed(0),
            outcome: DeliveryOutcome::Failed { error: "connection refused".to_string() },
        },
        Attempt {
            seed: seed(1),
            outcome: DeliveryOutcome::Response { status: 200, body: Some("ok".to_string()) },
        },
        Attempt { seed: seed(2), outcome: DeliveryOutcome::Response { status: 200, body: None } },
    ];
    assert_eq!(deliver_with(&mut registry, &transaction, OWNER, &attempts), 2);
    assert_eq!(registry.event_count(), 2);
    assert_eq!(registry.attempts(1), 1);
    assert_eq!(registry.attempts(2), 1);
    assert_eq!(registry.attempts(3), 0);
    assert_eq!(registry.attempts(4), 0);

    assert_eq!(deliver_with(&mut registry, &transaction, OWNER, &vec![Attempt { seed: seed(5), outcome: DeliveryOutcome::Response { status: 500, body: None } }]), 1);
    assert_eq!(registry.attempts(1), 2);
    assert_eq!(registry.attempts(2), 1);
    assert_eq!(deliver_with(&mut registry, &transaction, OWNER, &Vec::new()), 0);
    assert_eq!(deliver_with(&mut registry, &transaction, 99, &attempts), 0);
    assert_eq!(registry.event_count(), 3);
}
