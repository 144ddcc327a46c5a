//! Webhook endpoints, the payload sent to them and the record kept of each
//! delivery attempt.

use crate::models::copy_text;
use crate::models::transaction::{
    summary,
    SummaryView,
    Transaction,
    TransactionKind,
    TransactionStatus,
    TransactionView,
};
use crate::platform::{
    current_time,
    id_text,
    id_to_text,
    json_string,
    quote_json,
    rfc3339,
    time_to_text,
};
use crate::text::{decimal, int_to_text};
use vstd::prelude::*;

verus! {

/// An endpoint that a business registered for notifications.
///
/// The secret is kept in clear because every payload is signed with it. An
/// endpoint is never removed; it is switched off.
#[derive(Debug, PartialEq, Eq)]
pub struct WebhookEndpoint {
    pub id: u128,
    /// The API key of the business that owns the endpoint.
    pub api_key_id: u128,
    pub url: String,
    /// 64 hexadecimal digits.
    pub secret: String,
    pub is_active: bool,
    pub created_at: i64,
}

/// The mathematical value of a [`WebhookEndpoint`].
pub struct EndpointView {
    pub id: u128,
    pub api_key_id: u128,
    pub url: Seq<char>,
    pub secret: Seq<char>,
    pub is_active: bool,
    pub created_at: i64,
}

impl View for WebhookEndpoint {
    type V = EndpointView;

    open spec fn view(&self) -> EndpointView {
        EndpointView {
            id: self.id,
            api_key_id: self.api_key_id,
            url: self.url@,
            secret: self.secret@,
            is_active: self.is_active,
            created_at: self.created_at,
        }
    }
}

impl DeepView for WebhookEndpoint {
    type V = EndpointView;

    open spec fn deep_view(&self) -> EndpointView {
        self@
    }
}

impl Clone for WebhookEndpoint {
    fn clone(&self) -> (copy: Self)
        ensures
            copy == *self,
    {
        WebhookEndpoint {
            id: self.id,
            api_key_id: self.api_key_id,
            url: self.url.clone(),
            secret: self.secret.clone(),
            is_active: self.is_active,
            created_at: self.created_at,
        }
    }
}

/// A request to register an endpoint.
#[derive(Debug, PartialEq, Eq)]
pub struct WebhookEndpointRequest {
    pub url: String,
}

/// An endpoint as a client sees it. The secret is present only in the
/// answer to the registration.
#[derive(Debug, PartialEq, Eq)]
pub struct WebhookEndpointResponse {
    pub id: u128,
    pub url: String,
    pub secret: Option<String>,
    pub is_active: bool,
    pub created_at: i64,
}

/// The mathematical value of a [`WebhookEndpointResponse`].
pub struct EndpointResponseView {
    pub id: u128,
    pub url: Seq<char>,
    pub secret: Option<Seq<char>>,
    pub is_active: bool,
    pub created_at: i64,
}

impl EndpointView {
    /// The endpoint as a client sees it after registration: without its
    /// secret.
    pub open spec fn shown(self) -> EndpointResponseView {
        EndpointResponseView {
            id: self.id,
            url: self.url,
            secret: None,
            is_active: self.is_active,
            created_at: self.created_at,
        }
    }
}

impl View for WebhookEndpointResponse {
    type V = EndpointResponseView;

    open spec fn view(&self) -> EndpointResponseView {
        EndpointResponseView {
            id: self.id,
            url: self.url@,
            secret: self.secret.deep_view(),
            is_active: self.is_active,
            created_at: self.created_at,
        }
    }
}

impl DeepView for WebhookEndpointResponse {
    type V = EndpointResponseView;

    open spec fn deep_view(&self) -> EndpointResponseView {
        self@
    }
}

impl WebhookEndpointResponse {
    /// The response that shows `endpoint`, without its secret.
    pub open spec fn of(endpoint: WebhookEndpoint) -> WebhookEndpointResponse {
        WebhookEndpointResponse {
            id: endpoint.id,
            url: endpoint.url,
            secret: None,
            is_active: endpoint.is_active,
            created_at: endpoint.created_at,
        }
    }

    /// This response with the secret included, for the answer to the
    /// registration.
    pub fn with_secret(self, secret: String) -> (response: Self)
        ensures
            response == (WebhookEndpointResponse { secret: Some(secret), ..self }),
    {
        let mut response = self;
        response.secret = Some(secret);
        response
    }
}

impl From<WebhookEndpoint> for WebhookEndpointResponse {
    fn from(endpoint: WebhookEndpoint) -> (response: Self) {
        WebhookEndpointResponse {
            id: endpoint.id,
            url: endpoint.url,
            secret: None,
            is_active: endpoint.is_active,
            created_at: endpoint.created_at,
        }
    }
}

impl vstd::std_specs::convert::FromSpecImpl<WebhookEndpoint> for WebhookEndpointResponse {
    open spec fn obeys_from_spec() -> bool {
        true
    }

    open spec fn from_spec(endpoint: WebhookEndpoint) -> WebhookEndpointResponse {
        WebhookEndpointResponse::of(endpoint)
    }
}

/// The record of one delivery attempt as the store keeps it.
#[derive(Debug, PartialEq, Eq)]
pub struct WebhookEvent {
    pub id: u128,
    pub webhook_endpoint_id: u128,
    pub transaction_id: u128,
    /// The body that was sent, as JSON text.
    pub payload: String,
    pub sent_at: i64,
    /// The HTTP status of the response, if there was a response.
    pub response_status: Option<i32>,
    /// The body of the response, or a description of the failure.
    pub response_body: Option<String>,
}

/// The mathematical value of a [`WebhookEvent`].
pub struct StoredEventView {
    pub id: u128,
    pub webhook_endpoint_id: u128,
    pub transaction_id: u128,
    pub payload: Seq<char>,
    pub sent_at: i64,
    pub response_status: Option<i32>,
    pub response_body: Option<Seq<char>>,
}

impl View for WebhookEvent {
    type V = StoredEventView;

    open spec fn view(&self) -> StoredEventView {
        StoredEventView {
            id: self.id,
            webhook_endpoint_id: self.webhook_endpoint_id,
            transaction_id: self.transaction_id,
            payload: self.payload@,
            sent_at: self.sent_at,
            response_status: self.response_status,
            response_body: self.response_body.deep_view(),
        }
    }
}

impl DeepView for WebhookEvent {
    type V = StoredEventView;

    open spec fn deep_view(&self) -> StoredEventView {
        self@
    }
}

/// The record of one delivery attempt before it is stored.
#[derive(Debug, PartialEq, Eq)]
pub struct NewWebhookEvent {
    pub id: u128,
    pub webhook_endpoint_id: u128,
    pub transaction_id: u128,
    /// The body that was sent, as JSON text.
    pub payload: String,
    /// The HTTP status of the response, if there was a response.
    pub response_status: Option<i32>,
    /// The body of the response, or a description of the failure.
    pub response_body: Option<String>,
}

/// The mathematical value of a [`NewWebhookEvent`].
pub struct EventView {
    pub id: u128,
    pub webhook_endpoint_id: u128,
    pub transaction_id: u128,
    pub payload: Seq<char>,
    pub response_status: Option<i32>,
    pub response_body: Option<Seq<char>>,
}

impl EventView {
    /// The record as the store keeps it, sent at `sent_at`.
    pub open spec fn stored(self, sent_at: i64) -> StoredEventView {
        StoredEventView {
            id: self.id,
            webhook_endpoint_id: self.webhook_endpoint_id,
            transaction_id: self.transaction_id,
            payload: self.payload,
            sent_at,
            response_status: self.response_status,
            response_body: self.response_body,
        }
    }
}

impl View for NewWebhookEvent {
    type V = EventView;

    open spec fn view(&self) -> EventView {
        EventView {
            id: self.id,
            webhook_endpoint_id: self.webhook_endpoint_id,
            transaction_id: self.transaction_id,
            payload: self.payload@,
            response_status: self.response_status,
            response_body: self.response_body.deep_view(),
        }
    }
}

impl DeepView for NewWebhookEvent {
    type V = EventView;

    open spec fn deep_view(&self) -> EventView {
        self@
    }
}

impl Clone for NewWebhookEvent {
    fn clone(&self) -> (copy: Self)
        ensures
            copy == *self,
    {
        NewWebhookEvent {
            id: self.id,
            webhook_endpoint_id: self.webhook_endpoint_id,
            transaction_id: self.transaction_id,
            payload: self.payload.clone(),
            response_status: self.response_status,
            response_body: copy_text(&self.response_body),
        }
    }
}

impl NewWebhookEvent {
    /// The record of a delivery attempt.
    pub fn new(
        id: u128,
        webhook_endpoint_id: u128,
        transaction_id: u128,
        payload: String,
        response_status: Option<i32>,
        response_body: Option<String>,
    ) -> (event: Self)
        ensures
            event == (NewWebhookEvent {
                id,
                webhook_endpoint_id,
                transaction_id,
                payload,
                response_status,
                response_body,
            }),
    {
        NewWebhookEvent {
            id,
            webhook_endpoint_id,
            transaction_id,
            payload,
            response_status,
            response_body,
        }
    }

    /// The record as the store keeps it, sent at `sent_at`.
    pub fn stored(self, sent_at: i64) -> (event: WebhookEvent)
        ensures
            event@ == self@.stored(sent_at),
    {
        WebhookEvent {
            id: self.id,
            webhook_endpoint_id: self.webhook_endpoint_id,
            transaction_id: self.transaction_id,
            payload: self.payload,
            sent_at,
            response_status: self.response_status,
            response_body: self.response_body,
        }
    }
}

/// What a payload tells about the transaction: the log entry without its
/// idempotency key and metadata. The kind is sent under the name `type`.
#[derive(Debug, PartialEq, Eq)]
pub struct TransactionWebhookData {
    pub id: u128,
    pub transaction_type: TransactionKind,
    pub from_account_id: Option<u128>,
    pub to_account_id: Option<u128>,
    pub amount_cents: i64,
    pub currency: String,
    pub description: Option<String>,
    pub status: TransactionStatus,
    pub created_at: i64,
}

impl View for TransactionWebhookData {
    type V = SummaryView;

    open spec fn view(&self) -> SummaryView {
        SummaryView {
            id: self.id,
            transaction_type: self.transaction_type,
            from_account_id: self.from_account_id,
            to_account_id: self.to_account_id,
            amount_cents: self.amount_cents,
            currency: self.currency@,
            description: self.description.deep_view(),
            status: self.status,
            created_at: self.created_at,
        }
    }
}

impl TransactionWebhookData {
    /// What a payload tells about `transaction`.
    pub open spec fn of(transaction: Transaction) -> TransactionWebhookData {
        TransactionWebhookData {
            id: transaction.id,
            transaction_type: transaction.transaction_type,
            from_account_id: transaction.from_account_id,
            to_account_id: transaction.to_account_id,
            amount_cents: transaction.amount_cents,
            currency: transaction.currency,
            description: transaction.description,
            status: transaction.status,
            created_at: transaction.created_at,
        }
    }
}

impl From<Transaction> for TransactionWebhookData {
    fn from(transaction: Transaction) -> (data: Self) {
        TransactionWebhookData {
            id: transaction.id,
            transaction_type: transaction.transaction_type,
            from_account_id: transaction.from_account_id,
            to_account_id: transaction.to_account_id,
            amount_cents: transaction.amount_cents,
            currency: transaction.currency,
            description: transaction.description,
            status: transaction.status,
            created_at: transaction.created_at,
        }
    }
}

impl vstd::std_specs::convert::FromSpecImpl<Transaction> for TransactionWebhookData {
    open spec fn obeys_from_spec() -> bool {
        true
    }

    open spec fn from_spec(transaction: Transaction) -> TransactionWebhookData {
        TransactionWebhookData::of(transaction)
    }
}

/// The `data` member of a payload.
#[derive(Debug, PartialEq, Eq)]
pub struct WebhookData {
    pub transaction: TransactionWebhookData,
}

/// The body of a notification.
#[derive(Debug, PartialEq, Eq)]
pub struct WebhookPayload {
    /// Always `transaction.completed`.
    pub event_type: String,
    /// The identifier of this delivery attempt.
    pub event_id: u128,
    /// When the notification was made.
    pub created_at: i64,
    pub data: WebhookData,
}

/// The mathematical value of a [`WebhookPayload`].
pub struct PayloadView {
    pub event_type: Seq<char>,
    pub event_id: u128,
    pub created_at: i64,
    pub transaction: SummaryView,
}

impl View for WebhookPayload {
    type V = PayloadView;

    open spec fn view(&self) -> PayloadView {
        PayloadView {
            event_type: self.event_type@,
            event_id: self.event_id,
            created_at: self.created_at,
            transaction: self.data.transaction@,
        }
    }
}

/// The payload that announces `transaction` under `event_id`, made at
/// `created_at`.
pub open spec fn payload_for(event_id: u128, created_at: i64, transaction: TransactionView) -> PayloadView {
    PayloadView {
        event_type: "transaction.completed"@,
        event_id,
        created_at,
        transaction: summary(transaction),
    }
}

/// An optional identifier in JSON: the identifier as a string, or `null`.
pub open spec fn json_optional_id(id: Option<u128>) -> Seq<char> {
    match id {
        Some(id) => json_string(id_text(id)),
        None => "null"@,
    }
}

/// An optional text in JSON: the text as a string, or `null`.
pub open spec fn json_optional_text(text: Option<Seq<char>>) -> Seq<char> {
    match text {
        Some(text) => json_string(text),
        None => "null"@,
    }
}

/// The JSON object that tells of a transaction, given the JSON text of each
/// member. The members stand in this order, without white space: `id`,
/// `type`, `from_account_id`, `to_account_id`, `amount_cents`, `currency`,
/// `description`, `status`, `created_at`.
pub open spec fn transaction_frame(
    id: Seq<char>,
    kind: Seq<char>,
    from_account_id: Seq<char>,
    to_account_id: Seq<char>,
    amount_cents: Seq<char>,
    currency: Seq<char>,
    description: Seq<char>,
    status: Seq<char>,
    created_at: Seq<char>,
) -> Seq<char> {
    "{\"id\":"@ + id + ",\"type\":"@ + kind + ",\"from_account_id\":"@ + from_account_id
        + ",\"to_account_id\":"@ + to_account_id + ",\"amount_cents\":"@ + amount_cents
        + ",\"currency\":"@ + currency + ",\"description\":"@ + description + ",\"status\":"@
        + status + ",\"created_at\":"@ + created_at + "}"@
}

/// The JSON object that is the body of a notification, given the JSON text
/// of each member. The members stand in this order, without white space:
/// `event_type`, `event_id`, `created_at`, `data`, where `data` holds the
/// transaction under `transaction`.
pub open spec fn payload_frame(
    event_type: Seq<char>,
    event_id: Seq<char>,
    created_at: Seq<char>,
    transaction: Seq<char>,
) -> Seq<char> {
    "{\"event_type\":"@ + event_type + ",\"event_id\":"@ + event_id + ",\"created_at\":"@
        + created_at + ",\"data\":{\"transaction\":"@ + transaction + "}}"@
}

/// The JSON object that tells of a transaction: identifiers, names and
/// times as strings, the amount as a number, what is absent as `null`. There
/// is none if the time of the transaction cannot be written.
pub open spec fn transaction_json(transaction: SummaryView) -> Option<Seq<char>> {
    match rfc3339(transaction.created_at) {
        Some(time) => Some(
            transaction_frame(
                json_string(id_text(transaction.id)),
                json_string(transaction.transaction_type.name()),
                json_optional_id(transaction.from_account_id),
                json_optional_id(transaction.to_account_id),
                decimal(transaction.amount_cents as int),
                json_string(transaction.currency),
                json_optional_text(transaction.description),
                json_string(transaction.status.name()),
                json_string(time),
            ),
        ),
        None => None,
    }
}

/// The body of a notification as it is sent and signed. There is none if
/// one of the times cannot be written.
pub open spec fn payload_json(payload: PayloadView) -> Option<Seq<char>> {
    match (rfc3339(payload.created_at), transaction_json(payload.transaction)) {
        (Some(time), Some(transaction)) => Some(
            payload_frame(
                json_string(payload.event_type),
                json_string(id_text(payload.event_id)),
                json_string(time),
                transaction,
            ),
        ),
        _ => None,
    }
}

/// Puts the JSON texts of the members of a transaction into their object.
pub fn frame_transaction(
    id: &str,
    kind: &str,
    from_account_id: &str,
    to_account_id: &str,
    amount_cents: &str,
    currency: &str,
    description: &str,
    status: &str,
    created_at: &str,
) -> (json: String)
    ensures
        json@ == transaction_frame(
            id@,
            kind@,
            from_account_id@,
            to_account_id@,
            amount_cents@,
            currency@,
            description@,
            status@,
            created_at@,
        ),
{
    let json = "{\"id\":".to_string();
    let json = json.concat(id);
    let json = json.concat(",\"type\":");
    let json = json.concat(kind);
    let json = json.concat(",\"from_account_id\":");
    let json = json.concat(from_account_id);
    let json = json.concat(",\"to_account_id\":");
    let json = json.concat(to_account_id);
    let json = json.concat(",\"amount_cents\":");
    let json = json.concat(amount_cents);
    let json = json.concat(",\"currency\":");
    let json = json.concat(currency);
    let json = json.concat(",\"description\":");
    let json = json.concat(description);
    let json = json.concat(",\"status\":");
    let json = json.concat(status);
    let json = json.concat(",\"created_at\":");
    let json = json.concat(created_at);
    json.concat("}")
}

/// Puts the JSON texts of the members of a payload into their object.
pub fn frame_payload(event_type: &str, event_id: &str, created_at: &str, transaction: &str) -> (json:
    String)
    ensures
        json@ == payload_frame(event_type@, event_id@, created_at@, transaction@),
{
    let json = "{\"event_type\":".to_string();
    let json = json.concat(event_type);
    let json = json.concat(",\"event_id\":");
    let json = json.concat(event_id);
    let json = json.concat(",\"created_at\":");
    let json = json.concat(created_at);
    let json = json.concat(",\"data\":{\"transaction\":");
    let json = json.concat(transaction);
    json.concat("}}")
}

fn optional_id_json(id: Option<u128>) -> (text: String)
    ensures
        text@ == json_optional_id(id),
{
    match id {
        Some(id) => quote_json(id_to_text(id).as_str()),
        None => "null".to_string(),
    }
}

fn optional_text_json(text: &Option<String>) -> (json: String)
    ensures
        json@ == json_optional_text(text.deep_view()),
{
    match text {
        Some(text) => quote_json(text.as_str()),
        None => "null".to_string(),
    }
}

impl TransactionWebhookData {
    /// The JSON object that tells of the transaction.
    pub fn to_json(&self) -> (json: Option<String>)
        ensures
            json.deep_view() == transaction_json(self@),
    {
        let time = match time_to_text(self.created_at) {
            Some(time) => time,
            None => {
                return None;
            },
        };
        let json = frame_transaction(
            quote_json(id_to_text(self.id).as_str()).as_str(),
            quote_json(self.transaction_type.as_str()).as_str(),
            optional_id_json(self.from_account_id).as_str(),
            optional_id_json(self.to_account_id).as_str(),
            int_to_text(self.amount_cents).as_str(),
            quote_json(self.currency.as_str()).as_str(),
            optional_text_json(&self.description).as_str(),
            quote_json(self.status.as_str()).as_str(),
            quote_json(time.as_str()).as_str(),
        );
        Some(json)
    }
}

impl WebhookPayload {
    /// The payload that announces `transaction` under `event_id`, made at
    /// `created_at`.
    pub fn at(event_id: u128, created_at: i64, transaction: Transaction) -> (payload: Self)
        ensures
            payload@ == payload_for(event_id, created_at, transaction@),
    {
        WebhookPayload {
            event_type: "transaction.completed".to_string(),
            event_id,
            created_at,
            data: WebhookData { transaction: TransactionWebhookData::from(transaction) },
        }
    }

    /// The payload that announces `transaction` under `event_id`, made now.
    pub fn new(event_id: u128, transaction: Transaction) -> (payload: Self)
        ensures
            payload@ == payload_for(event_id, payload.created_at, transaction@),
    {
        WebhookPayload::at(event_id, current_time(), transaction)
    }

    /// The body of the notification as it is sent and signed.
    pub fn to_json(&self) -> (json: Option<String>)
        ensures
            json.deep_view() == payload_json(self@),
    {
        let time = match time_to_text(self.created_at) {
            Some(time) => time,
            None => {
                return None;
            },
        };
        let transaction = match self.data.transaction.to_json() {
            Some(transaction) => transaction,
            None => {
                return None;
            },
        };
        let json = frame_payload(
            quote_json(self.event_type.as_str()).as_str(),
            quote_json(id_to_text(self.event_id).as_str()).as_str(),
            quote_json(time.as_str()).as_str(),
            transaction.as_str(),
        );
        Some(json)
    }
}

} // verus!
