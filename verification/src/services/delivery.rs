//! The delivery of one notification and the fan-out of a transaction to all
//! endpoints of its owner.
//!
//! Sending the request and storing the record are done by whoever runs the
//! [`Notifier`]; the notifier decides what is sent and stored, and goes on to
//! the next endpoint whatever happened to the last one.

use crate::models::transaction::{Transaction, TransactionView};
use crate::error::{AppError, AppErrorView};
use crate::models::copy_text;
use crate::models::webhook::{
    payload_for,
    payload_json,
    EndpointView,
    EventView,
    NewWebhookEvent,
    StoredEventView,
    WebhookEndpoint,
    WebhookPayload,
};
use crate::platform::{current_time, fresh_id, id_text, id_to_text};
use crate::registry::{active_among, active_for};
use crate::services::webhook_service::{generate_signature, signature};
use vstd::prelude::*;
use vstd::utf8::encode_utf8;

verus! {

/// The seconds after which a delivery attempt is given up.
pub const DELIVERY_TIMEOUT_SECONDS: u64 = 5;

/// The identifier and the time of one delivery attempt.
#[derive(Debug, Clone, Copy, PartialEq, Eq, Structural)]
pub struct EventSeed {
    pub event_id: u128,
    pub created_at: i64,
}

impl EventSeed {
    /// A new random identifier, of version 4, and the current time.
    pub fn fresh() -> (seed: EventSeed)
        ensures
            seed.event_id & 0x0000_0000_0000_f000_c000_0000_0000_0000
                == 0x0000_0000_0000_4000_8000_0000_0000_0000,
    {
        EventSeed { event_id: fresh_id(), created_at: current_time() }
    }
}

/// How a delivery attempt ended.
#[derive(Debug, PartialEq, Eq)]
pub enum DeliveryOutcome {
    /// The endpoint answered, with whatever status.
    Response { status: u16, body: Option<String> },
    /// No answer: a timeout or a connection error, described in `error`.
    Failed { error: String },
}

/// The mathematical value of a [`DeliveryOutcome`].
pub enum OutcomeView {
    Response { status: u16, body: Option<Seq<char>> },
    Failed { error: Seq<char> },
}

impl View for DeliveryOutcome {
    type V = OutcomeView;

    open spec fn view(&self) -> OutcomeView {
        match self {
            DeliveryOutcome::Response { status, body } => OutcomeView::Response {
                status: *status,
                body: body.deep_view(),
            },
            DeliveryOutcome::Failed { error } => OutcomeView::Failed { error: error@ },
        }
    }
}

impl Clone for DeliveryOutcome {
    fn clone(&self) -> (copy: Self)
        ensures
            copy == *self,
    {
        match self {
            DeliveryOutcome::Response { status, body } => DeliveryOutcome::Response {
                status: *status,
                body: copy_text(body),
            },
            DeliveryOutcome::Failed { error } => DeliveryOutcome::Failed { error: error.clone() },
        }
    }
}

/// What happens at one endpoint: the identifier and time of the attempt and
/// how the request ends.
#[derive(Debug, PartialEq, Eq)]
pub struct Attempt {
    pub seed: EventSeed,
    pub outcome: DeliveryOutcome,
}

/// The mathematical value of an [`Attempt`].
pub struct AttemptView {
    pub seed: EventSeed,
    pub outcome: OutcomeView,
}

impl View for Attempt {
    type V = AttemptView;

    open spec fn view(&self) -> AttemptView {
        AttemptView { seed: self.seed, outcome: self.outcome@ }
    }
}

impl DeepView for Attempt {
    type V = AttemptView;

    open spec fn deep_view(&self) -> AttemptView {
        self@
    }
}

/// The HTTP POST that delivers a notification.
#[derive(Debug, PartialEq, Eq)]
pub struct WebhookRequest {
    /// Where to send it.
    pub url: String,
    /// The value of the header `Content-Type`.
    pub content_type: String,
    /// The value of the header `X-Webhook-Signature`.
    pub signature: String,
    /// The value of the header `X-Webhook-Event-Id`.
    pub event_id: String,
    /// The serialized payload, byte for byte what was signed.
    pub body: String,
    /// After how many seconds to give up.
    pub timeout_seconds: u64,
}

/// The mathematical value of a [`WebhookRequest`].
pub struct RequestView {
    pub url: Seq<char>,
    pub content_type: Seq<char>,
    pub signature: Seq<char>,
    pub event_id: Seq<char>,
    pub body: Seq<char>,
    pub timeout_seconds: u64,
}

impl View for WebhookRequest {
    type V = RequestView;

    open spec fn view(&self) -> RequestView {
        RequestView {
            url: self.url@,
            content_type: self.content_type@,
            signature: self.signature@,
            event_id: self.event_id@,
            body: self.body@,
            timeout_seconds: self.timeout_seconds,
        }
    }
}

/// The request that delivers `body` to `endpoint` as the event `event_id`:
/// to the URL of the endpoint, as JSON, signed with the secret of the
/// endpoint, to be given up after five seconds.
pub open spec fn request_for(endpoint: EndpointView, event_id: u128, body: Seq<char>) -> RequestView {
    RequestView {
        url: endpoint.url,
        content_type: "application/json"@,
        signature: signature(encode_utf8(endpoint.secret), encode_utf8(body)),
        event_id: id_text(event_id),
        body,
        timeout_seconds: DELIVERY_TIMEOUT_SECONDS,
    }
}

/// Builds the request that delivers `payload_json` to `endpoint` as the
/// event `event_id`.
pub fn build_request(endpoint: &WebhookEndpoint, event_id: u128, payload_json: &str) -> (request:
    WebhookRequest)
    ensures
        request@ == request_for(endpoint@, event_id, payload_json@),
{
    WebhookRequest {
        url: endpoint.url.clone(),
        content_type: "application/json".to_string(),
        signature: generate_signature(endpoint.secret.as_str(), payload_json),
        event_id: id_to_text(event_id),
        body: payload_json.to_string(),
        timeout_seconds: DELIVERY_TIMEOUT_SECONDS,
    }
}

impl WebhookRequest {
    /// The headers of the request, by name and value.
    pub fn headers(&self) -> (headers: Vec<(String, String)>)
        ensures
            headers.deep_view() == seq![
                ("Content-Type"@, self@.content_type),
                ("X-Webhook-Signature"@, self@.signature),
                ("X-Webhook-Event-Id"@, self@.event_id),
            ],
    {
        let mut headers: Vec<(String, String)> = Vec::new();
        headers.push(("Content-Type".to_string(), self.content_type.clone()));
        headers.push(("X-Webhook-Signature".to_string(), self.signature.clone()));
        headers.push(("X-Webhook-Event-Id".to_string(), self.event_id.clone()));
        assert(headers.deep_view() =~= seq![
            ("Content-Type"@, self@.content_type),
            ("X-Webhook-Signature"@, self@.signature),
            ("X-Webhook-Event-Id"@, self@.event_id),
        ]);
        headers
    }
}

/// The record of a delivery attempt that ended with `outcome`: the status
/// and body of the response if there was one, else no status and the
/// description of the failure.
pub open spec fn record_of(
    event_id: u128,
    endpoint_id: u128,
    transaction_id: u128,
    payload: Seq<char>,
    outcome: OutcomeView,
) -> EventView {
    EventView {
        id: event_id,
        webhook_endpoint_id: endpoint_id,
        transaction_id,
        payload,
        response_status: match outcome {
            OutcomeView::Response { status, body } => Some(status as i32),
            OutcomeView::Failed { error } => None,
        },
        response_body: match outcome {
            OutcomeView::Response { status, body } => body,
            OutcomeView::Failed { error } => Some("Request failed: "@ + error),
        },
    }
}

/// Makes the record of a delivery attempt, whatever its outcome.
pub fn record_delivery(
    event_id: u128,
    endpoint_id: u128,
    transaction_id: u128,
    payload_json: String,
    outcome: DeliveryOutcome,
) -> (event: NewWebhookEvent)
    ensures
        event@ == record_of(event_id, endpoint_id, transaction_id, payload_json@, outcome@),
{
    match outcome {
        DeliveryOutcome::Response { status, body } => NewWebhookEvent::new(
            event_id,
            endpoint_id,
            transaction_id,
            payload_json,
            Some(status as i32),
            body,
        ),
        DeliveryOutcome::Failed { error } => NewWebhookEvent::new(
            event_id,
            endpoint_id,
            transaction_id,
            payload_json,
            None,
            Some("Request failed: ".to_string().concat(error.as_str())),
        ),
    }
}

/// The record that the attempt `attempt` at `endpoint` leaves in the audit
/// trail: whatever the outcome, there is one, unless the payload cannot be
/// serialized and so no request is made.
pub open spec fn attempt_record(
    transaction: TransactionView,
    endpoint: EndpointView,
    attempt: AttemptView,
) -> Option<StoredEventView> {
    match payload_json(payload_for(attempt.seed.event_id, attempt.seed.created_at, transaction)) {
        Some(json) => Some(
            record_of(
                attempt.seed.event_id,
                endpoint.id,
                transaction.id,
                json,
                attempt.outcome,
            ).stored(attempt.seed.created_at),
        ),
        None => None,
    }
}

/// The records that the first `served` attempts leave, attempt `i` being
/// made at recipient `i`, in the order of the recipients.
pub open spec fn trail(
    transaction: TransactionView,
    recipients: Seq<EndpointView>,
    attempts: Seq<AttemptView>,
    served: int,
) -> Seq<StoredEventView>
    decreases served,
{
    if served <= 0 {
        Seq::empty()
    } else {
        let before = trail(transaction, recipients, attempts, served - 1);
        match attempt_record(transaction, recipients[served - 1], attempts[served - 1]) {
            Some(record) => before.push(record),
            None => before,
        }
    }
}

/// Where the delivery to the current endpoint stands.
#[derive(Debug, Clone, Copy, PartialEq, Eq, Structural)]
pub enum Stage {
    /// Waiting for the outcome of the request.
    Posting,
    /// Waiting for the record to be stored.
    Storing,
    /// Waiting for a failure to be noted.
    Reporting,
    /// Every endpoint was served.
    Done,
}

/// What the notifier asks for next.
#[derive(Debug, PartialEq, Eq)]
pub enum NotifyStep {
    /// Send this request and hand back its outcome.
    Post(WebhookRequest),
    /// Store this record of the attempt.
    Store(NewWebhookEvent),
    /// Note this failure, which kept the notifier from making a request. It
    /// is not to be raised to anyone.
    Report(AppError),
    /// Nothing: every endpoint was served.
    Done,
}

/// The mathematical value of a [`NotifyStep`].
pub enum NotifyStepView {
    Post(RequestView),
    Store(EventView),
    Report(AppErrorView),
    Done,
}

impl View for NotifyStep {
    type V = NotifyStepView;

    open spec fn view(&self) -> NotifyStepView {
        match self {
            NotifyStep::Post(request) => NotifyStepView::Post(request@),
            NotifyStep::Store(event) => NotifyStepView::Store(event@),
            NotifyStep::Report(error) => NotifyStepView::Report(error@),
            NotifyStep::Done => NotifyStepView::Done,
        }
    }
}

/// What happened to the last step.
#[derive(Debug, PartialEq, Eq)]
pub enum NotifyReply {
    /// The request ended this way.
    Delivered(DeliveryOutcome),
    /// The record is stored.
    Stored,
    /// The record could not be stored.
    NotStored,
    /// The failure was noted.
    Noted,
}

/// The mathematical value of a [`NotifyReply`].
pub enum NotifyReplyView {
    Delivered(OutcomeView),
    Stored,
    NotStored,
    Noted,
}

impl View for NotifyReply {
    type V = NotifyReplyView;

    open spec fn view(&self) -> NotifyReplyView {
        match self {
            NotifyReply::Delivered(outcome) => NotifyReplyView::Delivered(outcome@),
            NotifyReply::Stored => NotifyReplyView::Stored,
            NotifyReply::NotStored => NotifyReplyView::NotStored,
            NotifyReply::Noted => NotifyReplyView::Noted,
        }
    }
}

/// The fan-out of one transaction to the endpoints of its owner.
#[derive(Debug)]
pub struct Notifier {
    transaction: Transaction,
    recipients: Vec<WebhookEndpoint>,
    position: usize,
    stage: Stage,
    event_id: u128,
    body: String,
}

/// The mathematical value of a [`Notifier`].
pub struct NotifierView {
    /// The transaction that is announced.
    pub transaction: TransactionView,
    /// The endpoints to serve, in the order in which they are served.
    pub recipients: Seq<EndpointView>,
    /// How many endpoints are done with.
    pub position: int,
    /// Where the delivery to the current endpoint stands.
    pub stage: Stage,
    /// The identifier of the current attempt.
    pub event_id: u128,
    /// The serialized payload of the current attempt.
    pub body: Seq<char>,
}

/// The failure that is noted where a payload cannot be serialized.
pub open spec fn not_serialized() -> AppErrorView {
    AppErrorView::InvalidRequest("Failed to serialize payload"@)
}

impl NotifierView {
    /// The endpoint that is being served.
    pub open spec fn current(self) -> EndpointView {
        self.recipients[self.position]
    }

    /// Starts the delivery to the endpoint at the current position, or ends
    /// the fan-out if no endpoint is left. The payload is made with `seed`
    /// and serialized; the request carries it. A payload that cannot be
    /// serialized is noted instead of sent.
    pub open spec fn open_delivery(self, seed: EventSeed) -> (NotifierView, NotifyStepView) {
        if 0 <= self.position < self.recipients.len() {
            match payload_json(payload_for(seed.event_id, seed.created_at, self.transaction)) {
                Some(json) => (
                    NotifierView {
                        stage: Stage::Posting,
                        event_id: seed.event_id,
                        body: json,
                        ..self
                    },
                    NotifyStepView::Post(request_for(self.current(), seed.event_id, json)),
                ),
                None => (
                    NotifierView {
                        stage: Stage::Reporting,
                        event_id: seed.event_id,
                        body: Seq::empty(),
                        ..self
                    },
                    NotifyStepView::Report(not_serialized()),
                ),
            }
        } else {
            (NotifierView { stage: Stage::Done, ..self }, NotifyStepView::Done)
        }
    }

    /// Leaves the current endpoint and turns to the next one.
    pub open spec fn move_on(self, seed: EventSeed) -> (NotifierView, NotifyStepView) {
        (NotifierView { position: self.position + 1, ..self }).open_delivery(seed)
    }

    /// The outcome that a reply to a request stands for. A reply that is no
    /// outcome counts as a failure without a response.
    pub open spec fn outcome_of(reply: NotifyReplyView) -> OutcomeView {
        match reply {
            NotifyReplyView::Delivered(outcome) => outcome,
            _ => OutcomeView::Failed { error: "no response"@ },
        }
    }

    /// The fan-out of `transaction` to those of `endpoints` that belong to
    /// `owner` and are switched on, and its first step.
    pub open spec fn first(
        transaction: TransactionView,
        endpoints: Seq<EndpointView>,
        owner: u128,
        seed: EventSeed,
    ) -> (NotifierView, NotifyStepView) {
        (NotifierView {
            transaction,
            recipients: active_for(endpoints, owner),
            position: 0,
            stage: Stage::Done,
            event_id: 0,
            body: Seq::empty(),
        }).open_delivery(seed)
    }

    /// The notifier and its next step after `reply`. Whatever the request
    /// led to is recorded. Whatever became of the record, the next endpoint is
    /// served, with `seed` for its attempt.
    pub open spec fn next(self, reply: NotifyReplyView, seed: EventSeed) -> (
        NotifierView,
        NotifyStepView,
    ) {
        match self.stage {
            Stage::Posting => (
                NotifierView { stage: Stage::Storing, ..self },
                NotifyStepView::Store(
                    record_of(
                        self.event_id,
                        self.current().id,
                        self.transaction.id,
                        self.body,
                        Self::outcome_of(reply),
                    ),
                ),
            ),
            Stage::Storing => self.move_on(seed),
            Stage::Reporting => self.move_on(seed),
            Stage::Done => (self, NotifyStepView::Done),
        }
    }
}

impl View for Notifier {
    type V = NotifierView;

    closed spec fn view(&self) -> NotifierView {
        NotifierView {
            transaction: self.transaction@,
            recipients: self.recipients.deep_view(),
            position: self.position as int,
            stage: self.stage,
            event_id: self.event_id,
            body: self.body@,
        }
    }
}

impl Notifier {
    /// While the fan-out goes on there is a current endpoint.
    #[verifier::type_invariant]
    spec fn sound(self) -> bool {
        self.stage != Stage::Done ==> self.position < self.recipients@.len()
    }

    /// Where the delivery to the current endpoint stands.
    pub fn stage(&self) -> (stage: Stage)
        ensures
            stage == self@.stage,
    {
        self.stage
    }

    /// How many endpoints the fan-out serves.
    pub fn recipient_count(&self) -> (count: usize)
        ensures
            count == self@.recipients.len(),
    {
        self.recipients.len()
    }

    fn open_delivery(self, seed: EventSeed) -> (next: (Notifier, NotifyStep))
        ensures
            (next.0@, next.1@) == self@.open_delivery(seed),
    {
        let mut notifier = self;
        if notifier.position < notifier.recipients.len() {
            notifier.event_id = seed.event_id;
            let payload = WebhookPayload::at(
                seed.event_id,
                seed.created_at,
                notifier.transaction.clone(),
            );
            match payload.to_json() {
                Some(json) => {
                    let request = build_request(
                        &notifier.recipients[notifier.position],
                        seed.event_id,
                        json.as_str(),
                    );
                    notifier.stage = Stage::Posting;
                    notifier.body = json;
                    (notifier, NotifyStep::Post(request))
                },
                None => {
                    notifier.stage = Stage::Reporting;
                    notifier.body = String::new();
                    (
                        notifier,
                        NotifyStep::Report(
                            AppError::InvalidRequest("Failed to serialize payload".to_string()),
                        ),
                    )
                },
            }
        } else {
            notifier.stage = Stage::Done;
            (notifier, NotifyStep::Done)
        }
    }

    fn move_on(self, seed: EventSeed) -> (next: (Notifier, NotifyStep))
        requires
            self@.position < self@.recipients.len(),
        ensures
            (next.0@, next.1@) == self@.move_on(seed),
    {
        let mut notifier = self;
        let count = notifier.recipients.len();
        assert(notifier.recipients.deep_view().len() == count);
        notifier.stage = Stage::Done;
        notifier.position = notifier.position + 1;
        notifier.open_delivery(seed)
    }

    /// Starts the fan-out of `transaction` to those of `endpoints` that
    /// belong to `owner` and are switched on. The first attempt uses `seed`.
    pub fn start(
        transaction: Transaction,
        endpoints: &Vec<WebhookEndpoint>,
        owner: u128,
        seed: EventSeed,
    ) -> (next: (Notifier, NotifyStep))
        ensures
            (next.0@, next.1@) == NotifierView::first(
                transaction@,
                endpoints.deep_view(),
                owner,
                seed,
            ),
    {
        let notifier = Notifier {
            transaction,
            recipients: active_among(endpoints, owner),
            position: 0,
            stage: Stage::Done,
            event_id: 0,
            body: String::new(),
        };
        notifier.open_delivery(seed)
    }

    /// Takes what happened to the last step and says what to do next. If a
    /// new attempt begins, it uses `seed`.
    pub fn advance(self, reply: NotifyReply, seed: EventSeed) -> (next: (Notifier, NotifyStep))
        ensures
            (next.0@, next.1@) == self@.next(reply@, seed),
    {
        proof {
            use_type_invariant(&self);
        }
        match self.stage {
            Stage::Posting => {
                let outcome = match reply {
                    NotifyReply::Delivered(outcome) => outcome,
                    _ => DeliveryOutcome::Failed { error: "no response".to_string() },
                };
                let mut notifier = self;
                let event = record_delivery(
                    notifier.event_id,
                    notifier.recipients[notifier.position].id,
                    notifier.transaction.id,
                    notifier.body.clone(),
                    outcome,
                );
                notifier.stage = Stage::Storing;
                (notifier, NotifyStep::Store(event))
            },
            Stage::Storing => self.move_on(seed),
            Stage::Reporting => self.move_on(seed),
            Stage::Done => (self, NotifyStep::Done),
        }
    }
}

/// One attempt per endpoint: each time the notifier turns to an endpoint it
/// makes one request, to that endpoint, with the serialized payload as its
/// body and the signature of that body under the secret of the endpoint; and
/// it turns to each endpoint once, in order. It makes no request at any other
/// time.
pub proof fn lemma_one_attempt_per_recipient(
    notifier: NotifierView,
    reply: NotifyReplyView,
    seed: EventSeed,
)
    requires
        0 <= notifier.position,
        notifier.stage != Stage::Done ==> notifier.position < notifier.recipients.len(),
    ensures
        ({
            let (after, step) = notifier.next(reply, seed);
            let json = payload_json(
                payload_for(seed.event_id, seed.created_at, notifier.transaction),
            );
            &&& after.recipients == notifier.recipients
            &&& after.transaction == notifier.transaction
            &&& after.position == if notifier.stage == Stage::Storing || notifier.stage
                == Stage::Reporting {
                notifier.position + 1
            } else {
                notifier.position
            }
            &&& step is Post <==> after.position == notifier.position + 1 && after.position
                < notifier.recipients.len() && json is Some
            &&& step matches NotifyStepView::Post(request) ==> request == request_for(
                notifier.recipients[after.position],
                seed.event_id,
                json->0,
            )
        }),
{
}

/// The first endpoint is served at once: if any endpoint of the owner is
/// switched on and the payload can be serialized, the first step is the
/// request to the first of them.
pub proof fn lemma_first_attempt(
    transaction: TransactionView,
    endpoints: Seq<EndpointView>,
    owner: u128,
    seed: EventSeed,
)
    ensures
        ({
            let (notifier, step) = NotifierView::first(transaction, endpoints, owner, seed);
            let json = payload_json(payload_for(seed.event_id, seed.created_at, transaction));
            &&& notifier.recipients == active_for(endpoints, owner)
            &&& notifier.position == 0
            &&& notifier.recipients.len() == 0 ==> step is Done
            &&& notifier.recipients.len() > 0 && json is Some ==> step == NotifyStepView::Post(
                request_for(notifier.recipients[0], seed.event_id, json->0),
            )
        }),
{
}

/// Every attempt is recorded, whatever its outcome: the reply to a request,
/// be it a response of any status, a timeout or a connection error, leads to
/// the record of the attempt for the current endpoint and transaction.
pub proof fn lemma_every_outcome_is_recorded(
    notifier: NotifierView,
    reply: NotifyReplyView,
    seed: EventSeed,
)
    requires
        notifier.stage == Stage::Posting,
    ensures
        notifier.next(reply, seed).1 matches NotifyStepView::Store(event) && event.id
            == notifier.event_id && event.webhook_endpoint_id == notifier.current().id
            && event.transaction_id == notifier.transaction.id && event.payload == notifier.body,
        notifier.next(reply, seed).0.stage == Stage::Storing,
{
}

/// No failure stops the fan-out: after a record was stored or could not be
/// stored, and after a failure to serialize was noted, the notifier turns to
/// the next endpoint.
pub proof fn lemma_failure_does_not_stop_fan_out(
    notifier: NotifierView,
    reply: NotifyReplyView,
    seed: EventSeed,
)
    requires
        0 <= notifier.position,
        notifier.stage == Stage::Storing || notifier.stage == Stage::Reporting,
    ensures
        notifier.next(reply, seed) == notifier.move_on(seed),
        notifier.next(reply, seed).0.position == notifier.position + 1,
        notifier.position + 1 < notifier.recipients.len() ==> notifier.next(reply, seed).1 !is Done,
{
}

} // verus!
