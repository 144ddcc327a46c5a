//! The webhook notifier: registration of endpoints, signing of payloads and
//! the fan-out of a completed transaction to the endpoints of its owner.

use crate::error::{AppError, AppErrorView};
use crate::models::transaction::{Transaction, TransactionView};
use crate::models::webhook::{
    payload_for,
    payload_json,
    EndpointResponseView,
    EndpointView,
    WebhookEndpoint,
    WebhookEndpointRequest,
    WebhookEndpointResponse,
};
use crate::platform::{
    current_time,
    fresh_id,
    hex_digit,
    hex_encode,
    hex_string,
    hmac_sha256,
    hmac_sha256_tag,
    parse_url,
    random_bytes,
    url_parts,
    ParsedUrl,
};
use crate::registry::{active_for, shown, RegistryState, WebhookRegistry};
use crate::services::delivery::{
    attempt_record,
    trail,
    Attempt,
    AttemptView,
    EventSeed,
    Notifier,
    NotifierView,
    NotifyReply,
    NotifyStep,
    NotifyStepView,
    Stage,
};
use vstd::prelude::*;
use vstd::string::StringSliceAdditionalSpecFns;

verus! {

/// The longest URL that an endpoint may have, in characters.
pub const MAX_URL_LENGTH: usize = 2048;

/// A lower-case hexadecimal digit.
pub open spec fn is_lower_hex(c: char) -> bool {
    ('0' <= c && c <= '9') || ('a' <= c && c <= 'f')
}

/// Hexadecimal text is twice as long as the bytes it stands for and holds
/// lower-case hexadecimal digits only.
pub proof fn lemma_hex_encode_shape(bytes: Seq<u8>)
    ensures
        hex_encode(bytes).len() == 2 * bytes.len(),
        forall|i: int| 0 <= i < hex_encode(bytes).len() ==> is_lower_hex(#[trigger] hex_encode(bytes)[i]),
{
    assert forall|i: int| 0 <= i < hex_encode(bytes).len() implies is_lower_hex(
        #[trigger] hex_encode(bytes)[i],
    ) by {
        let byte = bytes[i / 2] as int;
        let nibble = if i % 2 == 0 {
            byte / 16
        } else {
            byte % 16
        };
        assert(0 <= nibble < 16);
        assert(hex_encode(bytes)[i] == hex_digit(nibble));
    }
}

/// The host is one of the loopback names for which plain HTTP is allowed.
pub open spec fn is_loopback(host: Option<Seq<char>>) -> bool {
    host == Some("localhost"@) || host == Some("127.0.0.1"@) || host == Some("0.0.0.0"@)
}

/// Why a URL of `length` characters that parses to `parts` cannot be an
/// endpoint, or nothing if it can: it is too long, it is no URL, it uses
/// plain HTTP to a host that is not a loopback name, or it uses a scheme
/// other than HTTP and HTTPS.
pub open spec fn url_fault(length: nat, parts: Option<(Seq<char>, Option<Seq<char>>)>) -> Option<
    Seq<char>,
> {
    if length > MAX_URL_LENGTH {
        Some("URL exceeds 2048 characters"@)
    } else {
        match parts {
            None => Some("Invalid URL format"@),
            Some((scheme, host)) => if scheme == "https"@ {
                None
            } else if scheme == "http"@ {
                if is_loopback(host) {
                    None
                } else {
                    Some("HTTP is only allowed for localhost. Use HTTPS for production."@)
                }
            } else {
                Some("URL must use HTTP or HTTPS"@)
            },
        }
    }
}

/// The result of a validation that found `found`.
pub open spec fn validation(found: Option<Seq<char>>) -> Result<(), AppErrorView> {
    match found {
        None => Ok(()),
        Some(reason) => Err(AppErrorView::InvalidRequest(reason)),
    }
}

/// The mathematical value of the result of a validation.
pub open spec fn validation_view(result: Result<(), AppError>) -> Result<(), AppErrorView> {
    match result {
        Ok(_) => Ok(()),
        Err(error) => Err(error@),
    }
}

fn text_is(text: &String, other: &str) -> (same: bool)
    ensures
        same == (text@ == other@),
{
    *text == other.to_string()
}

fn refuse(reason: &str) -> (result: Result<(), AppError>)
    ensures
        validation_view(result) == validation(Some(reason@)),
{
    Err(AppError::InvalidRequest(reason.to_string()))
}

/// Decides whether a URL of `length` characters that was parsed to `parsed`
/// can be an endpoint.
pub fn judge_url(length: usize, parsed: Option<ParsedUrl>) -> (result: Result<(), AppError>)
    ensures
        validation_view(result) == validation(url_fault(length as nat, parsed.deep_view())),
{
    if length > MAX_URL_LENGTH {
        return refuse("URL exceeds 2048 characters");
    }
    match parsed {
        None => refuse("Invalid URL format"),
        Some(url) => {
            if text_is(&url.scheme, "https") {
                Ok(())
            } else if text_is(&url.scheme, "http") {
                let loopback = match &url.host {
                    Some(host) => text_is(host, "localhost") || text_is(host, "127.0.0.1")
                        || text_is(host, "0.0.0.0"),
                    None => false,
                };
                if loopback {
                    Ok(())
                } else {
                    refuse("HTTP is only allowed for localhost. Use HTTPS for production.")
                }
            } else {
                refuse("URL must use HTTP or HTTPS")
            }
        },
    }
}

/// Checks that `url` can be an endpoint: at most 2048 characters, a URL, and
/// either HTTPS or HTTP to a loopback name.
pub fn validate_webhook_url(url: &str) -> (result: Result<(), AppError>)
    ensures
        validation_view(result) == validation(url_fault(url@.len(), url_parts(url@))),
{
    let length = url.unicode_len();
    if length > MAX_URL_LENGTH {
        return judge_url(length, None);
    }
    judge_url(length, parse_url(url))
}

/// The value of the signature header for a payload: `sha256=` and the
/// hexadecimal HMAC-SHA256 tag of the payload under the secret.
pub open spec fn signature(secret: Seq<u8>, payload: Seq<u8>) -> Seq<char> {
    "sha256="@ + hex_encode(hmac_sha256(secret, payload))
}

/// The value of the signature header for the tag `tag`: `sha256=` and the
/// tag in hexadecimal digits.
pub fn signature_header(tag: &[u8]) -> (header: String)
    ensures
        header@ == "sha256="@ + hex_encode(tag@),
        header@.len() == 7 + 2 * tag@.len(),
        header@.subrange(0, 7) == "sha256="@,
        forall|i: int| 7 <= i < header@.len() ==> is_lower_hex(#[trigger] header@[i]),
{
    let digits = hex_string(tag);
    let header = "sha256=".to_string().concat(digits.as_str());
    proof {
        reveal_strlit("sha256=");
        lemma_hex_encode_shape(tag@);
        assert(header@.subrange(0, 7) =~= "sha256="@);
        assert forall|i: int| 7 <= i < header@.len() implies is_lower_hex(#[trigger] header@[i]) by {
            assert(header@[i] == digits@[i - 7]);
        }
    }
    header
}

/// Signs `payload` with `secret`. The result is `sha256=` followed by 64
/// lower-case hexadecimal digits.
pub fn generate_signature(secret: &str, payload: &str) -> (header: String)
    ensures
        header@ == signature(secret.spec_bytes(), payload.spec_bytes()),
        header@.len() == 71,
        header@.subrange(0, 7) == "sha256="@,
        forall|i: int| 7 <= i < 71 ==> is_lower_hex(#[trigger] header@[i]),
{
    let tag = hmac_sha256_tag(secret.as_bytes(), payload.as_bytes());
    signature_header(tag.as_slice())
}

/// The secret that `bytes` stand for: their hexadecimal text.
pub fn secret_from(bytes: &[u8]) -> (secret: String)
    ensures
        secret@ == hex_encode(bytes@),
        secret@.len() == 2 * bytes@.len(),
        forall|i: int| 0 <= i < secret@.len() ==> is_lower_hex(#[trigger] secret@[i]),
{
    proof {
        lemma_hex_encode_shape(bytes@);
    }
    hex_string(bytes)
}

/// A new secret: the hexadecimal text of 32 random bytes, 64 digits.
pub fn generate_secret() -> (secret: String)
    ensures
        secret@.len() == 64,
        forall|i: int| 0 <= i < 64 ==> is_lower_hex(#[trigger] secret@[i]),
        exists|bytes: Seq<u8>| bytes.len() == 32 && secret@ == #[trigger] hex_encode(bytes),
{
    let bytes = random_bytes();
    secret_from(bytes.as_slice())
}

/// The endpoint that a registration creates: switched on, owned by
/// `api_key_id`.
pub open spec fn new_endpoint(
    api_key_id: u128,
    url: Seq<char>,
    secret: Seq<char>,
    id: u128,
    now: i64,
) -> EndpointView {
    EndpointView { id, api_key_id, url, secret, is_active: true, created_at: now }
}

/// What a registration answers: the endpoint with its secret, shown this
/// once.
pub open spec fn registered(endpoint: EndpointView) -> EndpointResponseView {
    EndpointResponseView { secret: Some(endpoint.secret), ..endpoint.shown() }
}

/// The mathematical value of the result of a registration.
pub open spec fn registration_view(result: Result<WebhookEndpointResponse, AppError>) -> Result<
    EndpointResponseView,
    AppErrorView,
> {
    match result {
        Ok(response) => Ok(response@),
        Err(error) => Err(error@),
    }
}

/// What the registration of `url` for `api_key_id` with the given secret,
/// identifier and time answers in the state `state`: the reason why the URL
/// cannot be an endpoint, a storage failure if the identifier is taken, else
/// the new endpoint with its secret.
pub open spec fn registration(
    state: RegistryState,
    api_key_id: u128,
    url: Seq<char>,
    secret: Seq<char>,
    id: u128,
    now: i64,
) -> Result<EndpointResponseView, AppErrorView> {
    match url_fault(url.len(), url_parts(url)) {
        Some(reason) => Err(AppErrorView::InvalidRequest(reason)),
        None => if state.holds(id) {
            Err(AppErrorView::Database("storage failure"@))
        } else {
            Ok(registered(new_endpoint(api_key_id, url, secret, id, now)))
        },
    }
}

/// The registry after that registration: with the new endpoint if the
/// registration succeeded, unchanged otherwise.
pub open spec fn after_registration(
    state: RegistryState,
    api_key_id: u128,
    url: Seq<char>,
    secret: Seq<char>,
    id: u128,
    now: i64,
) -> RegistryState {
    if registration(state, api_key_id, url, secret, id, now) is Ok {
        state.with_endpoint(new_endpoint(api_key_id, url, secret, id, now))
    } else {
        state
    }
}

/// The mathematical value of an endpoint or the error in its place.
pub open spec fn draft_view(result: Result<WebhookEndpoint, AppError>) -> Result<
    EndpointView,
    AppErrorView,
> {
    match result {
        Ok(endpoint) => Ok(endpoint@),
        Err(error) => Err(error@),
    }
}

/// The endpoint that the registration of `url` creates, or the reason why
/// `url` cannot be an endpoint.
pub fn draft_endpoint(api_key_id: u128, url: String, secret: String, id: u128, now: i64) -> (result:
    Result<WebhookEndpoint, AppError>)
    ensures
        draft_view(result) == match url_fault(url@.len(), url_parts(url@)) {
            Some(reason) => Err(AppErrorView::InvalidRequest(reason)),
            None => Ok(new_endpoint(api_key_id, url@, secret@, id, now)),
        },
{
    match validate_webhook_url(url.as_str()) {
        Err(error) => Err(error),
        Ok(_) => Ok(WebhookEndpoint { id, api_key_id, url, secret, is_active: true, created_at: now }),
    }
}

/// The endpoint that a registration creates, with a new random secret and
/// identifier and the current time, or the reason why the URL of the request
/// cannot be an endpoint. The secret is 64 lower-case hexadecimal digits.
pub fn prepare_endpoint(api_key_id: u128, request: WebhookEndpointRequest) -> (result: Result<
    WebhookEndpoint,
    AppError,
>)
    ensures
        match url_fault(request.url@.len(), url_parts(request.url@)) {
            Some(reason) => draft_view(result) == Err::<EndpointView, _>(
                AppErrorView::InvalidRequest(reason),
            ),
            None => {
                &&& result matches Ok(endpoint)
                &&& endpoint@ == new_endpoint(
                    api_key_id,
                    request.url@,
                    endpoint.secret@,
                    endpoint.id,
                    endpoint.created_at,
                )
                &&& endpoint.secret@.len() == 64
                &&& forall|i: int| 0 <= i < 64 ==> is_lower_hex(#[trigger] endpoint.secret@[i])
            },
        },
{
    draft_endpoint(api_key_id, request.url, generate_secret(), fresh_id(), current_time())
}

/// What the registration of `endpoint` answers: the endpoint with its
/// secret, shown this once.
pub fn registered_response(endpoint: WebhookEndpoint) -> (response: WebhookEndpointResponse)
    ensures
        response@ == registered(endpoint@),
{
    let secret = endpoint.secret.clone();
    WebhookEndpointResponse::from(endpoint).with_secret(secret)
}

/// The answer to a removal that switched off `switched_off` endpoints: a
/// removal that found nothing to switch off is answered as not found.
pub fn removal(switched_off: u64) -> (result: Result<(), AppError>)
    ensures
        switched_off > 0 ==> result is Ok,
        switched_off == 0 ==> result == Err::<(), AppError>(AppError::WebhookNotFound),
{
    if switched_off == 0 {
        Err(AppError::WebhookNotFound)
    } else {
        Ok(())
    }
}

/// Registers the endpoint `url` for `api_key_id` with the given secret,
/// identifier and time of creation.
pub fn register_endpoint(
    registry: &mut WebhookRegistry,
    api_key_id: u128,
    url: String,
    secret: String,
    id: u128,
    now: i64,
) -> (result: Result<WebhookEndpointResponse, AppError>)
    requires
        old(registry).wf(),
    ensures
        final(registry).wf(),
        registration_view(result) == registration(old(registry)@, api_key_id, url@, secret@, id, now),
        final(registry)@ == after_registration(old(registry)@, api_key_id, url@, secret@, id, now),
{
    let endpoint = match draft_endpoint(api_key_id, url, secret, id, now) {
        Err(error) => {
            return Err(error);
        },
        Ok(endpoint) => endpoint,
    };
    if !registry.register(endpoint.clone()) {
        return Err(AppError::Database("storage failure".to_string()));
    }
    Ok(registered_response(endpoint))
}

/// Registers an endpoint for `api_key_id`.
///
/// The endpoint gets a new random secret and identifier and the current
/// time. With these, the answer and the registry afterwards are those of
/// [`registration`] and [`after_registration`]. The secret is 64 lower-case
/// hexadecimal digits.
pub fn create_webhook_endpoint(
    registry: &mut WebhookRegistry,
    api_key_id: u128,
    request: WebhookEndpointRequest,
) -> (result: Result<WebhookEndpointResponse, AppError>)
    requires
        old(registry).wf(),
    ensures
        final(registry).wf(),
        exists|secret: Seq<char>, id: u128, now: i64|
            {
                &&& secret.len() == 64
                &&& forall|i: int| 0 <= i < 64 ==> is_lower_hex(#[trigger] secret[i])
                &&& registration_view(result) == #[trigger] registration(
                    old(registry)@,
                    api_key_id,
                    request.url@,
                    secret,
                    id,
                    now,
                )
                &&& final(registry)@ == after_registration(
                    old(registry)@,
                    api_key_id,
                    request.url@,
                    secret,
                    id,
                    now,
                )
            },
{
    let secret = generate_secret();
    let id = fresh_id();
    let now = current_time();
    let ghost digits = secret@;
    let result = register_endpoint(registry, api_key_id, request.url, secret, id, now);
    assert(registration_view(result) == registration(
        old(registry)@,
        api_key_id,
        request.url@,
        digits,
        id,
        now,
    ));
    result
}

/// The endpoints as clients see them after registration: in the same
/// order, without their secrets.
pub fn endpoint_responses(endpoints: Vec<WebhookEndpoint>) -> (list: Vec<WebhookEndpointResponse>)
    ensures
        list.deep_view() == shown(endpoints.deep_view()),
{
    let mut list: Vec<WebhookEndpointResponse> = Vec::new();
    let mut i: usize = 0;
    while i < endpoints.len()
        invariant
            i <= endpoints@.len(),
            list@.len() == i,
            forall|k: int| 0 <= k < i ==> (#[trigger] list@[k])@ == endpoints@[k]@.shown(),
        decreases endpoints@.len() - i,
    {
        list.push(WebhookEndpointResponse::from(endpoints[i].clone()));
        i += 1;
    }
    assert(list.deep_view() =~= shown(endpoints.deep_view()));
    list
}

/// The endpoints of `api_key_id` that are switched on, newest first and
/// without their secrets.
pub fn list_webhook_endpoints(registry: &WebhookRegistry, api_key_id: u128) -> (result: Result<
    Vec<WebhookEndpointResponse>,
    AppError,
>)
    ensures
        result matches Ok(list) && list.deep_view() == shown(
            active_for(registry@.endpoints, api_key_id),
        ),
{
    Ok(endpoint_responses(registry.active_endpoints(api_key_id)))
}

/// Switches off the endpoint `endpoint_id` of `api_key_id`. The endpoint
/// and the records of its deliveries stay.
pub fn delete_webhook_endpoint(
    registry: &mut WebhookRegistry,
    api_key_id: u128,
    endpoint_id: u128,
) -> (result: Result<(), AppError>)
    requires
        old(registry).wf(),
    ensures
        final(registry).wf(),
        old(registry)@.owns(endpoint_id, api_key_id) ==> result is Ok && final(registry)@ == old(
            registry,
        )@.switched_off(endpoint_id),
        !old(registry)@.owns(endpoint_id, api_key_id) ==> result == Err::<(), AppError>(
            AppError::WebhookNotFound,
        ) && final(registry)@ == old(registry)@,
{
    removal(
        if registry.deactivate(endpoint_id, api_key_id) {
            1
        } else {
            0
        },
    )
}

/// Starts the notification of the endpoints of `api_key_id` about
/// `transaction`: one delivery attempt for each endpoint that is switched on.
pub fn notify_transaction_webhooks(
    registry: &WebhookRegistry,
    transaction: &Transaction,
    api_key_id: u128,
    seed: EventSeed,
) -> (next: (Notifier, NotifyStep))
    ensures
        (next.0@, next.1@) == NotifierView::first(
            transaction@,
            registry@.endpoints,
            api_key_id,
            seed,
        ),
{
    Notifier::start(transaction.clone(), registry.endpoints(), api_key_id, seed)
}

/// Where the fan-out stands while [`deliver_with`] runs it: `served`
/// endpoints are done with, and the step at hand belongs to the attempt at
/// the next one.
pub open spec fn fan_out_on_track(
    notifier: NotifierView,
    step: NotifyStepView,
    attempts: Seq<AttemptView>,
    served: int,
) -> bool {
    let attempt = attempts[served];
    let json = payload_json(
        payload_for(attempt.seed.event_id, attempt.seed.created_at, notifier.transaction),
    );
    &&& notifier.position == served
    &&& 0 <= served <= notifier.recipients.len()
    &&& match step {
        NotifyStepView::Post(_) => {
            &&& notifier.stage == Stage::Posting
            &&& served < notifier.recipients.len()
            &&& served < attempts.len()
            &&& notifier.event_id == attempt.seed.event_id
            &&& json == Some(notifier.body)
        },
        NotifyStepView::Store(event) => {
            &&& notifier.stage == Stage::Storing
            &&& served < notifier.recipients.len()
            &&& served < attempts.len()
            &&& attempt_record(notifier.transaction, notifier.recipients[served], attempt) == Some(
                event.stored(attempt.seed.created_at),
            )
        },
        NotifyStepView::Report(_) => {
            &&& notifier.stage == Stage::Reporting
            &&& served < notifier.recipients.len()
            &&& served < attempts.len()
            &&& json is None
        },
        NotifyStepView::Done => {
            &&& notifier.stage == Stage::Done
            &&& served == notifier.recipients.len()
            &&& served <= attempts.len()
        },
    }
}

/// How far the fan-out is from its end.
pub open spec fn fan_out_rank(notifier: NotifierView) -> int {
    3 * (notifier.recipients.len() - notifier.position) - match notifier.stage {
        Stage::Posting => 0int,
        Stage::Storing => 1int,
        Stage::Reporting => 0int,
        Stage::Done => 0int,
    }
}

/// Notifies the endpoints of `api_key_id` about `transaction`, with the
/// attempt at the `i`-th endpoint ending as `attempts[i]` says, and records
/// every attempt in the registry. Endpoints for which no attempt is given are
/// not served. Returns how many endpoints were served.
///
/// Whatever the outcomes, the audit trail grows by the records of the
/// attempts, one for each endpoint served, in the order of the endpoints; the
/// endpoints themselves are not changed.
pub fn deliver_with(
    registry: &mut WebhookRegistry,
    transaction: &Transaction,
    api_key_id: u128,
    attempts: &Vec<Attempt>,
) -> (served: usize)
    requires
        old(registry).wf(),
    ensures
        final(registry).wf(),
        served == if active_for(old(registry)@.endpoints, api_key_id).len() <= attempts@.len() {
            active_for(old(registry)@.endpoints, api_key_id).len()
        } else {
            attempts@.len()
        },
        final(registry)@ == (RegistryState {
            events: old(registry)@.events + trail(
                transaction@,
                active_for(old(registry)@.endpoints, api_key_id),
                attempts.deep_view(),
                served as int,
            ),
            ..old(registry)@
        }),
{
    let ghost recipients = active_for(registry@.endpoints, api_key_id);
    let ghost all = attempts.deep_view();
    let ghost told = transaction@;
    if attempts.len() == 0 {
        assert(registry@.events =~= registry@.events + trail(told, recipients, all, 0));
        return 0;
    }
    let first = notify_transaction_webhooks(registry, transaction, api_key_id, attempts[0].seed);
    let mut notifier = first.0;
    let mut step = first.1;
    let mut served: usize = 0;
    assert(registry@.events =~= old(registry)@.events + trail(told, recipients, all, 0));
    loop
        invariant
            registry.wf(),
            registry@.endpoints == old(registry)@.endpoints,
            registry@.events == old(registry)@.events + trail(told, recipients, all, served as int),
            recipients == active_for(old(registry)@.endpoints, api_key_id),
            all == attempts.deep_view(),
            told == transaction@,
            notifier@.recipients == recipients,
            notifier@.transaction == told,
            fan_out_on_track(notifier@, step@, all, served as int),
        decreases fan_out_rank(notifier@),
    {
        let ghost before = registry@.events;
        let ghost here = served as int;
        proof {
            assert(all.len() == attempts@.len());
            if here < attempts@.len() {
                assert(all[here] == attempts@[here]@);
            }
        }
        let reply = match step {
            NotifyStep::Done => {
                return served;
            },
            NotifyStep::Post(_) => {
                let next = notifier.advance(
                    NotifyReply::Delivered(attempts[served].outcome.clone()),
                    attempts[served].seed,
                );
                notifier = next.0;
                step = next.1;
                continue ;
            },
            NotifyStep::Store(event) => {
                registry.record(event, attempts[served].seed.created_at);
                NotifyReply::Stored
            },
            NotifyStep::Report(_) => NotifyReply::Noted,
        };
        let count = attempts.len();
        assert(served < count);
        proof {
            assert(trail(told, recipients, all, here + 1) == match attempt_record(
                told,
                recipients[here],
                all[here],
            ) {
                Some(record) => trail(told, recipients, all, here).push(record),
                None => trail(told, recipients, all, here),
            });
            assert(registry@.events =~= old(registry)@.events + trail(
                told,
                recipients,
                all,
                here + 1,
            ));
        }
        if served + 1 < count {
            proof {
                assert(all[here + 1] == attempts@[here + 1]@);
            }
            let next = notifier.advance(reply, attempts[served + 1].seed);
            notifier = next.0;
            step = next.1;
            served = served + 1;
        } else {
            return served + 1;
        }
    }
}

/// One record per endpoint: if every payload can be serialized, the trail
/// of `served` attempts holds `served` records, and record `i` is the record
/// of the attempt at recipient `i`, whatever its outcome.
pub proof fn lemma_one_record_per_endpoint(
    transaction: TransactionView,
    recipients: Seq<EndpointView>,
    attempts: Seq<AttemptView>,
    served: int,
)
    requires
        0 <= served <= recipients.len(),
        served <= attempts.len(),
        forall|i: int|
            0 <= i < served ==> (#[trigger] attempt_record(
                transaction,
                recipients[i],
                attempts[i],
            )) is Some,
    ensures
        trail(transaction, recipients, attempts, served).len() == served,
        forall|i: int|
            0 <= i < served ==> Some(
                #[trigger] trail(transaction, recipients, attempts, served)[i],
            ) == attempt_record(transaction, recipients[i], attempts[i]),
        forall|i: int|
            0 <= i < served ==> (#[trigger] trail(
                transaction,
                recipients,
                attempts,
                served,
            )[i]).webhook_endpoint_id == recipients[i].id,
    decreases served,
{
    if served > 0 {
        lemma_one_record_per_endpoint(transaction, recipients, attempts, served - 1);
        assert(attempt_record(transaction, recipients[served - 1], attempts[served - 1]) is Some);
    }
}

} // verus!
