//! The registration, listing and removal of webhook endpoints, on behalf of
//! an authenticated business.

use crate::error::AppError;
use crate::middleware::auth::AuthContext;
use crate::models::webhook::{WebhookEndpointRequest, WebhookEndpointResponse};
use crate::registry::{active_for, shown, WebhookRegistry};
use crate::services::webhook_service::{
    after_registration,
    create_webhook_endpoint,
    delete_webhook_endpoint,
    is_lower_hex,
    list_webhook_endpoints,
    registration,
    registration_view,
};
use vstd::prelude::*;

verus! {

/// The HTTP status that answers a registration.
pub const CREATED: u16 = 201;

/// The HTTP status that answers a removal.
pub const NO_CONTENT: u16 = 204;

/// Registers an endpoint for the business that `auth` stands for. The
/// answer carries the status 201 and, this once, the secret.
pub fn create_webhook(
    registry: &mut WebhookRegistry,
    auth: &AuthContext,
    request: WebhookEndpointRequest,
) -> (result: Result<(u16, WebhookEndpointResponse), AppError>)
    requires
        old(registry).wf(),
    ensures
        final(registry).wf(),
        result matches Ok(answer) ==> answer.0 == CREATED,
        exists|secret: Seq<char>, id: u128, now: i64|
            {
                &&& secret.len() == 64
                &&& forall|i: int| 0 <= i < 64 ==> is_lower_hex(#[trigger] secret[i])
                &&& registration_view(
                    match result {
                        Ok(answer) => Ok(answer.1),
                        Err(error) => Err(error),
                    },
                ) == #[trigger] registration(
                    old(registry)@,
                    auth.api_key_id,
                    request.url@,
                    secret,
                    id,
                    now,
                )
                &&& final(registry)@ == after_registration(
                    old(registry)@,
                    auth.api_key_id,
                    request.url@,
                    secret,
                    id,
                    now,
                )
            },
{
    match create_webhook_endpoint(registry, auth.api_key_id, request) {
        Ok(endpoint) => Ok((CREATED, endpoint)),
        Err(error) => Err(error),
    }
}

/// The endpoints of the business that `auth` stands for that are switched
/// on, newest first and without their secrets.
pub fn list_webhooks(registry: &WebhookRegistry, auth: &AuthContext) -> (result: Result<
    Vec<WebhookEndpointResponse>,
    AppError,
>)
    ensures
        result matches Ok(list) && list.deep_view() == shown(
            active_for(registry@.endpoints, auth.api_key_id),
        ),
{
    list_webhook_endpoints(registry, auth.api_key_id)
}

/// Switches off an endpoint of the business that `auth` stands for. The
/// answer carries the status 204.
pub fn delete_webhook(registry: &mut WebhookRegistry, auth: &AuthContext, webhook_id: u128) -> (result:
    Result<u16, AppError>)
    requires
        old(registry).wf(),
    ensures
        final(registry).wf(),
        old(registry)@.owns(webhook_id, auth.api_key_id) ==> result == Ok::<u16, AppError>(
            NO_CONTENT,
        ) && final(registry)@ == old(registry)@.switched_off(webhook_id),
        !old(registry)@.owns(webhook_id, auth.api_key_id) ==> result == Err::<u16, AppError>(
            AppError::WebhookNotFound,
        ) && final(registry)@ == old(registry)@,
{
    match delete_webhook_endpoint(registry, auth.api_key_id, webhook_id) {
        Ok(_) => Ok(NO_CONTENT),
        Err(error) => Err(error),
    }
}

} // verus!
