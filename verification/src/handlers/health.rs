//! The health check.

use crate::error::{AppError, AppErrorView};
use crate::platform::current_time;
use vstd::prelude::*;

verus! {

/// What the health check answers while the service is well.
#[derive(Debug, PartialEq, Eq)]
pub struct HealthResponse {
    /// The state of the service.
    pub status: String,
    /// The state of the connection to the store.
    pub database: String,
    /// The time of the check.
    pub timestamp: i64,
}

/// Answers the health check, given whether the store answered a trivial
/// query. A store that does not answer is reported as a storage failure.
pub fn health_check(store_answers: bool) -> (result: Result<HealthResponse, AppError>)
    ensures
        store_answers ==> (result matches Ok(response) && response.status@ == "healthy"@
            && response.database@ == "connected"@),
        !store_answers ==> (result matches Err(error) && error@ == AppErrorView::Database(
            "storage failure"@,
        )),
{
    if store_answers {
        Ok(
            HealthResponse {
                status: "healthy".to_string(),
                database: "connected".to_string(),
                timestamp: current_time(),
            },
        )
    } else {
        Err(AppError::Database("storage failure".to_string()))
    }
}

} // verus!
