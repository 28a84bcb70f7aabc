//! Errors that the HTTP API answers with.

use vstd::prelude::*;
use crate::models::ErrorResponse;
use crate::text::concatenate;

verus! {

/// An HTTP status code and the message of the error body.
pub struct ApiError {
    pub status: u16,
    pub message: String,
}

pub open spec fn status_internal_server_error() -> u16 {
    500
}

pub open spec fn status_not_found() -> u16 {
    404
}

pub open spec fn status_created() -> u16 {
    201
}

/// The status of a successful deployment: 201 Created.
pub fn created_status() -> (s: u16)
    ensures
        s == status_created(),
{
    201
}

impl ApiError {
    /// A failure of the service itself (500), with the message as it stands.
    pub fn internal(message: String) -> (e: ApiError)
        ensures
            e.status == status_internal_server_error(),
            e.message@ == message@,
    {
        ApiError { status: 500, message }
    }

    /// The container list could not be read (500).
    pub fn list_failed(detail: &str) -> (e: ApiError)
        ensures
            e.status == status_internal_server_error(),
            e.message@ == "failed to list containers: "@ + detail@,
    {
        ApiError { status: 500, message: concatenate("failed to list containers: ", detail) }
    }

    /// The container to inspect is unknown (404).
    pub fn not_found(detail: &str) -> (e: ApiError)
        ensures
            e.status == status_not_found(),
            e.message@ == "container not found: "@ + detail@,
    {
        ApiError { status: 404, message: concatenate("container not found: ", detail) }
    }

    /// The log stream broke off (500).
    pub fn logs_failed(detail: &str) -> (e: ApiError)
        ensures
            e.status == status_internal_server_error(),
            e.message@ == "failed to read logs: "@ + detail@,
    {
        ApiError { status: 500, message: concatenate("failed to read logs: ", detail) }
    }

    /// The JSON body of the error answer.
    pub fn error_response(self) -> (r: ErrorResponse)
        ensures
            r.error@ == self.message@,
    {
        ErrorResponse { error: self.message }
    }
}

} // verus!
