//! Unified error and response envelope for the API boundary.
//!
//! Every failure surfaced to a caller is a structured value: a stable
//! code, a human-readable message, and a fresh correlation identifier.
//! A failed fetch cycle never raises an exception across the API
//! boundary and never becomes a process-level fault.

use crate::digits::dec_str;
use crate::digits::u64_to_string;
use crate::retry::ErrorKind;
use vstd::prelude::*;

verus! {

/// Relies on `uuid::Uuid::new_v4` and its `Display` impl: a fresh
/// random version-4 UUID rendered in hyphenated form, which is always
/// 36 characters. The value is random, so nothing more is promised.
#[verifier::external_body]
fn fresh_trace_id() -> (r: String)
    ensures
        r@.len() == 36,
{
    uuid::Uuid::new_v4().to_string()
}

/// Structured API error: code, message, correlation identifier.
#[derive(Clone, Debug)]
pub struct ApiError {
    pub code: String,
    pub message: String,
    pub trace_id: String,
}

impl ApiError {
    /// A fresh error with the given code and message and a new
    /// correlation identifier.
    pub fn new(code: String, message: String) -> (e: Self)
        ensures
            e.code == code,
            e.message == message,
            e.trace_id@.len() == 36,
    {
        ApiError { code, message, trace_id: fresh_trace_id() }
    }

    pub fn database(msg: String) -> (e: Self)
        ensures
            e.code@ == "DATABASE_ERROR"@,
            e.message == msg,
            e.trace_id@.len() == 36,
    {
        Self::new(String::from_str("DATABASE_ERROR"), msg)
    }

    /// An upstream failure: the code carries the HTTP status, as in
    /// "UPSTREAM_503".
    pub fn upstream(status: u16, msg: String) -> (e: Self)
        ensures
            e.code@ == "UPSTREAM_"@ + dec_str(status as nat),
            e.message == msg,
            e.trace_id@.len() == 36,
    {
        let mut code = String::from_str("UPSTREAM_");
        let digits = u64_to_string(status as u64);
        code.append(digits.as_str());
        Self::new(code, msg)
    }

    pub fn internal(msg: String) -> (e: Self)
        ensures
            e.code@ == "INTERNAL_ERROR"@,
            e.message == msg,
            e.trace_id@.len() == 36,
    {
        Self::new(String::from_str("INTERNAL_ERROR"), msg)
    }

    pub fn validation(msg: String) -> (e: Self)
        ensures
            e.code@ == "VALIDATION_ERROR"@,
            e.message == msg,
            e.trace_id@.len() == 36,
    {
        Self::new(String::from_str("VALIDATION_ERROR"), msg)
    }

    pub fn not_found(msg: String) -> (e: Self)
        ensures
            e.code@ == "NOT_FOUND"@,
            e.message == msg,
            e.trace_id@.len() == 36,
    {
        Self::new(String::from_str("NOT_FOUND"), msg)
    }
}

/// The error a terminal fetch failure surfaces to a caller. Upstream
/// status failures keep their status in the code; transport and decode
/// failures carry the fallback status 500, as a response-less failure
/// has no status of its own; storage failures are database errors.
pub fn error_for_failure(kind: &ErrorKind, status: u16, message: String) -> (e: ApiError)
    ensures
        e.message == message,
        e.trace_id@.len() == 36,
        match *kind {
            ErrorKind::UpstreamRateLimited | ErrorKind::UpstreamServerError
                | ErrorKind::UpstreamClientError => e.code@ == "UPSTREAM_"@ + dec_str(
                status as nat,
            ),
            ErrorKind::Transport | ErrorKind::Decode => e.code@ == "UPSTREAM_"@ + dec_str(500),
            ErrorKind::Storage => e.code@ == "DATABASE_ERROR"@,
        },
{
    match kind {
        ErrorKind::UpstreamRateLimited | ErrorKind::UpstreamServerError
            | ErrorKind::UpstreamClientError => ApiError::upstream(status, message),
        ErrorKind::Transport | ErrorKind::Decode => ApiError::upstream(500, message),
        ErrorKind::Storage => ApiError::database(message),
    }
}

/// Uniform success/error envelope for API responses.
#[derive(Debug)]
pub struct ApiResponse<T> {
    pub ok: bool,
    pub data: Option<T>,
    pub error: Option<ApiError>,
}

impl<T> ApiResponse<T> {
    pub fn success(data: T) -> (r: Self)
        ensures
            r.ok,
            r.data == Some(data),
            r.error is None,
    {
        ApiResponse { ok: true, data: Some(data), error: None }
    }

    pub fn error(error: ApiError) -> (r: ApiResponse<()>)
        ensures
            !r.ok,
            r.data is None,
            r.error == Some(error),
    {
        ApiResponse { ok: false, data: None, error: Some(error) }
    }
}

} // verus!
