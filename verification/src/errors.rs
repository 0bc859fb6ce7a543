//! The standardized error shape crossing back to callers, and the pure part
//! of its telemetry side effect.
//!
//! A rejected request receives a stable response carrying an HTTP status, a
//! fixed user-facing message and a fixed machine code; internal detail (cause,
//! call frames, request context) goes only to the telemetry sink.

use vstd::prelude::*;
use std::collections::HashMap;

verus! {

/// Diagnostic metadata extracted from a request, attached only to rejection
/// outcomes for downstream reporting. The headers are carried as name/value
/// pairs in arrival order, repeats included.
#[derive(Debug)]
pub struct RequestInfo {
    pub headers: Option<Vec<(String, String)>>,
    pub tags: Option<HashMap<String, String>>,
    pub body: Option<HashMap<String, String>>,
    pub uri: Option<String>,
}

/// The structured error propagated instead of invoking business logic.
///
/// `backtrace` holds rendered call-frame entries, oldest first; the transport
/// that captures and ships them lives outside this library.
#[derive(Debug)]
pub struct ApiError {
    pub http_code: u16,
    pub message: String,
    pub code: u16,
    pub cause: Option<String>,
    pub backtrace: Option<Vec<String>>,
    pub info: Option<RequestInfo>,
}

impl ApiError {
    pub fn new(
        http_code: u16,
        message: String,
        code: u16,
        cause: Option<String>,
        backtrace: Option<Vec<String>>,
    ) -> (r: ApiError)
        ensures
            r.http_code == http_code,
            r.message == message,
            r.code == code,
            r.cause == cause,
            r.backtrace == backtrace,
            r.info is None,
    {
        ApiError { http_code, message, code, cause, backtrace, info: None }
    }

    pub fn one(
        http_code: u16,
        message: String,
        code: u16,
        cause: Option<String>,
        backtrace: Option<Vec<String>>,
        info: Option<RequestInfo>,
    ) -> (r: ApiError)
        ensures
            r.http_code == http_code,
            r.message == message,
            r.code == code,
            r.cause == cause,
            r.backtrace == backtrace,
            r.info == info,
    {
        ApiError { http_code, message, code, cause, backtrace, info }
    }

    /// Everything a caller is shown of this error: the fixed message, the
    /// HTTP status and the machine code — and nothing else, so no cause,
    /// call frame or fetch detail can reach the response body.
    pub fn response_body(&self) -> (r: (String, u16, u16))
        ensures
            r.0 == self.message,
            r.1 == self.http_code,
            r.2 == self.code,
    {
        (self.message.clone(), self.http_code, self.code)
    }

    /// The HTTP status actually sent: the stored one when it is a valid
    /// status code, `200` otherwise.
    pub fn response_status(&self) -> (r: u16)
        ensures
            r == (if 100 <= self.http_code < 1000 {
                self.http_code
            } else {
                200u16
            }),
    {
        if 100 <= self.http_code && self.http_code < 1000 {
            self.http_code
        } else {
            200
        }
    }
}

impl Default for ApiError {
    /// The neutral "nothing went wrong" value.
    fn default() -> (r: ApiError)
        ensures
            r.http_code == 200,
            r.message@ == "Successfully!"@,
            r.code == 0,
            r.cause is None,
            r.backtrace is None,
            r.info is None,
    {
        ApiError {
            http_code: 200,
            message: "Successfully!".to_owned(),
            code: 0,
            cause: None,
            backtrace: None,
            info: None,
        }
    }
}

/// Serialized body of an error response.
pub struct AppErrorResponse {
    pub error: String,
}

/// At most this many call-frame entries, taken from the end, accompany a
/// telemetry event.
pub const TRACE_MAX_LEVEL: usize = 5;

/// One event for the telemetry sink: the error message and the last few
/// call-frame entries.
pub struct TelemetryEvent {
    pub message: String,
    pub frames: Vec<String>,
}

/// The tail of `frames`: its last [`TRACE_MAX_LEVEL`] entries, or all of them
/// when there are fewer.
pub open spec fn trimmed_frames(frames: Seq<String>) -> Seq<String> {
    if frames.len() > TRACE_MAX_LEVEL {
        frames.skip(frames.len() - TRACE_MAX_LEVEL)
    } else {
        frames
    }
}

impl ApiError {
    /// The event this error owes the telemetry sink: one per error whose
    /// status is strictly above `400`, carrying the message and the trimmed
    /// frames; errors at or below `400` report nothing.
    pub fn telemetry_event(&self) -> (r: Option<TelemetryEvent>)
        ensures
            self.http_code <= 400 ==> r is None,
            self.http_code > 400 ==> {
                &&& r matches Some(e)
                &&& e.message == self.message
                &&& e.frames@ == (match self.backtrace {
                    Some(bt) => trimmed_frames(bt@),
                    None => Seq::<String>::empty(),
                })
            },
    {
        if self.http_code <= 400 {
            return None;
        }
        let mut frames: Vec<String> = Vec::new();
        match &self.backtrace {
            Some(bt) => {
                let len = bt.len();
                let start = if len > TRACE_MAX_LEVEL {
                    len - TRACE_MAX_LEVEL
                } else {
                    0
                };
                for i in start..len
                    invariant
                        start == (if bt@.len() > TRACE_MAX_LEVEL {
                            bt@.len() - TRACE_MAX_LEVEL
                        } else {
                            0
                        }),
                        len == bt@.len(),
                        frames@ == bt@.subrange(start as int, i as int),
                {
                    frames.push(bt[i].clone());
                    assert(frames@ =~= bt@.subrange(start as int, i + 1 as int));
                }
                assert(frames@ =~= trimmed_frames(bt@));
            },
            None => {
                assert(frames@ =~= Seq::<String>::empty());
            },
        }
        Some(TelemetryEvent { message: self.message.clone(), frames })
    }
}

} // verus!
