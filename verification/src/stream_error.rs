//! Errors of a model's response stream and of the converse-stream API.

use vstd::prelude::*;

use crate::theme::{decimal, push_decimal_u8};
use crate::text::push_char;

verus! {

/// What went wrong with a converse-stream request.
#[derive(Debug, Clone, Copy, PartialEq, Eq, Structural)]
pub enum ConverseStreamErrorKind {
    Throttling,
    MonthlyLimitReached,
    /// The user input is too large for the model's context window.
    ContextWindowOverflow,
    ModelOverloadedError,
    Unknown,
}

/// The message of a converse-stream error kind.
pub open spec fn converse_kind_text(k: ConverseStreamErrorKind) -> Seq<char> {
    match k {
        ConverseStreamErrorKind::Throttling => "Too many requests have been sent recently, please wait and try again later"@,
        ConverseStreamErrorKind::MonthlyLimitReached => "The monthly usage limit has been reached"@,
        ConverseStreamErrorKind::ContextWindowOverflow => "The context window has overflowed"@,
        ConverseStreamErrorKind::ModelOverloadedError => "The model you've selected is temporarily unavailable. Please use '/model' to select a different model and try again."@,
        ConverseStreamErrorKind::Unknown => "An unknown error occurred"@,
    }
}

impl ConverseStreamErrorKind {
    /// The kind's message.
    pub fn message(&self) -> (res: String)
        ensures
            res@ == converse_kind_text(*self),
    {
        match self {
            ConverseStreamErrorKind::Throttling => String::from_str(
                "Too many requests have been sent recently, please wait and try again later",
            ),
            ConverseStreamErrorKind::MonthlyLimitReached => String::from_str("The monthly usage limit has been reached"),
            ConverseStreamErrorKind::ContextWindowOverflow => String::from_str("The context window has overflowed"),
            ConverseStreamErrorKind::ModelOverloadedError => String::from_str(
                "The model you've selected is temporarily unavailable. Please use '/model' to select a different model and try again.",
            ),
            ConverseStreamErrorKind::Unknown => String::from_str("An unknown error occurred"),
        }
    }
}

/// An error of a converse-stream request.
#[derive(Debug, Clone)]
pub struct ConverseStreamError {
    pub request_id: Option<String>,
    pub status_code: Option<u16>,
    pub kind: ConverseStreamErrorKind,
    /// The message of the underlying SDK error, if there was one.
    pub source: Option<String>,
}

impl ConverseStreamError {
    /// An error of the given kind, with its underlying error's message if there is one.
    pub fn new(kind: ConverseStreamErrorKind, source: Option<String>) -> (res: Self)
        ensures
            res.kind == kind,
            res.source == source,
            res.request_id is None,
            res.status_code is None,
    {
        ConverseStreamError { request_id: None, status_code: None, kind, source }
    }

    pub fn set_request_id(self, request_id: Option<String>) -> (res: Self)
        ensures
            res == (ConverseStreamError { request_id, ..self }),
    {
        ConverseStreamError { request_id, ..self }
    }

    pub fn set_status_code(self, status_code: Option<u16>) -> (res: Self)
        ensures
            res == (ConverseStreamError { status_code, ..self }),
    {
        ConverseStreamError { status_code, ..self }
    }
}

/// The error underneath a stream error.
#[derive(Debug, Clone)]
pub enum StreamErrorSource {
    /// A converse-stream request failed.
    ConverseStream(ConverseStreamError),
    /// Another API client error, by its message.
    ApiClient(String),
}

/// What went wrong with a response stream.
#[derive(Debug, Clone, PartialEq, Eq)]
pub enum StreamErrorKind {
    /// The context window overflowed.
    ContextWindowOverflow,
    /// The service failed (a 5xx error).
    ServiceFailure,
    /// The client was throttled.
    Throttling,
    /// The request was invalid.
    Validation {
        /// The error message, if available.
        message: Option<String>,
    },
    /// The stream timed out, after the given number of milliseconds.
    StreamTimeout { duration_ms: u64 },
    /// The stream was interrupted (for example, on ctrl+c).
    Interrupted,
    /// Any other error.
    Other(String),
}

/// Appends the decimal notation of `n` to `out`.
pub fn push_decimal_u64(out: &mut String, n: u64)
    ensures
        final(out)@ == old(out)@ + decimal(n as nat),
    decreases n,
{
    if n < 10 {
        push_decimal_u8(out, n as u8);
    } else {
        push_decimal_u64(out, n / 10);
        let ghost mid = out@;
        push_decimal_u8(out, (n % 10) as u8);
        proof {
            assert(decimal((n % 10) as nat) == seq![crate::theme::digit_char((n % 10) as nat)]);
            assert(decimal(n as nat) == decimal((n / 10) as nat).push(crate::theme::digit_char((n % 10) as nat)));
            assert(final(out)@ =~= old(out)@ + decimal(n as nat));
        }
    }
}

/// The message of a stream error kind.
pub open spec fn stream_kind_text(k: StreamErrorKind) -> Seq<char> {
    match k {
        StreamErrorKind::ContextWindowOverflow => "The context window overflowed"@,
        StreamErrorKind::ServiceFailure => "The service failed to process the request"@,
        StreamErrorKind::Throttling => "The request was throttled by the service"@,
        StreamErrorKind::Validation { .. } => "An invalid request was sent"@,
        StreamErrorKind::StreamTimeout { duration_ms } => "The stream timed out receiving the response after "@
            + decimal(duration_ms as nat) + "ms"@,
        StreamErrorKind::Interrupted => "The stream was interrupted"@,
        StreamErrorKind::Other(m) => m@,
    }
}

impl StreamErrorKind {
    /// The kind's message.
    pub fn message(&self) -> (res: String)
        ensures
            res@ == stream_kind_text(*self),
    {
        match self {
            StreamErrorKind::ContextWindowOverflow => String::from_str("The context window overflowed"),
            StreamErrorKind::ServiceFailure => String::from_str("The service failed to process the request"),
            StreamErrorKind::Throttling => String::from_str("The request was throttled by the service"),
            StreamErrorKind::Validation { .. } => String::from_str("An invalid request was sent"),
            StreamErrorKind::StreamTimeout { duration_ms } => {
                let mut s = String::from_str("The stream timed out receiving the response after ");
                push_decimal_u64(&mut s, *duration_ms);
                s.append("ms");
                s
            },
            StreamErrorKind::Interrupted => String::from_str("The stream was interrupted"),
            StreamErrorKind::Other(m) => m.clone(),
        }
    }
}

/// An error of a model's response stream.
#[derive(Debug, Clone)]
pub struct StreamError {
    /// The request id returned by the model provider, if available.
    pub original_request_id: Option<String>,
    /// The HTTP status code returned by the model provider, if available.
    pub original_status_code: Option<u16>,
    /// The exact error message returned by the model provider, if available.
    pub original_message: Option<String>,
    pub kind: StreamErrorKind,
    /// The underlying error, if any.
    pub source: Option<StreamErrorSource>,
}

/// The message of a stream error source.
pub open spec fn source_text(s: StreamErrorSource) -> Seq<char> {
    match s {
        StreamErrorSource::ConverseStream(e) => converse_kind_text(e.kind),
        StreamErrorSource::ApiClient(m) => m@,
    }
}

/// The message of a stream error: a fixed prefix, the request id when known, and the
/// underlying error's message when there is one.
pub open spec fn stream_error_text(e: StreamError) -> Seq<char> {
    "Encountered an error in the response stream: "@ + match e.original_request_id {
        Some(id) => "request_id: "@ + id@ + ", error: "@,
        None => Seq::empty(),
    } + match e.source {
        Some(s) => source_text(s),
        None => Seq::empty(),
    }
}

impl StreamError {
    /// An error of the given kind, with nothing else known.
    pub fn new(kind: StreamErrorKind) -> (res: Self)
        ensures
            res.kind == kind,
            res.original_request_id is None,
            res.original_status_code is None,
            res.original_message is None,
            res.source is None,
    {
        StreamError {
            kind,
            original_request_id: None,
            original_status_code: None,
            original_message: None,
            source: None,
        }
    }

    pub fn set_original_request_id(self, id: Option<String>) -> (res: Self)
        ensures
            res == (StreamError { original_request_id: id, ..self }),
    {
        StreamError { original_request_id: id, ..self }
    }

    pub fn set_original_status_code(self, id: Option<u16>) -> (res: Self)
        ensures
            res == (StreamError { original_status_code: id, ..self }),
    {
        StreamError { original_status_code: id, ..self }
    }

    pub fn set_original_message(self, id: Option<String>) -> (res: Self)
        ensures
            res == (StreamError { original_message: id, ..self }),
    {
        StreamError { original_message: id, ..self }
    }

    pub fn with_source(self, source: StreamErrorSource) -> (res: Self)
        ensures
            res == (StreamError { source: Some(source), ..self }),
    {
        StreamError { source: Some(source), ..self }
    }

    /// The underlying converse-stream error, if that is what the source is.
    pub fn as_rts_error(&self) -> (res: Option<&ConverseStreamError>)
        ensures
            match self.source {
                Some(StreamErrorSource::ConverseStream(e)) => res == Some(&e),
                _ => res is None,
            },
    {
        match &self.source {
            Some(StreamErrorSource::ConverseStream(e)) => Some(e),
            _ => None,
        }
    }

    /// The error's message.
    pub fn message(&self) -> (res: String)
        ensures
            res@ == stream_error_text(*self),
    {
        let mut s = String::from_str("Encountered an error in the response stream: ");
        if let Some(id) = &self.original_request_id {
            s.append("request_id: ");
            s.append(id.as_str());
            s.append(", error: ");
        }
        match &self.source {
            Some(StreamErrorSource::ConverseStream(e)) => {
                let m = e.kind.message();
                s.append(m.as_str());
            },
            Some(StreamErrorSource::ApiClient(m)) => {
                s.append(m.as_str());
            },
            None => {},
        }
        proof {
            assert(s@ =~= stream_error_text(*self));
        }
        s
    }
}

} // verus!
