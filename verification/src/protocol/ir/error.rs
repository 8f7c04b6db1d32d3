//! Errors of providers, under one classification.
use vstd::prelude::*;

use crate::json::{Json, JsonV};
use crate::views::Views;

verus! {

/// What went wrong.
#[derive(Debug, Clone, Copy, PartialEq, Eq, Structural)]
pub enum AiErrorKind {
    /// The key is invalid or the token expired.
    AuthenticationError,
    /// The account lacks permission.
    AuthorizationError,
    /// The model or resource does not exist.
    NotFoundError,
    /// Too many requests or tokens per minute.
    RateLimitError,
    /// The quota is used up.
    QuotaExceeded,
    /// The request is malformed.
    InvalidRequest,
    /// The provider failed.
    ServerError,
    /// The provider is unavailable for now.
    ServiceUnavailable,
    /// The provider took too long.
    Timeout,
    /// A content filter blocked the response.
    ContentFiltered,
    /// The request exceeds the context window.
    ContextLengthExceeded,
    /// The model is unavailable for now.
    ModelNotAvailable,
    /// An error inside a stream.
    StreamMidError,
    /// The stream was cut off.
    UnexpectedEof,
    /// Anything else.
    Unknown,
}

impl AiErrorKind {
    /// The kinds that pass by themselves.
    pub open spec fn transient(self) -> bool {
        ||| self is RateLimitError
        ||| self is ServerError
        ||| self is ServiceUnavailable
        ||| self is Timeout
        ||| self is ModelNotAvailable
        ||| self is UnexpectedEof
        ||| self is StreamMidError
    }

    pub open spec fn name(self) -> Seq<char> {
        match self {
            AiErrorKind::AuthenticationError => "authentication_error"@,
            AiErrorKind::AuthorizationError => "authorization_error"@,
            AiErrorKind::NotFoundError => "not_found_error"@,
            AiErrorKind::RateLimitError => "rate_limit_error"@,
            AiErrorKind::QuotaExceeded => "quota_exceeded"@,
            AiErrorKind::InvalidRequest => "invalid_request"@,
            AiErrorKind::ServerError => "server_error"@,
            AiErrorKind::ServiceUnavailable => "service_unavailable"@,
            AiErrorKind::Timeout => "timeout"@,
            AiErrorKind::ContentFiltered => "content_filtered"@,
            AiErrorKind::ContextLengthExceeded => "context_length_exceeded"@,
            AiErrorKind::ModelNotAvailable => "model_not_available"@,
            AiErrorKind::StreamMidError => "stream_mid_error"@,
            AiErrorKind::UnexpectedEof => "unexpected_eof"@,
            AiErrorKind::Unknown => "unknown"@,
        }
    }

    /// The kind that a status code stands for.
    pub open spec fn of_status(status: u16) -> AiErrorKind {
        if status == 400 {
            AiErrorKind::InvalidRequest
        } else if status == 401 {
            AiErrorKind::AuthenticationError
        } else if status == 403 {
            AiErrorKind::AuthorizationError
        } else if status == 404 {
            AiErrorKind::NotFoundError
        } else if status == 408 || status == 504 {
            AiErrorKind::Timeout
        } else if status == 429 {
            AiErrorKind::RateLimitError
        } else if status == 500 {
            AiErrorKind::ServerError
        } else if status == 503 {
            AiErrorKind::ServiceUnavailable
        } else if status == 529 {
            AiErrorKind::QuotaExceeded
        } else {
            AiErrorKind::Unknown
        }
    }

    /// Whether the request may be tried again.
    pub fn is_retryable(&self) -> (r: bool)
        ensures
            r == self.transient(),
    {
        match self {
            AiErrorKind::RateLimitError => true,
            AiErrorKind::ServerError => true,
            AiErrorKind::ServiceUnavailable => true,
            AiErrorKind::Timeout => true,
            AiErrorKind::ModelNotAvailable => true,
            AiErrorKind::UnexpectedEof => true,
            AiErrorKind::StreamMidError => true,
            _ => false,
        }
    }

    /// The name of the kind.
    pub fn as_str(&self) -> (r: &'static str)
        ensures
            r@ == self.name(),
    {
        match self {
            AiErrorKind::AuthenticationError => "authentication_error",
            AiErrorKind::AuthorizationError => "authorization_error",
            AiErrorKind::NotFoundError => "not_found_error",
            AiErrorKind::RateLimitError => "rate_limit_error",
            AiErrorKind::QuotaExceeded => "quota_exceeded",
            AiErrorKind::InvalidRequest => "invalid_request",
            AiErrorKind::ServerError => "server_error",
            AiErrorKind::ServiceUnavailable => "service_unavailable",
            AiErrorKind::Timeout => "timeout",
            AiErrorKind::ContentFiltered => "content_filtered",
            AiErrorKind::ContextLengthExceeded => "context_length_exceeded",
            AiErrorKind::ModelNotAvailable => "model_not_available",
            AiErrorKind::StreamMidError => "stream_mid_error",
            AiErrorKind::UnexpectedEof => "unexpected_eof",
            AiErrorKind::Unknown => "unknown",
        }
    }

    /// The name of the kind as an owned text.
    pub fn to_string(&self) -> (r: String)
        ensures
            r@ == self.name(),
    {
        let name: &str = self.as_str();
        name.to_owned()
    }
}

/// An error of a provider.
#[derive(Debug)]
pub struct AiError {
    pub kind: AiErrorKind,
    pub message: String,
    pub status_code: Option<u16>,
    /// The provider's own error body.
    pub raw: Option<Json>,
}

pub struct AiErrorV {
    pub kind: AiErrorKind,
    pub message: Seq<char>,
    pub status_code: Option<u16>,
    pub raw: Option<JsonV>,
}

impl View for AiError {
    type V = AiErrorV;

    open spec fn view(&self) -> AiErrorV {
        AiErrorV {
            kind: self.kind,
            message: self.message@,
            status_code: self.status_code,
            raw: self.raw.views(),
        }
    }
}

impl AiError {
    /// An error of a kind.
    pub fn new(kind: AiErrorKind, message: &str) -> (r: Self)
        ensures
            r@ == (AiErrorV { kind, message: message@, status_code: None, raw: None }),
    {
        AiError { kind, message: message.to_owned(), status_code: None, raw: None }
    }

    /// The error with a status code.
    pub fn with_status(self, status: u16) -> (r: Self)
        ensures
            r@ == (AiErrorV { status_code: Some(status), ..self@ }),
    {
        AiError {
            kind: self.kind,
            message: self.message,
            status_code: Some(status),
            raw: self.raw,
        }
    }

    /// The error with the provider's body.
    pub fn with_raw(self, raw: Json) -> (r: Self)
        ensures
            r@ == (AiErrorV { raw: Some(raw@), ..self@ }),
    {
        AiError {
            kind: self.kind,
            message: self.message,
            status_code: self.status_code,
            raw: Some(raw),
        }
    }

    /// Whether the request may be tried again.
    pub fn is_retryable(&self) -> (r: bool)
        ensures
            r == self@.kind.transient(),
    {
        self.kind.is_retryable()
    }

    /// The error of a status code.
    pub fn from_status(status: u16, message: &str) -> (r: Self)
        ensures
            r@ == (AiErrorV {
                kind: AiErrorKind::of_status(status),
                message: message@,
                status_code: Some(status),
                raw: None,
            }),
    {
        let kind = if status == 400 {
            AiErrorKind::InvalidRequest
        } else if status == 401 {
            AiErrorKind::AuthenticationError
        } else if status == 403 {
            AiErrorKind::AuthorizationError
        } else if status == 404 {
            AiErrorKind::NotFoundError
        } else if status == 408 || status == 504 {
            AiErrorKind::Timeout
        } else if status == 429 {
            AiErrorKind::RateLimitError
        } else if status == 500 {
            AiErrorKind::ServerError
        } else if status == 503 {
            AiErrorKind::ServiceUnavailable
        } else if status == 529 {
            AiErrorKind::QuotaExceeded
        } else {
            AiErrorKind::Unknown
        };
        AiError::new(kind, message).with_status(status)
    }

    /// The error in words.
    pub fn to_string(&self) -> (r: String)
        ensures
            r@ == "["@ + self@.kind.name() + "] "@ + self@.message,
    {
        let mut out = crate::text::cat3("[", self.kind.as_str(), "] ");
        out.append(self.message.as_str());
        out
    }
}

/// A status code is worth another try exactly when it says that the trouble passes.
pub proof fn lemma_retry_by_status(status: u16)
    ensures
        AiErrorKind::of_status(status).transient() == (status == 408 || status == 504 || status
            == 429 || status == 500 || status == 503),
{
}

} // verus!
