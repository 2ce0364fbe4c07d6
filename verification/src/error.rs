//! The kinds of failure that the client tells its user about.

use crate::retry::CallError;
use crate::text::{chars_of, join2, join3, contains, contains_str, decimal_string, decimal_text};
use vstd::prelude::*;

verus! {

/// A failure of a call to the chat service, by kind.
#[derive(Debug)]
pub enum ApiError {
    /// The credentials were refused.
    Auth(String),
    /// The service asked the client to slow down.
    RateLimited { retry_after: u64 },
    /// The transport failed.
    Network(String),
    /// The service refused the input.
    Validation(String),
    /// The service failed in another way.
    Api(String),
    /// The call took too long.
    Timeout(String),
}

/// The outcome of a call to the chat service.
pub type ApiResult<T> = Result<T, ApiError>;

pub enum ApiErrorView {
    Auth(Seq<char>),
    RateLimited { retry_after: u64 },
    Network(Seq<char>),
    Validation(Seq<char>),
    Api(Seq<char>),
    Timeout(Seq<char>),
}

impl View for ApiError {
    type V = ApiErrorView;

    open spec fn view(&self) -> ApiErrorView {
        match self {
            ApiError::Auth(s) => ApiErrorView::Auth(s@),
            ApiError::RateLimited { retry_after } => ApiErrorView::RateLimited {
                retry_after: *retry_after,
            },
            ApiError::Network(s) => ApiErrorView::Network(s@),
            ApiError::Validation(s) => ApiErrorView::Validation(s@),
            ApiError::Api(s) => ApiErrorView::Api(s@),
            ApiError::Timeout(s) => ApiErrorView::Timeout(s@),
        }
    }
}

/// The kind of a failure, read from what the transport layer reported
/// and, where it reported nothing, from the text of the message. The
/// first marker that the text holds decides.
pub open spec fn classified(message: Seq<char>, from_transport: bool) -> ApiErrorView {
    if from_transport {
        ApiErrorView::Network(message)
    } else if contains(message, "429"@) || contains(message, "rate_limit"@) {
        ApiErrorView::RateLimited { retry_after: 60 }
    } else if contains(message, "not_authed"@) || contains(message, "invalid_auth"@) || contains(
        message,
        "token"@,
    ) {
        ApiErrorView::Auth(message)
    } else if contains(message, "timeout"@) || contains(message, "timed out"@) {
        ApiErrorView::Timeout(message)
    } else if contains(message, "validation"@) || contains(message, "invalid"@) {
        ApiErrorView::Validation(message)
    } else {
        ApiErrorView::Api(message)
    }
}

impl ApiErrorView {
    /// What the user is told to do about the failure.
    pub open spec fn advice(self) -> Seq<char> {
        match self {
            ApiErrorView::Auth(_) => "Authentication failed. Please re-authenticate."@,
            ApiErrorView::RateLimited { .. } => "Rate limited. Please slow down."@,
            ApiErrorView::Network(_) => "Network error. Check your connection."@,
            ApiErrorView::Validation(_) => "Invalid input. Please check your message."@,
            ApiErrorView::Api(_) => "Server error. Please try again later."@,
            ApiErrorView::Timeout(_) => "Request timed out. Please try again."@,
        }
    }

    /// How the failure reads in full.
    pub open spec fn description(self) -> Seq<char> {
        match self {
            ApiErrorView::Auth(s) => "Authentication failed: "@ + s,
            ApiErrorView::RateLimited { retry_after } => "Rate limited. Retry after "@
                + decimal_text(retry_after as nat) + "s"@,
            ApiErrorView::Network(s) => "Network error: "@ + s,
            ApiErrorView::Validation(s) => "Validation error: "@ + s,
            ApiErrorView::Api(s) => "API error: "@ + s,
            ApiErrorView::Timeout(s) => "Timeout: "@ + s,
        }
    }

    /// Whether another attempt may succeed.
    pub open spec fn retryable(self) -> bool {
        self is RateLimited || self is Network || self is Timeout
    }
}

impl ApiError {
    /// What the user is told to do about the failure.
    pub fn user_message(&self) -> (r: &'static str)
        ensures
            r@ == self@.advice(),
    {
        match self {
            ApiError::Auth(_) => "Authentication failed. Please re-authenticate.",
            ApiError::RateLimited { .. } => "Rate limited. Please slow down.",
            ApiError::Network(_) => "Network error. Check your connection.",
            ApiError::Validation(_) => "Invalid input. Please check your message.",
            ApiError::Api(_) => "Server error. Please try again later.",
            ApiError::Timeout(_) => "Request timed out. Please try again.",
        }
    }

    /// Whether another attempt may succeed: after a rate limit, a
    /// transport failure or a timeout.
    pub fn is_retryable(&self) -> (r: bool)
        ensures
            r == self@.retryable(),
    {
        match self {
            ApiError::RateLimited { .. } => true,
            ApiError::Network(_) => true,
            ApiError::Timeout(_) => true,
            _ => false,
        }
    }

    /// How the failure reads in full.
    pub fn describe(&self) -> (r: String)
        ensures
            r@ == self@.description(),
    {
        match self {
            ApiError::Auth(s) => join2("Authentication failed: ", s.as_str()),
            ApiError::RateLimited { retry_after } => {
                let secs = decimal_string(*retry_after);
                join3("Rate limited. Retry after ", secs.as_str(), "s")
            },
            ApiError::Network(s) => join2("Network error: ", s.as_str()),
            ApiError::Validation(s) => join2("Validation error: ", s.as_str()),
            ApiError::Api(s) => join2("API error: ", s.as_str()),
            ApiError::Timeout(s) => join2("Timeout: ", s.as_str()),
        }
    }
}

/// Sorts a failed call into its kind.
pub fn map_anyhow_error(error: &CallError) -> (r: ApiError)
    ensures
        r@ == classified(error.message@, error.transport is Some),
{
    let message = error.message.clone();
    if error.transport.is_some() {
        return ApiError::Network(message);
    }
    let chars = chars_of(message.as_str());
    if contains_str(&chars, "429") || contains_str(&chars, "rate_limit") {
        ApiError::RateLimited { retry_after: 60 }
    } else if contains_str(&chars, "not_authed") || contains_str(&chars, "invalid_auth")
        || contains_str(&chars, "token") {
        ApiError::Auth(message)
    } else if contains_str(&chars, "timeout") || contains_str(&chars, "timed out") {
        ApiError::Timeout(message)
    } else if contains_str(&chars, "validation") || contains_str(&chars, "invalid") {
        ApiError::Validation(message)
    } else {
        ApiError::Api(message)
    }
}

} // verus!
