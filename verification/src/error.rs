//! What can go wrong with a call to the provider.

use vstd::prelude::*;

verus! {

/// Why a call to the provider failed. Each case carries a message for the operator.
#[derive(Debug)]
pub enum ProviderError {
    /// The request did not reach the provider, or its answer did not come back.
    Network { message: String },
    /// The request is not one that the provider takes.
    BadRequest { message: String },
    /// The answer is not one that the adapter can read.
    Malformed { message: String },
    /// The provider refuses more requests for now.
    RateLimited { message: String },
    /// The API key was not accepted.
    AuthFailed { message: String },
    /// The conversation is longer than the model takes.
    ContextLimit { message: String },
    /// The provider failed.
    Server { message: String },
}

/// The cases of [`ProviderError`].
pub enum ErrorKind {
    Network,
    BadRequest,
    Malformed,
    RateLimited,
    AuthFailed,
    ContextLimit,
    Server,
}

/// The model of a [`ProviderError`].
#[verifier::ext_equal]
pub struct ErrorView {
    pub kind: ErrorKind,
    pub message: Seq<char>,
}

impl View for ProviderError {
    type V = ErrorView;

    open spec fn view(&self) -> ErrorView {
        match self {
            ProviderError::Network { message } => ErrorView {
                kind: ErrorKind::Network,
                message: message@,
            },
            ProviderError::BadRequest { message } => ErrorView {
                kind: ErrorKind::BadRequest,
                message: message@,
            },
            ProviderError::Malformed { message } => ErrorView {
                kind: ErrorKind::Malformed,
                message: message@,
            },
            ProviderError::RateLimited { message } => ErrorView {
                kind: ErrorKind::RateLimited,
                message: message@,
            },
            ProviderError::AuthFailed { message } => ErrorView {
                kind: ErrorKind::AuthFailed,
                message: message@,
            },
            ProviderError::ContextLimit { message } => ErrorView {
                kind: ErrorKind::ContextLimit,
                message: message@,
            },
            ProviderError::Server { message } => ErrorView {
                kind: ErrorKind::Server,
                message: message@,
            },
        }
    }
}

/// The failures that may pass when the call is made again: a rate limit, a failure of the provider
/// and a failure on the way to it.
pub open spec fn retryable(kind: ErrorKind) -> bool {
    kind is RateLimited || kind is Server || kind is Network
}

impl ProviderError {
    /// Whether it makes sense to make the call again.
    pub fn is_retryable(&self) -> (again: bool)
        ensures
            again == retryable(self@.kind),
    {
        match self {
            ProviderError::RateLimited { .. } => true,
            ProviderError::Server { .. } => true,
            ProviderError::Network { .. } => true,
            _ => false,
        }
    }
}

} // verus!
