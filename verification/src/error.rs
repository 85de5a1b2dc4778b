//! The errors that the gateway reports.

use vstd::prelude::*;

verus! {

/// Why a request, a message or a configuration was turned down.
#[derive(Debug)]
pub enum FrankClawError {
    /// The configuration could not be read or written.
    ConfigIo { msg: String },
    /// The configuration breaks one of its rules.
    ConfigValidation { msg: String },
    /// The request is malformed.
    InvalidRequest { msg: String },
    /// No credential was given.
    AuthRequired,
    /// The credential is wrong.
    AuthFailed,
    /// The method is not open to the caller.
    Forbidden { method: String },
    /// The message is larger than the channel takes.
    RequestTooLarge { max_bytes: usize },
    /// Too many requests; try again later.
    RateLimited { retry_after_secs: u64 },
    /// A messaging platform failed.
    Channel { channel: String, msg: String },
    /// A model provider failed.
    ModelProvider { msg: String },
    /// The session store failed.
    SessionStorage { msg: String },
    /// The turn was cancelled by the user.
    TurnCancelled,
    /// Anything else.
    Internal { msg: String },
}

/// What an error says.
pub enum ErrorView {
    ConfigIo(Seq<char>),
    ConfigValidation(Seq<char>),
    InvalidRequest(Seq<char>),
    AuthRequired,
    AuthFailed,
    Forbidden(Seq<char>),
    RequestTooLarge(nat),
    RateLimited(nat),
    Channel(Seq<char>, Seq<char>),
    ModelProvider(Seq<char>),
    SessionStorage(Seq<char>),
    TurnCancelled,
    Internal(Seq<char>),
}

impl View for FrankClawError {
    type V = ErrorView;

    open spec fn view(&self) -> ErrorView {
        match self {
            FrankClawError::ConfigIo { msg } => ErrorView::ConfigIo(msg@),
            FrankClawError::ConfigValidation { msg } => ErrorView::ConfigValidation(msg@),
            FrankClawError::InvalidRequest { msg } => ErrorView::InvalidRequest(msg@),
            FrankClawError::AuthRequired => ErrorView::AuthRequired,
            FrankClawError::AuthFailed => ErrorView::AuthFailed,
            FrankClawError::Forbidden { method } => ErrorView::Forbidden(method@),
            FrankClawError::RequestTooLarge { max_bytes } => ErrorView::RequestTooLarge(
                *max_bytes as nat,
            ),
            FrankClawError::RateLimited { retry_after_secs } => ErrorView::RateLimited(
                *retry_after_secs as nat,
            ),
            FrankClawError::Channel { channel, msg } => ErrorView::Channel(channel@, msg@),
            FrankClawError::ModelProvider { msg } => ErrorView::ModelProvider(msg@),
            FrankClawError::SessionStorage { msg } => ErrorView::SessionStorage(msg@),
            FrankClawError::TurnCancelled => ErrorView::TurnCancelled,
            FrankClawError::Internal { msg } => ErrorView::Internal(msg@),
        }
    }
}

/// A broken configuration rule.
pub fn config_invalid(msg: &str) -> (r: FrankClawError)
    ensures
        r@ == ErrorView::ConfigValidation(msg@),
{
    FrankClawError::ConfigValidation { msg: msg.to_owned() }
}

/// A malformed request.
pub fn invalid_request(msg: &str) -> (r: FrankClawError)
    ensures
        r@ == ErrorView::InvalidRequest(msg@),
{
    FrankClawError::InvalidRequest { msg: msg.to_owned() }
}

/// True when the outcome is the success or the failure that `problem` asks for.
pub open spec fn outcome_is<T>(r: Result<T, FrankClawError>, problem: Option<ErrorView>) -> bool {
    match problem {
        None => r is Ok,
        Some(e) => r is Err && r->Err_0@ == e,
    }
}

} // verus!
