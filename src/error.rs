use vstd::prelude::*;
use vstd::string::*;

verus! {

/// Every way in which starting, serving or finishing a flow can fail.
#[derive(Clone, Debug, PartialEq, Eq)]
pub enum AuthError {
    /// A preset or client configuration is missing or malformed.
    ConfigError(String),
    /// The redirect URL resolved to no socket address.
    AddressResolutionError,
    /// The listening socket could not be bound.
    BindError(String),
    /// The `state` of a callback is not the session's CSRF token.
    CsrfMismatch,
    /// The token endpoint could not be reached or answered with an error.
    TokenEndpointError { status: Option<u16>, body: String },
    /// The token endpoint's answer could not be decoded.
    TokenDecodeError(String),
    /// The session's secrets were already spent on an exchange.
    AlreadyExchanged,
    /// The session failed or was aborted and takes no further exchange.
    SessionClosed,
    /// No session of that name is live.
    NotFound,
    /// A session of that name is already live.
    DuplicateSession,
    /// The callback carries no `code` parameter.
    MissingCode,
    /// The callback carries no `state` parameter.
    MissingState,
}

/// The text that reports `e`.
pub open spec fn error_message(e: AuthError) -> Seq<char> {
    match e {
        AuthError::ConfigError(m) => "invalid configuration: "@ + m@,
        AuthError::AddressResolutionError => "redirect URL resolves to no address"@,
        AuthError::BindError(m) => "cannot bind redirect listener: "@ + m@,
        AuthError::CsrfMismatch => "CSRF token mismatch"@,
        AuthError::TokenEndpointError { status: _, body } => "token endpoint error: "@ + body@,
        AuthError::TokenDecodeError(m) => "cannot decode token response: "@ + m@,
        AuthError::AlreadyExchanged => "authorization code already exchanged"@,
        AuthError::SessionClosed => "authorization session is closed"@,
        AuthError::NotFound => "no such session"@,
        AuthError::DuplicateSession => "session already running"@,
        AuthError::MissingCode => "missing query parameter: code"@,
        AuthError::MissingState => "missing query parameter: state"@,
    }
}

/// The HTTP status with which the redirect listener reports `e`.
pub open spec fn error_status(e: AuthError) -> u16 {
    match e {
        AuthError::MissingCode | AuthError::MissingState => 400,
        _ => 500,
    }
}

fn prefixed(prefix: &str, detail: &String) -> (r: String)
    ensures
        r@ == prefix@ + detail@,
{
    let mut s = String::from_str(prefix);
    s.append(detail.as_str());
    s
}

impl AuthError {
    /// The text that reports this error.
    pub fn message(&self) -> (r: String)
        ensures
            r@ == error_message(*self),
    {
        match self {
            AuthError::ConfigError(m) => prefixed("invalid configuration: ", m),
            AuthError::AddressResolutionError => String::from_str(
                "redirect URL resolves to no address",
            ),
            AuthError::BindError(m) => prefixed("cannot bind redirect listener: ", m),
            AuthError::CsrfMismatch => String::from_str("CSRF token mismatch"),
            AuthError::TokenEndpointError { status: _, body } => prefixed(
                "token endpoint error: ",
                body,
            ),
            AuthError::TokenDecodeError(m) => prefixed("cannot decode token response: ", m),
            AuthError::AlreadyExchanged => String::from_str("authorization code already exchanged"),
            AuthError::SessionClosed => String::from_str("authorization session is closed"),
            AuthError::NotFound => String::from_str("no such session"),
            AuthError::DuplicateSession => String::from_str("session already running"),
            AuthError::MissingCode => String::from_str("missing query parameter: code"),
            AuthError::MissingState => String::from_str("missing query parameter: state"),
        }
    }

    /// The HTTP status with which the redirect listener reports this error:
    /// 400 for a malformed callback, 500 otherwise.
    pub fn status(&self) -> (r: u16)
        ensures
            r == error_status(*self),
    {
        match self {
            AuthError::MissingCode | AuthError::MissingState => 400,
            _ => 500,
        }
    }
}

} // verus!
