//! Failure taxonomy of the client and classification of HTTP statuses.
use vstd::prelude::*;
use vstd::string::StringExecFns;

verus! {

/// Classified failures surfaced to callers. Network and parse failures are
/// never swallowed; rate limiting and forbidden responses are distinguished
/// so that callers can back off or re-authenticate.
#[derive(Debug, Clone, PartialEq, Eq)]
pub enum SteamError {
    /// Transport failure before any response was read.
    NetworkError,
    /// The response body does not match the expected schema; carries the raw
    /// body for diagnostics.
    ProtocolError { body: String },
    /// Credentials or one-time code rejected, or a second factor was
    /// required but not satisfiable.
    AuthenticationError,
    /// HTTP 429.
    RateLimitedError,
    /// HTTP 403, typically login or cookie expiry.
    ForbiddenError,
    /// Any other non-success status, with the raw status and body.
    UnexpectedStatusError { status: u16, body: String },
    /// A trade URL missing a required query parameter.
    MalformedUrlError,
    /// A one-time-code secret that cannot be decoded.
    InvalidSecretError,
    /// An asset reference already present on the same side of an offer.
    DuplicateAssetError,
}

/// Classify a non-success HTTP status into an error: 429 is rate limiting,
/// 403 is forbidden, anything else is surfaced with its status and body.
pub fn status_error(status: u16, body: String) -> (r: SteamError)
    requires
        status != 200,
    ensures
        status == 429 ==> r == SteamError::RateLimitedError,
        status == 403 ==> r == SteamError::ForbiddenError,
        status != 429 && status != 403 ==> r == (SteamError::UnexpectedStatusError { status, body }),
{
    if status == 429 {
        SteamError::RateLimitedError
    } else if status == 403 {
        SteamError::ForbiddenError
    } else {
        SteamError::UnexpectedStatusError { status, body }
    }
}

/// Legacy error shape carried on the wire by some endpoints: a failure flag
/// and a short message.
#[derive(Debug, Clone, PartialEq, Eq)]
pub struct UnauthorizedResponse {
    pub success: bool,
    pub error: String,
}

impl UnauthorizedResponse {
    /// Render a classified error in the legacy shape: `success` is false and
    /// the message names the failure kind.
    pub fn from_error(e: &SteamError) -> (r: UnauthorizedResponse)
        ensures
            !r.success,
            e is RateLimitedError ==> r.error@ == "Rate Limited"@,
            e is ForbiddenError ==> r.error@ == "Forbidden Access"@,
            e is NetworkError ==> r.error@ == "Network Error"@,
            e is AuthenticationError ==> r.error@ == "Authentication Failed"@,
            e is MalformedUrlError ==> r.error@ == "Malformed Trade URL"@,
            e is InvalidSecretError ==> r.error@ == "Invalid Secret"@,
            e is DuplicateAssetError ==> r.error@ == "Duplicate Asset"@,
            e is ProtocolError ==> r.error@ == e->ProtocolError_body@,
            e matches SteamError::UnexpectedStatusError { status, body } ==> r.error@ == body@,
    {
        let error: String = match e {
            SteamError::NetworkError => String::from_str("Network Error"),
            SteamError::ProtocolError { body } => body.clone(),
            SteamError::AuthenticationError => String::from_str("Authentication Failed"),
            SteamError::RateLimitedError => String::from_str("Rate Limited"),
            SteamError::ForbiddenError => String::from_str("Forbidden Access"),
            SteamError::UnexpectedStatusError { status: _, body } => body.clone(),
            SteamError::MalformedUrlError => String::from_str("Malformed Trade URL"),
            SteamError::InvalidSecretError => String::from_str("Invalid Secret"),
            SteamError::DuplicateAssetError => String::from_str("Duplicate Asset"),
        };
        UnauthorizedResponse { success: false, error }
    }
}

} // verus!
