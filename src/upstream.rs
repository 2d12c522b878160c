use vstd::prelude::*;
use vstd::string::*;
use crate::errors::{ErrorMessage, ErrorPayload, Errors};

verus! {

/// Why a call to the controller did not yield data.
#[derive(Debug)]
pub enum UpstreamFailure {
    /// The call could not be sent or answered.
    Transport,
    /// The controller answered with a client or server error status.
    Status { code: u16, reason: String },
    /// The body did not decode against the expected schema.
    Decode,
}

/// A client (4xx) or server (5xx) error status.
pub open spec fn is_error_status(code: u16) -> bool {
    400 <= code <= 599
}

/// Checks the status that the controller answered with, if it answered at all.
pub fn check_status(status: Option<u16>, reason: &str) -> (r: Result<(), UpstreamFailure>)
    ensures
        match status {
            None => r matches Err(f) && f is Transport,
            Some(code) => if is_error_status(code) {
                r matches Err(f) && f matches UpstreamFailure::Status { code: c, reason: t } && c
                    == code && t@ == reason@
            } else {
                r is Ok
            },
        },
{
    match status {
        None => Err(UpstreamFailure::Transport),
        Some(code) => {
            if 400 <= code && code <= 599 {
                Err(UpstreamFailure::Status { code, reason: String::from_str(reason) })
            } else {
                Ok(())
            }
        },
    }
}

/// Takes the decoded body, or `None` where it did not decode.
pub fn check_body<T>(decoded: Option<T>) -> (r: Result<T, UpstreamFailure>)
    ensures
        match decoded {
            Some(v) => r == Ok::<T, UpstreamFailure>(v),
            None => r matches Err(f) && f is Decode,
        },
{
    match decoded {
        Some(v) => Ok(v),
        None => Err(UpstreamFailure::Decode),
    }
}

impl UpstreamFailure {
    /// Every failure upstream reaches the caller as an internal error.
    pub fn to_error(&self) -> (r: Errors)
        ensures
            r is InternalServerError,
    {
        Errors::InternalServerError
    }

    /// The detail given to the caller: the status text for an error status, the
    /// fixed internal-error message otherwise. A decode failure is never described.
    pub fn detail(&self) -> (r: String)
        ensures
            r@ == match self {
                UpstreamFailure::Status { reason, .. } => reason@,
                _ => "Internal Server Error"@,
            },
    {
        match self {
            UpstreamFailure::Status { reason, .. } => reason.clone(),
            _ => String::from_str("Internal Server Error"),
        }
    }

    /// The answer to the caller: status 500 with the detail as its message.
    pub fn error_response(&self) -> (r: (u16, ErrorMessage<ErrorPayload>))
        ensures
            r.0 == 500,
            r.1.error_message matches ErrorPayload::Text(t) && t@ == match self {
                UpstreamFailure::Status { reason, .. } => reason@,
                _ => "Internal Server Error"@,
            },
    {
        (500, ErrorMessage { error_message: ErrorPayload::Text(self.detail()) })
    }
}

/// Lists the clients connected to the controller, from what the listing call gave:
/// its status (`None` where the call failed), the status text, and the body
/// decoded, or `None` where it did not decode. A transport failure, an error
/// status (with its text kept) or a body that does not decode is a failure;
/// otherwise the decoded list comes back as it was decoded.
pub fn list_clients<T>(status: Option<u16>, status_text: &str, decoded: Option<T>) -> (r: Result<
    T,
    UpstreamFailure,
>)
    ensures
        match (status, decoded) {
            (None, _) => r matches Err(f) && f is Transport,
            (Some(code), d) => if is_error_status(code) {
                r matches Err(f) && f matches UpstreamFailure::Status { code: c, reason: t } && c
                    == code && t@ == status_text@
            } else {
                match d {
                    Some(v) => r == Ok::<T, UpstreamFailure>(v),
                    None => r matches Err(f) && f is Decode,
                }
            },
        },
{
    match check_status(status, status_text) {
        Err(f) => Err(f),
        Ok(()) => check_body(decoded),
    }
}

/// The text logged for an optional field: its value, or `None` where absent.
pub fn display_or_none(field: &Option<String>) -> (r: String)
    ensures
        r@ == match field {
            Some(s) => s@,
            None => "None"@,
        },
{
    match field {
        Some(s) => s.clone(),
        None => String::from_str("None"),
    }
}

} // verus!
