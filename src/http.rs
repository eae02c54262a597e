//! Classifying the platform's HTTP replies.
use vstd::prelude::*;
use vstd::string::*;

verus! {

/// A reply that is not a success, or a transfer that failed.
#[derive(Debug)]
pub struct ErrorResponse {
    pub message: String,
    pub status: u16,
}

impl ErrorResponse {
    pub fn new(message: String, status: u16) -> (r: ErrorResponse)
        ensures
            r == (ErrorResponse { message, status }),
    {
        ErrorResponse { message, status }
    }

    /// A status 500 error, with the given message or a generic one.
    pub fn internal_server_error(message: Option<String>) -> (r: ErrorResponse)
        ensures
            r.status == 500,
            r.message@ == match message {
                Some(m) => m@,
                None => "Internal server error"@,
            },
    {
        let message = match message {
            Some(m) => m,
            None => String::from_str("Internal server error"),
        };
        ErrorResponse { status: 500, message }
    }
}

/// HTTP success statuses: 200 to 299.
pub open spec fn is_success(status: u16) -> bool {
    200 <= status <= 299
}

/// Classifies a reply: its body on success, else an error with its status
/// and body.
pub fn handle(status: u16, body: String) -> (r: Result<String, ErrorResponse>)
    ensures
        is_success(status) ==> r == Ok::<String, ErrorResponse>(body),
        !is_success(status) ==> r == Err::<String, ErrorResponse>(ErrorResponse { message: body, status }),
{
    if 200 <= status && status <= 299 {
        Ok(body)
    } else {
        Err(ErrorResponse::new(body, status))
    }
}

/// Classifies a transfer that produced no reply; an empty description
/// gives the generic message.
pub fn handle_transfer_error(description: String) -> (r: ErrorResponse)
    ensures
        r.status == 500,
        r.message@ == if description@.len() == 0 { "Internal server error"@ } else { description@ },
{
    if description.as_str().unicode_len() == 0 {
        ErrorResponse::internal_server_error(None)
    } else {
        ErrorResponse::internal_server_error(Some(description))
    }
}

} // verus!
