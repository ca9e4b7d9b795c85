use vstd::prelude::*;
use vstd::string::StringExecFns;

verus! {

/// The single error value of the library: an HTTP-style status class and a
/// message for the outward-facing boundary.
#[derive(Debug)]
pub struct CustomError {
    pub error_status_code: u16,
    pub error_message: String,
}

/// The status that a response built from `code` carries: the code itself
/// where it is a valid HTTP status (three digits), else 500.
pub open spec fn response_status(code: u16) -> u16 {
    if 100 <= code <= 999 {
        code
    } else {
        500
    }
}

/// Relies on `http::StatusCode::from_u16`, which accepts exactly the codes
/// from 100 to 999.
#[verifier::external_body]
fn is_valid_status(code: u16) -> (r: bool)
    ensures
        r == (100 <= code <= 999),
{
    http::StatusCode::from_u16(code).is_ok()
}

impl Clone for CustomError {
    fn clone(&self) -> (r: Self)
        ensures
            r == *self,
    {
        CustomError {
            error_status_code: self.error_status_code,
            error_message: self.error_message.clone(),
        }
    }
}

impl CustomError {
    pub fn new(error_status_code: u16, error_message: String) -> (r: CustomError)
        ensures
            r.error_status_code == error_status_code,
            r.error_message@ == error_message@,
    {
        CustomError { error_status_code, error_message }
    }

    /// A request that the library refuses: status 400, and the message
    /// after the prefix `Bad request: `.
    pub fn bad_request(message: &str) -> (r: CustomError)
        ensures
            r.error_status_code == 400,
            r.error_message@ == "Bad request: "@ + message@,
    {
        let mut text = String::from_str("Bad request: ");
        text.append(message);
        CustomError { error_status_code: 400, error_message: text }
    }

    /// A failure inside the server: status 501, with the message as given.
    pub fn internal(message: String) -> (r: CustomError)
        ensures
            r.error_status_code == 501,
            r.error_message@ == message@,
    {
        CustomError { error_status_code: 501, error_message: message }
    }

    /// The status and the message that a response for this error shows: the
    /// message only below 500, else a generic text.
    pub fn response_parts(&self) -> (r: (u16, String))
        ensures
            r.0 == response_status(self.error_status_code),
            r.0 < 500 ==> r.1@ == self.error_message@,
            r.0 >= 500 ==> r.1@ == "Internal server error"@,
    {
        let status = if is_valid_status(self.error_status_code) {
            self.error_status_code
        } else {
            500
        };
        if status < 500 {
            (status, self.error_message.clone())
        } else {
            (status, String::from_str("Internal server error"))
        }
    }
}

} // verus!
