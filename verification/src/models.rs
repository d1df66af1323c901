//! Transport-level message and query shapes.

use vstd::prelude::*;
use crate::auth::AccessError;
use crate::idgen::{encode_id, spec_decimal};

verus! {

/// Declares serde_json's value type so a response can carry an arbitrary
/// JSON payload through the library; the library never reads into one.
#[verifier::external_type_specification]
#[verifier::external_body]
pub struct ExValue(serde_json::Value);

/// Query for any data with an ID.
pub struct IDQuery {
    pub id: String,
}

/// Standard message response.
pub struct MessageResponse {
    /// Transport status code.
    pub code: u16,
    /// Human-readable message.
    pub message: String,
    /// Optional data, any JSON value.
    pub data: Option<serde_json::Value>,
}

impl MessageResponse {
    /// Create new message response.
    pub fn new(code: u16, message: &str) -> (r: MessageResponse)
        ensures
            r.code == code,
            r.message@ == message@,
            r.data is None,
    {
        MessageResponse { code, message: message.to_owned(), data: None }
    }

    /// Create new message response carrying a JSON payload.
    pub fn new_with_data(code: u16, message: &str, data: serde_json::Value) -> (r:
        MessageResponse)
        ensures
            r.code == code,
            r.message@ == message@,
            r.data == Some(data),
    {
        MessageResponse { code, message: message.to_owned(), data: Some(data) }
    }

    /// New internal server error response.
    pub fn internal_server_error() -> (r: MessageResponse)
        ensures
            r.code == 500,
            r.message@ == "There was a problem processing your request"@,
            r.data is None,
    {
        MessageResponse::new(500, "There was a problem processing your request")
    }

    /// Create new unauthorized error response.
    pub fn unauthorized_error() -> (r: MessageResponse)
        ensures
            r.code == 401,
            r.message@ == "You are not authorized to make this request"@,
            r.data is None,
    {
        MessageResponse::new(401, "You are not authorized to make this request")
    }

    /// Create new bad request error response.
    pub fn bad_request() -> (r: MessageResponse)
        ensures
            r.code == 400,
            r.message@ == "You sent an invalid request"@,
            r.data is None,
    {
        MessageResponse::new(400, "You sent an invalid request")
    }

    /// Renders the response for a log line: the status code and the message.
    pub fn display_string(&self) -> (s: String)
        ensures
            s@ == "code: "@ + spec_decimal(self.code as int) + ", message: "@ + self.message@,
    {
        let mut s = "code: ".to_owned();
        s.append(encode_id(self.code as u64).as_str());
        s.append(", message: ");
        s.append(self.message.as_str());
        proof {
            assert(s@ =~= "code: "@ + spec_decimal(self.code as int) + ", message: "@
                + self.message@);
        }
        s
    }

    /// The stable response for an access failure: its status code is the
    /// error's, and no storage detail leaks into the message.
    pub fn from_access_error(e: AccessError) -> (r: MessageResponse)
        ensures
            e == AccessError::Validation ==> r.code == 400 && r.message@
                == "You sent an invalid request"@,
            e == AccessError::Authentication ==> r.code == 401 && r.message@
                == "You are not authorized to make this request"@,
            e == AccessError::Authorization ==> r.code == 403 && r.message@
                == "You lack permission to make this request"@,
            e == AccessError::Store ==> r.code == 500 && r.message@
                == "There was a problem processing your request"@,
            r.data is None,
    {
        match e {
            AccessError::Validation => MessageResponse::bad_request(),
            AccessError::Authentication => MessageResponse::unauthorized_error(),
            AccessError::Authorization => MessageResponse::new(
                403,
                "You lack permission to make this request",
            ),
            AccessError::Store => MessageResponse::internal_server_error(),
        }
    }
}

} // verus!
