//! The challenge-verification collaborator's payloads and the decision on
//! its answer. The HTTP exchange itself happens outside; this module builds
//! the outbound payload and classifies the inbound one.

use vstd::prelude::*;

use crate::error::{Error, ResponseError};
use crate::status::HttpStatus;

verus! {

/// The outbound verification payload: the shared secret and the client's
/// challenge response. The secret comes from startup configuration.
#[derive(Clone)]
pub struct Request {
    pub secret: String,
    pub response: String,
}

impl Request {
    pub fn new(secret: String, response: String) -> (r: Request)
        ensures
            r.secret@ == secret@,
            r.response@ == response@,
    {
        Request { secret, response }
    }
}

/// The error codes the challenge verifier reports. Misconfiguration on this
/// side (a bad or missing secret) is server-class; a bad or stale client
/// response is unauthorized.
#[derive(Clone, Copy, PartialEq, Eq, Structural, Debug, Hash)]
pub enum ErrorCode {
    MissingInputSecret,
    InvalidInputSecret,
    MissingInputResponse,
    InvalidInputResponse,
    BadRequest,
    TimeoutOrDuplicate,
}

impl ResponseError for ErrorCode {
    open spec fn spec_status(&self) -> HttpStatus {
        match *self {
            ErrorCode::MissingInputSecret => HttpStatus { code: 500 },
            ErrorCode::InvalidInputSecret => HttpStatus { code: 500 },
            ErrorCode::MissingInputResponse => HttpStatus { code: 500 },
            ErrorCode::InvalidInputResponse => HttpStatus { code: 401 },
            ErrorCode::BadRequest => HttpStatus { code: 401 },
            ErrorCode::TimeoutOrDuplicate => HttpStatus { code: 401 },
        }
    }

    open spec fn spec_message(&self) -> Seq<char> {
        match *self {
            ErrorCode::MissingInputSecret => "missing-input-secret"@,
            ErrorCode::InvalidInputSecret => "invalid-input-secret"@,
            ErrorCode::MissingInputResponse => "missing-input-response"@,
            ErrorCode::InvalidInputResponse => "invalid-input-response"@,
            ErrorCode::BadRequest => "bad-request"@,
            ErrorCode::TimeoutOrDuplicate => "timeout-or-duplicate"@,
        }
    }

    fn status(&self) -> (s: HttpStatus) {
        match self {
            ErrorCode::MissingInputSecret => HttpStatus::internal_server_error(),
            ErrorCode::InvalidInputSecret => HttpStatus::internal_server_error(),
            ErrorCode::MissingInputResponse => HttpStatus::internal_server_error(),
            ErrorCode::InvalidInputResponse => HttpStatus::unauthorized(),
            ErrorCode::BadRequest => HttpStatus::unauthorized(),
            ErrorCode::TimeoutOrDuplicate => HttpStatus::unauthorized(),
        }
    }

    fn message(&self) -> (m: String) {
        match self {
            ErrorCode::MissingInputSecret => String::from_str("missing-input-secret"),
            ErrorCode::InvalidInputSecret => String::from_str("invalid-input-secret"),
            ErrorCode::MissingInputResponse => String::from_str("missing-input-response"),
            ErrorCode::InvalidInputResponse => String::from_str("invalid-input-response"),
            ErrorCode::BadRequest => String::from_str("bad-request"),
            ErrorCode::TimeoutOrDuplicate => String::from_str("timeout-or-duplicate"),
        }
    }
}

/// The verifier's answer, as the transport layer parsed it.
#[derive(Clone, Debug)]
pub struct Response {
    pub success: bool,
    pub challenge_ts: String,
    pub hostname: String,
    pub error_codes: Vec<ErrorCode>,
}

impl Response {
    /// The decision on the verifier's answer: success passes; a failure
    /// carries the first reported code, or a server-class failure when the
    /// verifier reported none.
    pub fn ok(&self) -> (r: Result<(), Error>)
        ensures
            r is Ok <==> self.success,
            r is Err ==> r->Err_0.wf(),
            !self.success && self.error_codes@.len() > 0 ==> r->Err_0.spec_status()
                == self.error_codes@[0].spec_status() && r->Err_0.spec_detail()
                == self.error_codes@[0].spec_message(),
            !self.success && self.error_codes@.len() == 0 ==> r->Err_0.spec_status().code == 500
                && r->Err_0.spec_detail() == "Didn't get an error code"@,
    {
        if self.success {
            Ok(())
        } else if self.error_codes.len() > 0 {
            let code = self.error_codes[0];
            Err(Error::from_err(&code))
        } else {
            Err(Error::from_error(String::from_str("Didn't get an error code")))
        }
    }
}

} // verus!
