//! HTTP-like status values and their classes.
//!
//! Every failure that leaves the core carries one of these statuses; the
//! class (client error vs server error) decides which message a client may
//! see.

use vstd::prelude::*;

verus! {

/// A status value in the conventional HTTP numbering.
#[derive(Clone, Copy, PartialEq, Eq, Structural, Debug)]
pub struct HttpStatus {
    pub code: u16,
}

impl HttpStatus {
    /// Statuses outside 100..=599 are never constructed by this crate.
    pub open spec fn wf(self) -> bool {
        100 <= self.code <= 599
    }

    pub open spec fn spec_is_client_error(self) -> bool {
        400 <= self.code <= 499
    }

    pub open spec fn spec_is_server_error(self) -> bool {
        500 <= self.code <= 599
    }

    pub fn is_client_error(&self) -> (r: bool)
        ensures
            r == self.spec_is_client_error(),
    {
        400 <= self.code && self.code <= 499
    }

    pub fn is_server_error(&self) -> (r: bool)
        ensures
            r == self.spec_is_server_error(),
    {
        500 <= self.code && self.code <= 599
    }

    pub fn ok() -> (r: HttpStatus)
        ensures
            r.code == 200,
    {
        HttpStatus { code: 200 }
    }

    pub fn created() -> (r: HttpStatus)
        ensures
            r.code == 201,
    {
        HttpStatus { code: 201 }
    }

    pub fn bad_request() -> (r: HttpStatus)
        ensures
            r.code == 400,
    {
        HttpStatus { code: 400 }
    }

    pub fn unauthorized() -> (r: HttpStatus)
        ensures
            r.code == 401,
    {
        HttpStatus { code: 401 }
    }

    pub fn forbidden() -> (r: HttpStatus)
        ensures
            r.code == 403,
    {
        HttpStatus { code: 403 }
    }

    pub fn not_found() -> (r: HttpStatus)
        ensures
            r.code == 404,
    {
        HttpStatus { code: 404 }
    }

    pub fn conflict() -> (r: HttpStatus)
        ensures
            r.code == 409,
    {
        HttpStatus { code: 409 }
    }

    pub fn internal_server_error() -> (r: HttpStatus)
        ensures
            r.code == 500,
    {
        HttpStatus { code: 500 }
    }
}

} // verus!
