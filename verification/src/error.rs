//! The unified error model.
//!
//! Every failure funnels into [`Error`]: a status plus two messages. The
//! operator-facing detail is kept verbatim; the client-facing text is the
//! detail only for client-class failures, and a fixed generic string for
//! server-class failures, so internal detail never reaches a client.

use vstd::prelude::*;

use crate::status::HttpStatus;

verus! {

/// The fixed text a client sees in place of any server-class detail.
pub open spec fn generic_server_text() -> Seq<char> {
    "Internal server error"@
}

/// `needle` occurs contiguously inside `hay`.
pub open spec fn contains_substring(hay: Seq<char>, needle: Seq<char>) -> bool {
    exists|i: int|
        0 <= i && i + needle.len() <= hay.len() && #[trigger] hay.subrange(i, i + needle.len())
            == needle
}

/// A domain error that can funnel into [`Error`]: it knows its status and its
/// operator-facing message.
pub trait ResponseError {
    spec fn spec_status(&self) -> HttpStatus;

    spec fn spec_message(&self) -> Seq<char>;

    fn status(&self) -> (s: HttpStatus)
        ensures
            s == self.spec_status(),
    ;

    fn message(&self) -> (m: String)
        ensures
            m@ == self.spec_message(),
    ;
}

/// The unified error: a status in the client- or server-error class and the
/// operator-facing detail captured where the failure was first observed.
#[derive(Debug)]
pub struct Error {
    status: HttpStatus,
    detail: String,
}

/// What a client is shown for an error with this status and detail.
pub open spec fn spec_client_message(status: HttpStatus, detail: Seq<char>) -> Seq<char> {
    if status.spec_is_server_error() {
        generic_server_text()
    } else {
        detail
    }
}

impl Error {
    /// Only client-class and server-class statuses may be wrapped; asking for
    /// anything else is a contract violation at the call site, not a runtime
    /// case.
    pub closed spec fn spec_status(self) -> HttpStatus {
        self.status
    }

    pub open spec fn wf(self) -> bool {
        self.spec_status().spec_is_client_error() || self.spec_status().spec_is_server_error()
    }

    pub closed spec fn spec_detail(self) -> Seq<char> {
        self.detail@
    }

    /// Wrap a typed domain error, capturing its status and detail.
    pub fn from_err<E: ResponseError>(e: &E) -> (r: Error)
        requires
            e.spec_status().spec_is_client_error() || e.spec_status().spec_is_server_error(),
        ensures
            r.wf(),
            r.spec_status() == e.spec_status(),
            r.spec_detail() == e.spec_message(),
    {
        Error { status: e.status(), detail: e.message() }
    }

    /// An error from a bare status and detail; only client- and server-class
    /// statuses may be wrapped.
    pub fn new(status: HttpStatus, detail: String) -> (r: Error)
        requires
            status.spec_is_client_error() || status.spec_is_server_error(),
        ensures
            r.wf(),
            r.spec_status() == status,
            r.spec_detail() == detail@,
    {
        Error { status, detail }
    }

    /// Wrap an already-rendered detail string as a server-class failure.
    pub fn from_error(detail: String) -> (r: Error)
        ensures
            r.wf(),
            r.spec_status().code == 500,
            r.spec_detail() == detail@,
    {
        Error { status: HttpStatus::internal_server_error(), detail }
    }

    pub fn status(&self) -> (s: HttpStatus)
        ensures
            s == self.spec_status(),
    {
        self.status
    }

    /// The operator-facing detail; this goes only to the operator log channel.
    pub fn message(&self) -> (m: &String)
        ensures
            m@ == self.spec_detail(),
    {
        &self.detail
    }

    /// The client-facing text: the detail for client-class failures, the
    /// fixed generic string for server-class ones.
    pub fn client_message(&self) -> (m: String)
        ensures
            m@ == spec_client_message(self.spec_status(), self.spec_detail()),
    {
        if self.status.is_server_error() {
            String::from_str("Internal server error")
        } else {
            self.detail.clone()
        }
    }

    /// What the transport layer renders: the status code and the client text.
    pub fn render_parts(&self) -> (r: (u16, String))
        ensures
            r.0 == self.spec_status().code,
            r.1@ == spec_client_message(self.spec_status(), self.spec_detail()),
    {
        (self.status.code, self.client_message())
    }
}

/// A server-class error's client message is always the fixed generic text,
/// and therefore never contains the operator detail, whatever internal error
/// was wrapped — unless the detail happens to occur inside the generic text
/// itself (for example, an empty detail).
pub proof fn lemma_server_detail_never_shown(e: Error)
    requires
        e.wf(),
        e.spec_status().spec_is_server_error(),
        !contains_substring(generic_server_text(), e.spec_detail()),
    ensures
        spec_client_message(e.spec_status(), e.spec_detail()) == generic_server_text(),
        !contains_substring(
            spec_client_message(e.spec_status(), e.spec_detail()),
            e.spec_detail(),
        ),
{
}

/// A bare string funnels in as a server-class failure, as when an unexpected
/// lower-level error is rendered and wrapped at the boundary.
impl ResponseError for String {
    open spec fn spec_status(&self) -> HttpStatus {
        HttpStatus { code: 500 }
    }

    open spec fn spec_message(&self) -> Seq<char> {
        self@
    }

    fn status(&self) -> (s: HttpStatus) {
        HttpStatus::internal_server_error()
    }

    fn message(&self) -> (m: String) {
        self.clone()
    }
}

} // verus!
