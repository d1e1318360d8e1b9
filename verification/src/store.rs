//! The store-facing side of authentication: classification of store failures
//! into the error taxonomy, the stored user record, and the decisions a
//! login or registration flow takes between store calls.
//!
//! The store itself — connections, queries — is an outside collaborator; it
//! hands this module plain values.

use vstd::prelude::*;

use crate::credential::Password;
use crate::error::ResponseError;
use crate::status::HttpStatus;

verus! {

/// A failure of the persistent store, classified.
#[derive(Clone, Debug)]
pub enum DbError {
    Internal,
    Unique,
    Constraint { name: String },
    NotFound,
}

/// The mathematical shape of [`DbError`].
pub enum DbErrorView {
    Internal,
    Unique,
    Constraint { name: Seq<char> },
    NotFound,
}

impl View for DbError {
    type V = DbErrorView;

    open spec fn view(&self) -> DbErrorView {
        match self {
            DbError::Internal => DbErrorView::Internal,
            DbError::Unique => DbErrorView::Unique,
            DbError::Constraint { name } => DbErrorView::Constraint { name: name@ },
            DbError::NotFound => DbErrorView::NotFound,
        }
    }
}

/// The integrity-violation class of store error codes.
pub open spec fn code_is_integrity(c: Seq<char>) -> bool {
    c.len() >= 2 && c[0] == '2' && c[1] == '3'
}

/// The uniqueness-violation code.
pub open spec fn code_is_unique(c: Seq<char>) -> bool {
    c == "23505"@
}

/// How a raw store failure classifies: a missing row, a uniqueness
/// violation, another integrity violation with a named constraint, or an
/// internal failure.
pub open spec fn spec_classify(
    row_not_found: bool,
    code: Option<Seq<char>>,
    constraint: Option<Seq<char>>,
) -> DbErrorView {
    if row_not_found {
        DbErrorView::NotFound
    } else {
        match code {
            Option::Some(c) => if code_is_unique(c) {
                DbErrorView::Unique
            } else if code_is_integrity(c) {
                match constraint {
                    Option::Some(name) => DbErrorView::Constraint { name },
                    Option::None => DbErrorView::Internal,
                }
            } else {
                DbErrorView::Internal
            },
            Option::None => DbErrorView::Internal,
        }
    }
}

fn code_eq_unique(c: &str) -> (r: bool)
    ensures
        r == code_is_unique(c@),
{
    proof {
        reveal_strlit("23505");
    }
    let n = c.unicode_len();
    if n != 5 {
        proof {
            assert(c@.len() != "23505"@.len());
        }
        return false;
    }
    let r = c.get_char(0) == '2' && c.get_char(1) == '3' && c.get_char(2) == '5' && c.get_char(3)
        == '0' && c.get_char(4) == '5';
    proof {
        if r {
            assert(c@ =~= "23505"@);
        }
    }
    r
}

/// Classify a raw store failure, exactly as [`spec_classify`] does. The
/// caller extracts the row-not-found flag, the error code and the violated
/// constraint's name from its store's own error value.
pub fn classify_db_error(
    row_not_found: bool,
    code: Option<String>,
    constraint: Option<String>,
) -> (r: DbError)
    ensures
        r@ == spec_classify(
            row_not_found,
            match code {
                Option::Some(c) => Option::Some(c@),
                Option::None => Option::None,
            },
            match constraint {
                Option::Some(n) => Option::Some(n@),
                Option::None => Option::None,
            },
        ),
{
    if row_not_found {
        return DbError::NotFound;
    }
    let c = match code {
        Option::Some(c) => c,
        Option::None => {
            return DbError::Internal;
        },
    };
    if code_eq_unique(c.as_str()) {
        return DbError::Unique;
    }
    let n = c.as_str().unicode_len();
    if n >= 2 && c.as_str().get_char(0) == '2' && c.as_str().get_char(1) == '3' {
        match constraint {
            Option::Some(name) => DbError::Constraint { name },
            Option::None => DbError::Internal,
        }
    } else {
        DbError::Internal
    }
}

/// Store failures map onto the taxonomy: conflicts are client-class, a
/// missing row is not-found, everything else is internal.
impl ResponseError for DbError {
    open spec fn spec_status(&self) -> HttpStatus {
        match self {
            DbError::Internal => HttpStatus { code: 500 },
            DbError::Unique => HttpStatus { code: 409 },
            DbError::Constraint { .. } => HttpStatus { code: 409 },
            DbError::NotFound => HttpStatus { code: 404 },
        }
    }

    open spec fn spec_message(&self) -> Seq<char> {
        match self {
            DbError::Internal => "An internal error occurred"@,
            DbError::Unique => "Unique constraint violated"@,
            DbError::Constraint { name } => "A conflict occurred while processing that request: "@
                + name@,
            DbError::NotFound => "No such row exists"@,
        }
    }

    fn status(&self) -> (s: HttpStatus) {
        match self {
            DbError::Internal => HttpStatus::internal_server_error(),
            DbError::Unique => HttpStatus::conflict(),
            DbError::Constraint { .. } => HttpStatus::conflict(),
            DbError::NotFound => HttpStatus::not_found(),
        }
    }

    fn message(&self) -> (m: String) {
        match self {
            DbError::Internal => String::from_str("An internal error occurred"),
            DbError::Unique => String::from_str("Unique constraint violated"),
            DbError::Constraint { name } => String::from_str(
                "A conflict occurred while processing that request: ",
            ).concat(name.as_str()),
            DbError::NotFound => String::from_str("No such row exists"),
        }
    }
}

/// A principal named by username alone.
#[derive(Clone, Debug)]
pub struct UserRef {
    pub username: String,
}

/// A login payload: who, and with what password.
#[derive(Clone)]
pub struct LoginRequest {
    pub user: UserRef,
    pub password: Password,
}

/// A registration payload: a login payload plus a contact address.
#[derive(Clone)]
pub struct CreationRequest {
    pub user: LoginRequest,
    pub email: String,
}

/// Read access to the principal's name.
pub trait User {
    fn username(&self) -> &str;
}

/// A payload that carries a credential for verification.
pub trait LoginUser: User {
    fn password(&self) -> &Password;
}

/// A payload that carries what registration needs beyond login.
pub trait CreateUser: LoginUser {
    fn email(&self) -> &str;
}

impl User for UserRef {
    fn username(&self) -> &str {
        self.username.as_str()
    }
}

impl User for LoginRequest {
    fn username(&self) -> &str {
        self.user.username.as_str()
    }
}

impl LoginUser for LoginRequest {
    fn password(&self) -> &Password {
        &self.password
    }
}

impl User for CreationRequest {
    fn username(&self) -> &str {
        self.user.user.username.as_str()
    }
}

impl LoginUser for CreationRequest {
    fn password(&self) -> &Password {
        &self.user.password
    }
}

impl CreateUser for CreationRequest {
    fn email(&self) -> &str {
        self.email.as_str()
    }
}

/// The stored user record as the store holds it.
#[derive(Clone, Debug)]
pub struct StoredUser {
    pub email: String,
    pub email_verified: bool,
    pub username: String,
    pub display_name: String,
    pub hash: String,
    pub created: u64,
}

impl StoredUser {
    /// A fresh record for a new user: the display name starts as the
    /// username, the address unverified, created at the caller's clock.
    pub fn new(username: String, email: String, hash: String, now: u64) -> (r: StoredUser)
        ensures
            r.username@ == username@,
            r.display_name@ == username@,
            r.email@ == email@,
            r.email_verified == false,
            r.hash@ == hash@,
            r.created == now,
    {
        let display_name = String::from_str(username.as_str());
        StoredUser { email, email_verified: false, username, display_name, hash, created: now }
    }

    pub fn email(&self) -> (r: &str)
        ensures
            r@ == self.email@,
    {
        self.email.as_str()
    }

    pub fn email_verified(&self) -> (r: bool)
        ensures
            r == self.email_verified,
    {
        self.email_verified
    }

    pub fn display_name(&self) -> (r: &str)
        ensures
            r@ == self.display_name@,
    {
        self.display_name.as_str()
    }

    pub fn hash(&self) -> (r: &str)
        ensures
            r@ == self.hash@,
    {
        self.hash.as_str()
    }

    pub fn created(&self) -> (r: u64)
        ensures
            r == self.created,
    {
        self.created
    }
}

impl User for StoredUser {
    fn username(&self) -> &str {
        self.username.as_str()
    }
}

/// The outcome of checking a password against a stored record.
#[derive(Clone, Copy, PartialEq, Eq, Structural)]
pub enum PassCheck {
    Passed,
    Failed,
}

/// Why registration failed.
#[derive(Clone, Debug)]
pub enum CreateError {
    BadPasswordLen,
    Db(DbError),
}

impl ResponseError for CreateError {
    open spec fn spec_status(&self) -> HttpStatus {
        match self {
            CreateError::BadPasswordLen => HttpStatus { code: 400 },
            CreateError::Db(e) => e.spec_status(),
        }
    }

    open spec fn spec_message(&self) -> Seq<char> {
        match self {
            CreateError::BadPasswordLen
                => "Password must be between 4 and 128 characters, inclusive."@,
            CreateError::Db(_) => "A database error occurred"@,
        }
    }

    fn status(&self) -> (s: HttpStatus) {
        match self {
            CreateError::BadPasswordLen => HttpStatus::bad_request(),
            CreateError::Db(e) => e.status(),
        }
    }

    fn message(&self) -> (m: String) {
        match self {
            CreateError::BadPasswordLen => String::from_str(
                "Password must be between 4 and 128 characters, inclusive.",
            ),
            CreateError::Db(_) => String::from_str("A database error occurred"),
        }
    }
}

/// Why a login failed. A missing user and a wrong password are deliberately
/// the same variant: a client cannot tell them apart.
#[derive(Clone, Debug)]
pub enum LoginError {
    Failed,
    Db(DbError),
}

impl ResponseError for LoginError {
    open spec fn spec_status(&self) -> HttpStatus {
        match self {
            LoginError::Failed => HttpStatus { code: 401 },
            LoginError::Db(e) => e.spec_status(),
        }
    }

    open spec fn spec_message(&self) -> Seq<char> {
        match self {
            LoginError::Failed => "Username or password wasn't valid"@,
            LoginError::Db(_) => "DB error occurred"@,
        }
    }

    fn status(&self) -> (s: HttpStatus) {
        match self {
            LoginError::Failed => HttpStatus::unauthorized(),
            LoginError::Db(e) => e.status(),
        }
    }

    fn message(&self) -> (m: String) {
        match self {
            LoginError::Failed => String::from_str("Username or password wasn't valid"),
            LoginError::Db(_) => String::from_str("DB error occurred"),
        }
    }
}

impl LoginRequest {
    pub fn new(username: String, password: Password) -> (r: LoginRequest)
        ensures
            r.user.username@ == username@,
            r.password == password,
    {
        LoginRequest { user: UserRef { username }, password }
    }

    /// The decision after the user lookup: a missing row reads as a failed
    /// login — indistinguishable from a wrong password — while any other
    /// store failure propagates as such.
    pub fn resolve_lookup(found: Result<StoredUser, DbError>) -> (r: Result<
        StoredUser,
        LoginError,
    >)
        ensures
            found is Ok <==> r is Ok,
            found is Ok ==> r->Ok_0 == found->Ok_0,
            found is Err ==> (found->Err_0 is NotFound ==> r->Err_0 is Failed) && (!(found->Err_0
                is NotFound) ==> r->Err_0 == LoginError::Db(found->Err_0)),
    {
        match found {
            Ok(user) => Ok(user),
            Err(DbError::NotFound) => Err(LoginError::Failed),
            Err(e) => Err(LoginError::Db(e)),
        }
    }

    /// The decision after the password check: a mismatch is a failed login.
    pub fn resolve_check(check: PassCheck) -> (r: Result<(), LoginError>)
        ensures
            r is Ok <==> check is Passed,
            r is Err ==> r->Err_0 is Failed,
    {
        match check {
            PassCheck::Passed => Ok(()),
            PassCheck::Failed => Err(LoginError::Failed),
        }
    }
}

impl CreationRequest {
    pub fn new(username: String, password: Password, email: String) -> (r: CreationRequest)
        ensures
            r.user.user.username@ == username@,
            r.user.password == password,
            r.email@ == email@,
    {
        CreationRequest { user: LoginRequest::new(username, password), email }
    }

    /// The decision after the insert: a store failure becomes a registration
    /// failure of the store kind.
    pub fn resolve_store(stored: Result<(), DbError>) -> (r: Result<(), CreateError>)
        ensures
            stored is Ok <==> r is Ok,
            stored is Err ==> r->Err_0 == CreateError::Db(stored->Err_0),
    {
        match stored {
            Ok(()) => Ok(()),
            Err(e) => Err(CreateError::Db(e)),
        }
    }
}

} // verus!
