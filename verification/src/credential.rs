//! Credentials and identity fields, validated at construction.
//!
//! A [`Password`] is accepted only with 4 to 128 characters; usernames and
//! email addresses are bounded, free of control characters, and — for email —
//! checked against a mailbox-address format.

use vstd::prelude::*;

use crate::error::ResponseError;
use crate::status::HttpStatus;

verus! {

/// A character in the Unicode Cc (control) category.
pub open spec fn is_control(c: char) -> bool {
    (c as u32) < 0x20 || (0x7f <= (c as u32) && (c as u32) < 0xa0)
}

/// No character of `s` is a control character.
pub open spec fn no_control(s: Seq<char>) -> bool {
    forall|i: int| 0 <= i < s.len() ==> !is_control(#[trigger] s[i])
}

pub(crate) fn scan_no_control(s: &str) -> (r: bool)
    ensures
        r == no_control(s@),
{
    let n = s.unicode_len();
    let mut i: usize = 0;
    while i < n
        invariant
            n == s@.len(),
            0 <= i <= n,
            forall|j: int| 0 <= j < i ==> !is_control(#[trigger] s@[j]),
        decreases n - i,
    {
        let c = s.get_char(i);
        let code = c as u32;
        if code < 0x20 || (0x7f <= code && code < 0xa0) {
            return false;
        }
        i = i + 1;
    }
    true
}

/// Whether `s` is accepted as a mailbox address. Named for the outside
/// check this crate relies on; acceptance is a function of the characters
/// alone.
pub uninterp spec fn email_accepted(s: Seq<char>) -> bool;

/// Relies on validator's `ValidateEmail` for `&str`: a pure check of the
/// local part and domain of a mailbox address against its fixed format.
#[verifier::external_body]
fn email_format_ok(s: &str) -> (r: bool)
    ensures
        r == email_accepted(s@),
{
    validator::ValidateEmail::validate_email(&s)
}

/// Why a field was rejected at construction.
#[derive(Clone, Copy, PartialEq, Eq, Structural, Debug)]
pub enum ValidationError {
    LengthOutOfRange,
    ControlCharacter,
    InvalidEmail,
}

/// Field validation failures are client-class.
impl ResponseError for ValidationError {
    open spec fn spec_status(&self) -> HttpStatus {
        HttpStatus { code: 400 }
    }

    open spec fn spec_message(&self) -> Seq<char> {
        match *self {
            ValidationError::LengthOutOfRange => "Field length is out of range"@,
            ValidationError::ControlCharacter => "Field contains a control character"@,
            ValidationError::InvalidEmail => "Not a valid email address"@,
        }
    }

    fn status(&self) -> (s: HttpStatus) {
        HttpStatus::bad_request()
    }

    fn message(&self) -> (m: String) {
        match self {
            ValidationError::LengthOutOfRange => String::from_str("Field length is out of range"),
            ValidationError::ControlCharacter => String::from_str(
                "Field contains a control character",
            ),
            ValidationError::InvalidEmail => String::from_str("Not a valid email address"),
        }
    }
}

/// A password accepted for hashing: between 4 and 128 characters inclusive.
pub open spec fn valid_password(s: Seq<char>) -> bool {
    4 <= s.len() <= 128
}

/// A raw password in transit between validation and hashing. Constructed once
/// from user input, consumed by hashing or verification, then dropped. It is
/// deliberately not printable: diagnostics get [`Password::redacted`].
#[derive(Clone)]
pub struct Password {
    password: String,
}

/// Rejection of a password that is not length-valid.
#[derive(Clone, Copy, PartialEq, Eq, Structural, Debug)]
pub struct BadPassword;

impl ResponseError for BadPassword {
    open spec fn spec_status(&self) -> HttpStatus {
        HttpStatus { code: 400 }
    }

    open spec fn spec_message(&self) -> Seq<char> {
        "Password must be between 4 and 128 characters, inclusive."@
    }

    fn status(&self) -> (s: HttpStatus) {
        HttpStatus::bad_request()
    }

    fn message(&self) -> (m: String) {
        String::from_str("Password must be between 4 and 128 characters, inclusive.")
    }
}

impl Password {
    pub closed spec fn view(self) -> Seq<char> {
        self.password@
    }

    /// Every constructed password is length-valid.
    pub open spec fn wf(self) -> bool {
        valid_password(self.view())
    }

    /// Accepts exactly the length-valid passwords.
    pub fn new(s: String) -> (r: Result<Password, BadPassword>)
        ensures
            r is Ok <==> valid_password(s@),
            r is Ok ==> r->Ok_0.view() == s@ && r->Ok_0.wf(),
    {
        let n = s.as_str().unicode_len();
        if 4 <= n && n <= 128 {
            Ok(Password { password: s })
        } else {
            Err(BadPassword)
        }
    }

    pub fn expose(&self) -> (r: &String)
        ensures
            r@ == self.view(),
    {
        &self.password
    }

    pub fn expose_into(self) -> (r: String)
        ensures
            r@ == self.view(),
    {
        self.password
    }

    /// What diagnostics may show in place of the value.
    pub fn redacted(&self) -> (r: &'static str)
        ensures
            r@ == "<password>"@,
    {
        "<password>"
    }
}

/// A username: 1 to 128 characters, none of them control characters.
pub open spec fn valid_username(s: Seq<char>) -> bool {
    1 <= s.len() <= 128 && no_control(s)
}

#[derive(Clone, PartialEq, Eq, Debug)]
pub struct Username {
    name: String,
}

impl Username {
    pub closed spec fn view(self) -> Seq<char> {
        self.name@
    }

    pub open spec fn wf(self) -> bool {
        valid_username(self.view())
    }

    /// Accepts exactly the valid usernames.
    pub fn new(s: String) -> (r: Result<Username, ValidationError>)
        ensures
            r is Ok <==> valid_username(s@),
            r is Ok ==> r->Ok_0.view() == s@ && r->Ok_0.wf(),
            r == Err::<Username, ValidationError>(ValidationError::LengthOutOfRange) <==> !(1
                <= s@.len() <= 128),
            r == Err::<Username, ValidationError>(ValidationError::ControlCharacter) <==> 1
                <= s@.len() <= 128 && !no_control(s@),
    {
        let n = s.as_str().unicode_len();
        if n < 1 || n > 128 {
            return Err(ValidationError::LengthOutOfRange);
        }
        if !scan_no_control(s.as_str()) {
            return Err(ValidationError::ControlCharacter);
        }
        Ok(Username { name: s })
    }

    pub fn as_str(&self) -> (r: &str)
        ensures
            r@ == self.view(),
    {
        self.name.as_str()
    }

    pub fn into_string(self) -> (r: String)
        ensures
            r@ == self.view(),
    {
        self.name
    }
}

/// An email address: 1 to 128 characters, no control characters, and accepted
/// by the mailbox-address format check.
pub open spec fn valid_email(s: Seq<char>) -> bool {
    1 <= s.len() <= 128 && no_control(s) && email_accepted(s)
}

#[derive(Clone, PartialEq, Eq, Debug)]
pub struct Email {
    email: String,
}

impl Email {
    pub closed spec fn view(self) -> Seq<char> {
        self.email@
    }

    pub open spec fn wf(self) -> bool {
        valid_email(self.view())
    }

    /// Accepts exactly the valid email addresses.
    pub fn new(s: String) -> (r: Result<Email, ValidationError>)
        ensures
            r is Ok <==> valid_email(s@),
            r is Ok ==> r->Ok_0.view() == s@ && r->Ok_0.wf(),
            r == Err::<Email, ValidationError>(ValidationError::LengthOutOfRange) <==> !(1
                <= s@.len() <= 128),
            r == Err::<Email, ValidationError>(ValidationError::ControlCharacter) <==> 1 <= s@.len()
                <= 128 && !no_control(s@),
            r == Err::<Email, ValidationError>(ValidationError::InvalidEmail) <==> 1 <= s@.len()
                <= 128 && no_control(s@) && !email_accepted(s@),
    {
        let n = s.as_str().unicode_len();
        if n < 1 || n > 128 {
            return Err(ValidationError::LengthOutOfRange);
        }
        if !scan_no_control(s.as_str()) {
            return Err(ValidationError::ControlCharacter);
        }
        if !email_format_ok(s.as_str()) {
            return Err(ValidationError::InvalidEmail);
        }
        Ok(Email { email: s })
    }

    pub fn as_str(&self) -> (r: &str)
        ensures
            r@ == self.view(),
    {
        self.email.as_str()
    }

    pub fn into_string(self) -> (r: String)
        ensures
            r@ == self.view(),
    {
        self.email
    }
}

/// A registration payload as the transport layer hands it over.
#[derive(Clone)]
pub struct NewUserRequest {
    pub username: Username,
    pub password: Password,
    pub email: Email,
    pub captcha_token: String,
}

/// A login payload as the transport layer hands it over.
#[derive(Clone)]
pub struct LoginRequest {
    pub username: Username,
    pub password: Password,
}

/// A user row as the store hands it back, before validation.
#[derive(Clone)]
pub struct RawUser {
    pub username: String,
    pub display_name: String,
    pub email: String,
    pub email_validated: bool,
    pub hash: String,
    pub created: u64,
}

/// A loaded user whose fields have all been validated.
#[derive(Clone)]
pub struct User {
    username: Username,
    display_name: Username,
    email: Email,
    email_validated: bool,
    hash: String,
    created: u64,
}

impl User {
    pub open spec fn wf(self) -> bool {
        self.spec_username().wf() && self.spec_display_name().wf() && self.spec_email().wf()
    }

    pub closed spec fn spec_username(self) -> Username {
        self.username
    }

    pub closed spec fn spec_display_name(self) -> Username {
        self.display_name
    }

    pub closed spec fn spec_email(self) -> Email {
        self.email
    }

    pub closed spec fn spec_email_validated(self) -> bool {
        self.email_validated
    }

    pub closed spec fn spec_hash(self) -> Seq<char> {
        self.hash@
    }

    pub closed spec fn spec_created(self) -> u64 {
        self.created
    }

    /// Validate a raw row into a user; fails exactly when one of the fields
    /// is out of bounds or not an address.
    pub fn from_raw(u: RawUser) -> (r: Result<User, ValidationError>)
        ensures
            r is Ok <==> valid_username(u.username@) && valid_username(u.display_name@)
                && valid_email(u.email@),
            r is Ok ==> {
                let out = r->Ok_0;
                out.wf() && out.spec_username().view() == u.username@
                    && out.spec_display_name().view() == u.display_name@
                    && out.spec_email().view() == u.email@ && out.spec_email_validated()
                    == u.email_validated && out.spec_hash() == u.hash@ && out.spec_created()
                    == u.created
            },
    {
        let username = match Username::new(u.username) {
            Ok(v) => v,
            Err(e) => {
                return Err(e);
            },
        };
        let display_name = match Username::new(u.display_name) {
            Ok(v) => v,
            Err(e) => {
                return Err(e);
            },
        };
        let email = match Email::new(u.email) {
            Ok(v) => v,
            Err(e) => {
                return Err(e);
            },
        };
        Ok(
            User {
                username,
                display_name,
                email,
                email_validated: u.email_validated,
                hash: u.hash,
                created: u.created,
            },
        )
    }

    pub fn username(&self) -> (r: &Username)
        ensures
            *r == self.spec_username(),
    {
        &self.username
    }

    pub fn display_name(&self) -> (r: &Username)
        ensures
            *r == self.spec_display_name(),
    {
        &self.display_name
    }

    pub fn email(&self) -> (r: &Email)
        ensures
            *r == self.spec_email(),
    {
        &self.email
    }

    pub fn email_validated(&self) -> (r: bool)
        ensures
            r == self.spec_email_validated(),
    {
        self.email_validated
    }

    pub fn hash(&self) -> (r: &str)
        ensures
            r@ == self.spec_hash(),
    {
        self.hash.as_str()
    }

    pub fn created(&self) -> (r: u64)
        ensures
            r == self.spec_created(),
    {
        self.created
    }
}

/// The durable identity of an authenticated principal: what a session token
/// carries.
pub struct Info {
    pub username: Username,
    pub display_name: Username,
    pub email: Email,
    pub created: u64,
}

impl Info {
    /// The public identity of a loaded user.
    pub fn from_user(u: User) -> (r: Info)
        ensures
            r.username == u.spec_username(),
            r.display_name == u.spec_display_name(),
            r.email == u.spec_email(),
            r.created == u.spec_created(),
    {
        let User { username, display_name, email, email_validated: _, hash: _, created } = u;
        Info { username, display_name, email, created }
    }
}

} // verus!
