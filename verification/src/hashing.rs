//! The credential-hashing service: a memory-hard key derivation seeded with a
//! per-call random salt and a process-wide secret pepper, producing a
//! self-describing encoded hash.
//!
//! Verification always honors the parameters embedded in the stored hash, so
//! hashes stay verifiable after the service's own cost parameters change.

use vstd::prelude::*;

use crate::credential::Password;
use crate::error::Error;

verus! {

/// Cost parameters of the derivation, fixed once for the process; they are
/// embedded in every produced hash and never read back from the service for
/// verification.
pub const DEFAULT_M_COST: u32 = 37;

pub const DEFAULT_T_COST: u32 = 1;

pub const DEFAULT_P_COST: u32 = 1;

/// A password length bound far below the primitive's own input limits; the
/// service only ever passes validated credentials, which are shorter still.
pub const MAX_HASH_INPUT_CHARS: usize = 1048576;

/// Whether the derivation accepts `h` as a well-formed encoded hash: it
/// parses in the self-describing format and names a supported algorithm,
/// version and parameter set. Named for the outside primitive this crate
/// relies on; a function of the hash text alone.
pub uninterp spec fn phc_accepts(h: Seq<char>) -> bool;

/// Whether `pass`, derived under `pepper` with the salt and cost parameters
/// embedded in `h`, reproduces the digest stored in `h`. Named for the
/// outside primitive; a function of the three arguments alone.
pub uninterp spec fn phc_matches(pepper: Seq<u8>, pass: Seq<char>, h: Seq<char>) -> bool;

/// Relies on password-hash's `try_generate_salt`: sixteen random bytes from
/// the system's secure generator; nothing can be promised of their values.
#[verifier::external_body]
fn fresh_salt() -> (r: Option<Vec<u8>>)
    ensures
        r is Some ==> r.unwrap()@.len() == 16,
{
    argon2::password_hash::try_generate_salt().ok().map(|s| s.to_vec())
}

/// Relies on argon2's `PasswordHasher::hash_password_with_salt` (with a
/// context from `Argon2::new_with_secret`): a produced hash embeds its salt
/// and parameters, parses back, and verifies against the same password and
/// pepper. Heap allocation for the derivation's memory blocks is assumed to
/// succeed.
#[verifier::external_body]
fn argon2_hash_call(
    pepper: &Vec<u8>,
    m_cost: u32,
    t_cost: u32,
    p_cost: u32,
    pass: &str,
    salt: &Vec<u8>,
) -> (r: Option<String>)
    requires
        pepper@.len() <= 0xFFFFFFFF,
        pass@.len() <= MAX_HASH_INPUT_CHARS,
    ensures
        r is Some ==> phc_accepts(r.unwrap()@) && phc_matches(pepper@, pass@, r.unwrap()@),
{
    let params = argon2::Params::new(m_cost, t_cost, p_cost, None).ok()?;
    let ctx = argon2::Argon2::new_with_secret(
        pepper.as_slice(),
        argon2::Algorithm::Argon2id,
        argon2::Version::V0x13,
        params,
    ).ok()?;
    argon2::PasswordHasher::hash_password_with_salt(&ctx, pass.as_bytes(), salt.as_slice())
        .ok()
        .map(|h| h.to_string())
}

enum RawVerify {
    Match,
    Mismatch,
    Reject,
}

/// Relies on argon2's `PasswordVerifier::<str>::verify_password`: it re-runs
/// the derivation with the salt and parameters embedded in the hash and
/// compares in constant time, reporting a password mismatch as one
/// distinguished error while every malformed or unsupported hash encoding
/// surfaces as a different one. Heap allocation for the derivation's memory
/// blocks is assumed to succeed.
#[verifier::external_body]
fn argon2_verify_call(pepper: &Vec<u8>, pass: &str, hash: &str) -> (r: RawVerify)
    requires
        pepper@.len() <= 0xFFFFFFFF,
        pass@.len() <= MAX_HASH_INPUT_CHARS,
    ensures
        r is Match ==> phc_accepts(hash@) && phc_matches(pepper@, pass@, hash@),
        r is Mismatch ==> phc_accepts(hash@) && !phc_matches(pepper@, pass@, hash@),
        r is Reject ==> !phc_accepts(hash@),
{
    let ctx = match argon2::Argon2::new_with_secret(
        pepper.as_slice(),
        argon2::Algorithm::Argon2id,
        argon2::Version::V0x13,
        argon2::Params::default(),
    ) {
        Ok(c) => c,
        Err(_) => return RawVerify::Reject,
    };
    match argon2::PasswordVerifier::<str>::verify_password(&ctx, pass.as_bytes(), hash) {
        Ok(()) => RawVerify::Match,
        Err(argon2::password_hash::Error::PasswordInvalid) => RawVerify::Mismatch,
        Err(_) => RawVerify::Reject,
    }
}

/// The outcome of checking a credential against a stored hash. A mismatch is
/// the expected "wrong password" case, not an error.
#[derive(Clone, Copy, PartialEq, Eq, Structural, Debug, Hash)]
pub enum Verification {
    Failed,
    Passed,
}

/// What verification reports for a well-formed hash.
pub open spec fn spec_verification(pepper: Seq<u8>, pass: Seq<char>, h: Seq<char>) -> Verification {
    if phc_matches(pepper, pass, h) {
        Verification::Passed
    } else {
        Verification::Failed
    }
}

/// The hashing service: the process-wide pepper plus the fixed cost
/// parameters for newly produced hashes.
pub struct HashingService {
    pepper: Vec<u8>,
    m_cost: u32,
    t_cost: u32,
    p_cost: u32,
}

impl HashingService {
    pub closed spec fn spec_pepper(self) -> Seq<u8> {
        self.pepper@
    }

    pub closed spec fn spec_m_cost(self) -> u32 {
        self.m_cost
    }

    pub closed spec fn spec_t_cost(self) -> u32 {
        self.t_cost
    }

    pub closed spec fn spec_p_cost(self) -> u32 {
        self.p_cost
    }

    pub open spec fn wf(self) -> bool {
        self.spec_pepper().len() <= 0xFFFFFFFF
    }

    /// A service with the fixed default cost parameters.
    pub fn new(pepper: Vec<u8>) -> (r: HashingService)
        requires
            pepper@.len() <= 0xFFFFFFFF,
        ensures
            r.wf(),
            r.spec_pepper() == pepper@,
            r.spec_m_cost() == DEFAULT_M_COST,
            r.spec_t_cost() == DEFAULT_T_COST,
            r.spec_p_cost() == DEFAULT_P_COST,
    {
        HashingService {
            pepper,
            m_cost: DEFAULT_M_COST,
            t_cost: DEFAULT_T_COST,
            p_cost: DEFAULT_P_COST,
        }
    }

    /// A service with explicit cost parameters, for a deployment that tunes
    /// them once at startup.
    pub fn with_params(pepper: Vec<u8>, m_cost: u32, t_cost: u32, p_cost: u32) -> (r:
        HashingService)
        requires
            pepper@.len() <= 0xFFFFFFFF,
        ensures
            r.wf(),
            r.spec_pepper() == pepper@,
            r.spec_m_cost() == m_cost,
            r.spec_t_cost() == t_cost,
            r.spec_p_cost() == p_cost,
    {
        HashingService { pepper, m_cost, t_cost, p_cost }
    }

    /// Derive an encoded hash for a validated credential under a fresh random
    /// salt. A produced hash is well-formed and verifies against the same
    /// credential and pepper; a rejection by the primitive is a server-class
    /// failure, a configuration bug rather than user error.
    pub fn hash(&self, pass: &Password) -> (r: Result<String, Error>)
        requires
            self.wf(),
            pass.wf(),
        ensures
            r is Ok ==> phc_accepts(r->Ok_0@) && phc_matches(
                self.spec_pepper(),
                pass.view(),
                r->Ok_0@,
            ),
            r is Err ==> r->Err_0.wf() && r->Err_0.spec_status().spec_is_server_error(),
    {
        let salt = match fresh_salt() {
            Some(s) => s,
            None => {
                return Err(
                    Error::from_error(String::from_str("Salt generation failed")),
                );
            },
        };
        match argon2_hash_call(
            &self.pepper,
            self.m_cost,
            self.t_cost,
            self.p_cost,
            pass.expose().as_str(),
            &salt,
        ) {
            Some(h) => Ok(h),
            None => Err(
                Error::from_error(String::from_str("Password hashing primitive failed")),
            ),
        }
    }

    /// Check a credential against a stored hash, honoring the salt and cost
    /// parameters embedded in the hash. A well-formed hash always yields an
    /// outcome — `Passed` exactly when the derivation reproduces it — while a
    /// corrupt or unsupported hash encoding is promoted to a server-class
    /// failure.
    pub fn verify(&self, pass: &Password, hash: &str) -> (r: Result<Verification, Error>)
        requires
            self.wf(),
            pass.wf(),
        ensures
            r is Ok <==> phc_accepts(hash@),
            r is Ok ==> r->Ok_0 == spec_verification(self.spec_pepper(), pass.view(), hash@),
            r is Err ==> r->Err_0.wf() && r->Err_0.spec_status().spec_is_server_error(),
    {
        match argon2_verify_call(&self.pepper, pass.expose().as_str(), hash) {
            RawVerify::Match => Ok(Verification::Passed),
            RawVerify::Mismatch => Ok(Verification::Failed),
            RawVerify::Reject => Err(
                Error::from_error(String::from_str("Stored password hash is corrupt")),
            ),
        }
    }
}

/// Hash-then-verify passes: any hash the service produces for a credential
/// verifies as `Passed` against that same credential and pepper.
pub proof fn lemma_hash_then_verify(pepper: Seq<u8>, pass: Seq<char>, h: Seq<char>)
    requires
        phc_accepts(h),
        phc_matches(pepper, pass, h),
    ensures
        spec_verification(pepper, pass, h) == Verification::Passed,
{
}

/// Verification reads every cost parameter from the stored hash: its outcome
/// depends only on the pepper, the credential and the hash text, so two
/// services with the same pepper — whatever their current default parameters
/// — agree on every verification.
pub proof fn lemma_verification_ignores_service_params(
    s1: HashingService,
    s2: HashingService,
    pass: Seq<char>,
    h: Seq<char>,
)
    requires
        s1.spec_pepper() == s2.spec_pepper(),
    ensures
        spec_verification(s1.spec_pepper(), pass, h) == spec_verification(
            s2.spec_pepper(),
            pass,
            h,
        ),
{
}

} // verus!
