//! The stateless session token service.
//!
//! A token is the hex-spelled MAC of a canonical claims encoding, a dot, and
//! that encoding: `<64 hex chars>.<claims>`. The server holds no session
//! state; verification alone decides. The signature is checked first, then
//! the expiry against the server's clock — a caller-supplied instant — and a
//! failure of either check is externally the same unauthorized status.

use vstd::prelude::*;

use crate::codec::{
    all_hex, spec_enc_str, spec_enc_u64, spec_hex, spec_scan_str, spec_scan_u64, spec_unhex,
    decode_hex_prefix, encode_hex, encode_u64, scan_number,
};
use crate::credential::Info;
use crate::error::ResponseError;
use crate::status::HttpStatus;

verus! {

/// How long a token stays valid after issuance: seven days, in seconds.
pub const VALIDITY_WINDOW_SECS: u64 = 604800;

/// The identity claims a token carries: the principal's durable fields plus
/// the expiry instant fixed at issuance.
#[derive(Clone, Debug)]
pub struct Claims {
    pub username: String,
    pub display_name: String,
    pub email: String,
    pub created: u64,
    pub expiry: u64,
}

/// The mathematical shape of [`Claims`].
pub struct ClaimsView {
    pub username: Seq<char>,
    pub display_name: Seq<char>,
    pub email: Seq<char>,
    pub created: u64,
    pub expiry: u64,
}

impl Claims {
    /// Whether the claims' validity window has elapsed at `now` — the
    /// server's clock, never anything a client supplied.
    pub fn expired(&self, now: u64) -> (r: bool)
        ensures
            r == (now > self.expiry),
    {
        now > self.expiry
    }
}

impl View for Claims {
    type V = ClaimsView;

    open spec fn view(&self) -> ClaimsView {
        ClaimsView {
            username: self.username@,
            display_name: self.display_name@,
            email: self.email@,
            created: self.created,
            expiry: self.expiry,
        }
    }
}

/// The canonical text the service signs: three length-prefixed fields and
/// two terminated numbers.
pub open spec fn spec_encode_claims(c: ClaimsView) -> Seq<char> {
    spec_enc_str(c.username) + spec_enc_str(c.display_name) + spec_enc_str(c.email) + spec_enc_u64(
        c.created,
    ) + spec_enc_u64(c.expiry)
}

/// Reading a claims encoding back; only the exact canonical form, consumed
/// whole, is accepted.
pub open spec fn spec_decode_claims(s: Seq<char>) -> Option<ClaimsView> {
    match spec_scan_str(s, 0) {
        Option::None => Option::None,
        Option::Some((username, p1)) => match spec_scan_str(s, p1) {
            Option::None => Option::None,
            Option::Some((display_name, p2)) => match spec_scan_str(s, p2) {
                Option::None => Option::None,
                Option::Some((email, p3)) => match spec_scan_u64(s, p3) {
                    Option::None => Option::None,
                    Option::Some((created, p4)) => match spec_scan_u64(s, p4) {
                        Option::None => Option::None,
                        Option::Some((expiry, p5)) => if p5 == s.len() {
                            Option::Some(
                                ClaimsView { username, display_name, email, created, expiry },
                            )
                        } else {
                            Option::None
                        },
                    },
                },
            },
        },
    }
}

fn append_field(out: &mut String, f: &str)
    ensures
        final(out)@ == old(out)@ + spec_enc_str(f@),
{
    let len = f.unicode_len();
    let digits = encode_u64(len as u64);
    out.append(digits.as_str());
    out.append(":");
    out.append(f);
    proof {
        reveal_strlit(":");
        assert(":"@ =~= seq![':']);
        assert(old(out)@ + spec_enc_str(f@) =~= old(out)@ + crate::codec::spec_digits(
            f@.len(),
        ) + seq![':'] + f@);
    }
}

fn append_number(out: &mut String, n: u64)
    ensures
        final(out)@ == old(out)@ + spec_enc_u64(n),
{
    let digits = encode_u64(n);
    out.append(digits.as_str());
    out.append(";");
    proof {
        reveal_strlit(";");
        assert(";"@ =~= seq![';']);
        assert(old(out)@ + spec_enc_u64(n) =~= old(out)@ + crate::codec::spec_digits(n as nat)
            + seq![';']);
    }
}

/// The canonical claims text, exactly [`spec_encode_claims`].
pub fn encode_claims(c: &Claims) -> (r: String)
    ensures
        r@ == spec_encode_claims(c@),
{
    let mut out = String::new();
    append_field(&mut out, c.username.as_str());
    append_field(&mut out, c.display_name.as_str());
    append_field(&mut out, c.email.as_str());
    append_number(&mut out, c.created);
    append_number(&mut out, c.expiry);
    proof {
        assert(out@ =~= spec_encode_claims(c@));
    }
    out
}

fn scan_str_exec(s: &str, start: usize) -> (r: Option<(String, usize)>)
    requires
        start <= s@.len(),
    ensures
        r is Some ==> spec_scan_str(s@, start as int) == Option::Some(
            (r.unwrap().0@, r.unwrap().1 as int),
        ) && start < r.unwrap().1 <= s@.len(),
        r is None ==> spec_scan_str(s@, start as int) is None,
{
    let n = s.unicode_len();
    match scan_number(s, start) {
        Option::None => Option::None,
        Option::Some((v, j)) => {
            if j < n && s.get_char(j) == ':' {
                let rem = n - (j + 1);
                if v <= rem as u64 {
                    let len = v as usize;
                    let f = s.substring_char(j + 1, j + 1 + len);
                    Option::Some((String::from_str(f), j + 1 + len))
                } else {
                    Option::None
                }
            } else {
                Option::None
            }
        },
    }
}

fn scan_u64_exec(s: &str, start: usize) -> (r: Option<(u64, usize)>)
    requires
        start <= s@.len(),
    ensures
        r is Some ==> spec_scan_u64(s@, start as int) == Option::Some(
            (r.unwrap().0, r.unwrap().1 as int),
        ) && start < r.unwrap().1 <= s@.len(),
        r is None ==> spec_scan_u64(s@, start as int) is None,
{
    let n = s.unicode_len();
    match scan_number(s, start) {
        Option::None => Option::None,
        Option::Some((v, j)) => {
            if j < n && s.get_char(j) == ';' {
                Option::Some((v, j + 1))
            } else {
                Option::None
            }
        },
    }
}

/// Read claims text back, exactly as [`spec_decode_claims`] does.
pub fn decode_claims(s: &str) -> (r: Option<Claims>)
    ensures
        r is Some ==> spec_decode_claims(s@) == Option::Some(r.unwrap()@),
        r is None ==> spec_decode_claims(s@) is None,
{
    let n = s.unicode_len();
    let (username, p1) = match scan_str_exec(s, 0) {
        Option::Some(x) => x,
        Option::None => {
            return Option::None;
        },
    };
    let (display_name, p2) = match scan_str_exec(s, p1) {
        Option::Some(x) => x,
        Option::None => {
            return Option::None;
        },
    };
    let (email, p3) = match scan_str_exec(s, p2) {
        Option::Some(x) => x,
        Option::None => {
            return Option::None;
        },
    };
    let (created, p4) = match scan_u64_exec(s, p3) {
        Option::Some(x) => x,
        Option::None => {
            return Option::None;
        },
    };
    let (expiry, p5) = match scan_u64_exec(s, p4) {
        Option::Some(x) => x,
        Option::None => {
            return Option::None;
        },
    };
    if p5 == n {
        Option::Some(Claims { username, display_name, email, created, expiry })
    } else {
        Option::None
    }
}

/// Encoding then decoding gives the claims back unchanged.
pub proof fn lemma_claims_round_trip(c: ClaimsView)
    requires
        c.username.len() <= u64::MAX,
        c.display_name.len() <= u64::MAX,
        c.email.len() <= u64::MAX,
    ensures
        spec_decode_claims(spec_encode_claims(c)) == Option::Some(c),
{
    let e1 = spec_enc_str(c.username);
    let e2 = spec_enc_str(c.display_name);
    let e3 = spec_enc_str(c.email);
    let e4 = spec_enc_u64(c.created);
    let e5 = spec_enc_u64(c.expiry);
    let s = spec_encode_claims(c);
    let p1 = e1.len() as int;
    let p2 = p1 + e2.len();
    let p3 = p2 + e3.len();
    let p4 = p3 + e4.len();
    let p5 = p4 + e5.len();
    assert(s.len() == p5);
    assert(s.subrange(0, p1) =~= e1);
    assert(s.subrange(p1, p2) =~= e2);
    assert(s.subrange(p2, p3) =~= e3);
    assert(s.subrange(p3, p4) =~= e4);
    assert(s.subrange(p4, p5) =~= e5);
    crate::codec::lemma_scan_str_of_encoding(s, 0, c.username);
    crate::codec::lemma_scan_str_of_encoding(s, p1, c.display_name);
    crate::codec::lemma_scan_str_of_encoding(s, p2, c.email);
    crate::codec::lemma_scan_u64_of_encoding(s, p3, c.created);
    crate::codec::lemma_scan_u64_of_encoding(s, p4, c.expiry);
}

/// Whatever decodes is exactly the canonical encoding of what came out: the
/// claims text has one spelling.
pub proof fn lemma_decode_claims_sound(s: Seq<char>)
    requires
        spec_decode_claims(s) is Some,
    ensures
        spec_encode_claims(spec_decode_claims(s).unwrap()) == s,
{
    let (username, p1) = spec_scan_str(s, 0).unwrap();
    let (display_name, p2) = spec_scan_str(s, p1).unwrap();
    let (email, p3) = spec_scan_str(s, p2).unwrap();
    let (created, p4) = spec_scan_u64(s, p3).unwrap();
    let (expiry, p5) = spec_scan_u64(s, p4).unwrap();
    crate::codec::lemma_scan_str_sound(s, 0);
    crate::codec::lemma_scan_str_sound(s, p1);
    crate::codec::lemma_scan_str_sound(s, p2);
    crate::codec::lemma_scan_u64_sound(s, p3);
    crate::codec::lemma_scan_u64_sound(s, p4);
    let c = spec_decode_claims(s).unwrap();
    assert(spec_encode_claims(c) =~= s) by {
        assert(s.subrange(0, p1) == spec_enc_str(username));
        assert(s.subrange(p1, p2) == spec_enc_str(display_name));
        assert(s.subrange(p2, p3) == spec_enc_str(email));
        assert(s.subrange(p3, p4) == spec_enc_u64(created));
        assert(s.subrange(p4, p5) == spec_enc_u64(expiry));
        assert(p5 == s.len());
        assert(s =~= s.subrange(0, p1) + s.subrange(p1, p2) + s.subrange(p2, p3) + s.subrange(
            p3,
            p4,
        ) + s.subrange(p4, p5));
    }
}

/// The MAC of a message under a key. Named for the keyed digest this crate
/// relies on; a function of key and message alone.
pub uninterp spec fn hmac_sha256_of(key: Seq<u8>, msg: Seq<char>) -> Seq<u8>;

/// Relies on hmac's `Hmac<Sha256>` (`new_from_slice`, which accepts keys of
/// any length, then `update` and `finalize`): a 32-byte keyed digest of the
/// message text, determined by key and message alone.
#[verifier::external_body]
fn hmac_sha256(key: &Vec<u8>, msg: &str) -> (r: Vec<u8>)
    ensures
        r@ == hmac_sha256_of(key@, msg@),
        r@.len() == 32,
{
    let mut mac = <hmac::Hmac<sha2::Sha256> as hmac::KeyInit>::new_from_slice(key.as_slice())
        .expect("HMAC accepts keys of any length");
    hmac::Mac::update(&mut mac, msg.as_bytes());
    hmac::Mac::finalize(mac).into_bytes().to_vec()
}

fn bytes_eq(a: &Vec<u8>, b: &Vec<u8>) -> (r: bool)
    ensures
        r == (a@ == b@),
{
    if a.len() != b.len() {
        return false;
    }
    let n = a.len();
    let mut i: usize = 0;
    while i < n
        invariant
            n == a@.len() == b@.len(),
            0 <= i <= n,
            forall|k: int| 0 <= k < i ==> a@[k] == b@[k],
        decreases n - i,
    {
        if a[i] != b[i] {
            return false;
        }
        i = i + 1;
    }
    proof {
        assert(a@ =~= b@);
    }
    true
}

/// Why a token was refused. All three map to the same unauthorized status a
/// client sees; the distinction exists for operator diagnostics.
#[derive(Clone, Copy, PartialEq, Eq, Structural, Debug)]
pub enum TokenError {
    Malformed,
    Tampered,
    Expired,
}

impl ResponseError for TokenError {
    open spec fn spec_status(&self) -> HttpStatus {
        HttpStatus { code: 401 }
    }

    open spec fn spec_message(&self) -> Seq<char> {
        match *self {
            TokenError::Malformed => "Token was malformed"@,
            TokenError::Tampered => "The token appears to have been tampered with or corrupted."@,
            TokenError::Expired => "Token expired"@,
        }
    }

    fn status(&self) -> (s: HttpStatus) {
        HttpStatus::unauthorized()
    }

    fn message(&self) -> (m: String) {
        match self {
            TokenError::Malformed => String::from_str("Token was malformed"),
            TokenError::Tampered => String::from_str(
                "The token appears to have been tampered with or corrupted.",
            ),
            TokenError::Expired => String::from_str("Token expired"),
        }
    }
}

/// What verification decides for a token text under a key at an instant.
pub enum TokenOutcome {
    Valid(ClaimsView),
    Expired,
    Tampered,
    Malformed,
}

/// The whole verification, as a function of key, token text and the server's
/// clock: frame first, then signature, then contents, then expiry.
pub open spec fn spec_verify_token(key: Seq<u8>, t: Seq<char>, now: u64) -> TokenOutcome {
    if t.len() < 65 || t[64] != '.' || !all_hex(t.take(64)) {
        TokenOutcome::Malformed
    } else if spec_unhex(t.take(64)) != hmac_sha256_of(key, t.skip(65)) {
        TokenOutcome::Tampered
    } else {
        match spec_decode_claims(t.skip(65)) {
            Option::None => TokenOutcome::Tampered,
            Option::Some(c) => if now > c.expiry {
                TokenOutcome::Expired
            } else {
                TokenOutcome::Valid(c)
            },
        }
    }
}

/// The token text issued for claims `c` under `key`.
pub open spec fn spec_token(key: Seq<u8>, c: ClaimsView) -> Seq<char> {
    spec_hex(hmac_sha256_of(key, spec_encode_claims(c))) + seq!['.'] + spec_encode_claims(c)
}

/// The claims a token issued for `identity` carries, expiring at `expiry`.
pub open spec fn claims_for(identity: Info, expiry: u64) -> ClaimsView {
    ClaimsView {
        username: identity.username.view(),
        display_name: identity.display_name.view(),
        email: identity.email.view(),
        created: identity.created,
        expiry,
    }
}

/// How a verification result maps onto [`TokenOutcome`].
pub open spec fn outcome_of(r: Result<Claims, TokenError>) -> TokenOutcome {
    match r {
        Result::Ok(c) => TokenOutcome::Valid(c@),
        Result::Err(TokenError::Malformed) => TokenOutcome::Malformed,
        Result::Err(TokenError::Tampered) => TokenOutcome::Tampered,
        Result::Err(TokenError::Expired) => TokenOutcome::Expired,
    }
}

/// An opaque signed session token, owned by the client between issuance and
/// verification.
#[derive(Clone, Debug)]
pub struct Token {
    token: String,
}

impl Token {
    pub closed spec fn view(self) -> Seq<char> {
        self.token@
    }

    pub fn from_string(token: String) -> (r: Token)
        ensures
            r.view() == token@,
    {
        Token { token }
    }

    pub fn as_str(&self) -> (r: &str)
        ensures
            r@ == self.view(),
    {
        self.token.as_str()
    }

    pub fn into_string(self) -> (r: String)
        ensures
            r@ == self.view(),
    {
        self.token
    }
}

/// The session token service: the process-wide signing key, immutable after
/// startup.
pub struct TokenService {
    key: Vec<u8>,
}

impl TokenService {
    pub closed spec fn spec_key(self) -> Seq<u8> {
        self.key@
    }

    pub fn new(key: Vec<u8>) -> (r: TokenService)
        ensures
            r.spec_key() == key@,
    {
        TokenService { key }
    }

    /// Issue a token for an identity: expiry is fixed at `now` plus the
    /// validity window, the claims are canonically encoded, and the encoding
    /// is signed.
    pub fn issue(&self, identity: &Info, now: u64) -> (r: Token)
        requires
            now + VALIDITY_WINDOW_SECS <= u64::MAX,
        ensures
            r.view() == spec_token(
                self.spec_key(),
                claims_for(*identity, (now + VALIDITY_WINDOW_SECS) as u64),
            ),
            hmac_sha256_of(
                self.spec_key(),
                spec_encode_claims(claims_for(*identity, (now + VALIDITY_WINDOW_SECS) as u64)),
            ).len() == 32,
    {
        let claims = Claims {
            username: String::from_str(identity.username.as_str()),
            display_name: String::from_str(identity.display_name.as_str()),
            email: String::from_str(identity.email.as_str()),
            created: identity.created,
            expiry: now + VALIDITY_WINDOW_SECS,
        };
        let payload = encode_claims(&claims);
        let sig = hmac_sha256(&self.key, payload.as_str());
        let mut token = encode_hex(&sig);
        token.append(".");
        token.append(payload.as_str());
        proof {
            reveal_strlit(".");
            assert("."@ =~= seq!['.']);
            assert(token@ =~= spec_hex(hmac_sha256_of(self.spec_key(), payload@)) + seq!['.']
                + payload@);
        }
        Token { token }
    }

    /// Verify a token at instant `now`: exactly [`spec_verify_token`]. The
    /// signature is checked before the contents are read; the expiry is
    /// checked against `now` alone, never against anything the client
    /// supplied.
    pub fn verify(&self, token: &str, now: u64) -> (r: Result<Claims, TokenError>)
        ensures
            outcome_of(r) == spec_verify_token(self.spec_key(), token@, now),
    {
        let n = token.unicode_len();
        if n < 65 {
            return Result::Err(TokenError::Malformed);
        }
        let sig = match decode_hex_prefix(token, 32) {
            Option::Some(s) => s,
            Option::None => {
                return Result::Err(TokenError::Malformed);
            },
        };
        if token.get_char(64) != '.' {
            return Result::Err(TokenError::Malformed);
        }
        let payload = token.substring_char(65, n);
        let expected = hmac_sha256(&self.key, payload);
        if !bytes_eq(&sig, &expected) {
            return Result::Err(TokenError::Tampered);
        }
        match decode_claims(payload) {
            Option::None => Result::Err(TokenError::Tampered),
            Option::Some(c) => {
                if now > c.expiry {
                    Result::Err(TokenError::Expired)
                } else {
                    Result::Ok(c)
                }
            },
        }
    }
}

/// Issue-then-verify returns the original claims unchanged: a token built
/// for claims `c` verifies as `Valid(c)` at any instant up to its expiry.
/// The digest length is that of the keyed digest the scheme uses.
pub proof fn lemma_issue_then_verify(key: Seq<u8>, c: ClaimsView, now: u64)
    requires
        hmac_sha256_of(key, spec_encode_claims(c)).len() == 32,
        now <= c.expiry,
        c.username.len() <= u64::MAX,
        c.display_name.len() <= u64::MAX,
        c.email.len() <= u64::MAX,
    ensures
        spec_verify_token(key, spec_token(key, c), now) == TokenOutcome::Valid(c),
{
    let payload = spec_encode_claims(c);
    let sig = hmac_sha256_of(key, payload);
    let t = spec_token(key, c);
    crate::codec::lemma_hex_round_trip(sig);
    assert(t.len() == 65 + payload.len());
    assert(t.take(64) =~= spec_hex(sig));
    assert(t[64] == '.');
    assert(t.skip(65) =~= payload);
    lemma_claims_round_trip(c);
}

/// A token whose signature part spells anything but the message's own digest
/// fails as tampered, whatever its payload says and whenever it is checked:
/// the contents are never even read.
pub proof fn lemma_tampered_signature(key: Seq<u8>, payload: Seq<char>, sig: Seq<u8>, now: u64)
    requires
        sig.len() == 32,
        sig != hmac_sha256_of(key, payload),
    ensures
        spec_verify_token(key, spec_hex(sig) + seq!['.'] + payload, now)
            == TokenOutcome::Tampered,
{
    let t = spec_hex(sig) + seq!['.'] + payload;
    crate::codec::lemma_hex_round_trip(sig);
    assert(t.len() == 65 + payload.len());
    assert(t.take(64) =~= spec_hex(sig));
    assert(t[64] == '.');
    assert(t.skip(65) =~= payload);
}

/// A token checked after its validity window has elapsed fails as expired,
/// even though its signature is genuine.
pub proof fn lemma_expired_token(key: Seq<u8>, c: ClaimsView, now: u64)
    requires
        hmac_sha256_of(key, spec_encode_claims(c)).len() == 32,
        now > c.expiry,
        c.username.len() <= u64::MAX,
        c.display_name.len() <= u64::MAX,
        c.email.len() <= u64::MAX,
    ensures
        spec_verify_token(key, spec_token(key, c), now) == TokenOutcome::Expired,
{
    let payload = spec_encode_claims(c);
    let sig = hmac_sha256_of(key, payload);
    let t = spec_token(key, c);
    crate::codec::lemma_hex_round_trip(sig);
    assert(t.len() == 65 + payload.len());
    assert(t.take(64) =~= spec_hex(sig));
    assert(t[64] == '.');
    assert(t.skip(65) =~= payload);
    lemma_claims_round_trip(c);
}

/// A whitespace character trimmed around the bearer credential.
pub open spec fn is_space(c: char) -> bool {
    c == ' ' || c == '\t'
}

/// The first index at or after `i` holding no space (or the end of `s`).
pub open spec fn skip_spaces_fwd(s: Seq<char>, i: int) -> int
    decreases s.len() - i,
{
    if i < 0 || i >= s.len() || !is_space(s[i]) {
        i
    } else {
        skip_spaces_fwd(s, i + 1)
    }
}

/// The last index at or before `j`, not below `lo`, with no space before it.
pub open spec fn skip_spaces_back(s: Seq<char>, j: int, lo: int) -> int
    decreases j,
{
    if j <= lo || j <= 0 || j > s.len() || !is_space(s[j - 1]) {
        j
    } else {
        skip_spaces_back(s, j - 1, lo)
    }
}

proof fn lemma_skip_fwd_bounds(s: Seq<char>, i: int)
    requires
        0 <= i <= s.len(),
    ensures
        i <= skip_spaces_fwd(s, i) <= s.len(),
    decreases s.len() - i,
{
    if i < s.len() && is_space(s[i]) {
        lemma_skip_fwd_bounds(s, i + 1);
    }
}

proof fn lemma_skip_back_bounds(s: Seq<char>, j: int, lo: int)
    requires
        0 <= lo <= j <= s.len(),
    ensures
        lo <= skip_spaces_back(s, j, lo) <= j,
    decreases j,
{
    if !(j <= lo || j <= 0 || j > s.len() || !is_space(s[j - 1])) {
        lemma_skip_back_bounds(s, j - 1, lo);
    }
}

/// `s` with leading and trailing spaces removed.
pub open spec fn spec_trim(s: Seq<char>) -> Seq<char> {
    let a = skip_spaces_fwd(s, 0);
    let b = skip_spaces_back(s, s.len() as int, a);
    if 0 <= a <= b <= s.len() {
        s.subrange(a, b)
    } else {
        s
    }
}

fn is_space_exec(c: char) -> (r: bool)
    ensures
        r == is_space(c),
{
    c == ' ' || c == '\t'
}

/// `s` with leading and trailing spaces removed, exactly [`spec_trim`].
fn trim_spaces(s: &str) -> (r: String)
    ensures
        r@ == spec_trim(s@),
{
    let n = s.unicode_len();
    let mut a: usize = 0;
    loop
        invariant
            n == s@.len(),
            0 <= a <= n,
            skip_spaces_fwd(s@, 0) == skip_spaces_fwd(s@, a as int),
        ensures
            0 <= a <= n,
            skip_spaces_fwd(s@, 0) == a as int,
        decreases n - a,
    {
        if a == n {
            break ;
        }
        if !is_space_exec(s.get_char(a)) {
            break ;
        }
        a = a + 1;
    }
    let mut b: usize = n;
    loop
        invariant
            n == s@.len(),
            a <= b <= n,
            skip_spaces_back(s@, n as int, a as int) == skip_spaces_back(s@, b as int, a as int),
        ensures
            a <= b <= n,
            skip_spaces_back(s@, n as int, a as int) == b as int,
        decreases b,
    {
        if b == a {
            break ;
        }
        if !is_space_exec(s.get_char(b - 1)) {
            break ;
        }
        b = b - 1;
    }
    String::from_str(s.substring_char(a, b))
}

/// How extracting the bearer credential from a request fails: the
/// conventional field was absent, or it did not carry a bearer credential.
/// Both map to the same unauthorized status; the distinction is for operator
/// diagnostics.
#[derive(Clone, Copy, PartialEq, Eq, Structural, Debug)]
pub enum TokenFailure {
    Malformed,
    Missing,
}

impl ResponseError for TokenFailure {
    open spec fn spec_status(&self) -> HttpStatus {
        HttpStatus { code: 401 }
    }

    open spec fn spec_message(&self) -> Seq<char> {
        match *self {
            TokenFailure::Malformed => "Token was malformed"@,
            TokenFailure::Missing => "No token found"@,
        }
    }

    fn status(&self) -> (s: HttpStatus) {
        HttpStatus::unauthorized()
    }

    fn message(&self) -> (m: String) {
        match self {
            TokenFailure::Malformed => String::from_str("Token was malformed"),
            TokenFailure::Missing => String::from_str("No token found"),
        }
    }
}

/// What bearer extraction yields for a request's credential field: the token
/// text after the scheme marker, trimmed; a missing field and one without the
/// marker are distinct failures.
pub open spec fn spec_parse_bearer(h: Option<Seq<char>>) -> Result<Seq<char>, TokenFailure> {
    match h {
        Option::None => Result::Err(TokenFailure::Missing),
        Option::Some(s) => if s.len() >= 7 && s.take(7) == "Bearer:"@ {
            Result::Ok(spec_trim(s.skip(7)))
        } else {
            Result::Err(TokenFailure::Malformed)
        },
    }
}

/// The view of an optional credential field.
pub open spec fn header_view(h: Option<&str>) -> Option<Seq<char>> {
    match h {
        Option::Some(s) => Option::Some(s@),
        Option::None => Option::None,
    }
}

/// Extract the bearer token from a request's credential field, exactly
/// [`spec_parse_bearer`].
pub fn parse_bearer(header: Option<&str>) -> (r: Result<String, TokenFailure>)
    ensures
        r is Ok ==> spec_parse_bearer(header_view(header)) == Result::<Seq<char>, TokenFailure>::Ok(
            r->Ok_0@,
        ),
        r is Err ==> spec_parse_bearer(header_view(header)) == Result::<
            Seq<char>,
            TokenFailure,
        >::Err(r->Err_0),
{
    let s = match header {
        Option::Some(s) => s,
        Option::None => {
            return Result::Err(TokenFailure::Missing);
        },
    };
    let n = s.unicode_len();
    proof {
        reveal_strlit("Bearer:");
    }
    if n < 7 {
        return Result::Err(TokenFailure::Malformed);
    }
    if !(s.get_char(0) == 'B' && s.get_char(1) == 'e' && s.get_char(2) == 'a' && s.get_char(3)
        == 'r' && s.get_char(4) == 'e' && s.get_char(5) == 'r' && s.get_char(6) == ':') {
        proof {
            if s@.take(7) == "Bearer:"@ {
                assert(s@[0] == s@.take(7)[0]);
                assert(s@[1] == s@.take(7)[1]);
                assert(s@[2] == s@.take(7)[2]);
                assert(s@[3] == s@.take(7)[3]);
                assert(s@[4] == s@.take(7)[4]);
                assert(s@[5] == s@.take(7)[5]);
                assert(s@[6] == s@.take(7)[6]);
            }
        }
        return Result::Err(TokenFailure::Malformed);
    }
    proof {
        assert(s@.take(7) =~= "Bearer:"@);
    }
    let rest = s.substring_char(7, n);
    proof {
        assert(rest@ =~= s@.skip(7));
    }
    Result::Ok(trim_spaces(rest))
}

} // verus!
