//! Token service: mints and validates signed, self-contained access tokens
//! carrying identity and tenant claims, and draws opaque high-entropy refresh
//! tokens.
//!
//! Signing and signature checking are done by the `jsonwebtoken` crate over a
//! shared secret (HMAC-SHA256). Both directions are deterministic functions
//! of their inputs and are given the names [`signed_token`] and
//! [`token_claims`]; the expiry decision is made here, in verified code, so
//! that an expired-but-well-formed token is distinguished from an invalid
//! one.

use vstd::prelude::*;
use vstd::string::StringSliceAdditionalSpecFns;
use vstd::string::StrSliceExecFns;
use vstd::string::StringExecFns;

use jsonwebtoken::Algorithm;
use jsonwebtoken::DecodingKey;
use jsonwebtoken::EncodingKey;
use jsonwebtoken::Header;
use jsonwebtoken::Validation;
use serde_json::Value;

use crate::errors::DomainError;

verus! {

/// Session claims carried inside a signed access token. Identifiers travel in
/// their canonical text form; `iat` and `exp` are Unix seconds.
#[derive(Debug, Clone)]
pub struct JwtClaims {
    pub sub: String,
    pub tenant_id: String,
    pub email: String,
    pub roles: Vec<String>,
    pub permissions: Vec<String>,
    pub iat: i64,
    pub exp: i64,
}

/// The mathematical content of a claims set.
pub ghost struct ClaimsView {
    pub sub: Seq<char>,
    pub tenant_id: Seq<char>,
    pub email: Seq<char>,
    pub roles: Seq<Seq<char>>,
    pub permissions: Seq<Seq<char>>,
    pub iat: int,
    pub exp: int,
}

impl View for JwtClaims {
    type V = ClaimsView;

    open spec fn view(&self) -> ClaimsView {
        ClaimsView {
            sub: self.sub@,
            tenant_id: self.tenant_id@,
            email: self.email@,
            roles: self.roles.deep_view(),
            permissions: self.permissions.deep_view(),
            iat: self.iat as int,
            exp: self.exp as int,
        }
    }
}

/// The compact serialization that HMAC-SHA256 signing produces for a claims
/// set under a secret: a function of the two alone.
pub uninterp spec fn signed_token(secret: Seq<u8>, claims: ClaimsView) -> Seq<char>;

/// The claims that signature checking recovers from a compact token under a
/// secret; `None` when the token is malformed, carries another algorithm, or
/// its signature does not match. No clock is involved: a function of the two
/// alone.
pub uninterp spec fn token_claims(secret: Seq<u8>, token: Seq<char>) -> Option<ClaimsView>;

/// Relies on `jsonwebtoken::encode` with HS256 over the shared secret.
/// Encoding is deterministic and total for this algorithm: the payload is a
/// string-keyed JSON object, whose serialization cannot fail, and HMAC
/// signing accepts any key and message. Decoding the produced token with
/// the same secret recovers exactly the claims that were signed into it.
#[verifier::external_body]
fn jwt_encode(secret: &[u8], claims: JwtClaims) -> (r: Result<String, ()>)
    ensures
        r is Ok,
        r matches Ok(t) ==> t@.len() > 0,
        r matches Ok(t) ==> t@ == signed_token(secret@, claims@),
        r matches Ok(t) ==> token_claims(secret@, t@) == Some(claims@),
{
    let mut m = serde_json::Map::new();
    m.insert("sub".into(), claims.sub.into());
    m.insert("tenant_id".into(), claims.tenant_id.into());
    m.insert("email".into(), claims.email.into());
    m.insert("roles".into(), claims.roles.into());
    m.insert("permissions".into(), claims.permissions.into());
    m.insert("iat".into(), claims.iat.into());
    m.insert("exp".into(), claims.exp.into());
    let key = EncodingKey::from_secret(secret);
    jsonwebtoken::encode(&Header::default(), &Value::Object(m), &key).map_err(|_| ())
}

/// Relies on `jsonwebtoken::decode` with HS256, expiry validation turned
/// off and no required claims: the outcome checks the signature and the
/// payload shape only, so it is a function of the secret and the token text
/// alone, and it accepts every expiry value that signing accepts.
#[verifier::external_body]
fn jwt_decode(secret: &[u8], token: &str) -> (r: Option<JwtClaims>)
    ensures
        match r {
            Some(c) => token_claims(secret@, token@) == Some(c@),
            None => token_claims(secret@, token@) is None,
        },
{
    let mut val = Validation::new(Algorithm::HS256);
    val.validate_exp = false;
    val.required_spec_claims.clear();
    let v = jsonwebtoken::decode::<Value>(token, &DecodingKey::from_secret(secret), &val).ok()?.claims;
    let s = |k: &str| Some(v.get(k)?.as_str()?.to_string());
    let a = |k: &str| serde_json::from_value(v.get(k)?.clone()).ok();
    Some(JwtClaims { sub: s("sub")?, tenant_id: s("tenant_id")?, email: s("email")?, roles: a("roles")?, permissions: a("permissions")?, iat: v.get("iat")?.as_i64()?, exp: v.get("exp")?.as_i64()? })
}

/// Relies on `rand::random_range` over the thread-local generator, which is
/// cryptographically secure and reseeded from the system: the draw is below
/// the bound, and nothing else is promised of a random value.
#[verifier::external_body]
fn random_alphabet_index() -> (r: usize)
    ensures
        r < 62,
{
    rand::random_range(0..62)
}

/// Relies on `chrono::Utc::now`: the current Unix time in seconds. Nothing is
/// promised of the clock's value.
#[verifier::external_body]
fn current_unix_time() -> (r: i64) {
    chrono::Utc::now().timestamp()
}

/// Relies on `String::push`: appends exactly one character.
#[verifier::external_body]
fn push_char(s: &mut String, c: char)
    ensures
        final(s)@ == old(s)@.push(c),
{
    s.push(c);
}

/// Length of an opaque refresh token, in characters.
pub const REFRESH_TOKEN_LENGTH: usize = 32;

/// The 62-symbol alphabet of refresh tokens: ASCII letters and digits.
pub open spec fn alphanumeric_char(c: char) -> bool {
    ('a' as u32 <= c as u32 && c as u32 <= 'z' as u32) || ('A' as u32 <= c as u32 && c as u32
        <= 'Z' as u32) || ('0' as u32 <= c as u32 && c as u32 <= '9' as u32)
}

/// What validating a token against a clock yields: the claims while the
/// token is well-formed, correctly signed and not yet expired; otherwise the
/// error that tells the caller whether to refresh or to log in again.
pub open spec fn spec_validate(secret: Seq<u8>, token: Seq<char>, now: int) -> Result<
    ClaimsView,
    DomainError,
> {
    match token_claims(secret, token) {
        None => Err(DomainError::TokenInvalid),
        Some(c) => if c.exp <= now {
            Err(DomainError::TokenExpired)
        } else {
            Ok(c)
        },
    }
}

/// Default lifetime of an access token, in seconds (15 minutes).
pub const DEFAULT_ACCESS_TOKEN_SECONDS: i64 = 900;

/// Default lifetime of a refresh token, in seconds (7 days).
pub const DEFAULT_REFRESH_TOKEN_SECONDS: i64 = 604800;

/// Mints and validates access tokens under a shared signing secret, and
/// draws opaque refresh tokens.
#[derive(Debug, Clone)]
pub struct JwtService {
    secret: Vec<u8>,
    access_token_duration: i64,
    refresh_token_duration: i64,
}

impl JwtService {
    /// Both configured lifetimes are positive.
    pub open spec fn wf(&self) -> bool {
        0 < self.spec_access_ttl() && 0 < self.spec_refresh_ttl()
    }

    /// The shared signing secret, as bytes.
    pub closed spec fn spec_secret(&self) -> Seq<u8> {
        self.secret@
    }

    /// Configured access-token lifetime, in seconds.
    pub closed spec fn spec_access_ttl(&self) -> int {
        self.access_token_duration as int
    }

    /// Configured refresh-token lifetime, in seconds.
    pub closed spec fn spec_refresh_ttl(&self) -> int {
        self.refresh_token_duration as int
    }

    pub fn new(secret: &str) -> (r: Self)
        ensures
            r.spec_secret() == secret.spec_bytes(),
            r.spec_access_ttl() == DEFAULT_ACCESS_TOKEN_SECONDS as int,
            r.spec_refresh_ttl() == DEFAULT_REFRESH_TOKEN_SECONDS as int,
            r.wf(),
    {
        Self {
            secret: secret.as_bytes_vec(),
            access_token_duration: DEFAULT_ACCESS_TOKEN_SECONDS,
            refresh_token_duration: DEFAULT_REFRESH_TOKEN_SECONDS,
        }
    }

    /// The claims this service signs at a given time for a given identity.
    pub open spec fn spec_claims_at(
        &self,
        user_id: Seq<char>,
        tenant_id: Seq<char>,
        email: Seq<char>,
        roles: Seq<Seq<char>>,
        permissions: Seq<Seq<char>>,
        now: int,
    ) -> ClaimsView {
        ClaimsView {
            sub: user_id,
            tenant_id: tenant_id,
            email: email,
            roles: roles,
            permissions: permissions,
            iat: now,
            exp: now + self.spec_access_ttl(),
        }
    }

    /// Builds and signs the session claims for an identity as of `now`:
    /// issued-at `now`, expiry `now` plus the configured lifetime.
    pub fn generate_access_token_at(
        &self,
        user_id: String,
        tenant_id: String,
        email: String,
        roles: Vec<String>,
        permissions: Vec<String>,
        now: i64,
    ) -> (r: Result<String, DomainError>)
        ensures
            r matches Ok(t) ==> {
                let c = self.spec_claims_at(
                    user_id@,
                    tenant_id@,
                    email@,
                    roles.deep_view(),
                    permissions.deep_view(),
                    now as int,
                );
                &&& t@.len() > 0
                &&& t@ == signed_token(self.spec_secret(), c)
                &&& token_claims(self.spec_secret(), t@) == Some(c)
            },
            r matches Err(e) ==> e matches DomainError::InternalError { .. },
            (self.wf() && now + self.spec_access_ttl() <= i64::MAX) ==> r is Ok,
    {
        let exp = match now.checked_add(self.access_token_duration) {
            Some(e) => e,
            None => {
                return Err(
                    DomainError::InternalError {
                        message: String::from_str("token expiry out of range"),
                    },
                );
            },
        };
        let claims = JwtClaims {
            sub: user_id,
            tenant_id: tenant_id,
            email: email,
            roles: roles,
            permissions: permissions,
            iat: now,
            exp: exp,
        };
        match jwt_encode(self.secret.as_slice(), claims) {
            Ok(t) => Ok(t),
            Err(_) => Err(
                DomainError::InternalError { message: String::from_str("token signing failed") },
            ),
        }
    }

    /// Signs session claims for an identity as of the current clock.
    pub fn generate_access_token(
        &self,
        user_id: String,
        tenant_id: String,
        email: String,
        roles: Vec<String>,
        permissions: Vec<String>,
    ) -> (r: Result<String, DomainError>)
        ensures
            r matches Ok(t) ==> t@.len() > 0,
            r matches Ok(t) ==> exists|now: int|
                token_claims(self.spec_secret(), t@) == Some(
                    self.spec_claims_at(
                        user_id@,
                        tenant_id@,
                        email@,
                        roles.deep_view(),
                        permissions.deep_view(),
                        now,
                    ),
                ),
            r matches Err(e) ==> e matches DomainError::InternalError { .. },
    {
        let now = current_unix_time();
        self.generate_access_token_at(user_id, tenant_id, email, roles, permissions, now)
    }

    /// Draws a fresh opaque refresh token: 32 characters from the 62-symbol
    /// alphanumeric alphabet, each drawn from a cryptographically secure
    /// generator. Two calls are expected to differ; nothing links the result
    /// to earlier draws.
    pub fn generate_refresh_token(&self) -> (r: String)
        ensures
            r@.len() == REFRESH_TOKEN_LENGTH as int,
            forall|i: int| 0 <= i < r@.len() ==> alphanumeric_char(#[trigger] r@[i]),
    {
        let mut token = String::new();
        let mut i: usize = 0;
        while i < REFRESH_TOKEN_LENGTH
            invariant
                0 <= i <= REFRESH_TOKEN_LENGTH,
                token@.len() == i as int,
                forall|j: int| 0 <= j < i ==> alphanumeric_char(#[trigger] token@[j]),
            decreases REFRESH_TOKEN_LENGTH - i,
        {
            let idx = random_alphabet_index();
            let b: u8 = if idx < 26 {
                97 + (idx as u8)
            } else if idx < 52 {
                65 + (idx as u8 - 26)
            } else {
                48 + (idx as u8 - 52)
            };
            let c = b as char;
            push_char(&mut token, c);
            i = i + 1;
        }
        token
    }

    /// Validates a token against the given clock: checks the signature and
    /// shape, then the expiry, and distinguishes the two failures.
    pub fn validate_token_at(&self, token: &str, now: i64) -> (r: Result<JwtClaims, DomainError>)
        ensures
            match r {
                Ok(c) => spec_validate(self.spec_secret(), token@, now as int) == Ok::<
                    ClaimsView,
                    DomainError,
                >(c@),
                Err(e) => spec_validate(self.spec_secret(), token@, now as int) == Err::<
                    ClaimsView,
                    DomainError,
                >(e),
            },
    {
        match jwt_decode(self.secret.as_slice(), token) {
            None => Err(DomainError::TokenInvalid),
            Some(c) => {
                if c.exp <= now {
                    Err(DomainError::TokenExpired)
                } else {
                    Ok(c)
                }
            },
        }
    }

    /// Validates a token against the current clock.
    pub fn validate_token(&self, token: &str) -> (r: Result<JwtClaims, DomainError>)
        ensures
            r matches Ok(c) ==> token_claims(self.spec_secret(), token@) == Some(c@),
            r matches Err(e) ==> (e matches DomainError::TokenInvalid || e
                matches DomainError::TokenExpired),
            r matches Err(e) ==> (e matches DomainError::TokenInvalid <==> token_claims(
                self.spec_secret(),
                token@,
            ) is None),
    {
        let now = current_unix_time();
        self.validate_token_at(token, now)
    }

    /// The absolute expiry, as of `now`, of a refresh token issued now.
    pub fn refresh_token_expires_from(&self, now: i64) -> (r: i64)
        requires
            self.wf(),
            now + self.spec_refresh_ttl() <= i64::MAX,
        ensures
            r as int == now + self.spec_refresh_ttl(),
    {
        now + self.refresh_token_duration
    }

    /// The absolute expiry, as of `now`, of an access token issued now.
    pub fn access_token_expires_from(&self, now: i64) -> (r: i64)
        requires
            self.wf(),
            now + self.spec_access_ttl() <= i64::MAX,
        ensures
            r as int == now + self.spec_access_ttl(),
    {
        now + self.access_token_duration
    }

    /// The absolute expiry of a refresh token issued at the current clock.
    pub fn refresh_token_expires_at(&self) -> (r: i64) {
        let now = current_unix_time();
        match now.checked_add(self.refresh_token_duration) {
            Some(e) => e,
            None => i64::MAX,
        }
    }

    /// The absolute expiry of an access token issued at the current clock.
    pub fn access_token_expires_at(&self) -> (r: i64) {
        let now = current_unix_time();
        match now.checked_add(self.access_token_duration) {
            Some(e) => e,
            None => i64::MAX,
        }
    }

    /// Configured access-token lifetime, in seconds.
    pub fn access_ttl_seconds(&self) -> (r: i64)
        ensures
            r as int == self.spec_access_ttl(),
    {
        self.access_token_duration
    }

    /// Configured refresh-token lifetime, in seconds.
    pub fn refresh_ttl_seconds(&self) -> (r: i64)
        ensures
            r as int == self.spec_refresh_ttl(),
    {
        self.refresh_token_duration
    }
}

/// Round trip: validating an issued token with the issuing secret, at any
/// time before its expiry, returns exactly the claims signed into it.
pub proof fn lemma_token_round_trip(secret: Seq<u8>, token: Seq<char>, c: ClaimsView, now: int)
    requires
        token_claims(secret, token) == Some(c),
        now < c.exp,
    ensures
        spec_validate(secret, token, now) == Ok::<ClaimsView, DomainError>(c),
{
}

/// Expiry boundary: one second past expiry is rejected as expired, one
/// second before expiry is accepted.
pub proof fn lemma_expiry_boundary(secret: Seq<u8>, token: Seq<char>, c: ClaimsView, now: int)
    requires
        token_claims(secret, token) == Some(c),
    ensures
        c.exp == now - 1 ==> spec_validate(secret, token, now) == Err::<ClaimsView, DomainError>(
            DomainError::TokenExpired,
        ),
        c.exp == now + 1 ==> spec_validate(secret, token, now) == Ok::<ClaimsView, DomainError>(c),
{
}

} // verus!
