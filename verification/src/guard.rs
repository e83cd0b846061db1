//! Request authentication: the per-request decision of the middleware.
//!
//! The transport layer hands in the request path and the value of the
//! authorization header, and gets back one decision: proceed (with or
//! without an authenticated context) or short-circuit unauthorized. A
//! missing or bad token on a protected route never reaches a handler; on a
//! public route it is ignored, since public routes require no identity.

use vstd::prelude::*;
use vstd::string::StrSliceExecFns;

use crate::common::str_eq;
use crate::errors::DomainError;
use crate::token::JwtClaims;
use crate::token::JwtService;
use crate::token::spec_validate;

verus! {

/// The per-request security context derived from validated claims.
#[derive(Debug, Clone)]
pub struct CurrentUser {
    pub user_id: String,
    pub tenant_id: String,
    pub email: String,
    pub roles: Vec<String>,
    pub permissions: Vec<String>,
}

/// The mathematical content of a security context.
pub ghost struct CurrentUserView {
    pub user_id: Seq<char>,
    pub tenant_id: Seq<char>,
    pub email: Seq<char>,
    pub roles: Seq<Seq<char>>,
    pub permissions: Seq<Seq<char>>,
}

impl View for CurrentUser {
    type V = CurrentUserView;

    open spec fn view(&self) -> CurrentUserView {
        CurrentUserView {
            user_id: self.user_id@,
            tenant_id: self.tenant_id@,
            email: self.email@,
            roles: self.roles.deep_view(),
            permissions: self.permissions.deep_view(),
        }
    }
}

/// The context that a validated claims set resolves to.
pub open spec fn spec_context_of(c: crate::token::ClaimsView) -> CurrentUserView {
    CurrentUserView {
        user_id: c.sub,
        tenant_id: c.tenant_id,
        email: c.email,
        roles: c.roles,
        permissions: c.permissions,
    }
}

/// Derives the per-request security context from validated session claims.
pub fn context_from_claims(claims: JwtClaims) -> (r: CurrentUser)
    ensures
        r@ == spec_context_of(claims@),
{
    CurrentUser {
        user_id: claims.sub,
        tenant_id: claims.tenant_id,
        email: claims.email,
        roles: claims.roles,
        permissions: claims.permissions,
    }
}

/// One sequence starts with another.
pub open spec fn spec_has_prefix(s: Seq<char>, p: Seq<char>) -> bool {
    p.len() <= s.len() && s.subrange(0, p.len() as int) == p
}

fn has_prefix(s: &str, p: &str) -> (r: bool)
    ensures
        r == spec_has_prefix(s@, p@),
{
    let sn = s.unicode_len();
    let pn = p.unicode_len();
    if pn > sn {
        proof {
            assert(!spec_has_prefix(s@, p@));
        }
        return false;
    }
    let mut i: usize = 0;
    while i < pn
        invariant
            sn == s@.len(),
            pn == p@.len(),
            pn <= sn,
            0 <= i <= pn,
            forall|j: int| 0 <= j < i ==> s@[j] == p@[j],
        decreases pn - i,
    {
        if s.get_char(i) != p.get_char(i) {
            proof {
                assert(s@.subrange(0, p@.len() as int)[i as int] != p@[i as int]);
            }
            return false;
        }
        i = i + 1;
    }
    proof {
        assert(s@.subrange(0, p@.len() as int) =~= p@);
    }
    true
}

/// The fixed allow-list of public routes: the authentication endpoints, the
/// documentation, and the health check.
pub open spec fn spec_public_path(path: Seq<char>) -> bool {
    spec_has_prefix(path, "/api/v1/auth"@) || spec_has_prefix(path, "/docs"@) || path == "/health"@
}

/// Whether a request path is public: matched by prefix or equality against
/// the fixed allow-list, with no configuration involved.
pub fn is_public_path(path: &str) -> (r: bool)
    ensures
        r == spec_public_path(path@),
{
    has_prefix(path, "/api/v1/auth") || has_prefix(path, "/docs") || str_eq(path, "/health")
}

/// ASCII whitespace, as trimmed around a presented token.
pub open spec fn spec_is_space(c: char) -> bool {
    c == ' ' || c == '\t' || c == '\r' || c == '\n'
}

fn is_space_char(c: char) -> (r: bool)
    ensures
        r == spec_is_space(c),
{
    c == ' ' || c == '\t' || c == '\r' || c == '\n'
}

/// The sequence with leading whitespace removed.
pub open spec fn spec_trim_start(s: Seq<char>) -> Seq<char>
    decreases s.len(),
{
    if s.len() > 0 && spec_is_space(s[0]) {
        spec_trim_start(s.drop_first())
    } else {
        s
    }
}

/// The sequence with trailing whitespace removed.
pub open spec fn spec_trim_end(s: Seq<char>) -> Seq<char>
    decreases s.len(),
{
    if s.len() > 0 && spec_is_space(s.last()) {
        spec_trim_end(s.drop_last())
    } else {
        s
    }
}

/// The sequence with surrounding whitespace removed.
pub open spec fn spec_trim(s: Seq<char>) -> Seq<char> {
    spec_trim_end(spec_trim_start(s))
}

proof fn lemma_trim_start_skip(s: Seq<char>, j: int)
    requires
        0 <= j <= s.len(),
        forall|k: int| 0 <= k < j ==> spec_is_space(s[k]),
    ensures
        spec_trim_start(s) == spec_trim_start(s.skip(j)),
    decreases j,
{
    if j > 0 {
        assert(spec_is_space(s[0]));
        assert(spec_trim_start(s) == spec_trim_start(s.drop_first()));
        assert(s.drop_first() =~= s.skip(1));
        lemma_trim_start_skip(s.skip(1), j - 1);
        assert(s.skip(1).skip(j - 1) =~= s.skip(j));
    } else {
        assert(s.skip(0) =~= s);
    }
}

proof fn lemma_trim_end_take(s: Seq<char>, j: int)
    requires
        0 <= j <= s.len(),
        forall|k: int| j <= k < s.len() ==> spec_is_space(s[k]),
    ensures
        spec_trim_end(s) == spec_trim_end(s.take(j)),
    decreases s.len() - j,
{
    if j < s.len() {
        assert(spec_is_space(s.last()));
        assert(spec_trim_end(s) == spec_trim_end(s.drop_last()));
        assert(s.drop_last() =~= s.take(s.len() - 1));
        lemma_trim_end_take(s.take(s.len() - 1), j);
        assert(s.take(s.len() - 1).take(j) =~= s.take(j));
    } else {
        assert(s.take(j) =~= s);
    }
}

/// Removes surrounding ASCII whitespace.
fn trim_spaces<'a>(s: &'a str) -> (r: &'a str)
    ensures
        r@ == spec_trim(s@),
{
    let n = s.unicode_len();
    let mut start: usize = 0;
    while start < n && is_space_char(s.get_char(start))
        invariant
            n == s@.len(),
            0 <= start <= n,
            forall|k: int| 0 <= k < start ==> spec_is_space(s@[k]),
        decreases n - start,
    {
        start = start + 1;
    }
    let mut end: usize = n;
    while end > start && is_space_char(s.get_char(end - 1))
        invariant
            n == s@.len(),
            0 <= start <= end <= n,
            forall|k: int| end <= k < n ==> spec_is_space(s@[k]),
        decreases end,
    {
        end = end - 1;
    }
    let r = s.substring_char(start, end);
    proof {
        lemma_trim_start_skip(s@, start as int);
        let tail = s@.skip(start as int);
        if start < n {
            assert(!spec_is_space(s@[start as int]));
            assert(tail[0] == s@[start as int]);
            assert(spec_trim_start(tail) == tail);
        } else {
            assert(tail.len() == 0);
            assert(spec_trim_start(tail) == tail);
        }
        lemma_trim_end_take(tail, end - start);
        let mid = tail.take(end - start);
        if end > start {
            assert(mid.last() == s@[end - 1]);
            assert(!spec_is_space(mid.last()));
            assert(spec_trim_end(mid) == mid);
        } else {
            assert(mid.len() == 0);
            assert(spec_trim_end(mid) == mid);
        }
        assert(r@ =~= mid);
    }
    r
}

/// An authorization header that presents the bearer scheme,
/// case-insensitively, followed by a space.
pub open spec fn spec_bearer_scheme(s: Seq<char>) -> bool {
    &&& s.len() >= 7
    &&& (s[0] == 'b' || s[0] == 'B')
    &&& (s[1] == 'e' || s[1] == 'E')
    &&& (s[2] == 'a' || s[2] == 'A')
    &&& (s[3] == 'r' || s[3] == 'R')
    &&& (s[4] == 'e' || s[4] == 'E')
    &&& (s[5] == 'r' || s[5] == 'R')
    &&& s[6] == ' '
}

/// The token text presented by a bearer header: what follows the scheme,
/// with surrounding whitespace removed.
pub open spec fn spec_bearer_token(s: Seq<char>) -> Seq<char> {
    spec_trim(s.skip(7))
}

/// Extracts the token from an authorization header value: `None` unless the
/// header presents the bearer scheme.
pub fn parse_bearer<'a>(header: &'a str) -> (r: Option<&'a str>)
    ensures
        match r {
            Some(t) => spec_bearer_scheme(header@) && t@ == spec_bearer_token(header@),
            None => !spec_bearer_scheme(header@),
        },
{
    let n = header.unicode_len();
    if n < 7 {
        return None;
    }
    let c0 = header.get_char(0);
    let c1 = header.get_char(1);
    let c2 = header.get_char(2);
    let c3 = header.get_char(3);
    let c4 = header.get_char(4);
    let c5 = header.get_char(5);
    let c6 = header.get_char(6);
    let scheme = (c0 == 'b' || c0 == 'B') && (c1 == 'e' || c1 == 'E') && (c2 == 'a' || c2 == 'A')
        && (c3 == 'r' || c3 == 'R') && (c4 == 'e' || c4 == 'E') && (c5 == 'r' || c5 == 'R') && (c6
        == ' ');
    if !scheme {
        return None;
    }
    let rest = header.substring_char(7, n);
    proof {
        assert(rest@ =~= header@.skip(7));
    }
    Some(trim_spaces(rest))
}

/// The middleware's decision for one request.
#[derive(Debug, Clone)]
pub enum AuthDecision {
    /// Hand the request to the next stage, with the authenticated context
    /// when one was established.
    Proceed(Option<CurrentUser>),
    /// Short-circuit with an unauthorized response; no handler runs.
    Unauthorized,
}

/// Decides one request from its path, its authorization header and the
/// clock. A protected route requires a valid bearer token; a public route
/// proceeds regardless, authenticated exactly when a valid token is
/// presented with the bearer scheme.
pub fn authorize_request_at(
    service: &JwtService,
    path: &str,
    authorization: Option<&str>,
    now: i64,
) -> (r: AuthDecision)
    ensures
        ({
            let public = spec_public_path(path@);
            match authorization {
                None => if public {
                    r matches AuthDecision::Proceed(c) && c is None
                } else {
                    r is Unauthorized
                },
                Some(h) => {
                    if !spec_bearer_scheme(h@) {
                        if public {
                            r matches AuthDecision::Proceed(c) && c is None
                        } else {
                            r is Unauthorized
                        }
                    } else {
                        match spec_validate(
                            service.spec_secret(),
                            spec_bearer_token(h@),
                            now as int,
                        ) {
                            Ok(cl) => r matches AuthDecision::Proceed(c) && c matches Some(u)
                                && u@ == spec_context_of(cl),
                            Err(_) => if public {
                                r matches AuthDecision::Proceed(c) && c is None
                            } else {
                                r is Unauthorized
                            },
                        }
                    }
                },
            }
        }),
{
    let public = is_public_path(path);
    match authorization {
        None => {
            if public {
                AuthDecision::Proceed(None)
            } else {
                AuthDecision::Unauthorized
            }
        },
        Some(h) => {
            match parse_bearer(h) {
                None => {
                    if public {
                        AuthDecision::Proceed(None)
                    } else {
                        AuthDecision::Unauthorized
                    }
                },
                Some(token) => {
                    match service.validate_token_at(token, now) {
                        Ok(claims) => AuthDecision::Proceed(Some(context_from_claims(claims))),
                        Err(_) => {
                            if public {
                                AuthDecision::Proceed(None)
                            } else {
                                AuthDecision::Unauthorized
                            }
                        },
                    }
                },
            }
        },
    }
}

/// Admission to a protected route: the context when the header carries a
/// valid bearer token, the unauthorized error otherwise. Handlers behind
/// this gate trust the context and never re-validate the token.
pub fn require_auth(service: &JwtService, authorization: Option<&str>, now: i64) -> (r: Result<
    CurrentUser,
    DomainError,
>)
    ensures
        match r {
            Ok(u) => ({
                &&& authorization matches Some(h)
                &&& spec_bearer_scheme(h@)
                &&& spec_validate(service.spec_secret(), spec_bearer_token(h@), now as int)
                    matches Ok(cl)
                &&& u@ == spec_context_of(cl)
            }),
            Err(e) => e matches DomainError::TokenInvalid || e matches DomainError::TokenExpired,
        },
        r is Ok <==> (authorization matches Some(h) && spec_bearer_scheme(h@) && spec_validate(
            service.spec_secret(),
            spec_bearer_token(h@),
            now as int,
        ) is Ok),
        match authorization {
            Some(h) => spec_bearer_scheme(h@) ==> (match spec_validate(
                service.spec_secret(),
                spec_bearer_token(h@),
                now as int,
            ) {
                Ok(_) => r is Ok,
                Err(x) => r == Err::<CurrentUser, DomainError>(x),
            }),
            None => true,
        },
        authorization is None ==> (r matches Err(e) && e matches DomainError::TokenInvalid),
{
    match authorization {
        None => Err(DomainError::TokenInvalid),
        Some(h) => {
            match parse_bearer(h) {
                None => Err(DomainError::TokenInvalid),
                Some(token) => {
                    match service.validate_token_at(token, now) {
                        Ok(claims) => Ok(context_from_claims(claims)),
                        Err(e) => Err(e),
                    }
                },
            }
        },
    }
}

} // verus!
