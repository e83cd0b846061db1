//! Credential hashing: one-way password hashing with a per-hash random salt,
//! constant-time verification, and the password strength policy.
//!
//! The memory-hard hash itself is computed by the `argon2` crate; its outcome
//! on a (password, stored hash) pair is deterministic and is given the name
//! [`password_verdict`]. The strength policy is plain verified logic.

use vstd::prelude::*;
use vstd::string::StrSliceExecFns;
use vstd::string::StringExecFns;

use crate::errors::DomainError;

verus! {

/// Outcome of the memory-hard verifier on a (password, stored hash) pair:
/// `None` when the stored hash cannot be processed at all (structurally
/// invalid or unsupported), `Some(b)` with `b` telling whether the password
/// matches. The verifier reads every parameter, the salt included, out of the
/// stored hash, so the outcome depends on the pair alone.
pub uninterp spec fn password_verdict(password: Seq<char>, hash: Seq<char>) -> Option<bool>;

/// What verification of a (password, stored hash) pair yields: a match flag,
/// or an error for a stored hash that cannot be processed.
pub open spec fn spec_verify_outcome(password: Seq<char>, hash: Seq<char>) -> Result<bool, ()> {
    match password_verdict(password, hash) {
        Some(b) => Ok(b),
        None => Err(()),
    }
}

/// Relies on `argon2::Argon2::hash_password` (PHC string output, fresh random
/// 16-byte salt from the system generator): on success the produced string is
/// a well-formed hash that verifies as a match for the hashed password.
#[verifier::external_body]
fn argon2_hash(password: &str) -> (r: Result<String, ()>)
    ensures
        r matches Ok(h) ==> password_verdict(password@, h@) == Some(true),
{
    let hashed: Result<argon2::PasswordHash, argon2::password_hash::Error> =
        argon2::PasswordHasher::hash_password(&argon2::Argon2::default(), password.as_bytes());
    match hashed {
        Ok(h) => Ok(h.to_string()),
        Err(_) => Err(()),
    }
}

/// Relies on `argon2::Argon2::verify_password` on a PHC hash string: it
/// recomputes the hash with the salt and parameters stored in the hash and
/// compares in constant time, a deterministic function of the pair.
#[verifier::external_body]
fn argon2_verify(password: &str, hash: &str) -> (r: Result<bool, ()>)
    ensures
        r == spec_verify_outcome(password@, hash@),
{
    let a = argon2::Argon2::default();
    match argon2::PasswordVerifier::<str>::verify_password(&a, password.as_bytes(), hash) {
        Ok(()) => Ok(true),
        Err(argon2::password_hash::Error::PasswordInvalid) => Ok(false),
        Err(_) => Err(()),
    }
}

/// Relies on `char::is_lowercase`: the Unicode lowercase property.
pub uninterp spec fn lowercase_char(c: char) -> bool;

/// Relies on `char::is_uppercase`: the Unicode uppercase property.
pub uninterp spec fn uppercase_char(c: char) -> bool;

/// Relies on `char::is_numeric`: the Unicode numeric property.
pub uninterp spec fn numeric_char(c: char) -> bool;

/// Relies on `char::is_lowercase`.
#[verifier::external_body]
fn is_lowercase_char(c: char) -> (r: bool)
    ensures
        r == lowercase_char(c),
{
    c.is_lowercase()
}

/// Relies on `char::is_uppercase`.
#[verifier::external_body]
fn is_uppercase_char(c: char) -> (r: bool)
    ensures
        r == uppercase_char(c),
{
    c.is_uppercase()
}

/// Relies on `char::is_numeric`.
#[verifier::external_body]
fn is_numeric_char(c: char) -> (r: bool)
    ensures
        r == numeric_char(c),
{
    c.is_numeric()
}

/// The characters counted as special by the strength policy.
pub open spec fn special_char(c: char) -> bool {
    c == '!' || c == '@' || c == '#' || c == '$' || c == '%' || c == '^' || c == '&' || c == '*'
        || c == '(' || c == ')' || c == '_' || c == '+' || c == '-' || c == '=' || c == '['
        || c == ']' || c == '{' || c == '}' || c == '|' || c == ';' || c == ':' || c == ','
        || c == '.' || c == '<' || c == '>' || c == '?'
}

fn is_special_char(c: char) -> (r: bool)
    ensures
        r == special_char(c),
{
    match c {
        '!' | '@' | '#' | '$' | '%' | '^' | '&' | '*' | '(' | ')' | '_' | '+' | '-' | '=' | '['
            | ']' | '{' | '}' | '|' | ';' | ':' | ',' | '.' | '<' | '>' | '?' => true,
        _ => false,
    }
}

/// Shortest password the policy accepts, in characters.
pub const MIN_PASSWORD_CHARS: usize = 8;

/// Longest password the policy accepts, in characters.
pub const MAX_PASSWORD_CHARS: usize = 128;

pub open spec fn has_lowercase(s: Seq<char>) -> bool {
    exists|i: int| 0 <= i < s.len() && lowercase_char(s[i])
}

pub open spec fn has_uppercase(s: Seq<char>) -> bool {
    exists|i: int| 0 <= i < s.len() && uppercase_char(s[i])
}

pub open spec fn has_numeric(s: Seq<char>) -> bool {
    exists|i: int| 0 <= i < s.len() && numeric_char(s[i])
}

pub open spec fn has_special(s: Seq<char>) -> bool {
    exists|i: int| 0 <= i < s.len() && special_char(s[i])
}

/// The violation messages of the strength policy for a password, in the fixed
/// order in which the rules are checked.
pub open spec fn spec_strength_violations(s: &str) -> Seq<Seq<char>> {
    (if s@.len() < MIN_PASSWORD_CHARS {
        seq!["Password must be at least 8 characters long"@]
    } else {
        Seq::empty()
    }) + (if s@.len() > MAX_PASSWORD_CHARS {
        seq!["Password must be no more than 128 characters long"@]
    } else {
        Seq::empty()
    }) + (if !has_lowercase(s@) {
        seq!["Password must contain at least one lowercase letter"@]
    } else {
        Seq::empty()
    }) + (if !has_uppercase(s@) {
        seq!["Password must contain at least one uppercase letter"@]
    } else {
        Seq::empty()
    }) + (if !has_numeric(s@) {
        seq!["Password must contain at least one number"@]
    } else {
        Seq::empty()
    }) + (if !has_special(s@) {
        seq!["Password must contain at least one special character"@]
    } else {
        Seq::empty()
    })
}

/// Whether a password satisfies every rule of the strength policy.
pub open spec fn spec_strong_password(s: &str) -> bool {
    &&& MIN_PASSWORD_CHARS <= s@.len() <= MAX_PASSWORD_CHARS
    &&& has_lowercase(s@)
    &&& has_uppercase(s@)
    &&& has_numeric(s@)
    &&& has_special(s@)
}

/// One-way password hashing and verification.
#[derive(Debug, Clone)]
pub struct PasswordService {}

impl PasswordService {
    pub fn new() -> Self {
        Self {  }
    }

    /// Derives a memory-hard hash of the password with a fresh random salt
    /// embedded in the output. Fails only when the entropy source does.
    pub fn hash_password(&self, password: &str) -> (r: Result<String, DomainError>)
        ensures
            r matches Ok(h) ==> password_verdict(password@, h@) == Some(true),
            r matches Err(e) ==> e matches DomainError::InternalError { .. },
    {
        match argon2_hash(password) {
            Ok(h) => Ok(h),
            Err(_) => Err(
                DomainError::InternalError { message: String::from_str("password hashing failed") },
            ),
        }
    }

    /// Recomputes the hash and compares: `Ok(false)` on a mismatch, an error
    /// only when the stored hash is structurally invalid.
    pub fn verify_password(&self, password: &str, hash: &str) -> (r: Result<bool, DomainError>)
        ensures
            r matches Ok(b) ==> spec_verify_outcome(password@, hash@) == Ok::<bool, ()>(b),
            r matches Err(e) ==> spec_verify_outcome(password@, hash@) == Err::<bool, ()>(())
                && e matches DomainError::InternalError { .. },
    {
        match argon2_verify(password, hash) {
            Ok(b) => Ok(b),
            Err(_) => Err(
                DomainError::InternalError { message: String::from_str("stored hash is invalid") },
            ),
        }
    }

    /// Checks the strength policy: length within bounds and one character of
    /// each required class. Returns the violated rules, in checking order.
    pub fn validate_password_strength(&self, password: &str) -> (r: Result<(), Vec<String>>)
        ensures
            r is Ok <==> spec_strong_password(password),
            r matches Err(v) ==> v.deep_view() == spec_strength_violations(password)
                && v.len() > 0,
    {
        let n = password.unicode_len();
        let mut found_lower = false;
        let mut found_upper = false;
        let mut found_numeric = false;
        let mut found_special = false;
        let mut i: usize = 0;
        while i < n
            invariant
                n == password@.len(),
                0 <= i <= n,
                found_lower == exists|j: int| 0 <= j < i && lowercase_char(password@[j]),
                found_upper == exists|j: int| 0 <= j < i && uppercase_char(password@[j]),
                found_numeric == exists|j: int| 0 <= j < i && numeric_char(password@[j]),
                found_special == exists|j: int| 0 <= j < i && special_char(password@[j]),
            decreases n - i,
        {
            let c = password.get_char(i);
            if is_lowercase_char(c) {
                found_lower = true;
            }
            if is_uppercase_char(c) {
                found_upper = true;
            }
            if is_numeric_char(c) {
                found_numeric = true;
            }
            if is_special_char(c) {
                found_special = true;
            }
            i = i + 1;
        }
        let mut errors: Vec<String> = Vec::new();
        if n < MIN_PASSWORD_CHARS {
            errors.push(String::from_str("Password must be at least 8 characters long"));
        }
        if n > MAX_PASSWORD_CHARS {
            errors.push(String::from_str("Password must be no more than 128 characters long"));
        }
        if !found_lower {
            errors.push(String::from_str("Password must contain at least one lowercase letter"));
        }
        if !found_upper {
            errors.push(String::from_str("Password must contain at least one uppercase letter"));
        }
        if !found_numeric {
            errors.push(String::from_str("Password must contain at least one number"));
        }
        if !found_special {
            errors.push(String::from_str("Password must contain at least one special character"));
        }
        proof {
            assert(errors.deep_view() =~~= spec_strength_violations(password));
        }
        if errors.is_empty() {
            Ok(())
        } else {
            Err(errors)
        }
    }
}

impl Default for PasswordService {
    fn default() -> (r: Self)
        ensures
            r == (PasswordService {  }),
    {
        Self::new()
    }
}

/// A stored hash freshly derived from a password always verifies as a match
/// for that same password.
pub proof fn lemma_hash_then_verify(password: Seq<char>, hash: Seq<char>)
    requires
        password_verdict(password, hash) == Some(true),
    ensures
        spec_verify_outcome(password, hash) == Ok::<bool, ()>(true),
{
}

} // verus!
