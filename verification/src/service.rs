//! Authentication service: tenant registration, login and token refresh.
//!
//! The relational store of record is modeled by [`Directory`]: tenants keyed
//! by their globally unique slug, identities by their globally unique email,
//! memberships binding the two. Registration creates a tenant together with
//! its owning identity atomically: on any failure nothing changes. Login
//! resolves an identity to one active (membership, tenant) pair, verifies
//! the password, and issues both tokens; refresh resolves a live refresh
//! token to its owner, re-derives an access token and rotates the refresh
//! token.

use vstd::prelude::*;
use vstd::string::StrSliceExecFns;
use vstd::string::StringSliceAdditionalSpecFns;
use vstd::string::StringExecFns;

use crate::common::str_eq;
use crate::errors::DomainError;
use crate::password::PasswordService;
use crate::password::password_verdict;
use crate::session::SessionStore;
use crate::session::SessionView;
use crate::token::JwtService;
use crate::token::token_claims;

verus! {

/// Login request.
#[derive(Debug, Clone)]
pub struct LoginRequest {
    pub email: String,
    pub password: String,
    pub remember_me: Option<bool>,
}

/// Register tenant request.
#[derive(Debug, Clone)]
pub struct RegisterTenantRequest {
    pub company_name: String,
    pub slug: String,
    pub admin_email: String,
    pub admin_password: String,
    pub admin_first_name: String,
    pub admin_last_name: String,
}

/// Token refresh request.
#[derive(Debug, Clone)]
pub struct RefreshTokenRequest {
    pub refresh_token: String,
}

/// Accept invitation request.
#[derive(Debug, Clone)]
pub struct AcceptInvitationRequest {
    pub token: String,
    pub password: String,
}

/// Change password request.
#[derive(Debug, Clone)]
pub struct ChangePasswordRequest {
    pub current_password: String,
    pub new_password: String,
}

/// Forgot password request.
#[derive(Debug, Clone)]
pub struct ForgotPasswordRequest {
    pub email: String,
}

/// Reset password request.
#[derive(Debug, Clone)]
pub struct ResetPasswordRequest {
    pub token: String,
    pub new_password: String,
}

/// Update profile request.
#[derive(Debug, Clone)]
pub struct UpdateProfileRequest {
    pub first_name: Option<String>,
    pub last_name: Option<String>,
}

/// Relies on `validator::ValidateEmail::validate_email` for `&str`: the
/// HTML5 e-mail shape, a deterministic function of the text.
pub uninterp spec fn valid_email(s: Seq<char>) -> bool;

/// Relies on `validator::ValidateEmail::validate_email`.
#[verifier::external_body]
fn is_valid_email(s: &str) -> (r: bool)
    ensures
        r == valid_email(s@),
{
    validator::ValidateEmail::validate_email(&s)
}

/// The input rules of registration: bounded names and slug, a well-formed
/// e-mail, a password of at least eight characters.
pub open spec fn spec_valid_register(req: &RegisterTenantRequest) -> bool {
    &&& 2 <= req.company_name@.len() <= 100
    &&& 2 <= req.slug@.len() <= 50
    &&& valid_email(req.admin_email@)
    &&& req.admin_password@.len() >= 8
    &&& 1 <= req.admin_first_name@.len() <= 50
    &&& 1 <= req.admin_last_name@.len() <= 50
}

/// The input rules of login: a well-formed e-mail and a password of at
/// least eight characters.
pub open spec fn spec_valid_login(req: &LoginRequest) -> bool {
    valid_email(req.email@) && req.password@.len() >= 8
}

/// The input rule of refresh: a token of at least sixteen characters.
pub open spec fn spec_valid_refresh(req: &RefreshTokenRequest) -> bool {
    req.refresh_token@.len() >= 16
}

/// Checks the registration input rules.
pub fn validate_register(req: &RegisterTenantRequest) -> (r: Result<(), DomainError>)
    ensures
        r is Ok <==> spec_valid_register(req),
        r matches Err(e) ==> e matches DomainError::ValidationFailed { .. },
{
    let cn = req.company_name.as_str().unicode_len();
    let sl = req.slug.as_str().unicode_len();
    let pw = req.admin_password.as_str().unicode_len();
    let fname = req.admin_first_name.as_str().unicode_len();
    let lname = req.admin_last_name.as_str().unicode_len();
    let ok = 2 <= cn && cn <= 100 && 2 <= sl && sl <= 50 && is_valid_email(
        req.admin_email.as_str(),
    ) && pw >= 8 && 1 <= fname && fname <= 50 && 1 <= lname && lname <= 50;
    if ok {
        Ok(())
    } else {
        Err(DomainError::ValidationFailed { message: String::from_str("invalid input") })
    }
}

/// Checks the login input rules.
pub fn validate_login(req: &LoginRequest) -> (r: Result<(), DomainError>)
    ensures
        r is Ok <==> spec_valid_login(req),
        r matches Err(e) ==> e matches DomainError::ValidationFailed { .. },
{
    let pw = req.password.as_str().unicode_len();
    if is_valid_email(req.email.as_str()) && pw >= 8 {
        Ok(())
    } else {
        Err(DomainError::ValidationFailed { message: String::from_str("invalid input") })
    }
}

/// Checks the refresh input rule.
pub fn validate_refresh(req: &RefreshTokenRequest) -> (r: Result<(), DomainError>)
    ensures
        r is Ok <==> spec_valid_refresh(req),
        r matches Err(e) ==> e matches DomainError::ValidationFailed { .. },
{
    if req.refresh_token.as_str().unicode_len() >= 16 {
        Ok(())
    } else {
        Err(DomainError::ValidationFailed { message: String::from_str("invalid input") })
    }
}

/// An identity of the store: keyed by its globally unique e-mail.
#[derive(Debug, Clone)]
pub struct UserRecord {
    pub email: String,
    pub password_hash: String,
    pub first_name: String,
    pub last_name: String,
    pub is_active: bool,
}

/// A tenant of the store: keyed by its globally unique, immutable slug. The
/// settings blob is opaque to this library and carried through unchanged.
#[derive(Debug, Clone)]
pub struct TenantRecord {
    pub name: String,
    pub slug: String,
    pub plan: String,
    pub settings: String,
    pub is_active: bool,
}

/// A membership binding one identity to one tenant under a role label.
#[derive(Debug, Clone)]
pub struct MembershipRecord {
    pub tenant_slug: String,
    pub user_email: String,
    pub role: String,
    pub is_active: bool,
}

/// The mathematical content of an identity.
pub ghost struct UserView {
    pub email: Seq<char>,
    pub password_hash: Seq<char>,
    pub first_name: Seq<char>,
    pub last_name: Seq<char>,
    pub is_active: bool,
}

/// The mathematical content of a tenant.
pub ghost struct TenantView {
    pub name: Seq<char>,
    pub slug: Seq<char>,
    pub plan: Seq<char>,
    pub settings: Seq<char>,
    pub is_active: bool,
}

/// The mathematical content of a membership.
pub ghost struct MembershipView {
    pub tenant_slug: Seq<char>,
    pub user_email: Seq<char>,
    pub role: Seq<char>,
    pub is_active: bool,
}

impl View for UserRecord {
    type V = UserView;

    open spec fn view(&self) -> UserView {
        UserView {
            email: self.email@,
            password_hash: self.password_hash@,
            first_name: self.first_name@,
            last_name: self.last_name@,
            is_active: self.is_active,
        }
    }
}

impl DeepView for UserRecord {
    type V = UserView;

    open spec fn deep_view(&self) -> UserView {
        self.view()
    }
}

impl View for TenantRecord {
    type V = TenantView;

    open spec fn view(&self) -> TenantView {
        TenantView {
            name: self.name@,
            slug: self.slug@,
            plan: self.plan@,
            settings: self.settings@,
            is_active: self.is_active,
        }
    }
}

impl DeepView for TenantRecord {
    type V = TenantView;

    open spec fn deep_view(&self) -> TenantView {
        self.view()
    }
}

impl View for MembershipRecord {
    type V = MembershipView;

    open spec fn view(&self) -> MembershipView {
        MembershipView {
            tenant_slug: self.tenant_slug@,
            user_email: self.user_email@,
            role: self.role@,
            is_active: self.is_active,
        }
    }
}

impl DeepView for MembershipRecord {
    type V = MembershipView;

    open spec fn deep_view(&self) -> MembershipView {
        self.view()
    }
}

/// The relational store of record: tenants, identities and memberships.
#[derive(Debug, Clone)]
pub struct Directory {
    tenants: Vec<TenantRecord>,
    users: Vec<UserRecord>,
    memberships: Vec<MembershipRecord>,
}

impl Directory {
    pub closed spec fn spec_tenants(&self) -> Seq<TenantView> {
        self.tenants.deep_view()
    }

    pub closed spec fn spec_users(&self) -> Seq<UserView> {
        self.users.deep_view()
    }

    pub closed spec fn spec_memberships(&self) -> Seq<MembershipView> {
        self.memberships.deep_view()
    }

    /// Slugs and e-mails are globally unique, and every membership refers to
    /// an existing tenant and an existing identity.
    pub open spec fn wf(&self) -> bool {
        &&& forall|i: int, j: int|
            0 <= i < j < self.spec_tenants().len() ==> self.spec_tenants()[i].slug
                != self.spec_tenants()[j].slug
        &&& forall|i: int, j: int|
            0 <= i < j < self.spec_users().len() ==> self.spec_users()[i].email
                != self.spec_users()[j].email
        &&& forall|k: int|
            0 <= k < self.spec_memberships().len() ==> self.spec_slug_taken(
                #[trigger] self.spec_memberships()[k].tenant_slug,
            ) && self.spec_email_taken(self.spec_memberships()[k].user_email)
    }

    pub open spec fn spec_slug_taken(&self, slug: Seq<char>) -> bool {
        exists|i: int| 0 <= i < self.spec_tenants().len() && self.spec_tenants()[i].slug == slug
    }

    pub open spec fn spec_email_taken(&self, email: Seq<char>) -> bool {
        exists|i: int| 0 <= i < self.spec_users().len() && self.spec_users()[i].email == email
    }

    /// The tenant of a slug, where one exists.
    pub open spec fn spec_tenant_of(&self, slug: Seq<char>) -> TenantView {
        self.spec_tenants()[choose|i: int|
            0 <= i < self.spec_tenants().len() && self.spec_tenants()[i].slug == slug]
    }

    /// The identity of an e-mail, where one exists.
    pub open spec fn spec_user_of(&self, email: Seq<char>) -> UserView {
        self.spec_users()[choose|i: int|
            0 <= i < self.spec_users().len() && self.spec_users()[i].email == email]
    }

    pub fn new() -> (r: Self)
        ensures
            r.wf(),
            r.spec_tenants() == Seq::<TenantView>::empty(),
            r.spec_users() == Seq::<UserView>::empty(),
            r.spec_memberships() == Seq::<MembershipView>::empty(),
    {
        let r = Self { tenants: Vec::new(), users: Vec::new(), memberships: Vec::new() };
        proof {
            assert(r.spec_tenants() =~= Seq::<TenantView>::empty());
            assert(r.spec_users() =~= Seq::<UserView>::empty());
            assert(r.spec_memberships() =~= Seq::<MembershipView>::empty());
        }
        r
    }

    /// Every tenant record with a slug agrees with `spec_tenant_of`.
    proof fn lemma_tenant_unique(&self, i: int)
        requires
            self.wf(),
            0 <= i < self.spec_tenants().len(),
        ensures
            self.spec_slug_taken(self.spec_tenants()[i].slug),
            self.spec_tenant_of(self.spec_tenants()[i].slug) == self.spec_tenants()[i],
    {
        let s = self.spec_tenants()[i].slug;
        let j = choose|j: int|
            0 <= j < self.spec_tenants().len() && self.spec_tenants()[j].slug == s;
        if i < j {
            assert(self.spec_tenants()[i].slug != self.spec_tenants()[j].slug);
        } else if j < i {
            assert(self.spec_tenants()[j].slug != self.spec_tenants()[i].slug);
        }
    }

    /// Every identity record with an e-mail agrees with `spec_user_of`.
    proof fn lemma_user_unique(&self, i: int)
        requires
            self.wf(),
            0 <= i < self.spec_users().len(),
        ensures
            self.spec_email_taken(self.spec_users()[i].email),
            self.spec_user_of(self.spec_users()[i].email) == self.spec_users()[i],
    {
        let s = self.spec_users()[i].email;
        let j = choose|j: int| 0 <= j < self.spec_users().len() && self.spec_users()[j].email == s;
        if i < j {
            assert(self.spec_users()[i].email != self.spec_users()[j].email);
        } else if j < i {
            assert(self.spec_users()[j].email != self.spec_users()[i].email);
        }
    }

    /// Finds a tenant by slug.
    pub fn find_tenant(&self, slug: &str) -> (r: Option<&TenantRecord>)
        requires
            self.wf(),
        ensures
            match r {
                Some(t) => self.spec_slug_taken(slug@) && t@ == self.spec_tenant_of(slug@),
                None => !self.spec_slug_taken(slug@),
            },
    {
        let n = self.tenants.len();
        let mut i: usize = 0;
        while i < n
            invariant
                self.wf(),
                n == self.spec_tenants().len(),
                0 <= i <= n,
                forall|j: int| 0 <= j < i ==> self.spec_tenants()[j].slug != slug@,
            decreases n - i,
        {
            if str_eq(self.tenants[i].slug.as_str(), slug) {
                proof {
                    self.lemma_tenant_unique(i as int);
                }
                return Some(&self.tenants[i]);
            }
            i = i + 1;
        }
        None
    }

    /// Finds an identity by e-mail.
    pub fn find_user(&self, email: &str) -> (r: Option<&UserRecord>)
        requires
            self.wf(),
        ensures
            match r {
                Some(u) => self.spec_email_taken(email@) && u@ == self.spec_user_of(email@),
                None => !self.spec_email_taken(email@),
            },
    {
        let n = self.users.len();
        let mut i: usize = 0;
        while i < n
            invariant
                self.wf(),
                n == self.spec_users().len(),
                0 <= i <= n,
                forall|j: int| 0 <= j < i ==> self.spec_users()[j].email != email@,
            decreases n - i,
        {
            if str_eq(self.users[i].email.as_str(), email) {
                proof {
                    self.lemma_user_unique(i as int);
                }
                return Some(&self.users[i]);
            }
            i = i + 1;
        }
        None
    }

    /// A role label is sourced from an active membership of the identity in
    /// the tenant.
    pub open spec fn spec_role_sourced(
        &self,
        email: Seq<char>,
        slug: Seq<char>,
        role: Seq<char>,
    ) -> bool {
        exists|k: int|
            0 <= k < self.spec_memberships().len() && {
                let m = #[trigger] self.spec_memberships()[k];
                m.user_email == email && m.tenant_slug == slug && m.is_active && m.role == role
            }
    }

    /// The role labels of the identity's active memberships in a tenant:
    /// the seam through which role and permission sourcing will grow. Every
    /// returned label is sourced from such a membership, and every such
    /// membership contributes its label.
    pub fn roles_of(&self, email: &str, slug: &str) -> (r: Vec<String>)
        ensures
            forall|i: int|
                0 <= i < r.deep_view().len() ==> self.spec_role_sourced(
                    email@,
                    slug@,
                    #[trigger] r.deep_view()[i],
                ),
            forall|k: int|
                0 <= k < self.spec_memberships().len() && (#[trigger] self.spec_memberships()[k]).user_email
                    == email@ && self.spec_memberships()[k].tenant_slug == slug@
                    && self.spec_memberships()[k].is_active ==> r.deep_view().contains(
                    self.spec_memberships()[k].role,
                ),
    {
        let n = self.memberships.len();
        let mut out: Vec<String> = Vec::new();
        let mut i: usize = 0;
        while i < n
            invariant
                n == self.spec_memberships().len(),
                0 <= i <= n,
                forall|a: int|
                    0 <= a < out.deep_view().len() ==> self.spec_role_sourced(
                        email@,
                        slug@,
                        #[trigger] out.deep_view()[a],
                    ),
                forall|k: int|
                    0 <= k < i && (#[trigger] self.spec_memberships()[k]).user_email == email@
                        && self.spec_memberships()[k].tenant_slug == slug@
                        && self.spec_memberships()[k].is_active ==> out.deep_view().contains(
                        self.spec_memberships()[k].role,
                    ),
            decreases n - i,
        {
            let m = &self.memberships[i];
            if m.is_active && str_eq(m.user_email.as_str(), email) && str_eq(
                m.tenant_slug.as_str(),
                slug,
            ) {
                let ghost dv0 = out.deep_view();
                out.push(m.role.clone());
                proof {
                    assert(out.deep_view().len() == dv0.len() + 1);
                    assert(forall|a: int| 0 <= a < dv0.len() ==> out.deep_view()[a] == dv0[a]);
                    assert forall|x: Seq<char>| dv0.contains(x) implies out.deep_view().contains(
                        x,
                    ) by {
                        let a = choose|a: int| 0 <= a < dv0.len() && dv0[a] == x;
                        assert(out.deep_view()[a] == x);
                    }
                    assert(out.deep_view()[dv0.len() as int] == self.spec_memberships()[
                        i as int].role);
                    assert(out.deep_view().contains(self.spec_memberships()[i as int].role));
                    assert forall|a: int|
                        0 <= a < out.deep_view().len() implies self.spec_role_sourced(
                        email@,
                        slug@,
                        #[trigger] out.deep_view()[a],
                    ) by {
                        if a < dv0.len() {
                            assert(out.deep_view()[a] == dv0[a]);
                        } else {
                            assert(out.deep_view()[a] == self.spec_memberships()[i as int].role);
                            let mv = self.spec_memberships()[i as int];
                            assert(mv.user_email == email@ && mv.tenant_slug == slug@
                                && mv.is_active);
                        }
                    }
                }
            }
            i = i + 1;
        }
        out
    }
}


/// The identity as returned to clients: no credential material.
#[derive(Debug, Clone)]
pub struct UserProfile {
    pub email: String,
    pub first_name: String,
    pub last_name: String,
    pub is_active: bool,
}

/// The mathematical content of a returned identity.
pub ghost struct UserProfileView {
    pub email: Seq<char>,
    pub first_name: Seq<char>,
    pub last_name: Seq<char>,
    pub is_active: bool,
}

impl View for UserProfile {
    type V = UserProfileView;

    open spec fn view(&self) -> UserProfileView {
        UserProfileView {
            email: self.email@,
            first_name: self.first_name@,
            last_name: self.last_name@,
            is_active: self.is_active,
        }
    }
}

/// The public face of an identity record.
pub open spec fn spec_profile_of(u: UserView) -> UserProfileView {
    UserProfileView {
        email: u.email,
        first_name: u.first_name,
        last_name: u.last_name,
        is_active: u.is_active,
    }
}

/// Login response: the identity, its tenant, both tokens and the absolute
/// expiry of the access token.
#[derive(Debug, Clone)]
pub struct LoginResponse {
    pub user: UserProfile,
    pub tenant: TenantRecord,
    pub permissions: Vec<String>,
    pub access_token: String,
    pub refresh_token: String,
    pub expires_at: i64,
}

impl Directory {
    /// Membership `k` can carry a login for `email`: it is the identity's,
    /// it is active, and its tenant is active.
    pub open spec fn spec_login_candidate(&self, email: Seq<char>, k: int) -> bool {
        &&& 0 <= k < self.spec_memberships().len()
        &&& self.spec_memberships()[k].user_email == email
        &&& self.spec_memberships()[k].is_active
        &&& self.spec_slug_taken(self.spec_memberships()[k].tenant_slug)
        &&& self.spec_tenant_of(self.spec_memberships()[k].tenant_slug).is_active
    }

    /// Some active membership in an active tenant exists for the e-mail.
    pub open spec fn spec_can_login(&self, email: Seq<char>) -> bool {
        exists|k: int| self.spec_login_candidate(email, k)
    }

    /// Resolves an e-mail to its identity together with one active
    /// membership in an active tenant; `None` when no such pair exists. As
    /// in the store of record, which of several memberships answers is not
    /// specified.
    pub fn find_login(&self, email: &str) -> (r: Option<
        (&UserRecord, &MembershipRecord, &TenantRecord),
    >)
        requires
            self.wf(),
        ensures
            match r {
                Some(triple) => {
                    &&& self.spec_email_taken(email@)
                    &&& triple.0@ == self.spec_user_of(email@)
                    &&& exists|k: int|
                        self.spec_login_candidate(email@, k) && #[trigger] self.spec_memberships()[k]
                            == triple.1@
                    &&& triple.1@.user_email == email@
                    &&& triple.1@.is_active
                    &&& self.spec_slug_taken(triple.1@.tenant_slug)
                    &&& triple.2@ == self.spec_tenant_of(triple.1@.tenant_slug)
                    &&& triple.2@.is_active
                },
                None => !self.spec_can_login(email@),
            },
    {
        let n = self.memberships.len();
        let mut i: usize = 0;
        while i < n
            invariant
                self.wf(),
                n == self.spec_memberships().len(),
                0 <= i <= n,
                forall|j: int| 0 <= j < i ==> !self.spec_login_candidate(email@, j),
            decreases n - i,
        {
            let m = &self.memberships[i];
            if m.is_active && str_eq(m.user_email.as_str(), email) {
                match self.find_tenant(m.tenant_slug.as_str()) {
                    Some(t) => {
                        if t.is_active {
                            match self.find_user(email) {
                                Some(u) => {
                                    proof {
                                        assert(self.spec_login_candidate(email@, i as int));
                                    }
                                    return Some((u, m, t));
                                },
                                None => {
                                    proof {
                                        let mv = self.spec_memberships()[i as int];
                                        assert(self.spec_email_taken(mv.user_email));
                                        assert(false);
                                    }
                                },
                            }
                        }
                    },
                    None => {
                        proof {
                            let mv = self.spec_memberships()[i as int];
                            assert(self.spec_slug_taken(mv.tenant_slug));
                            assert(false);
                        }
                    },
                }
            }
            proof {
                assert(!self.spec_login_candidate(email@, i as int));
            }
            i = i + 1;
        }
        None
    }

    /// Inserts, in one step, a tenant, its owning identity and the owner
    /// membership. The caller has already checked uniqueness.
    fn insert_registration(&mut self, req: &RegisterTenantRequest, password_hash: String)
        requires
            old(self).wf(),
            !old(self).spec_slug_taken(req.slug@),
            !old(self).spec_email_taken(req.admin_email@),
        ensures
            final(self).wf(),
            final(self).spec_tenants() == old(self).spec_tenants().push(
                TenantView {
                    name: req.company_name@,
                    slug: req.slug@,
                    plan: "basic"@,
                    settings: "{}"@,
                    is_active: true,
                },
            ),
            final(self).spec_users() == old(self).spec_users().push(
                UserView {
                    email: req.admin_email@,
                    password_hash: password_hash@,
                    first_name: req.admin_first_name@,
                    last_name: req.admin_last_name@,
                    is_active: true,
                },
            ),
            final(self).spec_memberships() == old(self).spec_memberships().push(
                MembershipView {
                    tenant_slug: req.slug@,
                    user_email: req.admin_email@,
                    role: "owner"@,
                    is_active: true,
                },
            ),
    {
        let tenant = TenantRecord {
            name: req.company_name.clone(),
            slug: req.slug.clone(),
            plan: String::from_str("basic"),
            settings: String::from_str("{}"),
            is_active: true,
        };
        let user = UserRecord {
            email: req.admin_email.clone(),
            password_hash,
            first_name: req.admin_first_name.clone(),
            last_name: req.admin_last_name.clone(),
            is_active: true,
        };
        let membership = MembershipRecord {
            tenant_slug: req.slug.clone(),
            user_email: req.admin_email.clone(),
            role: String::from_str("owner"),
            is_active: true,
        };
        let ghost tv = tenant@;
        let ghost uv = user@;
        let ghost mv = membership@;
        self.tenants.push(tenant);
        self.users.push(user);
        self.memberships.push(membership);
        proof {
            let t0 = old(self).spec_tenants();
            let u0 = old(self).spec_users();
            let m0 = old(self).spec_memberships();
            assert(self.spec_tenants() =~= t0.push(tv));
            assert(self.spec_users() =~= u0.push(uv));
            assert(self.spec_memberships() =~= m0.push(mv));
            assert forall|a: int, b: int|
                0 <= a < b < self.spec_tenants().len() implies self.spec_tenants()[a].slug
                != self.spec_tenants()[b].slug by {
                if b < t0.len() {
                    assert(t0[a].slug != t0[b].slug);
                } else {
                    if self.spec_tenants()[a].slug == req.slug@ {
                        assert(old(self).spec_slug_taken(req.slug@));
                    }
                }
            }
            assert forall|a: int, b: int|
                0 <= a < b < self.spec_users().len() implies self.spec_users()[a].email
                != self.spec_users()[b].email by {
                if b < u0.len() {
                    assert(u0[a].email != u0[b].email);
                } else {
                    if self.spec_users()[a].email == req.admin_email@ {
                        assert(old(self).spec_email_taken(req.admin_email@));
                    }
                }
            }
            assert forall|k: int|
                0 <= k < self.spec_memberships().len() implies self.spec_slug_taken(
                #[trigger] self.spec_memberships()[k].tenant_slug,
            ) && self.spec_email_taken(self.spec_memberships()[k].user_email) by {
                if k < m0.len() {
                    assert(old(self).spec_slug_taken(m0[k].tenant_slug));
                    assert(old(self).spec_email_taken(m0[k].user_email));
                    let a = choose|a: int|
                        0 <= a < t0.len() && t0[a].slug == m0[k].tenant_slug;
                    assert(self.spec_tenants()[a].slug == self.spec_memberships()[k].tenant_slug);
                    let b = choose|b: int|
                        0 <= b < u0.len() && u0[b].email == m0[k].user_email;
                    assert(self.spec_users()[b].email == self.spec_memberships()[k].user_email);
                } else {
                    assert(self.spec_tenants()[t0.len() as int].slug == req.slug@);
                    assert(self.spec_users()[u0.len() as int].email == req.admin_email@);
                }
            }
        }
    }
}

/// The authentication service: credential hasher, token service, the store
/// of record and the session store, orchestrated into registration, login
/// and refresh.
#[derive(Debug, Clone)]
pub struct AuthAppService {
    pub password: PasswordService,
    pub jwt: JwtService,
    pub directory: Directory,
    pub sessions: SessionStore,
}

impl AuthAppService {
    pub open spec fn wf(&self) -> bool {
        self.directory.wf() && self.sessions.wf() && self.jwt.wf()
    }

    /// A service with empty stores under the given signing secret and the
    /// default token lifetimes.
    pub fn new(secret: &str) -> (r: Self)
        ensures
            r.wf(),
            r.jwt.spec_secret() == secret.spec_bytes(),
            r.jwt.spec_access_ttl() == crate::token::DEFAULT_ACCESS_TOKEN_SECONDS as int,
            r.jwt.spec_refresh_ttl() == crate::token::DEFAULT_REFRESH_TOKEN_SECONDS as int,
            r.directory.spec_tenants().len() == 0,
            r.directory.spec_users().len() == 0,
            r.directory.spec_memberships().len() == 0,
            r.sessions.as_map() == Map::<Seq<char>, SessionView>::empty(),
    {
        AuthAppService {
            password: PasswordService::new(),
            jwt: JwtService::new(secret),
            directory: Directory::new(),
            sessions: SessionStore::new(),
        }
    }

    /// Registers a tenant together with its owning identity, atomically:
    /// the slug and the e-mail must be unused, the input must satisfy the
    /// validation rules, and on any failure nothing changes.
    pub fn register_tenant(&mut self, req: &RegisterTenantRequest) -> (r: Result<(), DomainError>)
        requires
            old(self).wf(),
        ensures
            final(self).wf(),
            r is Err ==> *final(self) == *old(self),
            r matches Err(e) ==> (e matches DomainError::ValidationFailed { .. } || e
                matches DomainError::TenantSlugTaken { .. } || e
                matches DomainError::UserAlreadyExists { .. } || e
                matches DomainError::InternalError { .. }),
            (r matches Err(e) && e matches DomainError::ValidationFailed { .. })
                <==> !spec_valid_register(req),
            (r matches Err(e) && e matches DomainError::TenantSlugTaken { slug } && slug@
                == req.slug@) <==> (spec_valid_register(req) && old(self).directory.spec_slug_taken(req.slug@)),
            (r matches Err(e) && e matches DomainError::UserAlreadyExists { email } && email@
                == req.admin_email@) <==> (spec_valid_register(req) && !old(self).directory.spec_slug_taken(req.slug@) && old(self).directory.spec_email_taken(
                req.admin_email@,
            )),
            r is Ok ==> ({
                &&& spec_valid_register(req)
                &&& !old(self).directory.spec_slug_taken(req.slug@)
                &&& !old(self).directory.spec_email_taken(req.admin_email@)
                &&& final(self).directory.spec_tenants() == old(self).directory.spec_tenants().push(
                    TenantView {
                        name: req.company_name@,
                        slug: req.slug@,
                        plan: "basic"@,
                        settings: "{}"@,
                        is_active: true,
                    },
                )
                &&& exists|h: Seq<char>|
                    #![trigger password_verdict(req.admin_password@, h)]
                    password_verdict(req.admin_password@, h) == Some(true) && final(self).directory.spec_users() == old(self).directory.spec_users().push(
                        UserView {
                            email: req.admin_email@,
                            password_hash: h,
                            first_name: req.admin_first_name@,
                            last_name: req.admin_last_name@,
                            is_active: true,
                        },
                    )
                &&& final(self).directory.spec_memberships() == old(self).directory.spec_memberships().push(
                    MembershipView {
                        tenant_slug: req.slug@,
                        user_email: req.admin_email@,
                        role: "owner"@,
                        is_active: true,
                    },
                )
                &&& final(self).sessions == old(self).sessions
            }),
    {
        if let Err(e) = validate_register(req) {
            return Err(e);
        }
        if self.directory.find_tenant(req.slug.as_str()).is_some() {
            return Err(DomainError::TenantSlugTaken { slug: req.slug.clone() });
        }
        if self.directory.find_user(req.admin_email.as_str()).is_some() {
            return Err(DomainError::UserAlreadyExists { email: req.admin_email.clone() });
        }
        let hash = match self.password.hash_password(req.admin_password.as_str()) {
            Ok(h) => h,
            Err(e) => {
                return Err(e);
            },
        };
        self.directory.insert_registration(req, hash);
        Ok(())
    }

    /// Issues the pair of tokens for a resolved identity and persists the
    /// refresh token: the common tail of login and refresh.
    fn finish_login(
        &mut self,
        email: String,
        profile: UserProfile,
        tenant: TenantRecord,
        now: i64,
    ) -> (r: Result<LoginResponse, DomainError>)
        requires
            old(self).wf(),
        ensures
            final(self).wf(),
            final(self).directory == old(self).directory,
            final(self).jwt == old(self).jwt,
            final(self).password == old(self).password,
            r is Err ==> *final(self) == *old(self),
            (now + old(self).jwt.spec_access_ttl() <= i64::MAX && now + old(
                self,
            ).jwt.spec_refresh_ttl() <= i64::MAX) ==> r is Ok,
            match r {
                Ok(resp) => ({
                    &&& resp.access_token@.len() > 0
                    &&& resp.user == profile
                    &&& resp.tenant == tenant
                    &&& token_claims(old(self).jwt.spec_secret(), resp.access_token@) == Some(
                        crate::token::ClaimsView {
                            sub: email@,
                            tenant_id: tenant.slug@,
                            email: email@,
                            roles: Seq::<Seq<char>>::empty(),
                            permissions: Seq::<Seq<char>>::empty(),
                            iat: now as int,
                            exp: now + old(self).jwt.spec_access_ttl(),
                        },
                    )
                    &&& resp.refresh_token@.len() == crate::token::REFRESH_TOKEN_LENGTH as int
                    &&& forall|i: int|
                        0 <= i < resp.refresh_token@.len() ==> crate::token::alphanumeric_char(
                            #[trigger] resp.refresh_token@[i],
                        )
                    &&& final(self).sessions.as_map() == old(self).sessions.as_map().insert(
                        email@,
                        SessionView {
                            token: resp.refresh_token@,
                            expires_at: now + old(self).jwt.spec_refresh_ttl(),
                        },
                    )
                    &&& resp.expires_at as int == now + old(self).jwt.spec_access_ttl()
                    &&& resp.permissions.deep_view() == Seq::<Seq<char>>::empty()
                }),
                Err(e) => e matches DomainError::InternalError { .. },
            },
    {
        let aexp = match now.checked_add(self.jwt.access_ttl_seconds()) {
            Some(e) => e,
            None => {
                return Err(
                    DomainError::InternalError {
                        message: String::from_str("token expiry out of range"),
                    },
                );
            },
        };
        let rexp = match now.checked_add(self.jwt.refresh_ttl_seconds()) {
            Some(e) => e,
            None => {
                return Err(
                    DomainError::InternalError {
                        message: String::from_str("token expiry out of range"),
                    },
                );
            },
        };
        let access_token = match self.jwt.generate_access_token_at(
            email.clone(),
            tenant.slug.clone(),
            email.clone(),
            Vec::new(),
            Vec::new(),
            now,
        ) {
            Ok(t) => t,
            Err(e) => {
                return Err(e);
            },
        };
        let refresh_token = self.jwt.generate_refresh_token();
        self.sessions.put(email, refresh_token.clone(), rexp);
        let permissions: Vec<String> = Vec::new();
        proof {
            assert(permissions.deep_view() =~= Seq::<Seq<char>>::empty());
        }
        Ok(
            LoginResponse {
                user: profile,
                tenant: tenant,
                permissions: permissions,
                access_token: access_token,
                refresh_token: refresh_token,
                expires_at: aexp,
            },
        )
    }

    /// Logs an identity in: resolves the e-mail to an active (membership,
    /// tenant) pair, verifies the password, and on success issues the access
    /// token, persists a fresh refresh token and returns the composed
    /// result. A missing identity and a wrong password yield the same
    /// error, so a caller cannot tell which part failed.
    pub fn login(&mut self, req: &LoginRequest, now: i64) -> (r: Result<
        LoginResponse,
        DomainError,
    >)
        requires
            old(self).wf(),
        ensures
            final(self).wf(),
            final(self).directory == old(self).directory,
            r is Err ==> *final(self) == *old(self),
            (r matches Err(e) && e matches DomainError::InvalidCredentials) <==> (!old(
                self,
            ).directory.spec_can_login(req.email@) || password_verdict(
                req.password@,
                old(self).directory.spec_user_of(req.email@).password_hash,
            ) != Some(true)),
            match r {
                Ok(resp) => ({
                    let u = old(self).directory.spec_user_of(req.email@);
                    &&& resp.access_token@.len() > 0
                    &&& old(self).directory.spec_can_login(req.email@)
                    &&& password_verdict(req.password@, u.password_hash) == Some(true)
                    &&& resp.user@ == spec_profile_of(u)
                    &&& exists|k: int|
                        #![trigger old(self).directory.spec_login_candidate(req.email@, k)]
                        old(self).directory.spec_login_candidate(req.email@, k) && old(
                            self,
                        ).directory.spec_memberships()[k].tenant_slug == resp.tenant@.slug
                    &&& resp.tenant@ == old(self).directory.spec_tenant_of(resp.tenant@.slug)
                    &&& resp.tenant@.is_active
                    &&& token_claims(old(self).jwt.spec_secret(), resp.access_token@) == Some(
                        crate::token::ClaimsView {
                            sub: req.email@,
                            tenant_id: resp.tenant@.slug,
                            email: req.email@,
                            roles: Seq::<Seq<char>>::empty(),
                            permissions: Seq::<Seq<char>>::empty(),
                            iat: now as int,
                            exp: now + old(self).jwt.spec_access_ttl(),
                        },
                    )
                    &&& resp.refresh_token@.len() == crate::token::REFRESH_TOKEN_LENGTH as int
                    &&& final(self).sessions.as_map() == old(self).sessions.as_map().insert(
                        req.email@,
                        SessionView {
                            token: resp.refresh_token@,
                            expires_at: now + old(self).jwt.spec_refresh_ttl(),
                        },
                    )
                    &&& resp.expires_at as int == now + old(self).jwt.spec_access_ttl()
                    &&& resp.permissions.deep_view() == Seq::<Seq<char>>::empty()
                }),
                Err(e) => e matches DomainError::InvalidCredentials || e
                    matches DomainError::InternalError { .. },
            },
    {
        let looked = match self.directory.find_login(req.email.as_str()) {
            None => {
                return Err(DomainError::InvalidCredentials);
            },
            Some((u, m, t)) => (
                UserProfile {
                    email: u.email.clone(),
                    first_name: u.first_name.clone(),
                    last_name: u.last_name.clone(),
                    is_active: u.is_active,
                },
                TenantRecord {
                    name: t.name.clone(),
                    slug: t.slug.clone(),
                    plan: t.plan.clone(),
                    settings: t.settings.clone(),
                    is_active: t.is_active,
                },
                u.password_hash.clone(),
            ),
        };
        let (profile, tenant, stored_hash) = looked;
        let verified = match self.password.verify_password(
            req.password.as_str(),
            stored_hash.as_str(),
        ) {
            Ok(b) => b,
            Err(_) => false,
        };
        if !verified {
            return Err(DomainError::InvalidCredentials);
        }
        match self.finish_login(req.email.clone(), profile, tenant, now) {
            Ok(resp) => Ok(resp),
            Err(e) => Err(e),
        }
    }

    /// Exchanges a live refresh token for a fresh access token, rotating
    /// the refresh token: the owning identity's record is overwritten, so
    /// the presented token stops resolving. An unknown or expired token,
    /// and an owner with no active membership left, yield the invalid-token
    /// error and change nothing.
    pub fn refresh(&mut self, refresh_token: &str, now: i64) -> (r: Result<
        LoginResponse,
        DomainError,
    >)
        requires
            old(self).wf(),
        ensures
            final(self).wf(),
            final(self).directory == old(self).directory,
            final(self).jwt == old(self).jwt,
            final(self).password == old(self).password,
            r is Err ==> *final(self) == *old(self),
            (forall|u: Seq<char>|
                !old(self).sessions.spec_resolves(u, refresh_token@, now as int)) ==> (r matches Err(
                e,
            ) && e matches DomainError::TokenInvalid),
            ((exists|u: Seq<char>|
                #[trigger] old(self).sessions.spec_resolves(u, refresh_token@, now as int)) && (
            forall|u: Seq<char>|
                #[trigger] old(self).sessions.spec_resolves(u, refresh_token@, now as int) ==> old(
                    self,
                ).directory.spec_can_login(u)) && now + old(self).jwt.spec_access_ttl()
                <= i64::MAX && now + old(self).jwt.spec_refresh_ttl() <= i64::MAX) ==> r is Ok,
            match r {
                Ok(resp) => resp.access_token@.len() > 0 && exists|u: Seq<char>|
                    {
                        &&& #[trigger] old(self).sessions.spec_resolves(
                            u,
                            refresh_token@,
                            now as int,
                        )
                        &&& old(self).directory.spec_can_login(u)
                        &&& resp.user@ == spec_profile_of(old(self).directory.spec_user_of(u))
                        &&& resp.tenant@ == old(self).directory.spec_tenant_of(resp.tenant@.slug)
                        &&& resp.tenant@.is_active
                        &&& token_claims(old(self).jwt.spec_secret(), resp.access_token@) == Some(
                            crate::token::ClaimsView {
                                sub: u,
                                tenant_id: resp.tenant@.slug,
                                email: u,
                                roles: Seq::<Seq<char>>::empty(),
                                permissions: Seq::<Seq<char>>::empty(),
                                iat: now as int,
                                exp: now + old(self).jwt.spec_access_ttl(),
                            },
                        )
                        &&& resp.refresh_token@.len() == crate::token::REFRESH_TOKEN_LENGTH as int
                        &&& final(self).sessions.as_map() == old(self).sessions.as_map().insert(
                            u,
                            SessionView {
                                token: resp.refresh_token@,
                                expires_at: now + old(self).jwt.spec_refresh_ttl(),
                            },
                        )
                    },
                Err(e) => e matches DomainError::TokenInvalid || e
                    matches DomainError::InternalError { .. },
            },
    {
        let owner = match self.sessions.owner_of(refresh_token, now) {
            None => {
                return Err(DomainError::TokenInvalid);
            },
            Some(rec) => rec.user_id.clone(),
        };
        let looked = match self.directory.find_login(owner.as_str()) {
            None => {
                return Err(DomainError::TokenInvalid);
            },
            Some((u, m, t)) => (
                UserProfile {
                    email: u.email.clone(),
                    first_name: u.first_name.clone(),
                    last_name: u.last_name.clone(),
                    is_active: u.is_active,
                },
                TenantRecord {
                    name: t.name.clone(),
                    slug: t.slug.clone(),
                    plan: t.plan.clone(),
                    settings: t.settings.clone(),
                    is_active: t.is_active,
                },
            ),
        };
        let (profile, tenant) = looked;
        match self.finish_login(owner, profile, tenant, now) {
            Ok(resp) => Ok(resp),
            Err(e) => Err(e),
        }
    }
}

} // verus!
