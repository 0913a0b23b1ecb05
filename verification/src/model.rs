//! The values that pass between clients, the library and the identity store.
//!
//! Each type has a view in which text is a `Seq<char>`; contracts are stated
//! over the views.

use vstd::prelude::*;
use crate::error::{bare, kind_of, status_of, AuthError, Rejection, RejectionView};
use crate::role::UserRole;

verus! {

/// A request to register a new identity.
#[derive(Clone, Debug, PartialEq, Eq)]
pub struct RegisterUserRequest {
    pub email: String,
    pub password: String,
    pub first_name: String,
    pub last_name: String,
    pub phone: Option<String>,
    /// Free-form role text; empty where the client sent none.
    pub role: String,
}

/// [`RegisterUserRequest`] as contracts see it: text is a sequence of characters.
pub struct RegisterUserRequestView {
    pub email: Seq<char>,
    pub password: Seq<char>,
    pub first_name: Seq<char>,
    pub last_name: Seq<char>,
    pub phone: Option<Seq<char>>,
    pub role: Seq<char>,
}

impl View for RegisterUserRequest {
    type V = RegisterUserRequestView;

    open spec fn view(&self) -> RegisterUserRequestView {
        RegisterUserRequestView {
            email: self.email@,
            password: self.password@,
            first_name: self.first_name@,
            last_name: self.last_name@,
            phone: self.phone.deep_view(),
            role: self.role@,
        }
    }
}

/// A request to log in.
#[derive(Clone, Debug, PartialEq, Eq)]
pub struct LoginRequest {
    pub email: String,
    pub password: String,
}

/// [`LoginRequest`] as contracts see it: text is a sequence of characters.
pub struct LoginRequestView {
    pub email: Seq<char>,
    pub password: Seq<char>,
}

impl View for LoginRequest {
    type V = LoginRequestView;

    open spec fn view(&self) -> LoginRequestView {
        LoginRequestView { email: self.email@, password: self.password@ }
    }
}

/// What the identity store is asked to insert.
#[derive(Clone, Debug, PartialEq, Eq)]
pub struct NewIdentity {
    pub email: String,
    pub password_hash: String,
    pub first_name: String,
    pub last_name: String,
    pub phone: Option<String>,
    /// The canonical text of the role.
    pub role: String,
}

/// [`NewIdentity`] as contracts see it: text is a sequence of characters.
pub struct NewIdentityView {
    pub email: Seq<char>,
    pub password_hash: Seq<char>,
    pub first_name: Seq<char>,
    pub last_name: Seq<char>,
    pub phone: Option<Seq<char>>,
    pub role: Seq<char>,
}

impl View for NewIdentity {
    type V = NewIdentityView;

    open spec fn view(&self) -> NewIdentityView {
        NewIdentityView {
            email: self.email@,
            password_hash: self.password_hash@,
            first_name: self.first_name@,
            last_name: self.last_name@,
            phone: self.phone.deep_view(),
            role: self.role@,
        }
    }
}

/// A registered principal, as the identity store holds it.
#[derive(Clone, Debug, PartialEq, Eq)]
pub struct Identity {
    /// Opaque and stable; assigned by the store.
    pub id: String,
    pub email: String,
    pub password_hash: String,
    pub first_name: String,
    pub last_name: String,
    pub phone: Option<String>,
    /// The role as the store holds it: text.
    pub role: String,
    /// When the store created the row, in seconds since the Unix epoch.
    pub created_at: i64,
}

/// [`Identity`] as contracts see it: text is a sequence of characters.
pub struct IdentityView {
    pub id: Seq<char>,
    pub email: Seq<char>,
    pub password_hash: Seq<char>,
    pub first_name: Seq<char>,
    pub last_name: Seq<char>,
    pub phone: Option<Seq<char>>,
    pub role: Seq<char>,
    pub created_at: i64,
}

impl View for Identity {
    type V = IdentityView;

    open spec fn view(&self) -> IdentityView {
        IdentityView {
            id: self.id@,
            email: self.email@,
            password_hash: self.password_hash@,
            first_name: self.first_name@,
            last_name: self.last_name@,
            phone: self.phone.deep_view(),
            role: self.role@,
            created_at: self.created_at,
        }
    }
}

/// The part of an identity that is safe to show to clients.
#[derive(Clone, Debug, PartialEq, Eq)]
pub struct UserInfo {
    pub id: String,
    pub email: String,
    pub role: UserRole,
    pub first_name: String,
    pub last_name: String,
    pub phone: Option<String>,
}

/// [`UserInfo`] as contracts see it: text is a sequence of characters.
pub struct UserInfoView {
    pub id: Seq<char>,
    pub email: Seq<char>,
    pub role: UserRole,
    pub first_name: Seq<char>,
    pub last_name: Seq<char>,
    pub phone: Option<Seq<char>>,
}

impl View for UserInfo {
    type V = UserInfoView;

    open spec fn view(&self) -> UserInfoView {
        UserInfoView {
            id: self.id@,
            email: self.email@,
            role: self.role,
            first_name: self.first_name@,
            last_name: self.last_name@,
            phone: self.phone.deep_view(),
        }
    }
}

/// What a client gets on successful registration or login.
#[derive(Clone, Debug, PartialEq, Eq)]
pub struct LoginResponse {
    pub token: String,
    pub user: UserInfo,
}

/// [`LoginResponse`] as contracts see it: text is a sequence of characters.
pub struct LoginResponseView {
    pub token: Seq<char>,
    pub user: UserInfoView,
}

impl View for LoginResponse {
    type V = LoginResponseView;

    open spec fn view(&self) -> LoginResponseView {
        LoginResponseView { token: self.token@, user: self.user@ }
    }
}

/// What a client gets when it asks who it is.
#[derive(Clone, Debug, PartialEq, Eq)]
pub struct MeResponse {
    pub user: UserInfo,
    /// The canonical text of the user's role.
    pub role: String,
    pub message: String,
}

/// [`MeResponse`] as contracts see it: text is a sequence of characters.
pub struct MeResponseView {
    pub user: UserInfoView,
    pub role: Seq<char>,
    pub message: Seq<char>,
}

impl View for MeResponse {
    type V = MeResponseView;

    open spec fn view(&self) -> MeResponseView {
        MeResponseView { user: self.user@, role: self.role@, message: self.message@ }
    }
}

/// The public part of `identity`, under the given role.
pub open spec fn public_view(identity: IdentityView, role: UserRole) -> UserInfoView {
    UserInfoView {
        id: identity.id,
        email: identity.email,
        role,
        first_name: identity.first_name,
        last_name: identity.last_name,
        phone: identity.phone,
    }
}

/// A copy of optional text.
pub fn clone_optional_text(text: &Option<String>) -> (copy: Option<String>)
    ensures
        copy.deep_view() == text.deep_view(),
{
    match text {
        Some(t) => Some(t.clone()),
        None => None,
    }
}

impl UserInfo {
    /// The public part of `identity`, under the given role. The password hash
    /// is left behind.
    pub fn of(identity: &Identity, role: UserRole) -> (user: UserInfo)
        ensures
            user@ == public_view(identity@, role),
    {
        UserInfo {
            id: identity.id.clone(),
            email: identity.email.clone(),
            role,
            first_name: identity.first_name.clone(),
            last_name: identity.last_name.clone(),
            phone: clone_optional_text(&identity.phone),
        }
    }
}

/// Two identities that differ at most in their password hash have the same
/// public part: nothing of the hash reaches a client.
pub proof fn lemma_public_view_omits_password_hash(
    a: IdentityView,
    b: IdentityView,
    role: UserRole,
)
    requires
        a == (IdentityView { password_hash: a.password_hash, ..b }),
    ensures
        public_view(a, role) == public_view(b, role),
{
}

/// The settings that the credential service runs under.
#[derive(Clone, Debug, PartialEq, Eq)]
pub struct AuthConfig {
    /// The bcrypt work factor for new password hashes.
    pub hash_cost: u32,
    /// The process-wide signing secret; `None` where none is available.
    pub token_secret: Option<String>,
    /// For how many seconds a session token stays good.
    pub token_validity: u64,
}

/// [`AuthConfig`] as contracts see it: text is a sequence of characters.
pub struct AuthConfigView {
    pub hash_cost: u32,
    pub token_secret: Option<Seq<char>>,
    pub token_validity: u64,
}

impl View for AuthConfig {
    type V = AuthConfigView;

    open spec fn view(&self) -> AuthConfigView {
        AuthConfigView {
            hash_cost: self.hash_cost,
            token_secret: self.token_secret.deep_view(),
            token_validity: self.token_validity,
        }
    }
}

/// The answer to a registration or login request.
#[derive(Clone, Debug, PartialEq, Eq)]
pub enum AuthResponse {
    /// A new identity was registered.
    Created(LoginResponse),
    /// The credentials were accepted.
    Authenticated(LoginResponse),
    /// The request was turned down.
    Rejected(Rejection),
}

/// [`AuthResponse`] as contracts see it: text is a sequence of characters.
pub enum AuthResponseView {
    Created(LoginResponseView),
    Authenticated(LoginResponseView),
    Rejected(RejectionView),
}

impl View for AuthResponse {
    type V = AuthResponseView;

    open spec fn view(&self) -> AuthResponseView {
        match self {
            AuthResponse::Created(body) => AuthResponseView::Created(body@),
            AuthResponse::Authenticated(body) => AuthResponseView::Authenticated(body@),
            AuthResponse::Rejected(rejection) => AuthResponseView::Rejected(rejection@),
        }
    }
}

/// The HTTP status of a response.
pub open spec fn response_status(response: AuthResponseView) -> u16 {
    match response {
        AuthResponseView::Created(_) => 201,
        AuthResponseView::Authenticated(_) => 200,
        AuthResponseView::Rejected(rejection) => status_of(kind_of(rejection.error)),
    }
}

impl AuthResponse {
    /// The HTTP status of this response.
    pub fn status_code(&self) -> (status: u16)
        ensures
            status == response_status(self@),
    {
        match self {
            AuthResponse::Created(_) => 201,
            AuthResponse::Authenticated(_) => 200,
            AuthResponse::Rejected(rejection) => rejection.error.status_code(),
        }
    }
}

/// What a response leaves for the log: the cause of a rejection, nothing
/// for a success.
pub open spec fn logged_cause(response: AuthResponseView) -> Seq<char> {
    match response {
        AuthResponseView::Rejected(rejection) => rejection.cause,
        _ => Seq::empty(),
    }
}

/// The answer to a client whose identity was stored (`created`) or whose
/// credentials were accepted, given the outcome of issuing the token. A
/// failure to issue is a signing failure and keeps its cause.
pub open spec fn session_response(
    user: UserInfoView,
    token: Result<Seq<char>, RejectionView>,
    created: bool,
) -> AuthResponseView {
    match token {
        Err(rejection) => AuthResponseView::Rejected(
            RejectionView { error: AuthError::SigningFailure, cause: rejection.cause },
        ),
        Ok(token) => if created {
            AuthResponseView::Created(LoginResponseView { token, user })
        } else {
            AuthResponseView::Authenticated(LoginResponseView { token, user })
        },
    }
}

/// The answer to a client whose identity was stored (`created`) or whose
/// credentials were accepted, given the outcome of issuing the token. Any
/// error in the outcome counts as a signing failure and keeps its cause.
pub fn respond_with_session(
    user: UserInfo,
    token: Result<String, Rejection>,
    created: bool,
) -> (response: AuthResponse)
    ensures
        response@ == session_response(
            user@,
            match token {
                Ok(t) => Ok(t@),
                Err(rejection) => Err(rejection@),
            },
            created,
        ),
{
    match token {
        Err(rejection) => AuthResponse::Rejected(
            Rejection { error: AuthError::SigningFailure, cause: rejection.cause },
        ),
        Ok(token) => if created {
            AuthResponse::Created(LoginResponse { token, user })
        } else {
            AuthResponse::Authenticated(LoginResponse { token, user })
        },
    }
}

impl AuthResponse {
    /// The rejection for `error` with nothing more to say about its cause.
    pub fn rejected(error: AuthError) -> (response: AuthResponse)
        ensures
            response@ == AuthResponseView::Rejected(bare(error)),
    {
        AuthResponse::Rejected(Rejection::of(error))
    }

    /// The reason a request was turned down, if it was.
    pub fn error(&self) -> (reason: Option<AuthError>)
        ensures
            reason == match self@ {
                AuthResponseView::Rejected(rejection) => Some(rejection.error),
                _ => None,
            },
    {
        match self {
            AuthResponse::Rejected(rejection) => Some(rejection.error),
            _ => None,
        }
    }
}

} // verus!
