//! Login, and the answer to "who am I".
//!
//! A login runs through the phases of [`LoginState`] in the same way as a
//! registration does: [`login`] decides, whoever drives it asks the identity
//! store.

use vstd::prelude::*;
use crate::error::{bare, cause_in, AuthError, Rejection, RejectionView};
use crate::model::{
    logged_cause, public_view, respond_with_session, session_response, AuthConfig,
    AuthConfigView, AuthResponse, AuthResponseView, IdentityView, LoginRequest,
    LoginRequestView, MeResponse, MeResponseView, UserInfo,
};
use crate::registration::{out_of_turn, reject_out_of_turn};
use crate::password::{verification, verify};
use crate::role::{resolve, resolved_role, to_wire_string, wire_string};
use crate::store::{StoreLookup, StoreLookupView};
use crate::token::{issuance, issue};

verus! {

/// Where a login stands.
#[derive(Clone, Copy, Debug, PartialEq, Eq, Structural)]
pub enum LoginState {
    /// The request has arrived and nothing has been done with it.
    Received,
    /// The store has been asked for the identity with the request's email.
    LookingUp,
    /// The client has its answer.
    Responded,
}

/// What has just happened to a login.
#[derive(Clone, Debug, PartialEq, Eq)]
pub enum LoginEvent {
    /// The request was submitted.
    Submitted,
    /// The store answered the lookup by email.
    Looked(StoreLookup),
}

/// [`LoginEvent`] as contracts see it: text is a sequence of characters.
pub enum LoginEventView {
    Submitted,
    Looked(StoreLookupView),
}

impl View for LoginEvent {
    type V = LoginEventView;

    open spec fn view(&self) -> LoginEventView {
        match self {
            LoginEvent::Submitted => LoginEventView::Submitted,
            LoginEvent::Looked(lookup) => LoginEventView::Looked(lookup@),
        }
    }
}

/// What is to be done next for a login.
#[derive(Clone, Debug, PartialEq, Eq)]
pub enum LoginAction {
    /// Ask the store for the identity with this email.
    FindByEmail(String),
    /// Answer the client.
    Respond(AuthResponse),
}

/// [`LoginAction`] as contracts see it: text is a sequence of characters.
pub enum LoginActionView {
    FindByEmail(Seq<char>),
    Respond(AuthResponseView),
}

impl View for LoginAction {
    type V = LoginActionView;

    open spec fn view(&self) -> LoginActionView {
        match self {
            LoginAction::FindByEmail(email) => LoginActionView::FindByEmail(email@),
            LoginAction::Respond(response) => LoginActionView::Respond(response@),
        }
    }
}

/// What a password check means for a login: `None` where the login may go
/// on, else the rejection. A wrong password is turned down in the same words
/// as an unknown email. `cause` is what the verifier said where it failed.
pub open spec fn credential_failure(
    verified: Result<bool, AuthError>,
    cause: Seq<char>,
) -> Option<RejectionView> {
    match verified {
        Ok(true) => None,
        Ok(false) => Some(bare(AuthError::InvalidCredentials)),
        Err(_) => Some(RejectionView { error: AuthError::VerificationFailure, cause }),
    }
}

/// The answer to a login, given what the store found for the email.
///
/// The role shown and put into the token is the one that the stored text
/// resolves to, by the same resolver that reads a request's role: letter
/// case is ignored, the compact spellings are accepted, and text that names
/// no role stands for a customer. `cause` is what a library said where it
/// failed.
pub open spec fn login_response(
    request: LoginRequestView,
    lookup: StoreLookupView,
    now: u64,
    config: AuthConfigView,
    cause: Seq<char>,
) -> AuthResponseView {
    match lookup {
        StoreLookupView::Failed(message) => AuthResponseView::Rejected(
            RejectionView { error: AuthError::StoreUnavailable, cause: message },
        ),
        StoreLookupView::NotFound => AuthResponseView::Rejected(
            bare(AuthError::InvalidCredentials),
        ),
        StoreLookupView::Found(identity) => match credential_failure(
            verification(request.password, identity.password_hash),
            cause,
        ) {
            Some(rejection) => AuthResponseView::Rejected(rejection),
            None => {
                let role = resolved_role(identity.role);
                session_response(
                    public_view(identity, role),
                    issuance(
                        identity.id,
                        identity.email,
                        wire_string(role),
                        now,
                        config.token_validity,
                        config.token_secret,
                        cause,
                    ),
                    false,
                )
            },
        },
    }
}

/// One step of a login: the next phase and the next action, given the phase
/// and the event. `cause` is what a library said where it failed.
///
/// An event that does not belong to the phase ends the login with an
/// internal failure.
pub open spec fn login_step(
    state: LoginState,
    request: LoginRequestView,
    event: LoginEventView,
    now: u64,
    config: AuthConfigView,
    cause: Seq<char>,
) -> (LoginState, LoginActionView) {
    match (state, event) {
        (LoginState::Received, LoginEventView::Submitted) => (
            LoginState::LookingUp,
            LoginActionView::FindByEmail(request.email),
        ),
        (LoginState::LookingUp, LoginEventView::Looked(lookup)) => (
            LoginState::Responded,
            LoginActionView::Respond(login_response(request, lookup, now, config, cause)),
        ),
        _ => (LoginState::Responded, LoginActionView::Respond(out_of_turn())),
    }
}

/// What an action leaves for the log.
pub open spec fn cause_of(action: LoginActionView) -> Seq<char> {
    match action {
        LoginActionView::Respond(response) => logged_cause(response),
        _ => Seq::empty(),
    }
}

/// What the client is told when it asks who it is.
pub open spec fn me_message() -> Seq<char> {
    "Información de usuario obtenida exitosamente"@
}

/// Decides whether a login may go on after the password check. Any error in
/// the outcome counts as a verification failure and keeps its cause.
pub fn check_credentials(verified: Result<bool, Rejection>) -> (checked: Result<(), Rejection>)
    ensures
        match credential_failure(
            match verified {
                Ok(matched) => Ok(matched),
                Err(rejection) => Err(rejection.error),
            },
            cause_in(verified),
        ) {
            Some(expected) => checked matches Err(rejection) && rejection@ == expected,
            None => checked is Ok,
        },
{
    match verified {
        Ok(true) => Ok(()),
        Ok(false) => Err(Rejection::of(AuthError::InvalidCredentials)),
        Err(rejection) => Err(
            Rejection { error: AuthError::VerificationFailure, cause: rejection.cause },
        ),
    }
}

/// The answer to a login, given what the store found for the email.
pub fn answer_login(
    request: &LoginRequest,
    lookup: &StoreLookup,
    now: u64,
    config: &AuthConfig,
) -> (response: AuthResponse)
    ensures
        response@ == login_response(request@, lookup@, now, config@, logged_cause(response@)),
{
    match lookup {
        StoreLookup::Failed(message) => AuthResponse::Rejected(
            Rejection { error: AuthError::StoreUnavailable, cause: message.clone() },
        ),
        StoreLookup::NotFound => AuthResponse::rejected(AuthError::InvalidCredentials),
        StoreLookup::Found(identity) => {
            let verified = verify(request.password.as_str(), identity.password_hash.as_str());
            match check_credentials(verified) {
                Err(rejection) => AuthResponse::Rejected(rejection),
                Ok(_) => {
                    let role = resolve(identity.role.as_str());
                    let user = UserInfo::of(identity, role);
                    let token = issue(
                        identity.id.as_str(),
                        identity.email.as_str(),
                        to_wire_string(role),
                        now,
                        config.token_validity,
                        &config.token_secret,
                    );
                    respond_with_session(user, token, false)
                },
            }
        },
    }
}

/// Takes a login one step further.
///
/// `state` is the phase the login is in, `event` what has just happened,
/// `now` the time in seconds since the Unix epoch. The result is the next
/// phase and what to do next.
pub fn login(
    state: LoginState,
    request: &LoginRequest,
    event: &LoginEvent,
    now: u64,
    config: &AuthConfig,
) -> (next: (LoginState, LoginAction))
    ensures
        (next.0, next.1@) == login_step(state, request@, event@, now, config@, cause_of(next.1@)),
{
    match (state, event) {
        (LoginState::Received, LoginEvent::Submitted) => (
            LoginState::LookingUp,
            LoginAction::FindByEmail(request.email.clone()),
        ),
        (LoginState::LookingUp, LoginEvent::Looked(lookup)) => (
            LoginState::Responded,
            LoginAction::Respond(answer_login(request, lookup, now, config)),
        ),
        _ => (LoginState::Responded, LoginAction::Respond(reject_out_of_turn())),
    }
}

/// Answers an authenticated client that asks who it is: its public identity,
/// the canonical text of its role, and a fixed message. There is no failure.
pub fn me(user: UserInfo) -> (response: MeResponse)
    ensures
        response@ == (MeResponseView {
            user: user@,
            role: wire_string(user.role),
            message: me_message(),
        }),
{
    let role = to_wire_string(user.role).to_owned();
    MeResponse {
        user,
        role,
        message: "Información de usuario obtenida exitosamente".to_owned(),
    }
}

/// An unknown email and a password that does not match get the same answer,
/// `InvalidCredentials` and no token: nothing in it tells whether the email
/// is registered.
pub proof fn lemma_login_does_not_reveal_emails(
    request: LoginRequestView,
    identity: IdentityView,
    now: u64,
    config: AuthConfigView,
    cause: Seq<char>,
)
    requires
        verification(request.password, identity.password_hash) == Ok::<bool, AuthError>(false),
    ensures
        login_response(request, StoreLookupView::Found(identity), now, config, cause)
            == login_response(request, StoreLookupView::NotFound, now, config, cause),
        login_response(request, StoreLookupView::NotFound, now, config, cause)
            == AuthResponseView::Rejected(bare(AuthError::InvalidCredentials)),
{
}

/// An accepted login shows the role that the stored text resolves to, be it
/// written in another letter case or in the compact spelling.
pub proof fn lemma_login_resolves_the_stored_role(
    request: LoginRequestView,
    identity: IdentityView,
    now: u64,
    config: AuthConfigView,
    cause: Seq<char>,
)
    requires
        verification(request.password, identity.password_hash) == Ok::<bool, AuthError>(true),
        issuance(
            identity.id,
            identity.email,
            wire_string(resolved_role(identity.role)),
            now,
            config.token_validity,
            config.token_secret,
            cause,
        ) is Ok,
    ensures
        login_response(request, StoreLookupView::Found(identity), now, config, cause)
            matches AuthResponseView::Authenticated(body) && body.user == public_view(
            identity,
            resolved_role(identity.role),
        ),
{
}

} // verus!
