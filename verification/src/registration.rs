//! Registration: from a request to a stored identity and its first session
//! token.
//!
//! A registration runs through the phases of [`RegistrationState`]. The
//! library decides; whoever drives it talks to the identity store. Each call
//! of [`register`] takes the phase the registration is in and the event that
//! has just happened, and returns the next phase and what to do next: ask the
//! store something, or answer the client.

use vstd::prelude::*;
use vstd::utf8::encode_utf8;
use crate::error::{bare, cause_in, AuthError, Rejection, RejectionView};
use crate::model::{
    clone_optional_text, logged_cause, public_view, respond_with_session, session_response,
    AuthConfig, AuthConfigView, AuthResponse, AuthResponseView, IdentityView, NewIdentity,
    NewIdentityView, RegisterUserRequest, RegisterUserRequestView, UserInfo,
};
use crate::password::{hash, verification, written_cost, MAX_COST, MIN_COST};
use crate::role::{resolve, resolved_role, to_wire_string, wire_string};
use crate::store::{
    insert_into, is_duplicate_signal, lookup_in, signals_duplicate, Directory, StoreInsert,
    StoreInsertView, StoreLookup, StoreLookupView,
};
use crate::text::contains_char;
use crate::token::{issuance, issue};

verus! {

/// The least number of bytes a password may have.
pub const MIN_PASSWORD_BYTES: usize = 8;

/// Where a registration stands.
#[derive(Clone, Copy, Debug, PartialEq, Eq, Structural)]
pub enum RegistrationState {
    /// The request has arrived and nothing has been done with it.
    Validating,
    /// The store has been asked whether the email is taken.
    CheckingUniqueness,
    /// The store has been asked to insert the new identity.
    Persisting,
    /// The client has its answer.
    Responded,
}

/// What has just happened to a registration.
#[derive(Clone, Debug, PartialEq, Eq)]
pub enum RegistrationEvent {
    /// The request was submitted.
    Submitted,
    /// The store answered the lookup by email.
    Looked(StoreLookup),
    /// The store answered the insert.
    Stored(StoreInsert),
}

/// [`RegistrationEvent`] as contracts see it: text is a sequence of characters.
pub enum RegistrationEventView {
    Submitted,
    Looked(StoreLookupView),
    Stored(StoreInsertView),
}

impl View for RegistrationEvent {
    type V = RegistrationEventView;

    open spec fn view(&self) -> RegistrationEventView {
        match self {
            RegistrationEvent::Submitted => RegistrationEventView::Submitted,
            RegistrationEvent::Looked(lookup) => RegistrationEventView::Looked(lookup@),
            RegistrationEvent::Stored(outcome) => RegistrationEventView::Stored(outcome@),
        }
    }
}

/// What is to be done next for a registration.
#[derive(Clone, Debug, PartialEq, Eq)]
pub enum RegistrationAction {
    /// Ask the store for the identity with this email.
    FindByEmail(String),
    /// Ask the store to insert this identity and hand back the stored row.
    Insert(NewIdentity),
    /// Answer the client.
    Respond(AuthResponse),
}

/// [`RegistrationAction`] as contracts see it: text is a sequence of characters.
pub enum RegistrationActionView {
    FindByEmail(Seq<char>),
    Insert(NewIdentityView),
    Respond(AuthResponseView),
}

impl View for RegistrationAction {
    type V = RegistrationActionView;

    open spec fn view(&self) -> RegistrationActionView {
        match self {
            RegistrationAction::FindByEmail(email) => RegistrationActionView::FindByEmail(email@),
            RegistrationAction::Insert(new) => RegistrationActionView::Insert(new@),
            RegistrationAction::Respond(response) => RegistrationActionView::Respond(response@),
        }
    }
}

/// The first rule that a registration request breaks, if it breaks one.
///
/// The rules, in the order they are checked: email, password, first name and
/// last name are not empty; the email holds an `@` and a `.`; the password
/// has at least [`MIN_PASSWORD_BYTES`] bytes in UTF-8.
pub open spec fn validation_failure(request: RegisterUserRequestView) -> Option<AuthError> {
    if request.email.len() == 0 || request.password.len() == 0 || request.first_name.len() == 0
        || request.last_name.len() == 0 {
        Some(AuthError::MissingFields)
    } else if !request.email.contains('@') || !request.email.contains('.') {
        Some(AuthError::InvalidEmailFormat)
    } else if encode_utf8(request.password).len() < MIN_PASSWORD_BYTES {
        Some(AuthError::PasswordTooShort)
    } else {
        None
    }
}

/// The identity to insert for `request`, once its password has been hashed.
pub open spec fn new_identity(
    request: RegisterUserRequestView,
    password_hash: Seq<char>,
) -> NewIdentityView {
    NewIdentityView {
        email: request.email,
        password_hash,
        first_name: request.first_name,
        last_name: request.last_name,
        phone: request.phone,
        role: wire_string(resolved_role(request.role)),
    }
}

/// What is logged where an event does not belong to the phase it arrives in.
pub open spec fn out_of_turn_cause() -> Seq<char> {
    "the event does not belong to the phase"@
}

/// The end of a request whose event came out of turn.
pub open spec fn out_of_turn() -> AuthResponseView {
    AuthResponseView::Rejected(
        RejectionView { error: AuthError::StoreUnavailable, cause: out_of_turn_cause() },
    )
}

/// What follows the submission of `request`.
pub open spec fn on_submitted(request: RegisterUserRequestView) -> (
    RegistrationState,
    RegistrationActionView,
) {
    match validation_failure(request) {
        Some(error) => (
            RegistrationState::Responded,
            RegistrationActionView::Respond(AuthResponseView::Rejected(bare(error))),
        ),
        None => (
            RegistrationState::CheckingUniqueness,
            RegistrationActionView::FindByEmail(request.email),
        ),
    }
}

/// What follows the store's answer to the lookup.
///
/// `hashed` is the hash of the request's password, `None` where hashing
/// failed, and `cause` what the hasher said where it failed; both are looked
/// at only where the email is free. A lookup that failed leaves the store's
/// message as the cause.
pub open spec fn on_looked(
    request: RegisterUserRequestView,
    lookup: StoreLookupView,
    hashed: Option<Seq<char>>,
    cause: Seq<char>,
) -> (RegistrationState, RegistrationActionView) {
    match lookup {
        StoreLookupView::Found(_) => (
            RegistrationState::Responded,
            RegistrationActionView::Respond(
                AuthResponseView::Rejected(bare(AuthError::EmailTaken)),
            ),
        ),
        StoreLookupView::Failed(message) => (
            RegistrationState::Responded,
            RegistrationActionView::Respond(
                AuthResponseView::Rejected(
                    RejectionView { error: AuthError::StoreUnavailable, cause: message },
                ),
            ),
        ),
        StoreLookupView::NotFound => match hashed {
            None => (
                RegistrationState::Responded,
                RegistrationActionView::Respond(
                    AuthResponseView::Rejected(
                        RejectionView { error: AuthError::HashingFailure, cause },
                    ),
                ),
            ),
            Some(password_hash) => (
                RegistrationState::Persisting,
                RegistrationActionView::Insert(new_identity(request, password_hash)),
            ),
        },
    }
}

/// The answer to the client once the store has answered the insert.
///
/// A refusal that reports a uniqueness violation means that another
/// registration took the email in the meantime: it is a conflict, not an
/// internal failure. Either way the store's message is the cause. The role
/// shown is the one resolved from the request. `cause` is what the signer
/// said where signing failed.
pub open spec fn registration_response(
    request: RegisterUserRequestView,
    outcome: StoreInsertView,
    now: u64,
    config: AuthConfigView,
    cause: Seq<char>,
) -> AuthResponseView {
    match outcome {
        StoreInsertView::Failed(message) => AuthResponseView::Rejected(
            RejectionView {
                error: if signals_duplicate(message) {
                    AuthError::EmailTaken
                } else {
                    AuthError::PersistFailure
                },
                cause: message,
            },
        ),
        StoreInsertView::Inserted(identity) => {
            let role = resolved_role(request.role);
            session_response(
                public_view(identity, role),
                issuance(
                    identity.id,
                    identity.email,
                    wire_string(role),
                    now,
                    config.token_validity,
                    config.token_secret,
                    cause,
                ),
                true,
            )
        },
    }
}

/// One step of a registration: the next phase and the next action, given the
/// phase and the event.
///
/// Two things are not decided by phase, request, event, time and settings:
/// the hash made of the password (`hashed`, `None` where hashing failed) and
/// the words of a library that failed (`cause`). An event that does not
/// belong to the phase ends the registration with an internal failure.
pub open spec fn registration_step(
    state: RegistrationState,
    request: RegisterUserRequestView,
    event: RegistrationEventView,
    hashed: Option<Seq<char>>,
    cause: Seq<char>,
    now: u64,
    config: AuthConfigView,
) -> (RegistrationState, RegistrationActionView) {
    match (state, event) {
        (RegistrationState::Validating, RegistrationEventView::Submitted) => on_submitted(request),
        (RegistrationState::CheckingUniqueness, RegistrationEventView::Looked(lookup)) => on_looked(
            request,
            lookup,
            hashed,
            cause,
        ),
        (RegistrationState::Persisting, RegistrationEventView::Stored(outcome)) => (
            RegistrationState::Responded,
            RegistrationActionView::Respond(
                registration_response(request, outcome, now, config, cause),
            ),
        ),
        _ => (RegistrationState::Responded, RegistrationActionView::Respond(out_of_turn())),
    }
}

/// The password hash that an action carries to the store, if it carries one.
pub open spec fn hash_in(action: RegistrationActionView) -> Option<Seq<char>> {
    match action {
        RegistrationActionView::Insert(new) => Some(new.password_hash),
        _ => None,
    }
}

/// What an action leaves for the log.
pub open spec fn cause_of(action: RegistrationActionView) -> Seq<char> {
    match action {
        RegistrationActionView::Respond(response) => logged_cause(response),
        _ => Seq::empty(),
    }
}

/// Checks a registration request against the rules, first failing rule
/// first.
pub fn validate(request: &RegisterUserRequest) -> (checked: Result<(), AuthError>)
    ensures
        match validation_failure(request@) {
            Some(error) => checked == Err::<(), AuthError>(error),
            None => checked is Ok,
        },
{
    if request.email.as_str().is_empty() || request.password.as_str().is_empty()
        || request.first_name.as_str().is_empty() || request.last_name.as_str().is_empty() {
        return Err(AuthError::MissingFields);
    }
    if !contains_char(request.email.as_str(), '@') || !contains_char(request.email.as_str(), '.') {
        return Err(AuthError::InvalidEmailFormat);
    }
    if request.password.as_str().as_bytes().len() < MIN_PASSWORD_BYTES {
        return Err(AuthError::PasswordTooShort);
    }
    Ok(())
}

/// The end of a request whose event came out of turn.
pub fn reject_out_of_turn() -> (response: AuthResponse)
    ensures
        response@ == out_of_turn(),
{
    AuthResponse::Rejected(
        Rejection {
            error: AuthError::StoreUnavailable,
            cause: "the event does not belong to the phase".to_owned(),
        },
    )
}

/// The first step: validates the request and, where it is valid, asks for
/// the uniqueness check.
pub fn begin_registration(request: &RegisterUserRequest) -> (next: (
    RegistrationState,
    RegistrationAction,
))
    ensures
        (next.0, next.1@) == on_submitted(request@),
{
    match validate(request) {
        Err(error) => (
            RegistrationState::Responded,
            RegistrationAction::Respond(AuthResponse::rejected(error)),
        ),
        Ok(_) => (
            RegistrationState::CheckingUniqueness,
            RegistrationAction::FindByEmail(request.email.clone()),
        ),
    }
}

/// The step after the store's answer to the lookup, given the outcome of
/// hashing the password. The outcome is looked at only where the email is
/// free; any error in it counts as a hashing failure and keeps its cause.
pub fn continue_registration(
    request: &RegisterUserRequest,
    lookup: &StoreLookup,
    hashed: Result<String, Rejection>,
) -> (next: (RegistrationState, RegistrationAction))
    ensures
        (next.0, next.1@) == on_looked(
            request@,
            lookup@,
            match hashed {
                Ok(h) => Some(h@),
                Err(_) => None,
            },
            cause_in(hashed),
        ),
{
    match lookup {
        StoreLookup::Found(_) => (
            RegistrationState::Responded,
            RegistrationAction::Respond(AuthResponse::rejected(AuthError::EmailTaken)),
        ),
        StoreLookup::Failed(message) => (
            RegistrationState::Responded,
            RegistrationAction::Respond(
                AuthResponse::Rejected(
                    Rejection { error: AuthError::StoreUnavailable, cause: message.clone() },
                ),
            ),
        ),
        StoreLookup::NotFound => match hashed {
            Err(rejection) => (
                RegistrationState::Responded,
                RegistrationAction::Respond(
                    AuthResponse::Rejected(
                        Rejection { error: AuthError::HashingFailure, cause: rejection.cause },
                    ),
                ),
            ),
            Ok(password_hash) => {
                let role = resolve(request.role.as_str());
                let new = NewIdentity {
                    email: request.email.clone(),
                    password_hash,
                    first_name: request.first_name.clone(),
                    last_name: request.last_name.clone(),
                    phone: clone_optional_text(&request.phone),
                    role: to_wire_string(role).to_owned(),
                };
                (RegistrationState::Persisting, RegistrationAction::Insert(new))
            },
        },
    }
}

/// The last step: the answer to the client once the store has answered the
/// insert.
pub fn conclude_registration(
    request: &RegisterUserRequest,
    outcome: &StoreInsert,
    now: u64,
    config: &AuthConfig,
) -> (response: AuthResponse)
    ensures
        response@ == registration_response(
            request@,
            outcome@,
            now,
            config@,
            logged_cause(response@),
        ),
{
    match outcome {
        StoreInsert::Failed(message) => {
            let error = if is_duplicate_signal(message.as_str()) {
                AuthError::EmailTaken
            } else {
                AuthError::PersistFailure
            };
            AuthResponse::Rejected(Rejection { error, cause: message.clone() })
        },
        StoreInsert::Inserted(identity) => {
            let role = resolve(request.role.as_str());
            let user = UserInfo::of(identity, role);
            let token = issue(
                identity.id.as_str(),
                identity.email.as_str(),
                to_wire_string(role),
                now,
                config.token_validity,
                &config.token_secret,
            );
            respond_with_session(user, token, true)
        },
    }
}

/// Takes a registration one step further.
///
/// `state` is the phase the registration is in, `event` what has just
/// happened, `now` the time in seconds since the Unix epoch. The result is
/// the next phase and what to do next; the step is the one that
/// [`registration_step`] describes.
///
/// The password is hashed in the step that follows a lookup which found the
/// email free. Which salt is drawn is not determined, nor that a hash comes
/// out; a hash that is handed to the store was made at the configured work
/// factor and verifies against the request's password.
pub fn register(
    state: RegistrationState,
    request: &RegisterUserRequest,
    event: &RegistrationEvent,
    now: u64,
    config: &AuthConfig,
) -> (next: (RegistrationState, RegistrationAction))
    ensures
        (next.0, next.1@) == registration_step(
            state,
            request@,
            event@,
            hash_in(next.1@),
            cause_of(next.1@),
            now,
            config@,
        ),
        hash_in(next.1@) matches Some(password_hash) ==> {
            &&& verification(request@.password, password_hash) == Ok::<bool, AuthError>(true)
            &&& written_cost(password_hash) == Some(config.hash_cost as int)
            &&& MIN_COST <= config.hash_cost <= MAX_COST
        },
{
    match (state, event) {
        (RegistrationState::Validating, RegistrationEvent::Submitted) => begin_registration(
            request,
        ),
        (RegistrationState::CheckingUniqueness, RegistrationEvent::Looked(lookup)) => {
            match lookup {
                StoreLookup::NotFound => {
                    let hashed = hash(request.password.as_str(), config.hash_cost);
                    continue_registration(request, lookup, hashed)
                },
                _ => continue_registration(
                    request,
                    lookup,
                    Err(Rejection::of(AuthError::HashingFailure)),
                ),
            }
        },
        (RegistrationState::Persisting, RegistrationEvent::Stored(outcome)) => (
            RegistrationState::Responded,
            RegistrationAction::Respond(conclude_registration(request, outcome, now, config)),
        ),
        _ => (RegistrationState::Responded, RegistrationAction::Respond(reject_out_of_turn())),
    }
}

/// The answer that a registration ends with when it is run from its first
/// phase against a working store that holds `directory`.
///
/// `hashed` is the hash made of the password, `None` where hashing fails;
/// `stored` is the store's answer to the insert; `cause` is what a library
/// says where it fails. Each is looked at only where the registration gets
/// that far.
pub open spec fn registration_run(
    directory: Directory,
    request: RegisterUserRequestView,
    hashed: Option<Seq<char>>,
    stored: StoreInsertView,
    cause: Seq<char>,
    now: u64,
    config: AuthConfigView,
) -> AuthResponseView {
    let first = registration_step(
        RegistrationState::Validating,
        request,
        RegistrationEventView::Submitted,
        hashed,
        cause,
        now,
        config,
    );
    match first.1 {
        RegistrationActionView::FindByEmail(email) => {
            let second = registration_step(
                first.0,
                request,
                RegistrationEventView::Looked(lookup_in(directory, email)),
                hashed,
                cause,
                now,
                config,
            );
            match second.1 {
                RegistrationActionView::Insert(_) => {
                    let third = registration_step(
                        second.0,
                        request,
                        RegistrationEventView::Stored(stored),
                        hashed,
                        cause,
                        now,
                        config,
                    );
                    match third.1 {
                        RegistrationActionView::Respond(response) => response,
                        _ => out_of_turn(),
                    }
                },
                RegistrationActionView::Respond(response) => response,
                _ => out_of_turn(),
            }
        },
        RegistrationActionView::Respond(response) => response,
        _ => out_of_turn(),
    }
}

/// Neither the password nor its hash reaches the client: two registrations
/// that differ at most in the password, stored as rows that differ at most
/// in the password hash, get the same answer.
pub proof fn lemma_registration_response_omits_password(
    request: RegisterUserRequestView,
    other_request: RegisterUserRequestView,
    row: IdentityView,
    other_row: IdentityView,
    cause: Seq<char>,
    now: u64,
    config: AuthConfigView,
)
    requires
        request == (RegisterUserRequestView { password: request.password, ..other_request }),
        row == (IdentityView { password_hash: row.password_hash, ..other_row }),
    ensures
        registration_response(request, StoreInsertView::Inserted(row), now, config, cause)
            == registration_response(
            other_request,
            StoreInsertView::Inserted(other_row),
            now,
            config,
            cause,
        ),
{
}

/// A registration succeeds only for a valid request whose email was free,
/// and then the client is shown the stored row's public part under the role
/// that the request named.
pub proof fn lemma_created_means_stored(
    directory: Directory,
    request: RegisterUserRequestView,
    hashed: Option<Seq<char>>,
    stored: StoreInsertView,
    cause: Seq<char>,
    now: u64,
    config: AuthConfigView,
)
    requires
        registration_run(directory, request, hashed, stored, cause, now, config)
            is Created,
    ensures
        validation_failure(request) is None,
        !directory.contains_key(request.email),
        hashed is Some,
        stored matches StoreInsertView::Inserted(row) && registration_run(
            directory,
            request,
            hashed,
            stored,
            cause,
            now,
            config,
        )->Created_0.user == public_view(row, resolved_role(request.role)),
{
}

/// Registering an email a second time is a conflict.
///
/// Once a registration has succeeded and the store holds its row, every
/// later registration of that email, whatever else it asks for, is turned
/// down with `EmailTaken`, provided only that it is a valid request.
pub proof fn lemma_second_registration_conflicts(
    before: Directory,
    first: RegisterUserRequestView,
    first_hashed: Option<Seq<char>>,
    first_stored: StoreInsertView,
    first_now: u64,
    after: Directory,
    second: RegisterUserRequestView,
    second_hashed: Option<Seq<char>>,
    second_stored: StoreInsertView,
    second_now: u64,
    cause: Seq<char>,
    config: AuthConfigView,
)
    requires
        registration_run(before, first, first_hashed, first_stored, cause, first_now, config)
            is Created,
        first_hashed matches Some(password_hash) ==> insert_into(
            before,
            new_identity(first, password_hash),
            first_stored,
            after,
        ),
        second.email == first.email,
        validation_failure(second) is None,
    ensures
        registration_run(after, second, second_hashed, second_stored, cause, second_now, config)
            == AuthResponseView::Rejected(bare(AuthError::EmailTaken)),
{
    lemma_created_means_stored(
        before,
        first,
        first_hashed,
        first_stored,
        cause,
        first_now,
        config,
    );
}

/// Of two registrations that race for one email, the store takes one and the
/// other is a conflict.
///
/// Both requests are valid and both found the email free, so both ask the
/// store to insert. The store answers `first` and then `second`. If the
/// first insert went through, the second is turned down with `EmailTaken`,
/// and the store holds one identity for the email, the first one; the first
/// is then told that it was created, provided that its token can be issued.
/// Whatever the store answered, the two are not both told that they were
/// created.
pub proof fn lemma_racing_registrations_conflict(
    before: Directory,
    first: RegisterUserRequestView,
    first_hash: Seq<char>,
    first_stored: StoreInsertView,
    between: Directory,
    second: RegisterUserRequestView,
    second_hash: Seq<char>,
    second_stored: StoreInsertView,
    after: Directory,
    cause: Seq<char>,
    now: u64,
    config: AuthConfigView,
)
    requires
        first.email == second.email,
        !before.contains_key(first.email),
        insert_into(before, new_identity(first, first_hash), first_stored, between),
        insert_into(between, new_identity(second, second_hash), second_stored, after),
    ensures
        first_stored matches StoreInsertView::Inserted(row) ==> {
            &&& registration_response(second, second_stored, now, config, cause)
                matches AuthResponseView::Rejected(rejection)
            &&& rejection.error == AuthError::EmailTaken
            &&& after == before.insert(first.email, row)
            &&& issuance(
                row.id,
                row.email,
                wire_string(resolved_role(first.role)),
                now,
                config.token_validity,
                config.token_secret,
                cause,
            ) is Ok ==> registration_response(first, first_stored, now, config, cause)
                is Created
        },
        !(registration_response(first, first_stored, now, config, cause) is Created
            && registration_response(second, second_stored, now, config, cause) is Created),
        after.dom().subset_of(before.dom().insert(first.email)),
{
}

} // verus!
