use booking_auth::error::{AuthError, Rejection};
use booking_auth::model::{
    respond_with_session, AuthConfig, AuthResponse, Identity, NewIdentity, RegisterUserRequest,
    UserInfo,
};
use booking_auth::password::verify;
use booking_auth::register;
use booking_auth::registration::{
    begin_registration, conclude_registration, continue_registration, reject_out_of_turn,
    validate, RegistrationAction, RegistrationEvent, RegistrationState, MIN_PASSWORD_BYTES,
};
use booking_auth::role::UserRole;
use booking_auth::store::{is_duplicate_signal, StoreInsert, StoreLookup};

fn request(email: &str, password: &str, first_name: &str, last_name: &str) -> RegisterUserRequest {
    RegisterUserRequest {
        email: email.to_string(),
        password: password.to_string(),
        first_name: first_name.to_string(),
        last_name: last_name.to_string(),
        phone: None,
        role: String::new(),
    }
}

fn valid_request() -> RegisterUserRequest {
    request("a@b.com", "longenough1", "A", "B")
}

fn config() -> AuthConfig {
    AuthConfig { hash_cost: 4, token_secret: Some("secret".to_string()), token_validity: 3_600 }
}

fn row(id: &str, new: &NewIdentity) -> Identity {
    Identity {
        id: id.to_string(),
        email: new.email.clone(),
        password_hash: new.password_hash.clone(),
        first_name: new.first_name.clone(),
        last_name: new.last_name.clone(),
        phone: new.phone.clone(),
        role: new.role.clone(),
        created_at: 1_700_000_000,
    }
}

fn rejected(error: AuthError) -> (RegistrationState, RegistrationAction) {
    (RegistrationState::Responded, RegistrationAction::Respond(AuthResponse::rejected(error)))
}

fn because(error: AuthError, cause: &str) -> AuthResponse {
    AuthResponse::Rejected(Rejection { error, cause: cause.to_string() })
}

fn rejected_because(error: AuthError, cause: &str) -> (RegistrationState, RegistrationAction) {
    (RegistrationState::Responded, RegistrationAction::Respond(because(error, cause)))
}

#[test]
fn a_complete_request_is_valid() {
    assert_eq!(validate(&valid_request()), Ok(()));
}

#[test]
fn every_required_field_must_be_filled() {
    assert_eq!(validate(&request("", "longenough1", "A", "B")), Err(AuthError::MissingFields));
    assert_eq!(validate(&request("a@b.com", "", "A", "B")), Err(AuthError::MissingFields));
    assert_eq!(validate(&request("a@b.com", "longenough1", "", "B")), Err(AuthError::MissingFields));
    assert_eq!(validate(&request("a@b.com", "longenough1", "A", "")), Err(AuthError::MissingFields));
}

#[test]
fn an_email_needs_an_at_sign_and_a_dot() {
    assert_eq!(
        validate(&request("ab.com", "longenough1", "A", "B")),
        Err(AuthError::InvalidEmailFormat)
    );
    assert_eq!(
        validate(&request("a@bcom", "longenough1", "A", "B")),
        Err(AuthError::InvalidEmailFormat)
    );
    assert_eq!(
        validate(&request("abcom", "longenough1", "A", "B")),
        Err(AuthError::InvalidEmailFormat)
    );
    assert_eq!(validate(&request("@.", "longenough1", "A", "B")), Ok(()));
    assert_eq!(validate(&request(".@", "longenough1", "A", "B")), Ok(()));
}

#[test]
fn a_password_needs_eight_bytes() {
    assert_eq!(MIN_PASSWORD_BYTES, 8);
    assert_eq!(validate(&request("a@b.com", "1234567", "A", "B")), Err(AuthError::PasswordTooShort));
    assert_eq!(validate(&request("a@b.com", "12345678", "A", "B")), Ok(()));
    assert_eq!(validate(&request("a@b.com", "x", "A", "B")), Err(AuthError::PasswordTooShort));
}

#[test]
fn password_length_is_counted_in_bytes() {
    assert_eq!(validate(&request("a@b.com", "ññññ", "A", "B")), Ok(()));
    assert_eq!(validate(&request("a@b.com", "ñññ", "A", "B")), Err(AuthError::PasswordTooShort));
    assert_eq!(validate(&request("a@b.com", "ñññx", "A", "B")), Err(AuthError::PasswordTooShort));
    assert_eq!(validate(&request("a@b.com", "ñññxy", "A", "B")), Ok(()));
}

#[test]
fn the_first_broken_rule_wins() {
    assert_eq!(validate(&request("", "short", "A", "B")), Err(AuthError::MissingFields));
    assert_eq!(validate(&request("nonsense", "short", "", "B")), Err(AuthError::MissingFields));
    assert_eq!(validate(&request("nonsense", "short", "A", "B")), Err(AuthError::InvalidEmailFormat));
    assert_eq!(validate(&request("a@b.com", "short", "A", "B")), Err(AuthError::PasswordTooShort));
}

#[test]
fn phone_and_role_are_optional() {
    let mut with_both = valid_request();
    with_both.phone = Some(String::new());
    with_both.role = "no such role".to_string();
    assert_eq!(validate(&with_both), Ok(()));
}

#[test]
fn a_valid_submission_asks_for_the_uniqueness_check() {
    let expected = (
        RegistrationState::CheckingUniqueness,
        RegistrationAction::FindByEmail("a@b.com".to_string()),
    );
    assert_eq!(begin_registration(&valid_request()), expected);
    assert_eq!(
        register(
            RegistrationState::Validating,
            &valid_request(),
            &RegistrationEvent::Submitted,
            0,
            &config()
        ),
        expected
    );
}

#[test]
fn an_invalid_submission_is_turned_down_at_once() {
    let bad = request("a@b.com", "short", "A", "B");
    assert_eq!(begin_registration(&bad), rejected(AuthError::PasswordTooShort));
    assert_eq!(
        register(RegistrationState::Validating, &bad, &RegistrationEvent::Submitted, 0, &config()),
        rejected(AuthError::PasswordTooShort)
    );
}

#[test]
fn a_found_email_is_a_conflict() {
    let holder = Identity {
        id: "1".to_string(),
        email: "a@b.com".to_string(),
        password_hash: "x".to_string(),
        first_name: "A".to_string(),
        last_name: "B".to_string(),
        phone: None,
        role: "customer".to_string(),
        created_at: 1_700_000_000,
    };
    let event = RegistrationEvent::Looked(StoreLookup::Found(holder));
    assert_eq!(
        register(RegistrationState::CheckingUniqueness, &valid_request(), &event, 0, &config()),
        rejected(AuthError::EmailTaken)
    );
}

#[test]
fn a_failed_lookup_fails_the_registration() {
    let event = RegistrationEvent::Looked(StoreLookup::Failed("pool timed out".to_string()));
    assert_eq!(
        register(RegistrationState::CheckingUniqueness, &valid_request(), &event, 0, &config()),
        rejected_because(AuthError::StoreUnavailable, "pool timed out")
    );
}

#[test]
fn a_free_email_leads_to_an_insert_with_a_hashed_password() {
    let mut wanted = valid_request();
    wanted.phone = Some("555".to_string());
    wanted.role = "HotelOwner".to_string();
    let event = RegistrationEvent::Looked(StoreLookup::NotFound);
    let (state, action) =
        register(RegistrationState::CheckingUniqueness, &wanted, &event, 0, &config());
    assert_eq!(state, RegistrationState::Persisting);
    match action {
        RegistrationAction::Insert(new) => {
            assert_eq!(new.email, "a@b.com");
            assert_eq!(new.first_name, "A");
            assert_eq!(new.last_name, "B");
            assert_eq!(new.phone, Some("555".to_string()));
            assert_eq!(new.role, "hotel_owner");
            assert_ne!(new.password_hash, "longenough1");
            assert!(new.password_hash.starts_with("$2b$04$"));
            assert_eq!(verify("longenough1", &new.password_hash), Ok(true));
        }
        other => panic!("expected an insert, got {:?}", other),
    }
}

#[test]
fn a_hashing_failure_ends_the_registration() {
    let mut broken = config();
    broken.hash_cost = 99;
    let event = RegistrationEvent::Looked(StoreLookup::NotFound);
    assert_eq!(
        register(RegistrationState::CheckingUniqueness, &valid_request(), &event, 0, &broken),
        rejected_because(AuthError::HashingFailure, "Cost needs to be between 4 and 31, got 99")
    );
}

#[test]
fn the_password_is_not_hashed_for_a_taken_email() {
    let mut broken = config();
    broken.hash_cost = 99;
    let event = RegistrationEvent::Looked(StoreLookup::Failed("pool timed out".to_string()));
    assert_eq!(
        register(RegistrationState::CheckingUniqueness, &valid_request(), &event, 0, &broken),
        rejected_because(AuthError::StoreUnavailable, "pool timed out")
    );
}

#[test]
fn continue_registration_builds_the_insert_from_the_request() {
    let mut wanted = valid_request();
    wanted.role = "ADMIN".to_string();
    let next = continue_registration(&wanted, &StoreLookup::NotFound, Ok("the hash".to_string()));
    let expected = NewIdentity {
        email: "a@b.com".to_string(),
        password_hash: "the hash".to_string(),
        first_name: "A".to_string(),
        last_name: "B".to_string(),
        phone: None,
        role: "admin".to_string(),
    };
    assert_eq!(next, (RegistrationState::Persisting, RegistrationAction::Insert(expected)));
}

#[test]
fn continue_registration_maps_each_outcome() {
    let wanted = valid_request();
    let failed = Rejection { error: AuthError::HashingFailure, cause: "no entropy".to_string() };
    assert_eq!(
        continue_registration(&wanted, &StoreLookup::NotFound, Err(failed)),
        rejected_because(AuthError::HashingFailure, "no entropy")
    );
    let odd = Rejection { error: AuthError::SigningFailure, cause: "odd".to_string() };
    assert_eq!(
        continue_registration(&wanted, &StoreLookup::NotFound, Err(odd)),
        rejected_because(AuthError::HashingFailure, "odd")
    );
    assert_eq!(
        continue_registration(&wanted, &StoreLookup::Failed("down".to_string()), Ok("h".to_string())),
        rejected_because(AuthError::StoreUnavailable, "down")
    );
}

#[test]
fn an_unrecognized_role_is_stored_as_customer() {
    let mut wanted = valid_request();
    wanted.role = "bogus".to_string();
    match continue_registration(&wanted, &StoreLookup::NotFound, Ok("h".to_string())).1 {
        RegistrationAction::Insert(new) => assert_eq!(new.role, "customer"),
        other => panic!("expected an insert, got {:?}", other),
    }
}

#[test]
fn a_stored_identity_is_answered_with_token_and_public_view() {
    let wanted = valid_request();
    let new = NewIdentity {
        email: "a@b.com".to_string(),
        password_hash: "$2b$04$hash".to_string(),
        first_name: "A".to_string(),
        last_name: "B".to_string(),
        phone: Some("555".to_string()),
        role: "customer".to_string(),
    };
    let event = RegistrationEvent::Stored(StoreInsert::Inserted(row("id-1", &new)));
    let (state, action) = register(RegistrationState::Persisting, &wanted, &event, 1_000, &config());
    assert_eq!(state, RegistrationState::Responded);
    match action {
        RegistrationAction::Respond(response) => {
            assert_eq!(response.status_code(), 201);
            match response {
                AuthResponse::Created(body) => {
                    assert_eq!(
                        body.user,
                        UserInfo {
                            id: "id-1".to_string(),
                            email: "a@b.com".to_string(),
                            role: UserRole::Customer,
                            first_name: "A".to_string(),
                            last_name: "B".to_string(),
                            phone: Some("555".to_string()),
                        }
                    );
                    assert_eq!(body.token.split('.').count(), 3);
                    assert!(!format!("{:?}", body).contains("$2b$04$hash"));
                }
                other => panic!("expected a created response, got {:?}", other),
            }
        }
        other => panic!("expected a response, got {:?}", other),
    }
}

#[test]
fn the_role_shown_is_the_one_the_request_named() {
    let mut wanted = valid_request();
    wanted.role = "businessowner".to_string();
    let stored = Identity {
        id: "id-1".to_string(),
        email: "a@b.com".to_string(),
        password_hash: "h".to_string(),
        first_name: "A".to_string(),
        last_name: "B".to_string(),
        phone: None,
        role: "customer".to_string(),
        created_at: 1_700_000_000,
    };
    match conclude_registration(&wanted, &StoreInsert::Inserted(stored), 1_000, &config()) {
        AuthResponse::Created(body) => assert_eq!(body.user.role, UserRole::BusinessOwner),
        other => panic!("expected a created response, got {:?}", other),
    }
}

#[test]
fn a_duplicate_key_signal_is_a_conflict() {
    let wanted = valid_request();
    let messages = vec![
        "error returned from database: duplicate key value violates unique constraint \"users_email_key\"",
        "duplicate key",
        "UNIQUE constraint failed; unique constraint users.email",
    ];
    for message in messages {
        assert!(is_duplicate_signal(message));
        let outcome = StoreInsert::Failed(message.to_string());
        let response = conclude_registration(&wanted, &outcome, 0, &config());
        assert_eq!(response, because(AuthError::EmailTaken, message));
        assert_eq!(response.status_code(), 409);
    }
}

#[test]
fn any_other_insert_failure_is_an_internal_failure() {
    let wanted = valid_request();
    let messages = vec!["connection reset", "", "Duplicate Key", "value too long for type"];
    for message in messages {
        assert!(!is_duplicate_signal(message));
        let outcome = StoreInsert::Failed(message.to_string());
        let response = conclude_registration(&wanted, &outcome, 0, &config());
        assert_eq!(response, because(AuthError::PersistFailure, message));
        assert_eq!(response.status_code(), 500);
    }
}

#[test]
fn without_a_secret_the_registration_fails_after_the_insert() {
    let mut unsigned = config();
    unsigned.token_secret = None;
    let stored = Identity {
        id: "id-1".to_string(),
        email: "a@b.com".to_string(),
        password_hash: "h".to_string(),
        first_name: "A".to_string(),
        last_name: "B".to_string(),
        phone: None,
        role: "customer".to_string(),
        created_at: 1_700_000_000,
    };
    let response =
        conclude_registration(&valid_request(), &StoreInsert::Inserted(stored), 0, &unsigned);
    assert_eq!(response, because(AuthError::SigningFailure, "no signing secret is configured"));
    assert_eq!(response.status_code(), 500);
}

#[test]
fn respond_with_session_maps_each_outcome() {
    let user = UserInfo {
        id: "1".to_string(),
        email: "a@b.com".to_string(),
        role: UserRole::Admin,
        first_name: "A".to_string(),
        last_name: "B".to_string(),
        phone: None,
    };
    let created = respond_with_session(user.clone(), Ok("t".to_string()), true);
    assert_eq!(created.status_code(), 201);
    assert!(matches!(created, AuthResponse::Created(ref body) if body.token == "t" && body.user == user));
    let accepted = respond_with_session(user.clone(), Ok("t".to_string()), false);
    assert_eq!(accepted.status_code(), 200);
    assert!(matches!(accepted, AuthResponse::Authenticated(ref body) if body.token == "t"));
    let trouble = Rejection { error: AuthError::SigningFailure, cause: "bad key".to_string() };
    let failed = respond_with_session(user, Err(trouble), true);
    assert_eq!(failed, because(AuthError::SigningFailure, "bad key"));
}

#[test]
fn an_event_out_of_turn_ends_the_registration() {
    let wanted = valid_request();
    let looked = RegistrationEvent::Looked(StoreLookup::NotFound);
    let stored = RegistrationEvent::Stored(StoreInsert::Failed("duplicate key".to_string()));
    let submitted = RegistrationEvent::Submitted;
    let cases = vec![
        (RegistrationState::Validating, &looked),
        (RegistrationState::Validating, &stored),
        (RegistrationState::CheckingUniqueness, &submitted),
        (RegistrationState::CheckingUniqueness, &stored),
        (RegistrationState::Persisting, &submitted),
        (RegistrationState::Persisting, &looked),
        (RegistrationState::Responded, &submitted),
        (RegistrationState::Responded, &looked),
        (RegistrationState::Responded, &stored),
    ];
    for (state, event) in cases {
        assert_eq!(
            register(state, &wanted, event, 0, &config()),
            rejected_because(AuthError::StoreUnavailable, "the event does not belong to the phase")
        );
    }
}

#[test]
fn the_password_is_hashed_at_the_configured_cost() {
    let mut costly = config();
    costly.hash_cost = 6;
    let event = RegistrationEvent::Looked(StoreLookup::NotFound);
    match register(RegistrationState::CheckingUniqueness, &valid_request(), &event, 0, &costly).1 {
        RegistrationAction::Insert(new) => assert!(new.password_hash.starts_with("$2b$06$")),
        other => panic!("expected an insert, got {:?}", other),
    }
}

#[test]
fn a_rejection_shows_the_client_the_message_and_not_the_cause() {
    let outcome = StoreInsert::Failed("relation \"users\" does not exist".to_string());
    match conclude_registration(&valid_request(), &outcome, 0, &config()) {
        AuthResponse::Rejected(rejection) => {
            assert_eq!(rejection.error.message(), "Error al crear usuario");
            assert_eq!(rejection.cause, "relation \"users\" does not exist");
        }
        other => panic!("expected a rejection, got {:?}", other),
    }
}

#[test]
fn an_event_out_of_turn_is_an_internal_failure() {
    let response = reject_out_of_turn();
    assert_eq!(response.status_code(), 500);
    assert_eq!(
        response,
        because(AuthError::StoreUnavailable, "the event does not belong to the phase")
    );
}
