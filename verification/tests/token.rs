use booking_auth::error::{AuthError, Rejection};
use booking_auth::token::{issue, signed_token, TokenClaims};
use jsonwebtoken::errors::{Error, ErrorKind};
use jsonwebtoken::{decode, Algorithm, DecodingKey, Validation};
use std::time::{SystemTime, UNIX_EPOCH};

fn unix_now() -> u64 {
    SystemTime::now().duration_since(UNIX_EPOCH).unwrap().as_secs()
}

fn strict() -> Validation {
    let mut validation = Validation::new(Algorithm::HS256);
    validation.leeway = 0;
    validation
}

fn read(token: &str, secret: &str) -> Result<serde_json::Value, ErrorKind> {
    match decode::<serde_json::Value>(token, &DecodingKey::from_secret(secret.as_bytes()), &strict())
    {
        Ok(data) => Ok(data.claims),
        Err(error) => Err(error.into_kind()),
    }
}

#[test]
fn claims_expire_one_window_after_issuance() {
    let claims = TokenClaims::new("7", "a@b.com", "customer", 1_000, 3_600).unwrap();
    assert_eq!(claims.sub, "7");
    assert_eq!(claims.email, "a@b.com");
    assert_eq!(claims.role, "customer");
    assert_eq!(claims.iat, 1_000);
    assert_eq!(claims.exp, 4_600);
}

#[test]
fn a_zero_window_expires_at_issuance() {
    let claims = TokenClaims::new("7", "a@b.com", "customer", 1_000, 0).unwrap();
    assert_eq!(claims.exp, 1_000);
    assert!(!claims.is_expired(1_000));
    assert!(claims.is_expired(1_001));
}

#[test]
fn an_expiry_beyond_64_bits_gives_no_claims() {
    assert_eq!(TokenClaims::new("7", "a@b.com", "customer", u64::MAX, 1), None);
    assert_eq!(TokenClaims::new("7", "a@b.com", "customer", 1, u64::MAX), None);
    let last = TokenClaims::new("7", "a@b.com", "customer", u64::MAX - 1, 1).unwrap();
    assert_eq!(last.exp, u64::MAX);
}

#[test]
fn a_token_is_good_through_its_last_second_and_not_after() {
    let claims = TokenClaims::new("7", "a@b.com", "customer", 1_000, 3_600).unwrap();
    assert!(!claims.is_expired(0));
    assert!(!claims.is_expired(1_000));
    assert!(!claims.is_expired(4_599));
    assert!(!claims.is_expired(4_600));
    assert!(claims.is_expired(4_601));
    assert!(claims.is_expired(u64::MAX));
}

#[test]
fn no_secret_no_token() {
    assert_eq!(
        issue("7", "a@b.com", "customer", 1_000, 3_600, &None),
        Err(Rejection {
            error: AuthError::SigningFailure,
            cause: "no signing secret is configured".to_string(),
        })
    );
}

#[test]
fn an_overflowing_expiry_is_a_signing_failure() {
    assert_eq!(
        issue("7", "a@b.com", "customer", u64::MAX, 1, &Some("secret".to_string())),
        Err(Rejection {
            error: AuthError::SigningFailure,
            cause: "the expiry of the token does not fit in 64 bits".to_string(),
        })
    );
}

#[test]
fn an_issued_token_carries_the_claims() {
    let now = unix_now();
    let token = issue("id-7", "a@b.com", "hotel_owner", now, 3_600, &Some("secret".to_string()))
        .unwrap();
    assert_eq!(token.split('.').count(), 3);
    let claims = read(&token, "secret").unwrap();
    assert_eq!(claims["sub"], "id-7");
    assert_eq!(claims["email"], "a@b.com");
    assert_eq!(claims["role"], "hotel_owner");
    assert_eq!(claims["iat"], now);
    assert_eq!(claims["exp"], now + 3_600);
    assert_eq!(claims.as_object().unwrap().len(), 5);
}

#[test]
fn a_token_is_signed_with_the_secret() {
    let now = unix_now();
    let token = issue("id-7", "a@b.com", "customer", now, 3_600, &Some("secret".to_string()))
        .unwrap();
    assert_eq!(read(&token, "another secret"), Err(ErrorKind::InvalidSignature));
    assert!(read(&token, "secret").is_ok());
}

#[test]
fn a_tampered_token_is_refused() {
    let now = unix_now();
    let token = issue("id-7", "a@b.com", "customer", now, 3_600, &Some("secret".to_string()))
        .unwrap();
    let forged = issue("id-7", "a@b.com", "admin", now, 3_600, &Some("other".to_string()))
        .unwrap();
    let parts: Vec<&str> = token.split('.').collect();
    let forged_parts: Vec<&str> = forged.split('.').collect();
    let spliced = format!("{}.{}.{}", parts[0], forged_parts[1], parts[2]);
    assert_eq!(read(&spliced, "secret"), Err(ErrorKind::InvalidSignature));
}

#[test]
fn the_same_claims_and_secret_give_the_same_token() {
    let secret = Some("secret".to_string());
    let first = issue("id-7", "a@b.com", "customer", 1_000, 3_600, &secret).unwrap();
    let second = issue("id-7", "a@b.com", "customer", 1_000, 3_600, &secret).unwrap();
    assert_eq!(first, second);
    let later = issue("id-7", "a@b.com", "customer", 1_001, 3_600, &secret).unwrap();
    assert_ne!(first, later);
    let other = issue("id-8", "a@b.com", "customer", 1_000, 3_600, &secret).unwrap();
    assert_ne!(first, other);
}

#[test]
fn signing_by_hand_is_issuing() {
    let claims = TokenClaims::new("id-7", "a@b.com", "customer", 1_000, 3_600).unwrap();
    let issued = issue("id-7", "a@b.com", "customer", 1_000, 3_600, &Some("s".to_string()));
    assert_eq!(claims.sign("s"), issued);
}

#[test]
fn a_token_past_its_window_is_refused() {
    let window = 3_600;
    let issued_at = unix_now() - window - 1;
    let token = issue("id-7", "a@b.com", "customer", issued_at, window, &Some("s".to_string()))
        .unwrap();
    assert_eq!(read(&token, "s"), Err(ErrorKind::ExpiredSignature));
    let claims = TokenClaims::new("id-7", "a@b.com", "customer", issued_at, window).unwrap();
    assert!(claims.is_expired(issued_at + window + 1));
}

#[test]
fn a_token_within_its_window_is_accepted() {
    let window = 3_600;
    let issued_at = unix_now() - window + 30;
    let token = issue("id-7", "a@b.com", "customer", issued_at, window, &Some("s".to_string()))
        .unwrap();
    assert!(read(&token, "s").is_ok());
}

#[test]
fn signing_outcomes_are_mapped() {
    assert_eq!(signed_token(Ok("a.b.c".to_string())), Ok("a.b.c".to_string()));
    let rejection = signed_token(Err(Error::from(ErrorKind::InvalidKeyFormat))).unwrap_err();
    assert_eq!(rejection.error, AuthError::SigningFailure);
    assert_eq!(rejection.cause, Error::from(ErrorKind::InvalidKeyFormat).to_string());
    assert!(!rejection.cause.is_empty());
}

#[test]
fn text_with_quotes_survives_the_token() {
    let now = unix_now();
    let email = "\"quoted\\name\"@b.com";
    let token = issue("id", email, "customer", now, 60, &Some("s".to_string())).unwrap();
    let claims = read(&token, "s").unwrap();
    assert_eq!(claims["email"], email);
}
