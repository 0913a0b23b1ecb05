//! Signed, time-bounded session tokens.
//!
//! A token asserts who its bearer is and until when. The claims are built
//! here; the signature is HMAC-SHA256 over the JSON form of the claims, made
//! by the `jsonwebtoken` crate.

use vstd::prelude::*;
use crate::error::{cause_in, AuthError, Rejection, RejectionView};

verus! {

/// The error type of the `jsonwebtoken` crate: carried, and written out for
/// the log.
#[verifier::external_type_specification]
#[verifier::external_body]
pub struct ExTokenError(jsonwebtoken::errors::Error);

/// What a session token asserts.
#[derive(Clone, Debug, PartialEq, Eq)]
pub struct TokenClaims {
    /// The identity's id.
    pub sub: String,
    pub email: String,
    /// The canonical text of the identity's role.
    pub role: String,
    /// When the token was issued, in seconds since the Unix epoch.
    pub iat: u64,
    /// The last second at which the token is valid.
    pub exp: u64,
}

/// [`TokenClaims`] as contracts see it: text is a sequence of characters.
pub struct TokenClaimsView {
    pub sub: Seq<char>,
    pub email: Seq<char>,
    pub role: Seq<char>,
    pub iat: u64,
    pub exp: u64,
}

impl View for TokenClaims {
    type V = TokenClaimsView;

    open spec fn view(&self) -> TokenClaimsView {
        TokenClaimsView {
            sub: self.sub@,
            email: self.email@,
            role: self.role@,
            iat: self.iat,
            exp: self.exp,
        }
    }
}

/// The claims of a token issued at `now` for `validity` seconds, or `None`
/// where the expiry would not fit in 64 bits.
pub open spec fn claims_at(
    sub: Seq<char>,
    email: Seq<char>,
    role: Seq<char>,
    now: u64,
    validity: u64,
) -> Option<TokenClaimsView> {
    if now + validity <= u64::MAX {
        Some(TokenClaimsView { sub, email, role, iat: now, exp: (now + validity) as u64 })
    } else {
        None
    }
}

/// Whether a token with these claims is past its expiry at time `at`.
pub open spec fn expired(claims: TokenClaimsView, at: int) -> bool {
    at > claims.exp
}

/// The claims that are text, by name, in the order they are written.
pub open spec fn text_entries(claims: TokenClaimsView) -> Seq<(Seq<char>, Seq<char>)> {
    seq![("sub"@, claims.sub), ("email"@, claims.email), ("role"@, claims.role)]
}

/// The claims that are points in time, by name, in the order they are
/// written.
pub open spec fn time_entries(claims: TokenClaimsView) -> Seq<(Seq<char>, u64)> {
    seq![("iat"@, claims.iat), ("exp"@, claims.exp)]
}

/// The token that `jsonwebtoken::encode` makes, under its default header, of
/// a JSON object with the given entries and a secret; `None` where it reports
/// an error.
pub uninterp spec fn hs256_token(
    text: Seq<(Seq<char>, Seq<char>)>,
    times: Seq<(Seq<char>, u64)>,
    secret: Seq<char>,
) -> Option<Seq<char>>;

/// The signed form of `claims` under `secret`.
pub open spec fn signed(claims: TokenClaimsView, secret: Seq<char>) -> Option<Seq<char>> {
    hs256_token(text_entries(claims), time_entries(claims), secret)
}

/// What is logged where no signing secret is configured.
pub open spec fn no_secret_cause() -> Seq<char> {
    "no signing secret is configured"@
}

/// What is logged where the expiry of a token cannot be written down.
pub open spec fn expiry_overflow_cause() -> Seq<char> {
    "the expiry of the token does not fit in 64 bits"@
}

/// The outcome of issuing a token at `now` for the given identity.
///
/// There is no token without a secret, nor where the expiry overflows, nor
/// where signing fails. Every failure is a `SigningFailure`; `cause` is what
/// the signer says where it is the signer that fails.
pub open spec fn issuance(
    sub: Seq<char>,
    email: Seq<char>,
    role: Seq<char>,
    now: u64,
    validity: u64,
    secret: Option<Seq<char>>,
    cause: Seq<char>,
) -> Result<Seq<char>, RejectionView> {
    match secret {
        None => Err(RejectionView { error: AuthError::SigningFailure, cause: no_secret_cause() }),
        Some(secret) => match claims_at(sub, email, role, now, validity) {
            None => Err(
                RejectionView {
                    error: AuthError::SigningFailure,
                    cause: expiry_overflow_cause(),
                },
            ),
            Some(claims) => match signed(claims, secret) {
                Some(token) => Ok(token),
                None => Err(RejectionView { error: AuthError::SigningFailure, cause }),
            },
        },
    }
}

/// Puts the entries into a JSON object, text entries first, and calls
/// `jsonwebtoken::encode` on it with the default header (HS256) and the bytes
/// of `secret` as the key.
///
/// Trusted: the token depends on the entries and the secret alone, so it has
/// a name, [`hs256_token`]; an error stands for `None`.
#[verifier::external_body]
fn encode_hs256(text: &Vec<(String, String)>, times: &Vec<(String, u64)>, secret: &str) -> (outcome:
    Result<String, jsonwebtoken::errors::Error>)
    ensures
        outcome matches Ok(token) ==> hs256_token(text.deep_view(), times.deep_view(), secret@)
            == Some(token@),
        outcome is Err ==> hs256_token(text.deep_view(), times.deep_view(), secret@) is None,
{
    let mut object = serde_json::Map::new();
    for (name, value) in text {
        object.insert(name.clone(), serde_json::Value::from(value.clone()));
    }
    for (name, value) in times {
        object.insert(name.clone(), serde_json::Value::from(*value));
    }
    let key = jsonwebtoken::EncodingKey::from_secret(secret.as_bytes());
    jsonwebtoken::encode(&jsonwebtoken::Header::default(), &object, &key)
}

/// Writes out a signing error in the crate's own words, through its
/// `Display`. Nothing is claimed of the text.
#[verifier::external_body]
fn describe_token_error(error: &jsonwebtoken::errors::Error) -> (text: String) {
    error.to_string()
}

/// Turns what the signer answered into the library's terms: the token, or a
/// `SigningFailure` whatever went wrong, with the signer's words as its
/// cause.
pub fn signed_token(outcome: Result<String, jsonwebtoken::errors::Error>) -> (token: Result<
    String,
    Rejection,
>)
    ensures
        match outcome {
            Ok(signed) => token matches Ok(t) && t@ == signed@,
            Err(_) => token matches Err(rejection) && rejection.error
                == AuthError::SigningFailure,
        },
{
    match outcome {
        Ok(signed) => Ok(signed),
        Err(error) => Err(
            Rejection { error: AuthError::SigningFailure, cause: describe_token_error(&error) },
        ),
    }
}

impl TokenClaims {
    /// The claims of a token issued at `now` for `validity` seconds; `None`
    /// where the expiry would not fit in 64 bits.
    pub fn new(sub: &str, email: &str, role: &str, now: u64, validity: u64) -> (claims: Option<
        TokenClaims,
    >)
        ensures
            claims.is_some() == claims_at(sub@, email@, role@, now, validity).is_some(),
            claims matches Some(c) ==> Some(c@) == claims_at(sub@, email@, role@, now, validity),
    {
        match now.checked_add(validity) {
            Some(exp) => Some(
                TokenClaims {
                    sub: sub.to_owned(),
                    email: email.to_owned(),
                    role: role.to_owned(),
                    iat: now,
                    exp,
                },
            ),
            None => None,
        }
    }

    /// Whether the token is past its expiry at time `now`. A token is still
    /// good in the second named by `exp` itself.
    pub fn is_expired(&self, now: u64) -> (past: bool)
        ensures
            past == expired(self@, now as int),
    {
        now > self.exp
    }

    /// Signs the claims with `secret`.
    pub fn sign(&self, secret: &str) -> (token: Result<String, Rejection>)
        ensures
            match signed(self@, secret@) {
                Some(t) => token matches Ok(s) && s@ == t,
                None => token matches Err(rejection) && rejection.error
                    == AuthError::SigningFailure,
            },
    {
        let mut text: Vec<(String, String)> = Vec::new();
        text.push(("sub".to_owned(), self.sub.clone()));
        text.push(("email".to_owned(), self.email.clone()));
        text.push(("role".to_owned(), self.role.clone()));
        let mut times: Vec<(String, u64)> = Vec::new();
        times.push(("iat".to_owned(), self.iat));
        times.push(("exp".to_owned(), self.exp));
        proof {
            assert(text.deep_view() =~= text_entries(self@));
            assert(times.deep_view() =~= time_entries(self@));
        }
        signed_token(encode_hs256(&text, &times, secret))
    }
}

/// Issues a session token for an identity at time `now`.
///
/// `secret` is the process-wide signing secret, `None` where none is
/// configured; `validity` is the number of seconds the token stays good.
/// The only error is `SigningFailure`; its cause says what was missing, or
/// what the signer said.
pub fn issue(
    identity_id: &str,
    email: &str,
    role: &str,
    now: u64,
    validity: u64,
    secret: &Option<String>,
) -> (token: Result<String, Rejection>)
    ensures
        match issuance(
            identity_id@,
            email@,
            role@,
            now,
            validity,
            secret.deep_view(),
            cause_in(token),
        ) {
            Ok(t) => token matches Ok(s) && s@ == t,
            Err(expected) => token matches Err(rejection) && rejection@ == expected,
        },
{
    match secret {
        None => Err(
            Rejection {
                error: AuthError::SigningFailure,
                cause: "no signing secret is configured".to_owned(),
            },
        ),
        Some(secret) => match TokenClaims::new(identity_id, email, role, now, validity) {
            None => Err(
                Rejection {
                    error: AuthError::SigningFailure,
                    cause: "the expiry of the token does not fit in 64 bits".to_owned(),
                },
            ),
            Some(claims) => claims.sign(secret.as_str()),
        },
    }
}

/// A token issued at time `now` for `validity` seconds is still good at
/// `now + validity` and expired one second later.
pub proof fn lemma_token_expires_after_window(
    sub: Seq<char>,
    email: Seq<char>,
    role: Seq<char>,
    now: u64,
    validity: u64,
)
    requires
        claims_at(sub, email, role, now, validity) is Some,
    ensures
        !expired(claims_at(sub, email, role, now, validity)->0, now + validity),
        expired(claims_at(sub, email, role, now, validity)->0, now + validity + 1),
        forall|at: int| at > now + validity ==> expired(
            claims_at(sub, email, role, now, validity)->0,
            at,
        ),
{
}

} // verus!
