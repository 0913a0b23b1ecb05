//! The ways a request can be turned down.

use vstd::prelude::*;

verus! {

/// The four classes of failure that a client can tell apart.
#[derive(Clone, Copy, Debug, PartialEq, Eq, Structural)]
pub enum ErrorKind {
    /// The client's data fails validation.
    InvalidInput,
    /// The email is already registered.
    Conflict,
    /// Bad credentials, or no valid session.
    Unauthorized,
    /// Hashing, signing or the identity store failed.
    InternalFailure,
}

/// Why a request was turned down.
///
/// Each reason belongs to one [`ErrorKind`] and has one message for the
/// client. No message carries detail of the failure behind it.
#[derive(Clone, Copy, Debug, PartialEq, Eq, Structural)]
pub enum AuthError {
    /// Email, password, first name or last name is empty.
    MissingFields,
    /// The email lacks an `@` or a `.`.
    InvalidEmailFormat,
    /// The password has fewer bytes than a password must have.
    PasswordTooShort,
    /// An identity with this email exists.
    EmailTaken,
    /// Unknown email or wrong password; the two are not told apart.
    InvalidCredentials,
    /// The identity store could not answer a lookup, or answered out of turn.
    StoreUnavailable,
    /// The password could not be hashed.
    HashingFailure,
    /// The stored password hash is malformed.
    VerificationFailure,
    /// The identity store refused an insert for a reason other than a
    /// duplicate email.
    PersistFailure,
    /// No signing secret is configured, or signing failed.
    SigningFailure,
}

/// A request turned down: the reason, and what lay behind it.
///
/// The client is told the reason, in the words of [`AuthError::message`].
/// The cause is for the log alone: it may hold the words of the identity
/// store or of a library that failed, and no client is shown it.
#[derive(Clone, Debug, PartialEq, Eq)]
pub struct Rejection {
    pub error: AuthError,
    /// The underlying cause, in the words of whoever reported it; empty
    /// where the reason says it all.
    pub cause: String,
}

/// [`Rejection`] as contracts see it: text is a sequence of characters.
pub struct RejectionView {
    pub error: AuthError,
    pub cause: Seq<char>,
}

impl View for Rejection {
    type V = RejectionView;

    open spec fn view(&self) -> RejectionView {
        RejectionView { error: self.error, cause: self.cause@ }
    }
}

/// The rejection for `error` with nothing more to say about its cause.
pub open spec fn bare(error: AuthError) -> RejectionView {
    RejectionView { error, cause: Seq::empty() }
}

/// The cause that a failed outcome carries; empty for a success.
pub open spec fn cause_in<T>(outcome: Result<T, Rejection>) -> Seq<char> {
    match outcome {
        Ok(_) => Seq::empty(),
        Err(rejection) => rejection.cause@,
    }
}

/// The class of failure that `error` belongs to.
pub open spec fn kind_of(error: AuthError) -> ErrorKind {
    match error {
        AuthError::MissingFields => ErrorKind::InvalidInput,
        AuthError::InvalidEmailFormat => ErrorKind::InvalidInput,
        AuthError::PasswordTooShort => ErrorKind::InvalidInput,
        AuthError::EmailTaken => ErrorKind::Conflict,
        AuthError::InvalidCredentials => ErrorKind::Unauthorized,
        AuthError::StoreUnavailable => ErrorKind::InternalFailure,
        AuthError::HashingFailure => ErrorKind::InternalFailure,
        AuthError::VerificationFailure => ErrorKind::InternalFailure,
        AuthError::PersistFailure => ErrorKind::InternalFailure,
        AuthError::SigningFailure => ErrorKind::InternalFailure,
    }
}

/// The HTTP status that answers a failure of class `kind`.
pub open spec fn status_of(kind: ErrorKind) -> u16 {
    match kind {
        ErrorKind::InvalidInput => 400,
        ErrorKind::Conflict => 409,
        ErrorKind::Unauthorized => 401,
        ErrorKind::InternalFailure => 500,
    }
}

/// The text shown to the client for `error`.
pub open spec fn message_of(error: AuthError) -> Seq<char> {
    match error {
        AuthError::MissingFields => "Email, contraseña, nombre y apellido son requeridos"@,
        AuthError::InvalidEmailFormat => "Formato de email inválido"@,
        AuthError::PasswordTooShort => "La contraseña debe tener al menos 8 caracteres"@,
        AuthError::EmailTaken => "El email ya está registrado"@,
        AuthError::InvalidCredentials => "Credenciales inválidas"@,
        AuthError::StoreUnavailable => "Error interno del servidor"@,
        AuthError::HashingFailure => "Error procesando contraseña"@,
        AuthError::VerificationFailure => "Error de autenticación"@,
        AuthError::PersistFailure => "Error al crear usuario"@,
        AuthError::SigningFailure => "Error generando token de autenticación"@,
    }
}

impl ErrorKind {
    /// The HTTP status that answers a failure of this class.
    pub fn status_code(&self) -> (status: u16)
        ensures
            status == status_of(*self),
    {
        match self {
            ErrorKind::InvalidInput => 400,
            ErrorKind::Conflict => 409,
            ErrorKind::Unauthorized => 401,
            ErrorKind::InternalFailure => 500,
        }
    }
}

impl Rejection {
    /// The rejection for `error` with nothing more to say about its cause.
    pub fn of(error: AuthError) -> (rejection: Rejection)
        ensures
            rejection@ == bare(error),
    {
        Rejection { error, cause: String::new() }
    }
}

impl AuthError {
    /// The class of failure this cause belongs to.
    pub fn kind(&self) -> (kind: ErrorKind)
        ensures
            kind == kind_of(*self),
    {
        match self {
            AuthError::MissingFields => ErrorKind::InvalidInput,
            AuthError::InvalidEmailFormat => ErrorKind::InvalidInput,
            AuthError::PasswordTooShort => ErrorKind::InvalidInput,
            AuthError::EmailTaken => ErrorKind::Conflict,
            AuthError::InvalidCredentials => ErrorKind::Unauthorized,
            AuthError::StoreUnavailable => ErrorKind::InternalFailure,
            AuthError::HashingFailure => ErrorKind::InternalFailure,
            AuthError::VerificationFailure => ErrorKind::InternalFailure,
            AuthError::PersistFailure => ErrorKind::InternalFailure,
            AuthError::SigningFailure => ErrorKind::InternalFailure,
        }
    }

    /// The HTTP status that answers this failure.
    pub fn status_code(&self) -> (status: u16)
        ensures
            status == status_of(kind_of(*self)),
    {
        self.kind().status_code()
    }

    /// The text shown to the client.
    pub fn message(&self) -> (text: &'static str)
        ensures
            text@ == message_of(*self),
    {
        match self {
            AuthError::MissingFields => "Email, contraseña, nombre y apellido son requeridos",
            AuthError::InvalidEmailFormat => "Formato de email inválido",
            AuthError::PasswordTooShort => "La contraseña debe tener al menos 8 caracteres",
            AuthError::EmailTaken => "El email ya está registrado",
            AuthError::InvalidCredentials => "Credenciales inválidas",
            AuthError::StoreUnavailable => "Error interno del servidor",
            AuthError::HashingFailure => "Error procesando contraseña",
            AuthError::VerificationFailure => "Error de autenticación",
            AuthError::PersistFailure => "Error al crear usuario",
            AuthError::SigningFailure => "Error generando token de autenticación",
        }
    }
}

} // verus!
