//! The errors the API answers with, and the answer to each refused
//! authentication.
use vstd::prelude::*;
use crate::models::auth::AuthError;

verus! {

/// An error answer: the HTTP status code and the JSON body's `error` code
/// and human-readable `message`.
#[derive(Debug, Clone, PartialEq, Eq)]
pub struct ApiError {
    pub status: u16,
    pub error: String,
    pub message: String,
}

impl ApiError {
    /// The error answer with this status, code and message.
    pub fn new(status: u16, error: &str, message: &str) -> (r: ApiError)
        ensures
            r.status == status,
            r.error@ == error@,
            r.message@ == message@,
    {
        ApiError {
            status,
            error: String::from_str(error),
            message: String::from_str(message),
        }
    }
}

/// The HTTP status answered for each refusal.
pub open spec fn auth_error_status(err: AuthError) -> u16 {
    match err {
        AuthError::MissingToken => 401,
        AuthError::InvalidFormat => 401,
        AuthError::InvalidToken => 401,
        AuthError::UserNotFound => 404,
        AuthError::InvalidName => 400,
        AuthError::InvalidEmail => 400,
        AuthError::WeakPassword => 400,
        AuthError::EmailExists => 409,
        AuthError::HashError => 500,
        AuthError::CreateUserError => 500,
        AuthError::TokenError => 500,
        AuthError::InvalidCredentials => 401,
        AuthError::UserInactive => 401,
        AuthError::VerificationError => 500,
        AuthError::Database => 500,
        AuthError::Forbidden => 403,
    }
}

/// The machine-readable code answered for each refusal.
pub open spec fn auth_error_code(err: AuthError) -> Seq<char> {
    match err {
        AuthError::MissingToken => "missing_token"@,
        AuthError::InvalidFormat => "invalid_format"@,
        AuthError::InvalidToken => "invalid_token"@,
        AuthError::UserNotFound => "user_not_found"@,
        AuthError::InvalidName => "invalid_name"@,
        AuthError::InvalidEmail => "invalid_email"@,
        AuthError::WeakPassword => "weak_password"@,
        AuthError::EmailExists => "email_exists"@,
        AuthError::HashError => "hash_error"@,
        AuthError::CreateUserError => "create_user_error"@,
        AuthError::TokenError => "token_error"@,
        AuthError::InvalidCredentials => "invalid_credentials"@,
        AuthError::UserInactive => "user_inactive"@,
        AuthError::VerificationError => "verification_error"@,
        AuthError::Database => "database_error"@,
        AuthError::Forbidden => "forbidden"@,
    }
}

/// The message shown to users for each refusal.
pub open spec fn auth_error_message(err: AuthError) -> Seq<char> {
    match err {
        AuthError::MissingToken => "Token de autorización requerido"@,
        AuthError::InvalidFormat => "Formato de token inválido"@,
        AuthError::InvalidToken => "Token inválido o expirado"@,
        AuthError::UserNotFound => "Usuario no encontrado"@,
        AuthError::InvalidName => "El nombre es requerido"@,
        AuthError::InvalidEmail => "Email inválido"@,
        AuthError::WeakPassword => "La contraseña debe tener al menos 6 caracteres"@,
        AuthError::EmailExists => "El email ya está registrado"@,
        AuthError::HashError => "Error al procesar contraseña"@,
        AuthError::CreateUserError => "Error al crear usuario"@,
        AuthError::TokenError => "Error al generar token"@,
        AuthError::InvalidCredentials => "Credenciales inválidas"@,
        AuthError::UserInactive => "Usuario inactivo"@,
        AuthError::VerificationError => "Error al verificar contraseña"@,
        AuthError::Database => "Error de base de datos"@,
        AuthError::Forbidden => "Acción no permitida"@,
    }
}

/// The error answer for a refused authentication.
pub fn map_auth_error(err: AuthError) -> (r: ApiError)
    ensures
        r.status == auth_error_status(err),
        r.error@ == auth_error_code(err),
        r.message@ == auth_error_message(err),
{
    match err {
        AuthError::MissingToken => ApiError::new(
            401,
            "missing_token",
            "Token de autorización requerido",
        ),
        AuthError::InvalidFormat => ApiError::new(
            401,
            "invalid_format",
            "Formato de token inválido",
        ),
        AuthError::InvalidToken => ApiError::new(
            401,
            "invalid_token",
            "Token inválido o expirado",
        ),
        AuthError::UserNotFound => ApiError::new(
            404,
            "user_not_found",
            "Usuario no encontrado",
        ),
        AuthError::InvalidName => ApiError::new(
            400,
            "invalid_name",
            "El nombre es requerido",
        ),
        AuthError::InvalidEmail => ApiError::new(400, "invalid_email", "Email inválido"),
        AuthError::WeakPassword => ApiError::new(
            400,
            "weak_password",
            "La contraseña debe tener al menos 6 caracteres",
        ),
        AuthError::EmailExists => ApiError::new(
            409,
            "email_exists",
            "El email ya está registrado",
        ),
        AuthError::HashError => ApiError::new(
            500,
            "hash_error",
            "Error al procesar contraseña",
        ),
        AuthError::CreateUserError => ApiError::new(
            500,
            "create_user_error",
            "Error al crear usuario",
        ),
        AuthError::TokenError => ApiError::new(
            500,
            "token_error",
            "Error al generar token",
        ),
        AuthError::InvalidCredentials => ApiError::new(
            401,
            "invalid_credentials",
            "Credenciales inválidas",
        ),
        AuthError::UserInactive => ApiError::new(401, "user_inactive", "Usuario inactivo"),
        AuthError::VerificationError => ApiError::new(
            500,
            "verification_error",
            "Error al verificar contraseña",
        ),
        AuthError::Database => ApiError::new(
            500,
            "database_error",
            "Error de base de datos",
        ),
        AuthError::Forbidden => ApiError::new(403, "forbidden", "Acción no permitida"),
    }
}

/// Length, first and ninth character of each error code: enough to tell
/// the codes apart.
spec fn code_fingerprint(err: AuthError) -> (nat, char, char) {
    match err {
        AuthError::MissingToken => (13, 'm', 't'),
        AuthError::InvalidFormat => (14, 'i', 'f'),
        AuthError::InvalidToken => (13, 'i', 't'),
        AuthError::UserNotFound => (14, 'u', '_'),
        AuthError::InvalidName => (12, 'i', 'n'),
        AuthError::InvalidEmail => (13, 'i', 'e'),
        AuthError::WeakPassword => (13, 'w', 's'),
        AuthError::EmailExists => (12, 'e', 'i'),
        AuthError::HashError => (10, 'h', 'o'),
        AuthError::CreateUserError => (17, 'c', 's'),
        AuthError::TokenError => (11, 't', 'r'),
        AuthError::InvalidCredentials => (19, 'i', 'c'),
        AuthError::UserInactive => (13, 'u', 'c'),
        AuthError::VerificationError => (18, 'v', 't'),
        AuthError::Database => (14, 'd', '_'),
        AuthError::Forbidden => (9, 'f', 'n'),
    }
}

proof fn lemma_code_fingerprint(err: AuthError)
    ensures
        auth_error_code(err).len() >= 9,
        auth_error_code(err).len() == code_fingerprint(err).0,
        auth_error_code(err)[0] == code_fingerprint(err).1,
        auth_error_code(err)[8] == code_fingerprint(err).2,
{
    match err {
        AuthError::MissingToken => reveal_strlit("missing_token"),
        AuthError::InvalidFormat => reveal_strlit("invalid_format"),
        AuthError::InvalidToken => reveal_strlit("invalid_token"),
        AuthError::UserNotFound => reveal_strlit("user_not_found"),
        AuthError::InvalidName => reveal_strlit("invalid_name"),
        AuthError::InvalidEmail => reveal_strlit("invalid_email"),
        AuthError::WeakPassword => reveal_strlit("weak_password"),
        AuthError::EmailExists => reveal_strlit("email_exists"),
        AuthError::HashError => reveal_strlit("hash_error"),
        AuthError::CreateUserError => reveal_strlit("create_user_error"),
        AuthError::TokenError => reveal_strlit("token_error"),
        AuthError::InvalidCredentials => reveal_strlit("invalid_credentials"),
        AuthError::UserInactive => reveal_strlit("user_inactive"),
        AuthError::VerificationError => reveal_strlit("verification_error"),
        AuthError::Database => reveal_strlit("database_error"),
        AuthError::Forbidden => reveal_strlit("forbidden"),
    }
}

/// Distinct refusals are answered with distinct error codes, so a client can
/// tell every refusal apart by its code alone.
pub proof fn lemma_error_codes_distinct(a: AuthError, b: AuthError)
    requires
        a != b,
    ensures
        auth_error_code(a) != auth_error_code(b),
{
    lemma_code_fingerprint(a);
    lemma_code_fingerprint(b);
    assert(code_fingerprint(a) != code_fingerprint(b));
    if auth_error_code(a) == auth_error_code(b) {
        assert(auth_error_code(a)[0] == auth_error_code(b)[0]);
        assert(auth_error_code(a)[8] == auth_error_code(b)[8]);
    }
}

/// Every refusal is answered with a client-error (4xx) or server-error (5xx)
/// status, and exactly the server-side failures get 500.
pub proof fn lemma_error_status_classes(err: AuthError)
    ensures
        400 <= auth_error_status(err) < 600,
        auth_error_status(err) == 500 <==> (err == AuthError::HashError || err
            == AuthError::CreateUserError || err == AuthError::TokenError || err
            == AuthError::VerificationError || err == AuthError::Database),
{
}

} // verus!
