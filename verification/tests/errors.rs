use ventalibre_server::error::{map_auth_error, ApiError};
use ventalibre_server::models::auth::AuthError;

fn answer(err: AuthError) -> (u16, String, String) {
    let ApiError { status, error, message } = map_auth_error(err);
    (status, error, message)
}

#[test]
fn token_problems_are_unauthorized() {
    assert_eq!(
        answer(AuthError::MissingToken),
        (401, "missing_token".to_string(), "Token de autorización requerido".to_string())
    );
    assert_eq!(
        answer(AuthError::InvalidFormat),
        (401, "invalid_format".to_string(), "Formato de token inválido".to_string())
    );
    assert_eq!(
        answer(AuthError::InvalidToken),
        (401, "invalid_token".to_string(), "Token inválido o expirado".to_string())
    );
    assert_eq!(
        answer(AuthError::InvalidCredentials),
        (401, "invalid_credentials".to_string(), "Credenciales inválidas".to_string())
    );
    assert_eq!(
        answer(AuthError::UserInactive),
        (401, "user_inactive".to_string(), "Usuario inactivo".to_string())
    );
}

#[test]
fn request_problems_are_client_errors() {
    assert_eq!(
        answer(AuthError::UserNotFound),
        (404, "user_not_found".to_string(), "Usuario no encontrado".to_string())
    );
    assert_eq!(
        answer(AuthError::InvalidName),
        (400, "invalid_name".to_string(), "El nombre es requerido".to_string())
    );
    assert_eq!(
        answer(AuthError::InvalidEmail),
        (400, "invalid_email".to_string(), "Email inválido".to_string())
    );
    assert_eq!(
        answer(AuthError::WeakPassword),
        (
            400,
            "weak_password".to_string(),
            "La contraseña debe tener al menos 6 caracteres".to_string()
        )
    );
    assert_eq!(
        answer(AuthError::EmailExists),
        (409, "email_exists".to_string(), "El email ya está registrado".to_string())
    );
    assert_eq!(
        answer(AuthError::Forbidden),
        (403, "forbidden".to_string(), "Acción no permitida".to_string())
    );
}

#[test]
fn server_failures_are_internal_errors() {
    assert_eq!(
        answer(AuthError::HashError),
        (500, "hash_error".to_string(), "Error al procesar contraseña".to_string())
    );
    assert_eq!(
        answer(AuthError::CreateUserError),
        (500, "create_user_error".to_string(), "Error al crear usuario".to_string())
    );
    assert_eq!(
        answer(AuthError::TokenError),
        (500, "token_error".to_string(), "Error al generar token".to_string())
    );
    assert_eq!(
        answer(AuthError::VerificationError),
        (500, "verification_error".to_string(), "Error al verificar contraseña".to_string())
    );
    assert_eq!(
        answer(AuthError::Database),
        (500, "database_error".to_string(), "Error de base de datos".to_string())
    );
}

#[test]
fn error_codes_are_all_different() {
    let all = [
        AuthError::MissingToken,
        AuthError::InvalidFormat,
        AuthError::InvalidToken,
        AuthError::UserNotFound,
        AuthError::InvalidName,
        AuthError::InvalidEmail,
        AuthError::WeakPassword,
        AuthError::EmailExists,
        AuthError::HashError,
        AuthError::CreateUserError,
        AuthError::TokenError,
        AuthError::InvalidCredentials,
        AuthError::UserInactive,
        AuthError::VerificationError,
        AuthError::Database,
        AuthError::Forbidden,
    ];
    for (i, a) in all.iter().enumerate() {
        for (j, b) in all.iter().enumerate() {
            if i != j {
                assert_ne!(map_auth_error(*a).error, map_auth_error(*b).error);
            }
        }
    }
}

#[test]
fn api_error_new_keeps_its_parts() {
    let e = ApiError::new(418, "teapot", "Soy una tetera");
    assert_eq!(e.status, 418);
    assert_eq!(e.error, "teapot");
    assert_eq!(e.message, "Soy una tetera");
}
