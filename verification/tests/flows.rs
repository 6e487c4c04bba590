use ventalibre_server::auth_util::{optional_user, require_admin};
use ventalibre_server::config::AppConfig;
use ventalibre_server::models::auth::{
    bearer_start, bearer_step, login_start, login_step, normalize_email, register_start,
    register_step, validate_register, AuthError, BearerEvent, BearerStep, LoginEvent, LoginStep,
    RegisterEvent, RegisterStep,
};
use ventalibre_server::util::jwt::Claims;
use ventalibre_server::util::password::{hash_password, verify_password};
use ventalibre_server::util::types::{
    to_public_user, AuthResponse, LoginRequest, RegisterRequest, UserRow,
};
use ventalibre_server::util::uuid::parse_uuid;

fn config() -> AppConfig {
    AppConfig {
        host: "0.0.0.0".into(),
        port: 3000,
        cors_allowed_origin: "http://localhost:5173".into(),
        sqlite_database_url: "db.sqlite".into(),
        jwt_secret: "SECRET-REDACTED".into(),
        jwt_expiration_hours: 24,
    }
}

fn register_request(name: &str, email: &str, password: &str) -> RegisterRequest {
    RegisterRequest { name: name.into(), email: email.into(), password: password.into() }
}

fn account(id: &str, hash: &str, active: bool, admin: bool) -> UserRow {
    UserRow {
        id: id.into(),
        email: "ana@example.com".into(),
        display_name: "Ana".into(),
        password_hash: hash.into(),
        is_active: active,
        is_admin: admin,
        created_at: "2024-01-01".into(),
        updated_at: "2024-01-01".into(),
    }
}

#[test]
fn registration_requests_are_validated_in_order() {
    assert_eq!(
        validate_register(&register_request("  ", "no-at", "123")),
        Some(AuthError::InvalidName)
    );
    assert_eq!(
        validate_register(&register_request("Ana", " ana.example.com ", "123")),
        Some(AuthError::InvalidEmail)
    );
    assert_eq!(
        validate_register(&register_request("Ana", "ana@example.com", "12345")),
        Some(AuthError::WeakPassword)
    );
    // Length counts bytes: three two-byte letters are long enough, two are not.
    assert_eq!(validate_register(&register_request("Ana", "ana@example.com", "ñññ")), None);
    assert_eq!(
        validate_register(&register_request("Ana", "ana@example.com", "ññ")),
        Some(AuthError::WeakPassword)
    );
    assert_eq!(validate_register(&register_request("Ana", "a@b", "123456")), None);
}

#[test]
fn emails_are_trimmed_and_lowercased() {
    assert_eq!(normalize_email("  Ana@Example.COM\t"), "ana@example.com");
}

#[test]
fn registration_runs_through_its_steps() {
    let cfg = config();
    let start = register_start(register_request(" Ana ", " Ana@Example.com ", "secreto1"));
    assert_eq!(
        start,
        RegisterStep::CheckEmail {
            email: "ana@example.com".into(),
            display_name: "Ana".into(),
            password: "secreto1".into(),
        }
    );
    let draw = register_step(start, RegisterEvent::EmailChecked(Ok(0)), &cfg);
    let hash = match &draw {
        RegisterStep::DrawId { email, display_name, password_hash } => {
            assert_eq!(email, "ana@example.com");
            assert_eq!(display_name, "Ana");
            assert_eq!(verify_password("secreto1", password_hash), Ok(true));
            assert!(password_hash.starts_with("$2b$10$"));
            password_hash.clone()
        }
        other => panic!("unexpected {:?}", other),
    };
    let insert = register_step(draw, RegisterEvent::IdDrawn([0x5a; 16]), &cfg);
    let id = "5a5a5a5a-5a5a-4a5a-9a5a-5a5a5a5a5a5a".to_string();
    assert_eq!(
        insert,
        RegisterStep::Insert {
            id: id.clone(),
            email: "ana@example.com".into(),
            display_name: "Ana".into(),
            password_hash: hash,
            is_active: true,
            is_admin: false,
        }
    );
    assert_eq!(parse_uuid(&id), Some(id.clone()));
    let fetch = register_step(insert, RegisterEvent::Inserted(Ok(())), &cfg);
    assert_eq!(fetch, RegisterStep::Fetch { id: id.clone() });
    let stored = account(&id, "h", true, false);
    let issue = register_step(fetch, RegisterEvent::Fetched(Ok(Some(stored.clone()))), &cfg);
    assert_eq!(issue, RegisterStep::IssueToken { user: stored.clone() });
    let done = register_step(issue, RegisterEvent::TokenIssued(Ok("tok".into()), 1_000), &cfg);
    assert_eq!(
        done,
        RegisterStep::Done(Ok(AuthResponse {
            token: "tok".into(),
            user: to_public_user(&stored),
            expires_at: 1_000 + 24 * 3600,
        }))
    );
}

#[test]
fn registration_refusals() {
    let cfg = config();
    assert_eq!(
        register_start(register_request("", "a@b", "123456")),
        RegisterStep::Done(Err(AuthError::InvalidName))
    );
    let check = || register_start(register_request("Ana", "a@b", "123456"));
    assert_eq!(
        register_step(check(), RegisterEvent::EmailChecked(Ok(1)), &cfg),
        RegisterStep::Done(Err(AuthError::EmailExists))
    );
    assert_eq!(
        register_step(check(), RegisterEvent::EmailChecked(Err(())), &cfg),
        RegisterStep::Done(Err(AuthError::Database))
    );
    let insert = RegisterStep::Insert {
        id: "i".into(),
        email: "a@b".into(),
        display_name: "Ana".into(),
        password_hash: "h".into(),
        is_active: true,
        is_admin: false,
    };
    assert_eq!(
        register_step(insert, RegisterEvent::Inserted(Err(())), &cfg),
        RegisterStep::Done(Err(AuthError::CreateUserError))
    );
    assert_eq!(
        register_step(RegisterStep::Fetch { id: "i".into() }, RegisterEvent::Fetched(Ok(None)), &cfg),
        RegisterStep::Done(Err(AuthError::CreateUserError))
    );
    assert_eq!(
        register_step(RegisterStep::Fetch { id: "i".into() }, RegisterEvent::Fetched(Err(())), &cfg),
        RegisterStep::Done(Err(AuthError::Database))
    );
    assert_eq!(
        register_step(
            RegisterStep::Fetch { id: "i".into() },
            RegisterEvent::Fetched(Ok(Some(account("j", "h", true, false)))),
            &cfg
        ),
        RegisterStep::Done(Err(AuthError::CreateUserError))
    );
    let issue = RegisterStep::IssueToken { user: account("i", "h", true, false) };
    assert_eq!(
        register_step(issue, RegisterEvent::TokenIssued(Err(()), 5), &cfg),
        RegisterStep::Done(Err(AuthError::TokenError))
    );
}

#[test]
fn login_runs_through_its_steps() {
    let cfg = config();
    let hash = hash_password("secreto1").unwrap();
    let start = login_start(LoginRequest { email: " ANA@example.com".into(), password: "secreto1".into() });
    assert_eq!(
        start,
        LoginStep::FindUser { email: "ana@example.com".into(), password: "secreto1".into() }
    );
    let user = account("u1", &hash, true, false);
    let issue = login_step(start, LoginEvent::Found(Ok(Some(user.clone()))), &cfg);
    assert_eq!(issue, LoginStep::IssueToken { user: user.clone() });
    let done = login_step(issue, LoginEvent::TokenIssued(Ok("t".into()), 7), &cfg);
    assert_eq!(
        done,
        LoginStep::Done(Ok(AuthResponse {
            token: "t".into(),
            user: to_public_user(&user),
            expires_at: 7 + 24 * 3600,
        }))
    );
}

#[test]
fn login_refusals() {
    let cfg = config();
    let hash = hash_password("secreto1").unwrap();
    let find = |password: &str| LoginStep::FindUser { email: "a@b".into(), password: password.into() };
    assert_eq!(
        login_step(find("secreto1"), LoginEvent::Found(Ok(None)), &cfg),
        LoginStep::Done(Err(AuthError::InvalidCredentials))
    );
    assert_eq!(
        login_step(find("otra-clave"), LoginEvent::Found(Ok(Some(account("u", &hash, true, false)))), &cfg),
        LoginStep::Done(Err(AuthError::InvalidCredentials))
    );
    assert_eq!(
        login_step(find("secreto1"), LoginEvent::Found(Ok(Some(account("u", &hash, false, false)))), &cfg),
        LoginStep::Done(Err(AuthError::UserInactive))
    );
    assert_eq!(
        login_step(find("secreto1"), LoginEvent::Found(Ok(Some(account("u", "garbage", true, false)))), &cfg),
        LoginStep::Done(Err(AuthError::VerificationError))
    );
    assert_eq!(
        login_step(find("secreto1"), LoginEvent::Found(Err(())), &cfg),
        LoginStep::Done(Err(AuthError::Database))
    );
    let issue = LoginStep::IssueToken { user: account("u", &hash, true, false) };
    assert_eq!(
        login_step(issue, LoginEvent::TokenIssued(Err(()), 0), &cfg),
        LoginStep::Done(Err(AuthError::TokenError))
    );
}

fn claims(sub: &str) -> Claims {
    Claims {
        sub: sub.into(),
        email: "a@b".into(),
        name: "A".into(),
        is_admin: false,
        exp: 10,
        iat: 0,
    }
}

#[test]
fn bearer_resolution_runs_through_its_steps() {
    let start = bearer_start(Some("  Bearer abc "));
    assert_eq!(start, BearerStep::Verify { token: "abc".into() });
    let find = bearer_step(start, BearerEvent::Verified(Ok(claims("u1"))));
    assert_eq!(find, BearerStep::FindUser { user_id: "u1".into() });
    let user = account("u1", "h", true, false);
    assert_eq!(
        bearer_step(find, BearerEvent::Found(Ok(Some(user.clone())))),
        BearerStep::Done(Ok(user))
    );
}

#[test]
fn bearer_resolution_refusals() {
    assert_eq!(bearer_start(None), BearerStep::Done(Err(AuthError::MissingToken)));
    assert_eq!(bearer_start(Some(" \t ")), BearerStep::Done(Err(AuthError::MissingToken)));
    assert_eq!(bearer_start(Some("Token abc")), BearerStep::Done(Err(AuthError::InvalidFormat)));
    assert_eq!(bearer_start(Some("Bearer ")), BearerStep::Done(Err(AuthError::InvalidFormat)));
    let verify = || BearerStep::Verify { token: "t".into() };
    assert_eq!(
        bearer_step(verify(), BearerEvent::Verified(Err(()))),
        BearerStep::Done(Err(AuthError::InvalidToken))
    );
    assert_eq!(
        bearer_step(verify(), BearerEvent::Verified(Ok(claims("")))),
        BearerStep::Done(Err(AuthError::InvalidToken))
    );
    let find = || BearerStep::FindUser { user_id: "u".into() };
    assert_eq!(
        bearer_step(find(), BearerEvent::Found(Ok(None))),
        BearerStep::Done(Err(AuthError::UserNotFound))
    );
    assert_eq!(
        bearer_step(find(), BearerEvent::Found(Err(()))),
        BearerStep::Done(Err(AuthError::Database))
    );
    // Only the active account whose id is the token's subject is answered.
    assert_eq!(
        bearer_step(find(), BearerEvent::Found(Ok(Some(account("other", "h", true, false))))),
        BearerStep::Done(Err(AuthError::UserNotFound))
    );
    assert_eq!(
        bearer_step(find(), BearerEvent::Found(Ok(Some(account("u", "h", false, false))))),
        BearerStep::Done(Err(AuthError::UserNotFound))
    );
}

#[test]
fn only_active_admins_pass_admin_checks() {
    let admin = account("a", "h", true, true);
    assert_eq!(require_admin(Ok(admin.clone())), Ok(admin));
    assert_eq!(require_admin(Ok(account("a", "h", false, true))), Err(AuthError::Forbidden));
    assert_eq!(require_admin(Ok(account("a", "h", true, false))), Err(AuthError::Forbidden));
    assert_eq!(require_admin(Err(AuthError::InvalidToken)), Err(AuthError::InvalidToken));
}

#[test]
fn optional_authentication_lets_anonymous_callers_through() {
    assert_eq!(optional_user(None), None);
    assert_eq!(optional_user(Some("   ")), None);
    assert_eq!(optional_user(Some("Bearer x")), Some(BearerStep::Verify { token: "x".into() }));
    assert_eq!(
        optional_user(Some("Basic x")),
        Some(BearerStep::Done(Err(AuthError::InvalidFormat)))
    );
}

#[test]
fn registered_account_logs_in_with_its_password() {
    let cfg = config();
    let start = register_start(register_request("Ana", "  Ana@Example.com", "clave-segura"));
    let draw = register_step(start, RegisterEvent::EmailChecked(Ok(0)), &cfg);
    let insert = register_step(draw, RegisterEvent::IdDrawn([7; 16]), &cfg);
    let (id, email, hash) = match insert {
        RegisterStep::Insert { id, email, password_hash, is_active, is_admin, .. } => {
            assert!(is_active && !is_admin);
            (id, email, password_hash)
        }
        other => panic!("unexpected {:?}", other),
    };
    let login = login_start(LoginRequest { email: "ana@example.COM ".into(), password: "clave-segura".into() });
    match &login {
        LoginStep::FindUser { email: looked_up, .. } => assert_eq!(looked_up, &email),
        other => panic!("unexpected {:?}", other),
    }
    let stored = account(&id, &hash, true, false);
    assert_eq!(
        login_step(login, LoginEvent::Found(Ok(Some(stored.clone()))), &cfg),
        LoginStep::IssueToken { user: stored }
    );
}
