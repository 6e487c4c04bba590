//! Registration, login and bearer-token resolution.
use vstd::prelude::*;
use vstd::string::*;
use vstd::utf8::encode_utf8;
use crate::config::AppConfig;
use crate::util::jwt::{
    Claims, bearer_token, expiry_fits, extract_bearer, header_view, response_for,
    auth_response_for_user,
};
use crate::util::password::{BCRYPT_COST, bcrypt_check, bcrypt_prefix, hash_password, verify_password};
use crate::util::text::{contains_char, lemma_trim_idempotent, lowercase, to_lowercase, trim, trim_str};
use crate::util::types::{AuthResponse, LoginRequest, PublicUser, RegisterRequest, UserRow};
use crate::util::uuid::{is_canonical_uuid, new_uuid, uuid_v4_text};

verus! {

/// Why an authentication request was refused.
#[derive(Debug, Clone, Copy, PartialEq, Eq, Structural)]
pub enum AuthError {
    MissingToken,
    InvalidFormat,
    InvalidToken,
    UserNotFound,
    InvalidName,
    InvalidEmail,
    WeakPassword,
    EmailExists,
    HashError,
    CreateUserError,
    TokenError,
    InvalidCredentials,
    UserInactive,
    VerificationError,
    Database,
    Forbidden,
}

/// The form in which e-mail addresses are stored and looked up: trimmed and
/// lowercased.
pub open spec fn normalized_email(email: Seq<char>) -> Seq<char> {
    lowercase(trim(email))
}

/// An e-mail address in the form in which it is stored and looked up.
pub fn normalize_email(email: &str) -> (r: String)
    ensures
        r@ == normalized_email(email@),
{
    to_lowercase(trim_str(email))
}

/// The first problem found with a registration request: an empty name, an
/// e-mail without `@`, or a password shorter than six bytes.
pub open spec fn register_problem(request: RegisterRequest) -> Option<AuthError> {
    if trim(request.name@).len() == 0 {
        Some(AuthError::InvalidName)
    } else if !trim(request.email@).contains('@') {
        Some(AuthError::InvalidEmail)
    } else if encode_utf8(request.password@).len() < 6 {
        Some(AuthError::WeakPassword)
    } else {
        None
    }
}

/// The first problem found with a registration request, if any.
pub fn validate_register(request: &RegisterRequest) -> (r: Option<AuthError>)
    ensures
        r == register_problem(*request),
{
    if trim_str(request.name.as_str()).is_empty() {
        return Some(AuthError::InvalidName);
    }
    if !contains_char(trim_str(request.email.as_str()), '@') {
        return Some(AuthError::InvalidEmail);
    }
    if request.password.as_str().as_bytes().len() < 6 {
        return Some(AuthError::WeakPassword);
    }
    None
}

/// The answer once a token has been signed for `user` at `now`, or the
/// refusal when signing failed.
pub open spec fn token_outcome(
    user: UserRow,
    config: AppConfig,
    token: Result<String, ()>,
    now: i64,
) -> Result<AuthResponse, AuthError> {
    match token {
        Ok(t) => Ok(response_for(user, config.jwt_expiration_hours, t, now)),
        Err(()) => Err(AuthError::TokenError),
    }
}

fn issue_response(user: &UserRow, config: &AppConfig, token: Result<String, ()>, now: i64) -> (r:
    Result<AuthResponse, AuthError>)
    requires
        token is Ok ==> expiry_fits(now, config.jwt_expiration_hours),
    ensures
        r == token_outcome(*user, *config, token, now),
{
    match auth_response_for_user(user, config, token, now) {
        Ok(resp) => Ok(resp),
        Err(()) => Err(AuthError::TokenError),
    }
}

// ---------------------------------------------------------------------------
// Registration
// ---------------------------------------------------------------------------

/// Where a registration stands, and what the server must do next.
#[derive(Debug, PartialEq, Eq)]
pub enum RegisterStep {
    /// Ask the database whether an account with `email` exists.
    CheckEmail { email: String, display_name: String, password: String },
    /// Draw 16 random bytes for the new account's identifier.
    DrawId { email: String, display_name: String, password_hash: String },
    /// Store the new account with these flags.
    Insert {
        id: String,
        email: String,
        display_name: String,
        password_hash: String,
        is_active: bool,
        is_admin: bool,
    },
    /// Read the active account `id` back.
    Fetch { id: String },
    /// Sign a token for `user` and read the clock.
    IssueToken { user: UserRow },
    /// Registration is over with this answer.
    Done(Result<AuthResponse, AuthError>),
}

/// What the server reports back after doing what a `RegisterStep` asked.
#[derive(Debug, PartialEq, Eq)]
pub enum RegisterEvent {
    /// How many accounts use the e-mail, or a database failure.
    EmailChecked(Result<i64, ()>),
    /// The random bytes drawn for the identifier.
    IdDrawn([u8; 16]),
    /// Whether the account was stored.
    Inserted(Result<(), ()>),
    /// The account read back, or a database failure.
    Fetched(Result<Option<UserRow>, ()>),
    /// The signed token (or a signing failure) and the clock reading taken
    /// after signing.
    TokenIssued(Result<String, ()>, i64),
}

/// How a registration starts: a request with a problem is refused at once;
/// otherwise the normalised e-mail is checked, keeping the trimmed name and
/// the password.
pub fn register_start(request: RegisterRequest) -> (s: RegisterStep)
    ensures
        register_problem(request) matches Some(e) ==> s == RegisterStep::Done(Err(e)),
        register_problem(request) is None ==> (s matches RegisterStep::CheckEmail {
            email,
            display_name,
            password,
        } && email@ == normalized_email(request.email@) && display_name@ == trim(request.name@)
            && password == request.password),
{
    if let Some(e) = validate_register(&request) {
        return RegisterStep::Done(Err(e));
    }
    let email = normalize_email(request.email.as_str());
    let display_name = String::from_str(trim_str(request.name.as_str()));
    RegisterStep::CheckEmail { email, display_name, password: request.password }
}

/// Whether `event` answers what `step` asked for.
pub open spec fn register_answers(step: RegisterStep, event: RegisterEvent) -> bool {
    match (step, event) {
        (RegisterStep::CheckEmail { .. }, RegisterEvent::EmailChecked(_)) => true,
        (RegisterStep::DrawId { .. }, RegisterEvent::IdDrawn(_)) => true,
        (RegisterStep::Insert { .. }, RegisterEvent::Inserted(_)) => true,
        (RegisterStep::Fetch { .. }, RegisterEvent::Fetched(_)) => true,
        (RegisterStep::IssueToken { .. }, RegisterEvent::TokenIssued(_, _)) => true,
        _ => false,
    }
}

/// The clock reading of a signed token leaves room to compute its expiry.
pub open spec fn register_event_fits(event: RegisterEvent, config: AppConfig) -> bool {
    event matches RegisterEvent::TokenIssued(Ok(_), now) ==> expiry_fits(
        now,
        config.jwt_expiration_hours,
    )
}

/// The steps a registration may take. Hashing is the one step with a choice:
/// the password gets a freshly salted hash (and hashing fails when the random
/// source does), so the relation says what holds of the hash rather than
/// which it is. The identifier is the version-4 UUID made from the bytes the
/// server drew.
pub open spec fn register_next(
    step: RegisterStep,
    event: RegisterEvent,
    config: AppConfig,
    next: RegisterStep,
) -> bool {
    match (step, event) {
        (
            RegisterStep::CheckEmail { email, display_name, password },
            RegisterEvent::EmailChecked(found),
        ) => match found {
            Err(()) => next == RegisterStep::Done(Err(AuthError::Database)),
            Ok(count) => if count != 0 {
                next == RegisterStep::Done(Err(AuthError::EmailExists))
            } else {
                ||| next == RegisterStep::Done(Err(AuthError::HashError))
                ||| next matches RegisterStep::DrawId { email: e, display_name: d, password_hash: h }
                    && e == email && d == display_name
                    && bcrypt_check(password@, h@) == Some(true) && h@.len() == 60
                    && h@.subrange(0, 7) == bcrypt_prefix(BCRYPT_COST)
            },
        },
        (
            RegisterStep::DrawId { email, display_name, password_hash },
            RegisterEvent::IdDrawn(bytes),
        ) => next matches RegisterStep::Insert {
            id,
            email: e,
            display_name: d,
            password_hash: h,
            is_active,
            is_admin,
        } && id@ == uuid_v4_text(bytes@) && is_canonical_uuid(id@) && id@[14] == '4' && (id@[19]
            == '8' || id@[19] == '9' || id@[19] == 'a' || id@[19] == 'b') && e == email && d
            == display_name && h == password_hash && is_active && !is_admin,
        (RegisterStep::Insert { id, .. }, RegisterEvent::Inserted(stored)) => match stored {
            Err(()) => next == RegisterStep::Done(Err(AuthError::CreateUserError)),
            Ok(()) => next == RegisterStep::Fetch { id },
        },
        (RegisterStep::Fetch { id }, RegisterEvent::Fetched(found)) => match found {
            Err(()) => next == RegisterStep::Done(Err(AuthError::Database)),
            Ok(None) => next == RegisterStep::Done(Err(AuthError::CreateUserError)),
            Ok(Some(user)) => if user.is_active && user.id@ == id@ {
                next == RegisterStep::IssueToken { user }
            } else {
                next == RegisterStep::Done(Err(AuthError::CreateUserError))
            },
        },
        (RegisterStep::IssueToken { user }, RegisterEvent::TokenIssued(token, now)) => next
            == RegisterStep::Done(token_outcome(user, config, token, now)),
        _ => false,
    }
}

/// The next step of a registration, given what the server reports.
pub fn register_step(step: RegisterStep, event: RegisterEvent, config: &AppConfig) -> (next:
    RegisterStep)
    requires
        register_answers(step, event),
        register_event_fits(event, *config),
    ensures
        register_next(step, event, *config, next),
{
    match (step, event) {
        (
            RegisterStep::CheckEmail { email, display_name, password },
            RegisterEvent::EmailChecked(found),
        ) => match found {
            Err(()) => RegisterStep::Done(Err(AuthError::Database)),
            Ok(count) => {
                if count != 0 {
                    return RegisterStep::Done(Err(AuthError::EmailExists));
                }
                match hash_password(password.as_str()) {
                    Ok(password_hash) => RegisterStep::DrawId { email, display_name, password_hash },
                    Err(()) => RegisterStep::Done(Err(AuthError::HashError)),
                }
            },
        },
        (
            RegisterStep::DrawId { email, display_name, password_hash },
            RegisterEvent::IdDrawn(bytes),
        ) => {
            let id = new_uuid(bytes);
            RegisterStep::Insert {
                id,
                email,
                display_name,
                password_hash,
                is_active: true,
                is_admin: false,
            }
        },
        (RegisterStep::Insert { id, .. }, RegisterEvent::Inserted(stored)) => match stored {
            Err(()) => RegisterStep::Done(Err(AuthError::CreateUserError)),
            Ok(()) => RegisterStep::Fetch { id },
        },
        (RegisterStep::Fetch { id }, RegisterEvent::Fetched(found)) => match found {
            Err(()) => RegisterStep::Done(Err(AuthError::Database)),
            Ok(None) => RegisterStep::Done(Err(AuthError::CreateUserError)),
            Ok(Some(user)) => {
                if user.is_active && user.id == id {
                    RegisterStep::IssueToken { user }
                } else {
                    RegisterStep::Done(Err(AuthError::CreateUserError))
                }
            },
        },
        (RegisterStep::IssueToken { user }, RegisterEvent::TokenIssued(token, now)) => {
            RegisterStep::Done(issue_response(&user, config, token, now))
        },
        (s, _) => s,
    }
}

// ---------------------------------------------------------------------------
// Login
// ---------------------------------------------------------------------------

/// Where a login stands, and what the server must do next.
#[derive(Debug, PartialEq, Eq)]
pub enum LoginStep {
    /// Look the account up by its (normalised) e-mail.
    FindUser { email: String, password: String },
    /// Sign a token for `user` and read the clock.
    IssueToken { user: UserRow },
    /// Login is over with this answer.
    Done(Result<AuthResponse, AuthError>),
}

/// What the server reports back after doing what a `LoginStep` asked.
#[derive(Debug, PartialEq, Eq)]
pub enum LoginEvent {
    /// The account with the e-mail, or a database failure.
    Found(Result<Option<UserRow>, ()>),
    /// The signed token (or a signing failure) and the clock reading taken
    /// after signing.
    TokenIssued(Result<String, ()>, i64),
}

/// How a login starts: the account is looked up by the normalised e-mail.
pub fn login_start(request: LoginRequest) -> (s: LoginStep)
    ensures
        s matches LoginStep::FindUser { email, password } && email@ == normalized_email(
            request.email@,
        ) && password == request.password,
{
    let email = normalize_email(request.email.as_str());
    LoginStep::FindUser { email, password: request.password }
}

/// Whether `event` answers what `step` asked for.
pub open spec fn login_answers(step: LoginStep, event: LoginEvent) -> bool {
    match (step, event) {
        (LoginStep::FindUser { .. }, LoginEvent::Found(_)) => true,
        (LoginStep::IssueToken { .. }, LoginEvent::TokenIssued(_, _)) => true,
        _ => false,
    }
}

/// The clock reading of a signed token leaves room to compute its expiry.
pub open spec fn login_event_fits(event: LoginEvent, config: AppConfig) -> bool {
    event matches LoginEvent::TokenIssued(Ok(_), now) ==> expiry_fits(
        now,
        config.jwt_expiration_hours,
    )
}

/// What a login makes of the account found for its e-mail: unknown e-mails
/// and wrong passwords are refused alike, inactive accounts are refused, an
/// unreadable stored hash is a verification failure.
pub open spec fn login_check(password: Seq<char>, found: Result<Option<UserRow>, ()>) -> LoginStep {
    match found {
        Err(()) => LoginStep::Done(Err(AuthError::Database)),
        Ok(None) => LoginStep::Done(Err(AuthError::InvalidCredentials)),
        Ok(Some(user)) => if !user.is_active {
            LoginStep::Done(Err(AuthError::UserInactive))
        } else {
            match bcrypt_check(password, user.password_hash@) {
                None => LoginStep::Done(Err(AuthError::VerificationError)),
                Some(false) => LoginStep::Done(Err(AuthError::InvalidCredentials)),
                Some(true) => LoginStep::IssueToken { user },
            }
        },
    }
}

/// The step a login takes on an event.
pub open spec fn login_next(step: LoginStep, event: LoginEvent, config: AppConfig) -> LoginStep {
    match (step, event) {
        (LoginStep::FindUser { password, .. }, LoginEvent::Found(found)) => login_check(
            password@,
            found,
        ),
        (LoginStep::IssueToken { user }, LoginEvent::TokenIssued(token, now)) => LoginStep::Done(
            token_outcome(user, config, token, now),
        ),
        (s, _) => s,
    }
}

/// The next step of a login, given what the server reports.
pub fn login_step(step: LoginStep, event: LoginEvent, config: &AppConfig) -> (next: LoginStep)
    requires
        login_answers(step, event),
        login_event_fits(event, *config),
    ensures
        next == login_next(step, event, *config),
{
    match (step, event) {
        (LoginStep::FindUser { password, .. }, LoginEvent::Found(found)) => {
            let user = match found {
                Err(()) => return LoginStep::Done(Err(AuthError::Database)),
                Ok(None) => return LoginStep::Done(Err(AuthError::InvalidCredentials)),
                Ok(Some(user)) => user,
            };
            if !user.is_active {
                return LoginStep::Done(Err(AuthError::UserInactive));
            }
            match verify_password(password.as_str(), user.password_hash.as_str()) {
                Err(()) => LoginStep::Done(Err(AuthError::VerificationError)),
                Ok(false) => LoginStep::Done(Err(AuthError::InvalidCredentials)),
                Ok(true) => LoginStep::IssueToken { user },
            }
        },
        (LoginStep::IssueToken { user }, LoginEvent::TokenIssued(token, now)) => {
            LoginStep::Done(issue_response(&user, config, token, now))
        },
        (s, _) => s,
    }
}

// ---------------------------------------------------------------------------
// Bearer tokens
// ---------------------------------------------------------------------------

/// Where the resolution of a bearer token stands, and what the server must
/// do next.
#[derive(Debug, PartialEq, Eq)]
pub enum BearerStep {
    /// Check the token's signature and expiry and read its claims.
    Verify { token: String },
    /// Look up the active account `user_id`.
    FindUser { user_id: String },
    /// Resolution is over with this answer.
    Done(Result<UserRow, AuthError>),
}

/// What the server reports back after doing what a `BearerStep` asked.
#[derive(Debug, PartialEq, Eq)]
pub enum BearerEvent {
    /// The token's claims, or a refusal of the token.
    Verified(Result<Claims, ()>),
    /// The active account with the token's subject, or a database failure.
    Found(Result<Option<UserRow>, ()>),
}

/// Whether an `Authorization` header is absent or only white space.
pub open spec fn header_blank(h: Option<Seq<char>>) -> bool {
    match h {
        None => true,
        Some(s) => trim(s).len() == 0,
    }
}

/// How the resolution of a header opens: a blank header is a missing token,
/// a header without a bearer token has the wrong format, otherwise the
/// token is to be checked.
pub open spec fn bearer_opening(h: Option<Seq<char>>) -> Result<Seq<char>, AuthError> {
    if header_blank(h) {
        Err(AuthError::MissingToken)
    } else {
        match bearer_token(Some(trim(h->0))) {
            None => Err(AuthError::InvalidFormat),
            Some(t) => Ok(t),
        }
    }
}

/// Whether `step` is the step an opening stands for: checking the token, or
/// the refusal.
pub open spec fn opens_with(step: BearerStep, opening: Result<Seq<char>, AuthError>) -> bool {
    match opening {
        Ok(t) => step matches BearerStep::Verify { token } && token@ == t,
        Err(e) => step == BearerStep::Done(Err(e)),
    }
}

/// How the resolution of an `Authorization` header starts.
pub fn bearer_start(auth_header: Option<&str>) -> (s: BearerStep)
    ensures
        opens_with(s, bearer_opening(header_view(auth_header))),
{
    let trimmed = match auth_header {
        None => return BearerStep::Done(Err(AuthError::MissingToken)),
        Some(h) => trim_str(h),
    };
    if trimmed.is_empty() {
        return BearerStep::Done(Err(AuthError::MissingToken));
    }
    match extract_bearer(Some(trimmed)) {
        None => BearerStep::Done(Err(AuthError::InvalidFormat)),
        Some(token) => BearerStep::Verify { token },
    }
}

/// Whether `event` answers what `step` asked for.
pub open spec fn bearer_answers(step: BearerStep, event: BearerEvent) -> bool {
    match (step, event) {
        (BearerStep::Verify { .. }, BearerEvent::Verified(_)) => true,
        (BearerStep::FindUser { .. }, BearerEvent::Found(_)) => true,
        _ => false,
    }
}

/// The step the resolution of a bearer token takes on an event: a refused
/// token or one without a subject is invalid; a subject without an active
/// account is not found, and only the active account whose id is the subject
/// is answered.
pub open spec fn bearer_next(step: BearerStep, event: BearerEvent) -> BearerStep {
    match (step, event) {
        (BearerStep::Verify { .. }, BearerEvent::Verified(checked)) => match checked {
            Err(()) => BearerStep::Done(Err(AuthError::InvalidToken)),
            Ok(claims) => if claims.sub@.len() == 0 {
                BearerStep::Done(Err(AuthError::InvalidToken))
            } else {
                BearerStep::FindUser { user_id: claims.sub }
            },
        },
        (BearerStep::FindUser { user_id }, BearerEvent::Found(found)) => match found {
            Err(()) => BearerStep::Done(Err(AuthError::Database)),
            Ok(None) => BearerStep::Done(Err(AuthError::UserNotFound)),
            Ok(Some(user)) => if user.is_active && user.id@ == user_id@ {
                BearerStep::Done(Ok(user))
            } else {
                BearerStep::Done(Err(AuthError::UserNotFound))
            },
        },
        (s, _) => s,
    }
}

/// The next step of the resolution of a bearer token.
pub fn bearer_step(step: BearerStep, event: BearerEvent) -> (next: BearerStep)
    requires
        bearer_answers(step, event),
    ensures
        next == bearer_next(step, event),
{
    match (step, event) {
        (BearerStep::Verify { .. }, BearerEvent::Verified(checked)) => match checked {
            Err(()) => BearerStep::Done(Err(AuthError::InvalidToken)),
            Ok(claims) => {
                if claims.sub.as_str().is_empty() {
                    BearerStep::Done(Err(AuthError::InvalidToken))
                } else {
                    BearerStep::FindUser { user_id: claims.sub }
                }
            },
        },
        (BearerStep::FindUser { user_id }, BearerEvent::Found(found)) => match found {
            Err(()) => BearerStep::Done(Err(AuthError::Database)),
            Ok(None) => BearerStep::Done(Err(AuthError::UserNotFound)),
            Ok(Some(user)) => {
                if user.is_active && user.id == user_id {
                    BearerStep::Done(Ok(user))
                } else {
                    BearerStep::Done(Err(AuthError::UserNotFound))
                }
            },
        },
        (s, _) => s,
    }
}

// ---------------------------------------------------------------------------
// Laws on each flow's answers
// ---------------------------------------------------------------------------

/// The answer with a freshly signed token `t`: `t`, the account's public view
/// (id, e-mail, display name and admin flag as the account has them), and the
/// expiry `now + hours * 3600`.
pub open spec fn signed_answer(user: UserRow, config: AppConfig, t: String, now: i64) -> AuthResponse {
    AuthResponse {
        token: t,
        user: PublicUser {
            id: user.id,
            email: user.email,
            display_name: user.display_name,
            is_admin: user.is_admin,
        },
        expires_at: (now + config.jwt_expiration_hours * 3600) as i64,
    }
}

/// Every account whose login reached the token step is answered with the
/// signed token, whatever its flags; the only refusal there is a signing
/// failure.
pub proof fn lemma_login_answers_every_account(user: UserRow, config: AppConfig, t: String, now: i64)
    requires
        i64::MIN <= now + config.jwt_expiration_hours * 3600 <= i64::MAX,
    ensures
        login_next(LoginStep::IssueToken { user }, LoginEvent::TokenIssued(Ok(t), now), config)
            == LoginStep::Done(Ok(signed_answer(user, config, t, now))),
        login_next(LoginStep::IssueToken { user }, LoginEvent::TokenIssued(Err(()), now), config)
            == LoginStep::Done(Err(AuthError::TokenError)),
{
}

/// An active account whose stored hash verifies for the password given reaches
/// the token step, whatever its admin flag and whatever e-mail was looked up.
pub proof fn lemma_login_admits_right_password(
    email: String,
    password: String,
    user: UserRow,
    config: AppConfig,
)
    requires
        user.is_active,
        bcrypt_check(password@, user.password_hash@) == Some(true),
    ensures
        login_next(
            LoginStep::FindUser { email, password },
            LoginEvent::Found(Ok(Some(user))),
            config,
        ) == (LoginStep::IssueToken { user }),
{
}

/// Every newly registered account that reached the token step is answered
/// with the signed token; the only refusal there is a signing failure.
pub proof fn lemma_registration_answers_with_token(
    user: UserRow,
    config: AppConfig,
    token: Result<String, ()>,
    now: i64,
    next: RegisterStep,
)
    requires
        i64::MIN <= now + config.jwt_expiration_hours * 3600 <= i64::MAX,
        register_next(
            RegisterStep::IssueToken { user },
            RegisterEvent::TokenIssued(token, now),
            config,
            next,
        ),
    ensures
        token matches Ok(t) ==> next == RegisterStep::Done(Ok(signed_answer(user, config, t, now))),
        token is Err ==> next == RegisterStep::Done(Err(AuthError::TokenError)),
{
}

/// For a header that is not blank, resolution checks exactly the token that
/// `extract_bearer` reads from the header (the text after `Bearer ` in the
/// trimmed header), and refuses the format exactly when it reads none.
pub proof fn lemma_bearer_opening_checks_the_header_token(h: Seq<char>)
    requires
        trim(h).len() > 0,
    ensures
        bearer_token(Some(h)) matches Some(t) ==> bearer_opening(Some(h)) == Ok::<
            Seq<char>,
            AuthError,
        >(t),
        bearer_token(Some(h)) is None ==> bearer_opening(Some(h)) == Err::<Seq<char>, AuthError>(
            AuthError::InvalidFormat,
        ),
        ({
            let t = trim(h);
            let p = "Bearer "@;
            t.len() >= p.len() && t.subrange(0, p.len() as int) == p ==> bearer_opening(Some(h))
                == Ok::<Seq<char>, AuthError>(t.subrange(p.len() as int, t.len() as int))
        }),
{
    lemma_trim_idempotent(h);
    crate::util::jwt::lemma_bearer_token_reads_after_prefix(h);
}

/// A blank or absent header is a missing token.
pub proof fn lemma_blank_header_is_missing_token(h: Option<Seq<char>>)
    requires
        h is None || trim(h->0).len() == 0,
    ensures
        bearer_opening(h) == Err::<Seq<char>, AuthError>(AuthError::MissingToken),
{
}

/// A checked token with a subject leads to the lookup of exactly that
/// subject, and the lookup answers exactly the active account with that id.
pub proof fn lemma_bearer_resolves_the_subject(token: String, claims: Claims, user_id: String, user: UserRow)
    requires
        claims.sub@.len() > 0,
    ensures
        bearer_next(BearerStep::Verify { token }, BearerEvent::Verified(Ok(claims)))
            == (BearerStep::FindUser { user_id: claims.sub }),
        user.is_active && user.id@ == user_id@ ==> bearer_next(
            BearerStep::FindUser { user_id },
            BearerEvent::Found(Ok(Some(user))),
        ) == BearerStep::Done(Ok(user)),
        !(user.is_active && user.id@ == user_id@) ==> bearer_next(
            BearerStep::FindUser { user_id },
            BearerEvent::Found(Ok(Some(user))),
        ) == BearerStep::Done(Err(AuthError::UserNotFound)),
{
}

/// A request with a non-blank name, an `@` in its trimmed e-mail and a
/// password of at least six bytes has nothing wrong with it.
pub proof fn lemma_good_registration_request_passes(request: RegisterRequest)
    requires
        trim(request.name@).len() > 0,
        trim(request.email@).contains('@'),
        encode_utf8(request.password@).len() >= 6,
    ensures
        register_problem(request) is None,
{
}

// ---------------------------------------------------------------------------
// Laws across the flows
// ---------------------------------------------------------------------------

/// An account stored by registration can log in with the password it was
/// registered with, from the e-mail it was registered with (surrounding
/// white space aside): the login looks up exactly the stored address, and
/// once the stored active account is found its password check passes. The
/// stored account has canonical UUID text as its identifier, is active and
/// is not an administrator.
pub proof fn lemma_registered_account_logs_in(
    request: RegisterRequest,
    login: LoginRequest,
    config: AppConfig,
    checking: RegisterStep,
    drawing: RegisterStep,
    random_bytes: [u8; 16],
    stored: RegisterStep,
    user: UserRow,
)
    requires
        register_problem(request) is None,
        (checking matches RegisterStep::CheckEmail { email, display_name, password } && email@
            == normalized_email(request.email@) && password == request.password),
        register_next(checking, RegisterEvent::EmailChecked(Ok(0)), config, drawing),
        (drawing is DrawId),
        register_next(drawing, RegisterEvent::IdDrawn(random_bytes), config, stored),
        trim(login.email@) == trim(request.email@),
        login.password@ == request.password@,
        user.is_active,
        user.password_hash@ == stored->Insert_password_hash@,
    ensures
        (stored is Insert),
        normalized_email(login.email@) == stored->Insert_email@,
        is_canonical_uuid(stored->Insert_id@),
        stored->Insert_is_active && !stored->Insert_is_admin,
        login_check(login.password@, Ok(Some(user))) == (LoginStep::IssueToken { user }),
{
}

/// A registration for an e-mail that is already in use never gets as far as
/// storing an account.
pub proof fn lemma_taken_email_stores_nothing(
    config: AppConfig,
    checking: RegisterStep,
    count: i64,
    next: RegisterStep,
)
    requires
        (checking matches RegisterStep::CheckEmail { .. }),
        count != 0,
        register_next(checking, RegisterEvent::EmailChecked(Ok(count)), config, next),
    ensures
        next == RegisterStep::Done(Err(AuthError::EmailExists)),
{
}

/// Login does not tell an unknown e-mail from a wrong password: both are
/// refused as invalid credentials.
pub proof fn lemma_login_hides_unknown_accounts(password: Seq<char>, user: UserRow)
    requires
        user.is_active,
        bcrypt_check(password, user.password_hash@) == Some(false),
    ensures
        login_check(password, Ok(Some(user))) == login_check(password, Ok(None)),
{
}

} // verus!
