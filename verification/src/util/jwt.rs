//! Session tokens: the claims a token carries, reading the token from an
//! `Authorization` header, and the answer built around a freshly signed
//! token.
use vstd::prelude::*;
use vstd::string::*;
use crate::config::AppConfig;
use crate::util::text::{trim, trim_str, strip_prefix_str, is_white_space};
use crate::util::types::{AuthResponse, UserRow, public_view, to_public_user};

verus! {

/// The claims of a session token: the account id (`sub`), its e-mail, display
/// name and admin flag, and the expiry (`exp`) and issue (`iat`) times in
/// seconds since the Unix epoch.
#[derive(Clone, Debug, PartialEq, Eq)]
pub struct Claims {
    pub sub: String,
    pub email: String,
    pub name: String,
    pub is_admin: bool,
    pub exp: i64,
    pub iat: i64,
}

/// The scheme that introduces a bearer token in an `Authorization` header.
pub open spec fn bearer_prefix() -> Seq<char> {
    "Bearer "@
}

/// The characters of an optional header.
pub open spec fn header_view(h: Option<&str>) -> Option<Seq<char>> {
    match h {
        Some(s) => Some(s@),
        None => None,
    }
}

/// The token carried by an `Authorization` header: the trimmed header must
/// start with `Bearer ` (exactly, with one space), and the token is what
/// follows.
pub open spec fn bearer_token(header: Option<Seq<char>>) -> Option<Seq<char>> {
    match header {
        None => None,
        Some(h) => {
            let t = trim(h);
            let p = bearer_prefix();
            if t.len() >= p.len() && t.subrange(0, p.len() as int) == p {
                Some(t.subrange(p.len() as int, t.len() as int))
            } else {
                None
            }
        },
    }
}

/// The bearer token of an `Authorization` header, if it has one.
pub fn extract_bearer(auth_header: Option<&str>) -> (r: Option<String>)
    ensures
        r matches Some(t) ==> bearer_token(header_view(auth_header)) == Some(t@),
        r is None <==> bearer_token(header_view(auth_header)) is None,
{
    match auth_header {
        None => None,
        Some(h) => {
            let trimmed = trim_str(h);
            match strip_prefix_str(trimmed, "Bearer ") {
                Some(token) => Some(String::from_str(token)),
                None => None,
            }
        },
    }
}

/// A header made of `Bearer `, then a token that does not end in white
/// space, with any white space around it, gives the token back.
pub proof fn lemma_bearer_header_round_trip(
    before: Seq<char>,
    token: Seq<char>,
    after: Seq<char>,
)
    requires
        token.len() > 0,
        !is_white_space(token.last()),
        forall|i: int| 0 <= i < before.len() ==> is_white_space(#[trigger] before[i]),
        forall|i: int| 0 <= i < after.len() ==> is_white_space(#[trigger] after[i]),
    ensures
        bearer_token(Some(before + bearer_prefix() + token + after)) == Some(token),
{
    reveal_strlit("Bearer ");
    let core = bearer_prefix() + token;
    assert(before + bearer_prefix() + token + after =~= before + (core + after));
    crate::util::text::lemma_trim_start_skips_white(before, core + after);
    assert(!is_white_space(core[0]));
    assert(crate::util::text::trim_start(core + after) == core + after);
    crate::util::text::lemma_trim_end_skips_white(core, after);
    assert(core.last() == token.last());
    assert(crate::util::text::trim_end(core) == core);
    assert(core.subrange(0, 7) =~= bearer_prefix());
    assert(core.subrange(7, core.len() as int) =~= token);
}

/// The seconds elapsed since the Unix epoch, read from the system clock
/// (`UNIX_EPOCH.elapsed()`); `None` when the clock is set before the epoch.
/// Nothing is stated of the value: it is the time.
#[verifier::external_body]
fn seconds_since_epoch() -> (r: Option<u64>) {
    match std::time::UNIX_EPOCH.elapsed() {
        Ok(d) => Some(d.as_secs()),
        Err(_) => None,
    }
}

/// The Unix time for a clock reading: the seconds as an `i64` (wrapping, as a
/// cast does), 0 when the clock is before the epoch.
pub open spec fn unix_time_of(elapsed: Option<u64>) -> i64 {
    match elapsed {
        Some(s) => s as i64,
        None => 0,
    }
}

/// The Unix time for a clock reading.
pub fn unix_seconds(elapsed: Option<u64>) -> (r: i64)
    ensures
        r == unix_time_of(elapsed),
{
    match elapsed {
        Some(s) => s as i64,
        None => 0,
    }
}

/// The current Unix time in seconds, 0 when the clock is before the epoch.
/// Nothing is stated of the value: it is `unix_time_of` the clock reading.
pub fn unix_now() -> i64 {
    let elapsed = seconds_since_epoch();
    unix_seconds(elapsed)
}

/// The expiry of a token issued at `now` that lives `hours` hours.
pub open spec fn expiry(now: i64, hours: i64) -> int {
    now + hours * 3600
}

/// Whether the expiry of a token issued at `now` is computed without
/// overflowing 64-bit arithmetic.
pub open spec fn expiry_fits(now: i64, hours: i64) -> bool {
    &&& i64::MIN <= hours * 3600 <= i64::MAX
    &&& i64::MIN <= expiry(now, hours) <= i64::MAX
}

/// The expiry of a token issued at `now` under `config`.
pub fn token_expiry(config: &AppConfig, now: i64) -> (r: i64)
    requires
        expiry_fits(now, config.jwt_expiration_hours),
    ensures
        r == expiry(now, config.jwt_expiration_hours),
{
    now + config.jwt_expiration_hours * 3600
}

/// The claims of the token issued to `user` at `now`.
pub open spec fn claims_for(user: UserRow, hours: i64, now: i64) -> Claims {
    Claims {
        sub: user.id,
        email: user.email,
        name: user.display_name,
        is_admin: user.is_admin,
        exp: expiry(now, hours) as i64,
        iat: now,
    }
}

/// The claims of the token issued to `user` at `now`: its id, e-mail,
/// display name and admin flag, issued at `now` and expiring
/// `jwt_expiration_hours` hours later.
pub fn token_claims(user: &UserRow, config: &AppConfig, now: i64) -> (c: Claims)
    requires
        expiry_fits(now, config.jwt_expiration_hours),
    ensures
        c == claims_for(*user, config.jwt_expiration_hours, now),
{
    let exp = token_expiry(config, now);
    Claims {
        sub: user.id.clone(),
        email: user.email.clone(),
        name: user.display_name.clone(),
        is_admin: user.is_admin,
        exp,
        iat: now,
    }
}

/// The answer for `user` once a token has been signed (or failed to be):
/// the token, the public view of the account and the expiry computed at
/// `now`.
pub open spec fn response_for(user: UserRow, hours: i64, token: String, now: i64) -> AuthResponse {
    AuthResponse { token, user: public_view(user), expires_at: expiry(now, hours) as i64 }
}

/// The answer for `user` given the signed token and the clock reading taken
/// after signing; a signing failure is passed on.
pub fn auth_response_for_user(
    user: &UserRow,
    config: &AppConfig,
    token: Result<String, ()>,
    now: i64,
) -> (r: Result<AuthResponse, ()>)
    requires
        token is Ok ==> expiry_fits(now, config.jwt_expiration_hours),
    ensures
        token is Err ==> r == Err::<AuthResponse, ()>(()),
        token matches Ok(t) ==> r == Ok::<AuthResponse, ()>(
            response_for(*user, config.jwt_expiration_hours, t, now),
        ),
{
    let token = match token {
        Ok(t) => t,
        Err(()) => return Err(()),
    };
    Ok(AuthResponse {
        token,
        user: to_public_user(user),
        expires_at: token_expiry(config, now),
    })
}

/// The answer shows the account as its public view — the same id, e-mail,
/// display name and admin flag — carries the signed token unchanged, and
/// expires `hours` hours after `now`.
pub proof fn lemma_response_shows_the_account(user: UserRow, hours: i64, token: String, now: i64)
    requires
        i64::MIN <= now + hours * 3600 <= i64::MAX,
    ensures
        response_for(user, hours, token, now).token == token,
        response_for(user, hours, token, now).user.id == user.id,
        response_for(user, hours, token, now).user.email == user.email,
        response_for(user, hours, token, now).user.display_name == user.display_name,
        response_for(user, hours, token, now).user.is_admin == user.is_admin,
        response_for(user, hours, token, now).expires_at == now + hours * 3600,
{
}

/// A token names its account (id, e-mail, display name, admin flag), is
/// issued at `now` and lives exactly `hours` hours.
pub proof fn lemma_claims_name_the_account(user: UserRow, hours: i64, now: i64)
    requires
        i64::MIN <= now + hours * 3600 <= i64::MAX,
    ensures
        claims_for(user, hours, now).sub == user.id,
        claims_for(user, hours, now).email == user.email,
        claims_for(user, hours, now).name == user.display_name,
        claims_for(user, hours, now).is_admin == user.is_admin,
        claims_for(user, hours, now).iat == now,
        claims_for(user, hours, now).exp - claims_for(user, hours, now).iat == hours * 3600,
{
}

/// `extract_bearer` reads the rest of the trimmed header after `Bearer `,
/// and nothing when the trimmed header does not start with it.
pub proof fn lemma_bearer_token_reads_after_prefix(h: Seq<char>)
    ensures
        ({
            let t = trim(h);
            let p = "Bearer "@;
            if t.len() >= p.len() && t.subrange(0, p.len() as int) == p {
                bearer_token(Some(h)) == Some(t.subrange(p.len() as int, t.len() as int))
            } else {
                bearer_token(Some(h)) is None
            }
        }),
{
}

} // verus!
