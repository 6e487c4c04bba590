//! Server settings and the rules by which they are read from the
//! environment.
use vstd::prelude::*;
use vstd::string::*;
use vstd::utf8::encode_utf8;

verus! {

/// The server's settings. `host` holds the listening address as written in
/// the environment (the server checks that it is an IP address) and
/// `cors_allowed_origin` the one origin allowed to call the API.
#[derive(Clone, Debug, PartialEq, Eq)]
pub struct AppConfig {
    pub host: String,
    pub port: u16,
    pub cors_allowed_origin: String,
    pub sqlite_database_url: String,
    pub jwt_secret: String,
    pub jwt_expiration_hours: i64,
}

/// The error reported when the environment variable `key` is not set.
pub open spec fn missing_env_message(key: Seq<char>) -> Seq<char> {
    key + " must be set in .env"@
}

/// The error reported when the environment variable `key` is not set.
pub fn missing_env(key: &str) -> (m: String)
    ensures
        m@ == missing_env_message(key@),
{
    let mut m = String::from_str(key);
    m.append(" must be set in .env");
    m
}

/// The value of the environment variable `key`, given what the lookup found;
/// a missing variable is reported by name.
pub fn require_env(key: &str, value: Option<String>) -> (r: Result<String, String>)
    ensures
        value matches Some(v) ==> r == Ok::<String, String>(v),
        value is None ==> (r matches Err(m) && m@ == missing_env_message(key@)),
{
    match value {
        Some(v) => Ok(v),
        None => Err(missing_env(key)),
    }
}

/// An ASCII decimal digit.
pub open spec fn is_digit(c: char) -> bool {
    '0' <= c && c <= '9'
}

/// Every character of `s` is a decimal digit.
pub open spec fn all_digits(s: Seq<char>) -> bool {
    forall|i: int| 0 <= i < s.len() ==> is_digit(#[trigger] s[i])
}

/// The number written by the decimal digits `s` (leading zeros allowed).
pub open spec fn digits_value(s: Seq<char>) -> int
    decreases s.len(),
{
    if s.len() == 0 {
        0
    } else {
        digits_value(s.drop_last()) * 10 + (s.last() as int - '0' as int)
    }
}

/// The number an unsigned integer's `from_str` reads from `s`: an optional
/// `+`, then at least one decimal digit and nothing else.
pub open spec fn parse_unsigned(s: Seq<char>) -> Option<int> {
    let body = if s.len() > 0 && s[0] == '+' {
        s.drop_first()
    } else {
        s
    };
    if body.len() > 0 && all_digits(body) {
        Some(digits_value(body))
    } else {
        None
    }
}

/// The number a signed integer's `from_str` reads from `s`: like
/// `parse_unsigned`, or a `-` followed by at least one digit.
pub open spec fn parse_signed(s: Seq<char>) -> Option<int> {
    if s.len() > 0 && s[0] == '-' {
        let body = s.drop_first();
        if body.len() > 0 && all_digits(body) {
            Some(-digits_value(body))
        } else {
            None
        }
    } else {
        parse_unsigned(s)
    }
}

/// What `u16::from_str` gives for `s`.
pub open spec fn parsed_u16(s: Seq<char>) -> Option<u16> {
    match parse_unsigned(s) {
        Some(v) => if v <= u16::MAX {
            Some(v as u16)
        } else {
            None
        },
        None => None,
    }
}

/// What `i64::from_str` gives for `s`.
pub open spec fn parsed_i64(s: Seq<char>) -> Option<i64> {
    match parse_signed(s) {
        Some(v) => if i64::MIN <= v <= i64::MAX {
            Some(v as i64)
        } else {
            None
        },
        None => None,
    }
}

proof fn lemma_digits_value_nonneg(s: Seq<char>)
    requires
        all_digits(s),
    ensures
        digits_value(s) >= 0,
    decreases s.len(),
{
    if s.len() > 0 {
        lemma_digits_value_nonneg(s.drop_last());
    }
}

/// A prefix of a digit string never writes a larger number than the whole.
proof fn lemma_digits_value_prefix(s: Seq<char>, k: int)
    requires
        all_digits(s),
        0 <= k <= s.len(),
    ensures
        digits_value(s.subrange(0, k)) <= digits_value(s),
    decreases s.len() - k,
{
    if k < s.len() {
        lemma_digits_value_prefix(s, k + 1);
        assert(s.subrange(0, k + 1).drop_last() =~= s.subrange(0, k));
        lemma_digits_value_nonneg(s.subrange(0, k));
    } else {
        assert(s.subrange(0, k) =~= s);
    }
}

/// The value of the digits `s[from..]` when they are at least one digit, all
/// digits, and at most `limit`.
fn parse_digits(s: &str, from: usize, limit: u64) -> (r: Option<u64>)
    requires
        from <= s@.len(),
    ensures
        ({
            let body = s@.subrange(from as int, s@.len() as int);
            r == if body.len() > 0 && all_digits(body) && digits_value(body) <= limit {
                Some(digits_value(body) as u64)
            } else {
                None::<u64>
            }
        }),
{
    let n = s.unicode_len();
    let ghost body = s@.subrange(from as int, n as int);
    if from == n {
        return None;
    }
    let mut acc: u128 = 0;
    let mut i: usize = from;
    while i < n
        invariant
            from <= i <= n,
            n == s@.len(),
            body == s@.subrange(from as int, n as int),
            all_digits(s@.subrange(from as int, i as int)),
            acc == digits_value(s@.subrange(from as int, i as int)),
            acc <= limit,
        decreases n - i,
    {
        let c = s.get_char(i);
        if !('0' <= c && c <= '9') {
            assert(body[i - from] == c);
            return None;
        }
        let d = (c as u32 - '0' as u32) as u128;
        assert(s@.subrange(from as int, i + 1).drop_last() =~= s@.subrange(from as int, i as int));
        acc = acc * 10 + d;
        i = i + 1;
        if acc > limit as u128 {
            proof {
                if all_digits(body) {
                    assert(body.subrange(0, i - from) =~= s@.subrange(from as int, i as int));
                    lemma_digits_value_prefix(body, i - from);
                }
            }
            return None;
        }
    }
    assert(s@.subrange(from as int, i as int) =~= body);
    Some(acc as u64)
}

/// The `u16` written in `s`, read as `u16::from_str` reads it.
pub fn parse_u16(s: &str) -> (r: Option<u16>)
    ensures
        r == parsed_u16(s@),
{
    let n = s.unicode_len();
    let from: usize = if n > 0 && s.get_char(0) == '+' {
        1
    } else {
        0
    };
    proof {
        if from == 1 {
            assert(s@.subrange(1, n as int) =~= s@.drop_first());
        } else {
            assert(s@.subrange(0, n as int) =~= s@);
        }
    }
    match parse_digits(s, from, 65535) {
        Some(v) => {
            proof {
                lemma_digits_value_nonneg(s@.subrange(from as int, n as int));
            }
            Some(v as u16)
        },
        None => {
            proof {
                let body = s@.subrange(from as int, n as int);
                if body.len() > 0 && all_digits(body) {
                    lemma_digits_value_nonneg(body);
                }
            }
            None
        },
    }
}

/// The `i64` written in `s`, read as `i64::from_str` reads it.
pub fn parse_i64(s: &str) -> (r: Option<i64>)
    ensures
        r == parsed_i64(s@),
{
    let n = s.unicode_len();
    if n > 0 && s.get_char(0) == '-' {
        assert(s@.subrange(1, n as int) =~= s@.drop_first());
        match parse_digits(s, 1, 9223372036854775808) {
            Some(m) => {
                proof {
                    lemma_digits_value_nonneg(s@.drop_first());
                }
                if m == 9223372036854775808 {
                    Some(i64::MIN)
                } else {
                    Some(-(m as i64))
                }
            },
            None => {
                proof {
                    let body = s@.drop_first();
                    if body.len() > 0 && all_digits(body) {
                        lemma_digits_value_nonneg(body);
                    }
                }
                None
            },
        }
    } else {
        let from: usize = if n > 0 && s.get_char(0) == '+' {
            1
        } else {
            0
        };
        proof {
            if from == 1 {
                assert(s@.subrange(1, n as int) =~= s@.drop_first());
            } else {
                assert(s@.subrange(0, n as int) =~= s@);
            }
        }
        match parse_digits(s, from, 9223372036854775807) {
            Some(v) => {
                proof {
                    lemma_digits_value_nonneg(s@.subrange(from as int, n as int));
                }
                Some(v as i64)
            },
            None => {
                proof {
                    let body = s@.subrange(from as int, n as int);
                    if body.len() > 0 && all_digits(body) {
                        lemma_digits_value_nonneg(body);
                    }
                }
                None
            },
        }
    }
}

/// The setting `key` as a `u16`: missing is reported by name, unreadable with
/// the message `err`.
pub fn env_parse_u16(key: &str, err: &str, value: Option<String>) -> (r: Result<u16, String>)
    ensures
        value is None ==> (r matches Err(m) && m@ == missing_env_message(key@)),
        value matches Some(v) ==> match parsed_u16(v@) {
            Some(n) => r == Ok::<u16, String>(n),
            None => r matches Err(m) && m@ == err@,
        },
{
    let v = match require_env(key, value) {
        Ok(v) => v,
        Err(m) => return Err(m),
    };
    match parse_u16(v.as_str()) {
        Some(n) => Ok(n),
        None => Err(String::from_str(err)),
    }
}

/// The setting `key` as an `i64`: missing is reported by name, unreadable
/// with the message `err`.
pub fn env_parse_i64(key: &str, err: &str, value: Option<String>) -> (r: Result<i64, String>)
    ensures
        value is None ==> (r matches Err(m) && m@ == missing_env_message(key@)),
        value matches Some(v) ==> match parsed_i64(v@) {
            Some(n) => r == Ok::<i64, String>(n),
            None => r matches Err(m) && m@ == err@,
        },
{
    let v = match require_env(key, value) {
        Ok(v) => v,
        Err(m) => return Err(m),
    };
    match parse_i64(v.as_str()) {
        Some(n) => Ok(n),
        None => Err(String::from_str(err)),
    }
}

/// A byte that may stand in an HTTP header value: visible ASCII, a tab, or
/// any byte of 128 and above (`http`'s `is_valid`).
pub open spec fn is_header_byte(b: u8) -> bool {
    (b >= 32 && b != 127) || b == 9
}

/// Whether text is a valid HTTP header value: every byte of its UTF-8 form
/// may stand in one.
pub open spec fn is_header_value(s: Seq<char>) -> bool {
    forall|i: int| 0 <= i < encode_utf8(s).len() ==> is_header_byte(#[trigger] encode_utf8(s)[i])
}

/// `http::HeaderValue::from_str` succeeds: it checks each byte of the text
/// with `is_valid` (`b >= 32 && b != 127 || b == b'\t'`) and refuses the text
/// when one fails.
#[verifier::external_body]
fn header_value_ok(s: &str) -> (r: bool)
    ensures
        r == is_header_value(s@),
{
    http::HeaderValue::from_str(s).is_ok()
}

/// The characters of an optional setting.
pub open spec fn setting_view(o: Option<String>) -> Option<Seq<char>> {
    match o {
        Some(s) => Some(s@),
        None => None,
    }
}

/// The characters of the host setting: missing, not an IP address, or the
/// address.
pub open spec fn host_view(o: Option<Result<String, ()>>) -> Option<Result<Seq<char>, ()>> {
    match o {
        Some(Ok(s)) => Some(Ok(s@)),
        Some(Err(())) => Some(Err(())),
        None => None,
    }
}

/// The settings' values: host, port, allowed origin, database URL, token
/// secret and token lifetime in hours.
pub open spec fn settings_view(c: AppConfig) -> (Seq<char>, u16, Seq<char>, Seq<char>, Seq<char>, i64) {
    (c.host@, c.port, c.cors_allowed_origin@, c.sqlite_database_url@, c.jwt_secret@, c.jwt_expiration_hours)
}

/// The settings read from what the environment holds, or the complaint about
/// the first missing or unreadable one, checked in the order PORT, HOST,
/// JWT_EXPIRATION_HOURS, CORS_ALLOWED_ORIGIN, SQLITE_DATABASE_URL, JWT_SECRET.
pub open spec fn settings_outcome(
    port: Option<Seq<char>>,
    host: Option<Result<Seq<char>, ()>>,
    jwt_expiration_hours: Option<Seq<char>>,
    cors_allowed_origin: Option<Seq<char>>,
    sqlite_database_url: Option<Seq<char>>,
    jwt_secret: Option<Seq<char>>,
) -> Result<(Seq<char>, u16, Seq<char>, Seq<char>, Seq<char>, i64), Seq<char>> {
    match port {
        None => Err(missing_env_message("PORT"@)),
        Some(p) => match parsed_u16(p) {
            None => Err("PORT must be a valid integer"@),
            Some(port) => match host {
                None => Err(missing_env_message("HOST"@)),
                Some(Err(())) => Err("HOST must be a valid IP address"@),
                Some(Ok(h)) => match jwt_expiration_hours {
                    None => Err(missing_env_message("JWT_EXPIRATION_HOURS"@)),
                    Some(x) => match parsed_i64(x) {
                        None => Err("JWT_EXPIRATION_HOURS must be a valid integer"@),
                        Some(hours) => match cors_allowed_origin {
                            None => Err(missing_env_message("CORS_ALLOWED_ORIGIN"@)),
                            Some(c) => if !is_header_value(c) {
                                Err(
                                    "CORS_ALLOWED_ORIGIN must be a valid origin (e.g. http://localhost:8080)"@,
                                )
                            } else {
                                match sqlite_database_url {
                                    None => Err(missing_env_message("SQLITE_DATABASE_URL"@)),
                                    Some(u) => match jwt_secret {
                                        None => Err(missing_env_message("JWT_SECRET"@)),
                                        Some(sec) => Ok((h, port, c, u, sec, hours)),
                                    },
                                }
                            },
                        },
                    },
                },
            },
        },
    }
}

/// When every setting is present and readable, each loaded value is its own
/// setting read on its own: the port as `u16::from_str` reads it, the token
/// lifetime as `i64::from_str` reads it, and the texts unchanged.
pub proof fn lemma_settings_load_each_value(
    port: Seq<char>,
    host: Seq<char>,
    hours: Seq<char>,
    cors: Seq<char>,
    url: Seq<char>,
    secret: Seq<char>,
)
    requires
        parsed_u16(port) is Some,
        parsed_i64(hours) is Some,
        is_header_value(cors),
    ensures
        settings_outcome(Some(port), Some(Ok(host)), Some(hours), Some(cors), Some(url), Some(secret))
            is Ok,
        ({
            let v = settings_outcome(
                Some(port),
                Some(Ok(host)),
                Some(hours),
                Some(cors),
                Some(url),
                Some(secret),
            )->Ok_0;
            &&& v.0 == host
            &&& Some(v.1) == parsed_u16(port)
            &&& v.2 == cors
            &&& v.3 == url
            &&& v.4 == secret
            &&& Some(v.5) == parsed_i64(hours)
        }),
{
}

/// The settings are checked in the order PORT, HOST, JWT_EXPIRATION_HOURS,
/// CORS_ALLOWED_ORIGIN, SQLITE_DATABASE_URL, JWT_SECRET: a missing port is
/// reported whatever else is missing, and a setting is reported only when all
/// before it are present and readable.
pub proof fn lemma_settings_first_problem_wins(
    port: Option<Seq<char>>,
    host: Option<Result<Seq<char>, ()>>,
    hours: Option<Seq<char>>,
    cors: Option<Seq<char>>,
    url: Option<Seq<char>>,
    secret: Option<Seq<char>>,
)
    ensures
        port is None ==> settings_outcome(port, host, hours, cors, url, secret) == Err::<
            (Seq<char>, u16, Seq<char>, Seq<char>, Seq<char>, i64),
            Seq<char>,
        >("PORT"@ + " must be set in .env"@),
        (port matches Some(p) && parsed_u16(p) is None) ==> settings_outcome(
            port,
            host,
            hours,
            cors,
            url,
            secret,
        ) == Err::<(Seq<char>, u16, Seq<char>, Seq<char>, Seq<char>, i64), Seq<char>>(
            "PORT must be a valid integer"@,
        ),
        (port matches Some(p) && parsed_u16(p) is Some && host is None) ==> settings_outcome(
            port,
            host,
            hours,
            cors,
            url,
            secret,
        ) == Err::<(Seq<char>, u16, Seq<char>, Seq<char>, Seq<char>, i64), Seq<char>>(
            "HOST"@ + " must be set in .env"@,
        ),
{
}

impl AppConfig {
    /// The settings, given what the environment holds for each of them (the
    /// host already checked to be an IP address by the server); the first
    /// missing or unreadable setting is reported.
    pub fn load(
        port: Option<String>,
        host: Option<Result<String, ()>>,
        jwt_expiration_hours: Option<String>,
        cors_allowed_origin: Option<String>,
        sqlite_database_url: Option<String>,
        jwt_secret: Option<String>,
    ) -> (r: Result<AppConfig, String>)
        ensures
            match settings_outcome(
                setting_view(port),
                host_view(host),
                setting_view(jwt_expiration_hours),
                setting_view(cors_allowed_origin),
                setting_view(sqlite_database_url),
                setting_view(jwt_secret),
            ) {
                Ok(v) => r matches Ok(c) && settings_view(c) == v,
                Err(m) => r matches Err(e) && e@ == m,
            },
    {
        let port = match env_parse_u16("PORT", "PORT must be a valid integer", port) {
            Ok(p) => p,
            Err(m) => return Err(m),
        };
        let host = match host {
            None => return Err(missing_env("HOST")),
            Some(Err(())) => return Err(String::from_str("HOST must be a valid IP address")),
            Some(Ok(h)) => h,
        };
        let jwt_expiration_hours = match env_parse_i64(
            "JWT_EXPIRATION_HOURS",
            "JWT_EXPIRATION_HOURS must be a valid integer",
            jwt_expiration_hours,
        ) {
            Ok(x) => x,
            Err(m) => return Err(m),
        };
        let cors_allowed_origin = match require_env("CORS_ALLOWED_ORIGIN", cors_allowed_origin) {
            Ok(c) => c,
            Err(m) => return Err(m),
        };
        if !header_value_ok(cors_allowed_origin.as_str()) {
            return Err(
                String::from_str(
                    "CORS_ALLOWED_ORIGIN must be a valid origin (e.g. http://localhost:8080)",
                ),
            );
        }
        let sqlite_database_url = match require_env("SQLITE_DATABASE_URL", sqlite_database_url) {
            Ok(u) => u,
            Err(m) => return Err(m),
        };
        let jwt_secret = match require_env("JWT_SECRET", jwt_secret) {
            Ok(s) => s,
            Err(m) => return Err(m),
        };
        Ok(AppConfig {
            host,
            port,
            cors_allowed_origin,
            sqlite_database_url,
            jwt_secret,
            jwt_expiration_hours,
        })
    }
}

} // verus!
