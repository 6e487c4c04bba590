//! Password hashing and checking with bcrypt.
use vstd::prelude::*;

verus! {

#[verifier::external_type_specification]
#[verifier::external_body]
pub struct ExBcryptError(bcrypt::BcryptError);

/// What `bcrypt::verify` answers for a password (taken as its UTF-8 bytes)
/// and a stored hash: `Some(matches)`, or `None` where it refuses the hash.
pub uninterp spec fn bcrypt_check(password: Seq<char>, hash: Seq<char>) -> Option<bool>;

/// The bcrypt work factor used for new passwords.
pub const BCRYPT_COST: u32 = 10;

/// The decimal digit `d` as a character.
pub open spec fn decimal_digit(d: u32) -> char {
    (48 + d) as char
}

/// How a bcrypt hash made at work factor `cost` begins: the `2b` version and
/// the cost in two digits, each between `$` signs.
pub open spec fn bcrypt_prefix(cost: u32) -> Seq<char> {
    seq!['$', '2', 'b', '$', decimal_digit(cost / 10), decimal_digit(cost % 10), '$']
}

/// `bcrypt::hash`: hashes the password's UTF-8 bytes with a random salt
/// drawn from the operating system. Stated: a hash it returns is one that
/// `bcrypt::verify` accepts for the same password (the salt and cost are read
/// back from the hash and the same computation is repeated); a work factor
/// outside 4..=31 is refused; a hash is 60 characters, `$2b$`, the cost in two
/// digits, `$`, then 22 characters of salt and 31 of digest. Not stated:
/// which salt and digest come out, nor when the random source fails.
#[verifier::external_body]
fn bcrypt_hash(password: &str, cost: u32) -> (r: Result<String, bcrypt::BcryptError>)
    ensures
        r matches Ok(h) ==> bcrypt_check(password@, h@) == Some(true),
        !(4 <= cost && cost <= 31) ==> r is Err,
        r matches Ok(h) ==> h@.len() == 60 && h@.subrange(0, 7) == bcrypt_prefix(cost),
{
    bcrypt::hash(password, cost)
}

/// `bcrypt::verify`: whether the password matches the hash, or an error
/// where the hash cannot be read; a function of its two arguments. A hash
/// without any `$` is refused (it does not split into the three `$`-separated
/// parts that `split_hash` asks for).
#[verifier::external_body]
fn bcrypt_verify(password: &str, hash: &str) -> (r: Result<bool, bcrypt::BcryptError>)
    ensures
        r is Ok <==> bcrypt_check(password@, hash@) is Some,
        r matches Ok(b) ==> bcrypt_check(password@, hash@) == Some(b),
        !hash@.contains('$') ==> r is Err,
{
    bcrypt::verify(password, hash)
}

/// The bcrypt hash of `password` at cost 10: 60 characters beginning
/// `$2b$10$`. Whatever it returns is accepted by `verify_password` for the
/// same password. It fails only when the random source for the salt fails.
pub fn hash_password(password: &str) -> (r: Result<String, ()>)
    ensures
        r matches Ok(h) ==> bcrypt_check(password@, h@) == Some(true),
        r matches Ok(h) ==> h@.len() == 60 && h@.subrange(0, 7) == bcrypt_prefix(BCRYPT_COST),
{
    match bcrypt_hash(password, BCRYPT_COST) {
        Ok(h) => Ok(h),
        Err(_) => Err(()),
    }
}

/// Whether `password` matches the stored bcrypt `hash`; `Err` where the
/// hash cannot be read, in particular where it holds no `$`.
pub fn verify_password(password: &str, hash: &str) -> (r: Result<bool, ()>)
    ensures
        r == (match bcrypt_check(password@, hash@) {
            Some(b) => Ok::<bool, ()>(b),
            None => Err(()),
        }),
        !hash@.contains('$') ==> r == Err::<bool, ()>(()),
{
    match bcrypt_verify(password, hash) {
        Ok(b) => Ok(b),
        Err(_) => Err(()),
    }
}

} // verus!
