use argon2::password_hash::rand_core::OsRng;
use argon2::password_hash::SaltString;
use argon2::PasswordHash;
use argon2::PasswordHasher;
use argon2::PasswordVerifier;
use vstd::prelude::*;

verus! {

use vstd::utf8::encode_utf8;

/// Failures of the password hasher.
#[derive(Clone, Copy, Debug, PartialEq, Eq, Structural)]
pub enum PasswdError {
    /// The hasher rejected its inputs: a malformed salt, or a password
    /// beyond the hasher's byte-length cap.
    InvalidSalt,
    /// The hash string does not parse in the PHC format.
    InvalidHashString,
}

/// Whether Argon2 (default parameters) accepts `salt` as a b64 salt string.
pub uninterp spec fn salt_ok(salt: Seq<char>) -> bool;

/// The PHC string Argon2 (default parameters) derives from a password and an
/// accepted salt; a pure function of the two.
pub uninterp spec fn argon2_hash_of(passwd: Seq<char>, salt: Seq<char>) -> Seq<char>;

/// Whether `hash` is a PHC string that parses as a password hash.
pub uninterp spec fn phc_parseable(hash: Seq<char>) -> bool;

/// Whether Argon2 verification of `passwd` against the PHC string `hash`
/// succeeds; a pure function of the two.
pub uninterp spec fn argon2_verify_of(passwd: Seq<char>, hash: Seq<char>) -> bool;

/// Generates a fresh random salt in its b64 form.
///
/// Relies on argon2's `SaltString::generate` over a cryptographically secure
/// random source: every salt it produces is accepted by the hasher.
#[verifier::external_body]
pub fn gen_salt() -> (r: String)
    ensures
        salt_ok(r@),
{
    SaltString::generate(&mut OsRng).to_string()
}

/// Relies on argon2's `SaltString::from_b64` and
/// `Argon2::default().hash_password`: hashing succeeds whenever the salt is
/// accepted and the password's UTF-8 form stays within the hasher's byte
/// cap of 2^32 - 1, and only ever succeeds on an accepted salt; the
/// PHC-format result is a pure function of the password and the salt,
/// always begins with a `$` delimiter, parses back as a PHC string, and
/// verifying the same password against it succeeds.
#[verifier::external_body]
fn argon2_hash(passwd: &str, salt: &str) -> (r: Option<String>)
    ensures
        r is Some ==> salt_ok(salt@),
        salt_ok(salt@) && encode_utf8(passwd@).len() <= 0xFFFFFFFF ==> r is Some,
        r is Some ==> r->0@ == argon2_hash_of(passwd@, salt@),
        r is Some ==> phc_parseable(r->0@),
        r is Some ==> argon2_verify_of(passwd@, r->0@),
        r is Some ==> r->0@.len() > 0 && r->0@[0] == '$',
{
    let salt_string = match SaltString::from_b64(salt) {
        Ok(s) => s,
        Err(_) => return None,
    };
    match argon2::Argon2::default().hash_password(passwd.as_bytes(), &salt_string) {
        Ok(passwd_hash) => Some(passwd_hash.to_string()),
        Err(_) => None,
    }
}

/// Relies on argon2's `PasswordHash::new` and
/// `Argon2::default().verify_password`: whether the hash string parses, and
/// whether verification succeeds, are pure functions of the two inputs.
#[verifier::external_body]
fn argon2_verify(provided_passwd: &str, hashed_passwd: &str) -> (r: Option<bool>)
    ensures
        r is Some <==> phc_parseable(hashed_passwd@),
        r is Some ==> r->0 == argon2_verify_of(provided_passwd@, hashed_passwd@),
{
    let parsed_hash = match PasswordHash::new(hashed_passwd) {
        Ok(h) => h,
        Err(_) => return None,
    };
    let matches = argon2::Argon2::default()
        .verify_password(provided_passwd.as_bytes(), &parsed_hash)
        .is_ok();
    Some(matches)
}

/// One-way, salted, memory-hard hash of a plaintext password, in the PHC
/// string format with the salt embedded.
pub fn passwd_encrypt(passwd: &str, salt: &str) -> (r: Result<String, PasswdError>)
    ensures
        r is Ok ==> salt_ok(salt@),
        salt_ok(salt@) && encode_utf8(passwd@).len() <= 0xFFFFFFFF ==> r is Ok,
        r is Ok ==> r->Ok_0@ == argon2_hash_of(passwd@, salt@),
        r is Ok ==> phc_parseable(r->Ok_0@),
        r is Ok ==> argon2_verify_of(passwd@, r->Ok_0@),
        r is Ok ==> r->Ok_0@.len() > 0 && r->Ok_0@[0] == '$',
        r is Err ==> r->Err_0 == PasswdError::InvalidSalt,
{
    match argon2_hash(passwd, salt) {
        Some(hash) => Ok(hash),
        None => Err(PasswdError::InvalidSalt),
    }
}

/// Checks a plaintext password against a PHC hash string.
pub fn verify_encrypted_passwd(provided_passwd: &str, hashed_passwd: &str) -> (r: Result<
    bool,
    PasswdError,
>)
    ensures
        r is Ok <==> phc_parseable(hashed_passwd@),
        r is Ok ==> r->Ok_0 == argon2_verify_of(provided_passwd@, hashed_passwd@),
        r is Err ==> r->Err_0 == PasswdError::InvalidHashString,
{
    match argon2_verify(provided_passwd, hashed_passwd) {
        Some(matches) => Ok(matches),
        None => Err(PasswdError::InvalidHashString),
    }
}

/// The hash of a password is never the password itself: every hash the
/// hasher produces opens with a `$` delimiter, so a password that does not
/// cannot equal its own hash; and the hashed password always verifies
/// against the hash it produced.
pub fn hashed_passwd_obscures(passwd: &str, salt: &str) -> (r: Result<String, PasswdError>)
    ensures
        r is Ok ==> salt_ok(salt@),
        salt_ok(salt@) && encode_utf8(passwd@).len() <= 0xFFFFFFFF ==> r is Ok,
        r is Ok ==> argon2_verify_of(passwd@, r->Ok_0@),
        r is Ok && (passwd@.len() == 0 || passwd@[0] != '$') ==> r->Ok_0@ != passwd@,
{
    passwd_encrypt(passwd, salt)
}

} // verus!
