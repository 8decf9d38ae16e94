//! Password hashing, behind a trait so the algorithm can be swapped.

use argon2::password_hash::{PasswordHasher, PasswordVerifier};
use vstd::prelude::*;
use vstd::utf8::{encode_utf8, is_ascii_chars, is_ascii_chars_encode_utf8};
use vstd::string::StringExecFns;

verus! {

/// Error raised when hashing a password fails.
#[derive(Debug, Clone)]
pub enum PasswordHashError {
    /// The underlying hasher rejected the input; the text is its reason.
    Hash(String),
}

impl PasswordHashError {
    /// Human-readable text of the error.
    pub fn message(&self) -> (r: String)
        ensures
            self matches PasswordHashError::Hash(m) ==> r@ == "failed to hash password: "@ + m@,
    {
        match self {
            PasswordHashError::Hash(m) => String::from_str("failed to hash password: ").concat(
                m.as_str(),
            ),
        }
    }
}

/// Whether `argon2` verifies a plaintext against a stored PHC hash string
/// (false for a string that does not parse).
pub uninterp spec fn spec_argon2_verify(plain: Seq<char>, hash: Seq<char>) -> bool;

/// Whether `argon2` hashes a password: its UTF-8 encoding is at most
/// `argon2::MAX_PWD_LEN` (2^32 - 1) bytes.
pub open spec fn hashable_password(plain: Seq<char>) -> bool {
    encode_utf8(plain).len() <= 0xFFFF_FFFF
}

/// Argon2id hash of a password with a fresh random salt, by
/// `argon2::Argon2::default().hash_password`, as its PHC string. With the
/// default parameters and a generated 16-byte salt the only input it refuses
/// is a password longer than `MAX_PWD_LEN` bytes; a hash it returns verifies
/// against the same password.
#[verifier::external_body]
fn argon2_hash(plain: &str) -> (r: Result<String, String>)
    ensures
        r is Ok <==> hashable_password(plain@),
        r matches Ok(h) ==> spec_argon2_verify(plain@, h@),
{
    let salt = argon2::password_hash::SaltString::generate(
        &mut argon2::password_hash::rand_core::OsRng,
    );
    argon2::Argon2::default()
        .hash_password(plain.as_bytes(), &salt)
        .map(|hash| hash.to_string())
        .map_err(|e| e.to_string())
}

/// Whether a text can begin a PHC string: it starts with `$` (what
/// `PasswordHash::new` checks first).
pub open spec fn phc_shaped(hash: Seq<char>) -> bool {
    hash.len() > 0 && hash[0] == '$'
}

/// Verify a password against a PHC string, by `argon2::PasswordHash::new` and
/// `argon2::Argon2::default().verify_password`; a string that does not parse
/// verifies nothing, and one that does not start with `$` does not parse.
#[verifier::external_body]
fn argon2_verify(plain: &str, hash: &str) -> (r: bool)
    ensures
        r == spec_argon2_verify(plain@, hash@),
        !phc_shaped(hash@) ==> !r,
{
    match argon2::password_hash::PasswordHash::new(hash) {
        Ok(parsed) => argon2::Argon2::default().verify_password(plain.as_bytes(), &parsed).is_ok(),
        Err(_) => false,
    }
}

/// The password behind the dummy hash.
pub const DUMMY_PASSWORD: &'static str = "dummy-password-for-constant-time";

/// A valid Argon2 hash of a fixed password, used for constant-time
/// verification against missing accounts.
pub fn dummy_hash() -> (r: String)
    ensures
        spec_argon2_verify(DUMMY_PASSWORD@, r@),
{
    proof {
        reveal_strlit("dummy-password-for-constant-time");
        assert(is_ascii_chars(DUMMY_PASSWORD@));
        is_ascii_chars_encode_utf8(DUMMY_PASSWORD@);
    }
    match argon2_hash(DUMMY_PASSWORD) {
        Ok(h) => h,
        Err(_) => String::new(),
    }
}

/// A password hashing and verification strategy.
pub trait PasswordAlgorithm: Send + Sync {
    /// Whether this algorithm accepts a plaintext against a stored hash.
    spec fn accepts(&self, plain: Seq<char>, hash: Seq<char>) -> bool;

    /// Hash a plaintext password into a storable PHC string; the hash
    /// verifies against the same password.
    fn hash_password(&self, plain: &str) -> (r: Result<String, PasswordHashError>)
        ensures
            r matches Ok(h) ==> self.accepts(plain@, h@),
    ;

    /// Verify a plaintext password against a stored hash; false on any parse
    /// or verify error.
    fn verify_password(&self, plain: &str, hash: &str) -> (r: bool)
        ensures
            r == self.accepts(plain@, hash@),
    ;

    /// Verify against an optional stored hash. When the hash is absent (the
    /// account does not exist) a dummy verification runs to keep timing
    /// roughly constant, and the answer is false.
    fn verify_password_or_dummy(&self, plain: &str, hash: Option<&str>) -> (r: bool)
        ensures
            r == (match hash {
                Some(h) => self.accepts(plain@, h@),
                None => false,
            }),
    {
        match hash {
            Some(h) => self.verify_password(plain, h),
            None => {
                let dummy = dummy_hash();
                let _ = self.verify_password(plain, dummy.as_str());
                false
            },
        }
    }
}

/// Argon2id-based password algorithm.
#[derive(Clone, Copy, Default)]
pub struct Argon2PasswordAlgorithm;

impl PasswordAlgorithm for Argon2PasswordAlgorithm {
    open spec fn accepts(&self, plain: Seq<char>, hash: Seq<char>) -> bool {
        spec_argon2_verify(plain, hash)
    }

    fn hash_password(&self, plain: &str) -> (r: Result<String, PasswordHashError>)
        ensures
            r is Ok <==> hashable_password(plain@),
    {
        match argon2_hash(plain) {
            Ok(h) => Ok(h),
            Err(e) => Err(PasswordHashError::Hash(e)),
        }
    }

    fn verify_password(&self, plain: &str, hash: &str) -> (r: bool)
        ensures
            !phc_shaped(hash@) ==> !r,
    {
        argon2_verify(plain, hash)
    }
}

} // verus!
