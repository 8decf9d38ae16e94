//! Hashing, encoding, randomness and identifier text, as computed by `sha2`,
//! `fast32`, `rand`, `uuid` and `validator`.

use sha2::Digest;
use vstd::prelude::*;

verus! {

/// The SHA-256 digest of a byte string.
pub uninterp spec fn spec_sha256(data: Seq<u8>) -> Seq<u8>;

/// The unpadded RFC 4648 base32 text of a byte string, as `fast32` writes it.
pub uninterp spec fn spec_base32(data: Seq<u8>) -> Seq<char>;

/// The hyphenated lowercase text of a UUID.
pub uninterp spec fn spec_uuid_text(id: u128) -> Seq<char>;

/// What `uuid::Uuid::parse_str` gives for a text, as the UUID's 128 bits.
pub uninterp spec fn spec_uuid_parse(s: Seq<char>) -> Option<u128>;

/// Whether `validator` accepts a text as an email address.
pub uninterp spec fn spec_email_valid(s: Seq<char>) -> bool;

/// The characters of the RFC 4648 base32 alphabet.
pub open spec fn is_base32_char(c: char) -> bool {
    ('A' <= c <= 'Z') || ('2' <= c <= '7')
}

/// Length of unpadded base32 text for `n` bytes: eight characters per five
/// bytes, rounded up.
pub open spec fn base32_len(n: nat) -> nat {
    (8 * n + 4) / 5
}

/// SHA-256 of a byte string, by `sha2::Sha256::digest`; the digest has 32 bytes.
#[verifier::external_body]
pub(crate) fn sha256(data: &[u8]) -> (r: Vec<u8>)
    ensures
        r@ == spec_sha256(data@),
        r@.len() == 32,
{
    sha2::Sha256::digest(data).to_vec()
}

/// Unpadded RFC 4648 base32 text, by `fast32::base32::RFC4648_NOPAD.encode`:
/// eight alphabet characters per five bytes, the last group cut short.
#[verifier::external_body]
pub(crate) fn base32_encode(data: &[u8]) -> (r: String)
    ensures
        r@ == spec_base32(data@),
        r@.len() == base32_len(data@.len()),
        forall|i: int| 0 <= i < r@.len() ==> is_base32_char(#[trigger] r@[i]),
{
    fast32::base32::RFC4648_NOPAD.encode(data)
}

/// Bytes from the thread-local CSPRNG, by `rand::rng().fill_bytes`.
#[verifier::external_body]
pub(crate) fn random_bytes<const N: usize>() -> (r: [u8; N]) {
    let mut bytes = [0u8; N];
    rand::RngCore::fill_bytes(&mut rand::rng(), &mut bytes);
    bytes
}

/// A fresh random (version 4) UUID, by `uuid::Uuid::new_v4`, as its 128 bits;
/// the version nibble is 4.
#[verifier::external_body]
pub(crate) fn new_uuid_v4() -> (r: u128)
    ensures
        (r >> 76u128) & 0xfu128 == 4,
{
    uuid::Uuid::new_v4().as_u128()
}

/// The hyphenated text of a UUID (`uuid::Uuid`'s `Display`): 36 characters,
/// which `Uuid::parse_str` reads back to the same UUID.
#[verifier::external_body]
pub(crate) fn uuid_to_string(id: u128) -> (r: String)
    ensures
        r@ == spec_uuid_text(id),
        r@.len() == 36,
        spec_uuid_parse(r@) == Some(id),
{
    uuid::Uuid::from_u128(id).to_string()
}

/// Parse UUID text, by `uuid::Uuid::parse_str`.
#[verifier::external_body]
pub(crate) fn uuid_parse(s: &str) -> (r: Option<u128>)
    ensures
        r == spec_uuid_parse(s@),
{
    uuid::Uuid::parse_str(s).ok().map(|u| u.as_u128())
}

/// Whether a text is an email address, by `validator::ValidateEmail::validate_email`;
/// a text without `@` is never one.
#[verifier::external_body]
pub(crate) fn email_valid(s: &str) -> (r: bool)
    ensures
        r == spec_email_valid(s@),
        !s@.contains('@') ==> !r,
{
    validator::ValidateEmail::validate_email(&s)
}

} // verus!
