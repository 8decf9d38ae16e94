//! Personal API keys: minting, the at-rest hash, and verification of a
//! presented key.

use crate::crypto::{base32_encode, random_bytes, sha256, spec_base32, spec_sha256};
use crate::datetime::Timestamp;
use crate::model::{AccountId, ApiKey, UserApiKeyEntity};
use crate::text::push_char;
use vstd::prelude::*;
use vstd::string::StringExecFns;

verus! {

/// Prefix of every minted API key.
pub const API_KEY_PREFIX: &'static str = "airi_";

/// Header carrying the API key on the HTTP surface.
pub const API_KEY_HEADER: &'static str = "X-API-Key";

/// Name of the API-key security scheme in the API document.
pub const API_KEY_SECURITY_SCHEME: &'static str = "api_key";

/// The lowercase hexadecimal digit of a value below 16.
pub open spec fn hex_digit(n: int) -> char {
    if n < 10 {
        (48 + n) as char
    } else {
        (87 + n) as char
    }
}

/// Lowercase hexadecimal text of a byte string, two digits per byte, high
/// nibble first.
pub open spec fn hex_lower(bytes: Seq<u8>) -> Seq<char> {
    Seq::new(
        2 * bytes.len(),
        |i: int| hex_digit(if i % 2 == 0 { bytes[i / 2] / 16 } else { bytes[i / 2] % 16 } as int),
    )
}

/// What a stored key hash is for a plaintext key: the lowercase hex of its
/// SHA-256 digest.
pub open spec fn api_key_hash_of(plaintext: Seq<char>) -> Seq<char> {
    hex_lower(spec_sha256(vstd::utf8::encode_utf8(plaintext)))
}

fn hex_char(n: u8) -> (r: char)
    requires
        n < 16,
    ensures
        r == hex_digit(n as int),
{
    if n < 10 {
        (48u8 + n) as char
    } else {
        (87u8 + n) as char
    }
}

/// Lowercase hex text of a byte string.
pub fn to_hex_lower(bytes: &[u8]) -> (r: String)
    ensures
        r@ == hex_lower(bytes@),
{
    let mut out = String::new();
    let n = bytes.len();
    let mut i: usize = 0;
    while i < n
        invariant
            n == bytes@.len(),
            i <= n,
            out@ =~= Seq::new(
                2 * i as nat,
                |j: int|
                    hex_digit(
                        if j % 2 == 0 { bytes@[j / 2] / 16 } else { bytes@[j / 2] % 16 } as int,
                    ),
            ),
        decreases n - i,
    {
        let b = bytes[i];
        let ghost before = out@;
        push_char(&mut out, hex_char(b / 16));
        push_char(&mut out, hex_char(b % 16));
        proof {
            assert forall|j: int| 0 <= j < 2 * (i + 1) implies out@[j] == hex_digit(
                if j % 2 == 0 { bytes@[j / 2] / 16 } else { bytes@[j / 2] % 16 } as int,
            ) by {
                if j < 2 * i {
                    assert(out@[j] == before[j]);
                } else if j == 2 * i {
                    assert(j / 2 == i as int);
                } else {
                    assert(j / 2 == i as int);
                }
            }
        }
        i = i + 1;
    }
    assert(2 * n == 2 * bytes@.len());
    out
}

/// Hash a plaintext API key for storage and lookup: the lowercase hex of its
/// SHA-256 digest (64 characters).
pub fn hash_api_key(plaintext: &str) -> (r: String)
    ensures
        r@ == api_key_hash_of(plaintext@),
        r@.len() == 64,
{
    let digest = sha256(plaintext.as_bytes());
    to_hex_lower(digest.as_slice())
}

/// Mint a fresh plaintext API key: `airi_` followed by the base32 of 32
/// random bytes.
pub fn generate_api_key() -> (r: String)
    ensures
        exists|bytes: Seq<u8>| bytes.len() == 32 && r@ == "airi_"@ + spec_base32(bytes),
        r@.len() == 57,
{
    let bytes: [u8; 32] = random_bytes();
    let text = base32_encode(&bytes);
    proof {
        reveal_strlit("airi_");
        assert((8 * 32nat + 4) / 5 == 52nat);
    }
    String::from_str(API_KEY_PREFIX).concat(text.as_str())
}

/// Create a new API key. The plaintext is returned exactly once.
pub struct CreateApiKey {
    pub user_id: AccountId,
    pub remark: String,
    pub valid_until: Option<Timestamp>,
    pub scopes: Vec<String>,
}

/// A new API-key row: the key is stored only as its hash.
pub struct NewApiKey {
    pub user_id: AccountId,
    pub key_hash: String,
    pub remark: String,
    pub valid_until: Option<Timestamp>,
    pub scopes: Vec<String>,
}

/// Mint a key for a creation request: the plaintext to hand out once, and
/// the row to store, which holds the plaintext's hash.
pub fn plan_api_key(input: CreateApiKey) -> (r: (String, NewApiKey))
    ensures
        exists|bytes: Seq<u8>| bytes.len() == 32 && r.0@ == "airi_"@ + spec_base32(bytes),
        r.1.key_hash@ == api_key_hash_of(r.0@),
        r.1.user_id == input.user_id,
        r.1.remark == input.remark,
        r.1.valid_until == input.valid_until,
        r.1.scopes == input.scopes,
{
    let plaintext = generate_api_key();
    let key_hash = hash_api_key(plaintext.as_str());
    (
        plaintext,
        NewApiKey {
            user_id: input.user_id,
            key_hash,
            remark: input.remark,
            valid_until: input.valid_until,
            scopes: input.scopes,
        },
    )
}

/// Look-up of an API-key row by the hash of a key.
pub struct FindApiKeyByHash {
    pub key_hash: String,
}

impl FindApiKeyByHash {
    /// The look-up for a presented plaintext key.
    pub fn for_key(key: &ApiKey) -> (r: FindApiKeyByHash)
        ensures
            r.key_hash@ == api_key_hash_of(key.0@),
    {
        FindApiKeyByHash { key_hash: hash_api_key(key.0.as_str()) }
    }
}

/// Verify a presented API key.
pub struct ApiKeyVerify {
    pub api_key: ApiKey,
}

/// The identity behind a verified API key.
pub struct ApiKeyVerifyOutput {
    pub user: AccountId,
    pub valid_until: Option<Timestamp>,
    pub scopes: Vec<String>,
}

/// Whether a key with this expiry is still usable at `now`.
pub open spec fn api_key_usable(valid_until: Option<Timestamp>, now: Timestamp) -> bool {
    match valid_until {
        None => true,
        Some(t) => now.0 < t.0,
    }
}

/// The key a request presents in its API-key header, if it presents a
/// non-empty one.
pub fn api_key_from_header(value: Option<&str>) -> (r: Option<ApiKey>)
    ensures
        r matches Some(k) ==> (value matches Some(v) && v@.len() > 0 && k.0@ == v@),
        r is None ==> (value is None || value.unwrap()@.len() == 0),
{
    match value {
        Some(v) => {
            if v.is_empty() {
                None
            } else {
                Some(ApiKey(v.to_owned()))
            }
        },
        None => None,
    }
}

/// Decide an API-key verification from the row found by the key's hash: no
/// row, or an expired key, is not found; otherwise the owner, expiry and
/// scopes of the key.
pub fn check_api_key(found: Option<UserApiKeyEntity>, now: Timestamp) -> (r: Option<ApiKeyVerifyOutput>)
    ensures
        r is Some <==> (found matches Some(row) && api_key_usable(row.valid_until, now)),
        r matches Some(out) ==> (found matches Some(row) && out.user == row.user
            && out.valid_until == row.valid_until && out.scopes@ == row.scopes@),
{
    match found {
        None => None,
        Some(row) => {
            let usable = match row.valid_until {
                None => true,
                Some(t) => now.0 < t.0,
            };
            if usable {
                Some(ApiKeyVerifyOutput { user: row.user, valid_until: row.valid_until, scopes: row.scopes })
            } else {
                None
            }
        },
    }
}

/// A minted key, presented back, is looked up by exactly the hash stored for
/// it; and a stored key without expiry is usable at any time.
pub proof fn lemma_created_key_verifies(
    plaintext: Seq<char>,
    row: NewApiKey,
    lookup: FindApiKeyByHash,
    stored: UserApiKeyEntity,
    now: Timestamp,
)
    requires
        row.key_hash@ == api_key_hash_of(plaintext),
        lookup.key_hash@ == api_key_hash_of(plaintext),
        stored.key.0@ == row.key_hash@,
        stored.valid_until is None,
    ensures
        lookup.key_hash@ == stored.key.0@,
        api_key_usable(stored.valid_until, now),
{
}

} // verus!
