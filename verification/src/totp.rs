//! TOTP provisioning and checking (by `totp-rs`), and one-time recovery codes.

use crate::crypto::{
    base32_encode, is_base32_char, random_bytes, sha256, spec_base32, spec_sha256,
};
use crate::datetime::{now_primitive, to_unix, unix_secs_of, Timestamp};
use crate::identity::ServiceError;
use crate::text::{ascii_upper, char_is_whitespace, char_to_uppercase, spec_is_whitespace, spec_to_uppercase};
use vstd::prelude::*;
use vstd::utf8::{encode_utf8, is_ascii_chars};
use vstd::string::StringExecFns;

verus! {

/// Issuer label shown by authenticator apps.
pub const TOTP_ISSUER: &'static str = "Airi";

/// Number of one-time recovery codes minted per enrollment.
pub const RECOVERY_CODE_COUNT: usize = 10;

/// Bytes of randomness behind one recovery code.
pub const RECOVERY_CODE_BYTES: usize = 10;

/// Smallest secret (in bytes) a validator can be built from.
pub const MIN_SECRET_BYTES: usize = 16;

/// The unpadded RFC 4648 base32 text `totp_rs::Secret::to_base32` writes for a secret.
pub uninterp spec fn spec_secret_base32(secret: Seq<u8>) -> Seq<char>;

/// The `otpauth://` URI `totp_rs::Totp::to_url` writes for a secret, issuer
/// and account name.
pub uninterp spec fn spec_totp_url(secret: Seq<u8>, issuer: Seq<char>, account_name: Seq<char>) -> Seq<char>;

/// The base64 PNG QR code `totp_rs::Totp::to_qr_base64` draws for a secret,
/// issuer and account name.
pub uninterp spec fn spec_totp_qr(secret: Seq<u8>, issuer: Seq<char>, account_name: Seq<char>) -> Seq<char>;

/// Whether `totp_rs::Totp::check` (SHA-1, six digits, thirty-second steps,
/// one step of skew either side) accepts a code for a secret at a unix time.
pub uninterp spec fn spec_totp_check(secret: Seq<u8>, code: Seq<char>, time: u64) -> bool;

/// Latest unix time a code is checked at (the step window stays in `u64`).
pub const MAX_TOTP_TIME: u64 = 0xFFFF_FFFF_FFFF_FF00;

/// Most UTF-8 bytes of text a QR code holds (version 40, medium error
/// correction, byte mode).
pub const MAX_QR_TEXT_BYTES: usize = 2328;

/// A labelled TOTP (SHA-1, six digits, thirty-second steps) that `totp-rs`
/// accepted.
#[derive(Clone)]
pub struct LabelledTotp {
    pub secret: Vec<u8>,
    pub issuer: String,
    pub account_name: String,
}

/// Whether `totp-rs` builds a validator for this secret, issuer and account name.
pub open spec fn totp_buildable(secret: Seq<u8>, issuer: Seq<char>, account_name: Seq<char>) -> bool {
    secret.len() >= MIN_SECRET_BYTES && !issuer.contains(':') && !account_name.contains(':')
}

/// Whether `totp-rs` writes a provisioning URI for this secret, issuer and account name.
pub open spec fn totp_url_writable(secret: Seq<u8>, issuer: Seq<char>, account_name: Seq<char>) -> bool {
    totp_buildable(secret, issuer, account_name) && account_name.len() > 0
}

/// Most UTF-8 bytes of the URI `to_url` writes: `otpauth://totp/`, the
/// label `issuer:account`, `?secret=` with the base32 secret and `&issuer=`,
/// each name percent-encoded (at most three bytes per byte).
pub open spec fn totp_url_bound(secret: Seq<u8>, issuer: Seq<char>, account_name: Seq<char>) -> nat {
    32 + 6 * encode_utf8(issuer).len() + 3 * encode_utf8(account_name).len() + (8 * secret.len() + 4) / 5
}

impl LabelledTotp {
    /// The validator is one `totp-rs` builds.
    pub open spec fn wf(&self) -> bool {
        totp_buildable(self.secret@, self.issuer@, self.account_name@)
    }
}

/// A fresh 160-bit secret, by `totp_rs::Secret::generate` (20 CSPRNG bytes).
#[verifier::external_body]
pub fn generate_secret_bytes() -> (r: Vec<u8>)
    ensures
        r@.len() == 20,
{
    totp_rs::Secret::generate().as_bytes().to_vec()
}

/// A secret as its canonical base32 text (for manual entry), by
/// `totp_rs::Secret::to_base32`: unpadded RFC 4648, eight characters per five bytes.
#[verifier::external_body]
pub fn secret_base32(secret: &[u8]) -> (r: String)
    ensures
        r@ == spec_secret_base32(secret@),
        r@.len() == (8 * secret@.len() + 4) / 5,
{
    totp_rs::Secret::from(secret.to_vec()).to_base32()
}

/// Whether `totp_rs::Builder::build` accepts a secret, issuer and account
/// name: it refuses secrets under 16 bytes and an issuer or account name that
/// holds `:` (six digits, SHA-1 and thirty-second steps are always accepted).
#[verifier::external_body]
fn totp_builder_accepts(secret: &[u8], issuer: &str, account_name: &str) -> (r: bool)
    ensures
        r == totp_buildable(secret@, issuer@, account_name@),
{
    totp_rs::Builder::new()
        .with_secret(secret.to_vec())
        .with_issuer(Some(issuer))
        .with_account_name(account_name)
        .build()
        .is_ok()
}

/// The provisioning URI of a labelled TOTP, by `totp_rs::Totp::to_url`: it is
/// written exactly when the account name is non-empty (and the validator
/// builds), starts with `otpauth://totp/`, and is no longer than
/// [`totp_url_bound`] bytes.
#[verifier::external_body]
fn totp_to_url(secret: &[u8], issuer: &str, account_name: &str) -> (r: Option<String>)
    ensures
        r is Some <==> totp_url_writable(secret@, issuer@, account_name@),
        r matches Some(u) ==> u@ == spec_totp_url(secret@, issuer@, account_name@),
        r matches Some(u) ==> u@.subrange(0, 15) == "otpauth://totp/"@,
        r matches Some(u) ==> encode_utf8(u@).len() <= totp_url_bound(secret@, issuer@, account_name@),
{
    totp_rs::Builder::new()
        .with_secret(secret.to_vec())
        .with_issuer(Some(issuer))
        .with_account_name(account_name)
        .build()
        .ok()
        .and_then(|t| t.to_url().ok())
}

/// The base64 PNG QR code of a labelled TOTP, by `totp_rs::Totp::to_qr_base64`
/// (`qrcodegen` at medium error correction, drawn to PNG): drawn only where
/// the URI is written, and always where that URI is at most
/// [`MAX_QR_TEXT_BYTES`] bytes, the capacity of the largest QR version.
#[verifier::external_body]
fn totp_to_qr(secret: &[u8], issuer: &str, account_name: &str) -> (r: Option<String>)
    ensures
        r is Some ==> totp_url_writable(secret@, issuer@, account_name@),
        totp_url_writable(secret@, issuer@, account_name@) && encode_utf8(
            spec_totp_url(secret@, issuer@, account_name@),
        ).len() <= MAX_QR_TEXT_BYTES ==> r is Some,
        r matches Some(q) ==> q@ == spec_totp_qr(secret@, issuer@, account_name@),
        r matches Some(q) ==> q@.len() > 0,
{
    totp_rs::Builder::new()
        .with_secret(secret.to_vec())
        .with_issuer(Some(issuer))
        .with_account_name(account_name)
        .build()
        .ok()
        .and_then(|t| t.to_qr_base64().ok())
}

/// Check a code against a secret at a unix time, by `totp_rs::Builder::build`
/// (default SHA-1, six digits, thirty-second steps, one step of skew) and
/// `totp_rs::Totp::check`; a secret too short to build a validator accepts
/// no code.
#[verifier::external_body]
fn totp_check_at(secret: &[u8], code: &str, time: u64) -> (r: bool)
    requires
        time <= MAX_TOTP_TIME,
    ensures
        r == spec_totp_check(secret@, code@, time),
        secret@.len() < MIN_SECRET_BYTES ==> !r,
{
    match totp_rs::Builder::new().with_secret(secret.to_vec()).build() {
        Ok(totp) => totp.check(code, time).is_some(),
        Err(_) => false,
    }
}

/// The unix time a code is checked at for an instant (negative instants
/// read as the epoch).
pub open spec fn totp_time(now: Timestamp) -> u64 {
    unix_secs_of(now.0 as int) as u64
}

/// Whether a secret accepts a code at an instant.
pub open spec fn code_accepted(secret: Seq<u8>, code: Seq<char>, now: Timestamp) -> bool {
    spec_totp_check(secret, code, totp_time(now))
}

/// Check a submitted code against a secret at an instant (the current step,
/// the one before or the one after).
pub fn check_code_at(secret: &[u8], code: &str, now: Timestamp) -> (r: bool)
    ensures
        r == code_accepted(secret@, code@, now),
        secret@.len() < MIN_SECRET_BYTES ==> !r,
{
    let t = to_unix(now);
    assert(t <= MAX_TOTP_TIME) by {
        assert(unix_secs_of(now.0 as int) <= 0x7FFF_FFFF_FFFF_FFFFint / 1_000_000int);
    }
    totp_check_at(secret, code, t)
}

/// Check a submitted code against a secret at the current system time. The
/// answer is the check at some instant, so it depends on the clock; a secret
/// too short to build a validator never accepts a code.
pub fn verify_totp(secret: &[u8], code: &str) -> (r: bool)
    ensures
        exists|now: Timestamp| r == code_accepted(secret@, code@, now),
        secret@.len() < MIN_SECRET_BYTES ==> !r,
{
    let now = now_primitive();
    check_code_at(secret, code, now)
}

/// Build a labelled TOTP (issuer [`TOTP_ISSUER`], the given account name) for
/// provisioning; a secret or name the builder refuses is an internal error.
pub fn build_totp(secret: &[u8], account_name: &str) -> (r: Result<LabelledTotp, ServiceError>)
    ensures
        r is Ok <==> totp_buildable(secret@, TOTP_ISSUER@, account_name@),
        r matches Ok(t) ==> t.secret@ == secret@ && t.issuer@ == TOTP_ISSUER@ && t.account_name@ == account_name@,
        r matches Err(e) ==> e is BusinessPanic,
{
    if totp_builder_accepts(secret, TOTP_ISSUER, account_name) {
        let mut owned: Vec<u8> = Vec::new();
        let mut i: usize = 0;
        while i < secret.len()
            invariant
                i <= secret@.len(),
                owned@ == secret@.subrange(0, i as int),
            decreases secret@.len() - i,
        {
            owned.push(secret[i]);
            i = i + 1;
        }
        assert(owned@ =~= secret@);
        Ok(LabelledTotp {
            secret: owned,
            issuer: String::from_str(TOTP_ISSUER),
            account_name: String::from_str(account_name),
        })
    } else {
        Err(ServiceError::BusinessPanic(String::from_str("totp build")))
    }
}

/// The `otpauth://` provisioning URI of a labelled TOTP; an empty account
/// name has none, which is an internal error.
pub fn otpauth_uri(totp: &LabelledTotp) -> (r: Result<String, ServiceError>)
    requires
        totp.wf(),
    ensures
        r is Ok <==> totp.account_name@.len() > 0,
        r matches Ok(u) ==> u@ == spec_totp_url(totp.secret@, totp.issuer@, totp.account_name@),
        r matches Ok(u) ==> u@.subrange(0, 15) == "otpauth://totp/"@,
        r matches Ok(u) ==> encode_utf8(u@).len() <= totp_url_bound(totp.secret@, totp.issuer@, totp.account_name@),
        r matches Err(e) ==> e is BusinessPanic,
{
    match totp_to_url(totp.secret.as_slice(), totp.issuer.as_str(), totp.account_name.as_str()) {
        Some(u) => Ok(u),
        None => Err(ServiceError::BusinessPanic(String::from_str("totp url"))),
    }
}

/// A base64-encoded PNG QR code of a labelled TOTP; failure to draw it (a
/// URI too long for a QR code) is an internal error.
pub fn qr_png_base64(totp: &LabelledTotp) -> (r: Result<String, ServiceError>)
    requires
        totp.wf(),
    ensures
        r is Ok ==> totp.account_name@.len() > 0,
        totp.account_name@.len() > 0 && encode_utf8(spec_totp_url(totp.secret@, totp.issuer@, totp.account_name@)).len()
            <= MAX_QR_TEXT_BYTES ==> r is Ok,
        r matches Ok(q) ==> q@ == spec_totp_qr(totp.secret@, totp.issuer@, totp.account_name@),
        r matches Ok(q) ==> q@.len() > 0,
        r matches Err(e) ==> e is BusinessPanic,
{
    match totp_to_qr(totp.secret.as_slice(), totp.issuer.as_str(), totp.account_name.as_str()) {
        Some(q) => Ok(q),
        None => Err(ServiceError::BusinessPanic(String::from_str("totp qr"))),
    }
}

/// Whether a recovery code is well formed: 16 base32 characters.
pub open spec fn recovery_code_shape(code: Seq<char>) -> bool {
    &&& code.len() == 16
    &&& forall|i: int| 0 <= i < code.len() ==> is_base32_char(#[trigger] code[i])
}

/// Whether a text is a minted recovery code: the base32 of ten bytes.
pub open spec fn is_minted_recovery_code(code: Seq<char>) -> bool {
    &&& recovery_code_shape(code)
    &&& exists|bytes: Seq<u8>| bytes.len() == RECOVERY_CODE_BYTES && code == spec_base32(bytes)
}

/// Mint the one-time recovery codes: ten codes, each the base32 of ten CSPRNG
/// bytes (16 uppercase base32 characters).
pub fn generate_recovery_codes() -> (r: Vec<String>)
    ensures
        r@.len() == RECOVERY_CODE_COUNT,
        forall|i: int| 0 <= i < r@.len() ==> is_minted_recovery_code(#[trigger] r@[i]@),
{
    let mut codes: Vec<String> = Vec::new();
    let mut k: usize = 0;
    while k < RECOVERY_CODE_COUNT
        invariant
            k <= RECOVERY_CODE_COUNT,
            codes@.len() == k,
            forall|i: int| 0 <= i < codes@.len() ==> is_minted_recovery_code(#[trigger] codes@[i]@),
        decreases RECOVERY_CODE_COUNT - k,
    {
        let bytes: [u8; 10] = random_bytes();
        let code = base32_encode(&bytes);
        assert((8 * 10nat + 4) / 5 == 16nat);
        assert(is_minted_recovery_code(code@)) by {
            assert(bytes@.len() == RECOVERY_CODE_BYTES && code@ == spec_base32(bytes@));
        }
        codes.push(code);
        k = k + 1;
    }
    codes
}

/// Canonical form of a recovery code: whitespace and `-` separators dropped,
/// every other character replaced by its uppercase mapping.
pub open spec fn normalized_code(s: Seq<char>) -> Seq<char>
    decreases s.len(),
{
    if s.len() == 0 {
        Seq::empty()
    } else {
        let c = s.last();
        normalized_code(s.drop_last()) + if spec_is_whitespace(c) || c == '-' {
            Seq::empty()
        } else {
            spec_to_uppercase(c)
        }
    }
}

/// Canonical form of an ASCII recovery code: whitespace and `-` dropped,
/// `a`-`z` uppercased (what [`normalized_code`] is on ASCII text).
pub open spec fn ascii_normalized(s: Seq<char>) -> Seq<char>
    decreases s.len(),
{
    if s.len() == 0 {
        Seq::empty()
    } else {
        let c = s.last();
        ascii_normalized(s.drop_last()) + if spec_is_whitespace(c) || c == '-' {
            Seq::empty()
        } else {
            seq![ascii_upper(c)]
        }
    }
}

/// Canonicalize a recovery code for hashing and comparison: uppercase, with
/// whitespace and `-` separators stripped.
pub fn normalize_recovery_code(code: &str) -> (r: String)
    ensures
        r@ == normalized_code(code@),
        is_ascii_chars(code@) ==> r@ == ascii_normalized(code@),
{
    let n = code.unicode_len();
    let mut out = String::new();
    let mut i: usize = 0;
    while i < n
        invariant
            n == code@.len(),
            i <= n,
            out@ == normalized_code(code@.subrange(0, i as int)),
            is_ascii_chars(code@) ==> out@ == ascii_normalized(code@.subrange(0, i as int)),
        decreases n - i,
    {
        let c = code.get_char(i);
        proof {
            assert(code@.subrange(0, i + 1).drop_last() =~= code@.subrange(0, i as int));
            assert(code@.subrange(0, i + 1).last() == c);
        }
        if !char_is_whitespace(c) && c != '-' {
            let up = char_to_uppercase(c);
            out = out.concat(up.as_str());
        } else {
            assert(out@ + Seq::<char>::empty() =~= out@);
        }
        i = i + 1;
    }
    assert(code@.subrange(0, n as int) =~= code@);
    out
}

/// The stored hash of a recovery code: SHA-256 of its canonical form.
pub open spec fn recovery_code_hash_of(code: Seq<char>) -> Seq<u8> {
    spec_sha256(vstd::utf8::encode_utf8(normalized_code(code)))
}

/// SHA-256 of a normalized recovery code (32 raw bytes).
pub fn hash_recovery_code(code: &str) -> (r: Vec<u8>)
    ensures
        r@ == recovery_code_hash_of(code@),
        is_ascii_chars(code@) ==> r@ == spec_sha256(encode_utf8(ascii_normalized(code@))),
        r@.len() == 32,
{
    let normal = normalize_recovery_code(code);
    sha256(normal.as_str().as_bytes())
}

/// Normalization distributes over concatenation.
pub proof fn lemma_normalized_concat(a: Seq<char>, b: Seq<char>)
    ensures
        normalized_code(a + b) == normalized_code(a) + normalized_code(b),
    decreases b.len(),
{
    if b.len() == 0 {
        assert(a + b =~= a);
        assert(normalized_code(a) + normalized_code(b) =~= normalized_code(a));
    } else {
        lemma_normalized_concat(a, b.drop_last());
        assert((a + b).drop_last() =~= a + b.drop_last());
        assert((a + b).last() == b.last());
        let tail = if spec_is_whitespace(b.last()) || b.last() == '-' {
            Seq::<char>::empty()
        } else {
            spec_to_uppercase(b.last())
        };
        assert(normalized_code(a) + normalized_code(b.drop_last()) + tail =~= normalized_code(a) + (
        normalized_code(b.drop_last()) + tail));
    }
}

/// A `-` separator anywhere in a recovery code does not change its canonical
/// form, hence not its hash either.
pub proof fn lemma_dash_separator_ignored(a: Seq<char>, b: Seq<char>)
    ensures
        normalized_code(a + seq!['-'] + b) == normalized_code(a + b),
        recovery_code_hash_of(a + seq!['-'] + b) == recovery_code_hash_of(a + b),
{
    lemma_normalized_concat(a, seq!['-']);
    lemma_normalized_concat(a + seq!['-'], b);
    lemma_normalized_concat(a, b);
    assert(seq!['-'].drop_last() =~= Seq::<char>::empty());
    assert(seq!['-'].last() == '-');
    assert(normalized_code(Seq::<char>::empty()) =~= Seq::<char>::empty());
    assert(normalized_code(seq!['-']) =~= Seq::<char>::empty());
    assert(normalized_code(a) + Seq::<char>::empty() =~= normalized_code(a));
}

proof fn lemma_ascii_normalized_concat(a: Seq<char>, b: Seq<char>)
    ensures
        ascii_normalized(a + b) == ascii_normalized(a) + ascii_normalized(b),
    decreases b.len(),
{
    if b.len() == 0 {
        assert(a + b =~= a);
        assert(ascii_normalized(a) + ascii_normalized(b) =~= ascii_normalized(a));
    } else {
        lemma_ascii_normalized_concat(a, b.drop_last());
        assert((a + b).drop_last() =~= a + b.drop_last());
        assert((a + b).last() == b.last());
        let tail = if spec_is_whitespace(b.last()) || b.last() == '-' {
            Seq::<char>::empty()
        } else {
            seq![ascii_upper(b.last())]
        };
        assert(ascii_normalized(a) + ascii_normalized(b.drop_last()) + tail =~= ascii_normalized(a) + (
        ascii_normalized(b.drop_last()) + tail));
    }
}

/// Normalizing an ASCII recovery code twice gives what normalizing it once
/// gives (and the canonical form is ASCII, without white space or `-`), so a
/// canonical code hashes as the code it came from; every minted code is ASCII.
pub proof fn lemma_ascii_normalization_idempotent(s: Seq<char>)
    requires
        is_ascii_chars(s),
    ensures
        is_ascii_chars(ascii_normalized(s)),
        forall|i: int|
            0 <= i < ascii_normalized(s).len() ==> !spec_is_whitespace(#[trigger] ascii_normalized(s)[i])
                && ascii_normalized(s)[i] != '-',
        ascii_normalized(ascii_normalized(s)) == ascii_normalized(s),
        spec_sha256(encode_utf8(ascii_normalized(ascii_normalized(s)))) == spec_sha256(
            encode_utf8(ascii_normalized(s)),
        ),
    decreases s.len(),
{
    if s.len() > 0 {
        let init = s.drop_last();
        let c = s.last();
        assert(is_ascii_chars(init));
        lemma_ascii_normalization_idempotent(init);
        let head = ascii_normalized(init);
        if spec_is_whitespace(c) || c == '-' {
            assert(head + Seq::<char>::empty() =~= head);
        } else {
            let u = ascii_upper(c);
            assert('\0' <= c <= '\u{7f}');
            assert(u <= '\u{7f}' && !spec_is_whitespace(u) && u != '-' && ascii_upper(u) == u) by {
                if 'a' <= c <= 'z' {
                    assert(65 <= (c as u32) - 32 <= 90);
                }
            }
            let tail = seq![u];
            assert(tail.drop_last() =~= Seq::<char>::empty());
            assert(ascii_normalized(Seq::<char>::empty()) =~= Seq::<char>::empty());
            assert(ascii_normalized(tail) =~= tail);
            lemma_ascii_normalized_concat(head, tail);
            assert forall|i: int| 0 <= i < (head + tail).len() implies '\0' <= #[trigger] (head + tail)[i] <= '\u{7f}'
                && !spec_is_whitespace((head + tail)[i]) && (head + tail)[i] != '-' by {
                if i < head.len() {
                    assert((head + tail)[i] == head[i]);
                } else {
                    assert((head + tail)[i] == u);
                }
            }
        }
    }
}

} // verus!
