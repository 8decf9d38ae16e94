use auth::datetime::Timestamp;
use auth::totp::check_code_at;
use auth::totp::{
    build_totp, generate_recovery_codes, generate_secret_bytes, hash_recovery_code,
    normalize_recovery_code, otpauth_uri, qr_png_base64, secret_base32, verify_totp,
};
use auth::api_key::{hash_api_key, to_hex_lower};

#[test]
fn recovery_codes_normalize() {
    assert_eq!(normalize_recovery_code("abcd-efgh ijkl"), "ABCDEFGHIJKL");
    assert_eq!(normalize_recovery_code("  a\tb\n-c-"), "ABC");
    assert_eq!(normalize_recovery_code(""), "");
    assert_eq!(normalize_recovery_code("straße"), "STRASSE");
}

#[test]
fn dash_separators_do_not_change_the_hash() {
    assert_eq!(hash_recovery_code("ABCD-EFGH"), hash_recovery_code("abcdefgh"));
    assert_eq!(to_hex_lower(&hash_recovery_code("ab cd-ef gh")), hash_api_key("ABCDEFGH"));
    assert_eq!(hash_recovery_code("x").len(), 32);
}

#[test]
fn recovery_codes_are_ten_base32_codes() {
    let codes = generate_recovery_codes();
    assert_eq!(codes.len(), 10);
    for c in &codes {
        assert_eq!(c.len(), 16);
        assert!(c.chars().all(|ch| ch.is_ascii_uppercase() || ('2'..='7').contains(&ch)));
        assert_eq!(&normalize_recovery_code(c), c);
    }
}

#[test]
fn secrets_and_their_base32() {
    let s = generate_secret_bytes();
    assert_eq!(s.len(), 20);
    assert_eq!(secret_base32(&s).len(), 32);
    assert_eq!(secret_base32(&[0u8; 5]), "AAAAAAAA");
}

#[test]
fn build_totp_refuses_short_secrets_and_colons() {
    assert!(build_totp(&[1u8; 15], "a@b.c").is_err());
    assert!(build_totp(&[1u8; 16], "a:b").is_err());
    let t = build_totp(&[1u8; 20], "user@example.com").expect("builds");
    assert_eq!(t.account_name, "user@example.com");
    let uri = otpauth_uri(&t).expect("uri");
    assert!(uri.starts_with("otpauth://totp/Airi:user%40example.com?"), "{uri}");
    assert!(uri.contains("issuer=Airi"));
    assert!(!qr_png_base64(&t).expect("qr").is_empty());
}

#[test]
fn totp_uri_needs_an_account_name() {
    let t = build_totp(&[1u8; 20], "").expect("builds without a name");
    assert!(otpauth_uri(&t).is_err());
    assert!(qr_png_base64(&t).is_err());
}

#[test]
fn totp_codes_verify_against_their_secret() {
    let secret = vec![7u8; 20];
    let code = totp_rs::Builder::new()
        .with_secret(secret.clone())
        .build()
        .expect("totp")
        .generate_current()
        .to_string();
    assert!(verify_totp(&secret, &code));
    assert!(!verify_totp(&secret, "not-a-code"));
    assert!(!verify_totp(&[7u8; 10], &code));
}

#[test]
fn codes_are_checked_at_the_given_instant() {
    let secret = [3u8; 20];
    let totp = totp_rs::Builder::new().with_secret(secret.to_vec()).build().expect("totp");
    let at = 1_650_000_000u64;
    let now = Timestamp(at as i64 * 1_000_000);
    assert!(check_code_at(&secret, &totp.generate(at).to_string(), now));
    assert!(check_code_at(&secret, &totp.generate(at + 30).to_string(), now));
    assert!(!check_code_at(&secret, &totp.generate(at + 90).to_string(), now));
    assert!(!check_code_at(&[3u8; 12], &totp.generate(at).to_string(), now));
}

#[test]
fn labelled_totp_carries_its_issuer() {
    let t = build_totp(&[1u8; 20], "a@b.c").expect("builds");
    assert_eq!(t.issuer, "Airi");
}

#[test]
fn canonical_code_hashes_like_its_source() {
    let code = " ab3d-ef7h\tk2mn ";
    let canonical = normalize_recovery_code(code);
    assert_eq!(canonical, "AB3DEF7HK2MN");
    assert_eq!(normalize_recovery_code(&canonical), canonical);
    assert_eq!(hash_recovery_code(&canonical), hash_recovery_code(code));
}

#[test]
fn unicode_white_space_is_stripped() {
    assert_eq!(normalize_recovery_code("ab\u{00a0}cd\u{3000}ef\u{2009}"), "ABCDEF");
}
