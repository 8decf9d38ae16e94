use auth::api_key::{
    api_key_from_header, check_api_key, generate_api_key, hash_api_key, plan_api_key, to_hex_lower,
    CreateApiKey, FindApiKeyByHash,
};
use auth::datetime::Timestamp;
use auth::model::{AccountId, ApiKey, UserApiKeyEntity};

fn row(valid_until: Option<Timestamp>) -> UserApiKeyEntity {
    UserApiKeyEntity {
        id: 1,
        user: AccountId(42),
        key: ApiKey("hash".to_string()),
        remark: "r".to_string(),
        created_at: Timestamp(0),
        valid_until,
        scopes: vec!["read".to_string()],
    }
}

#[test]
fn hash_api_key_is_hex_sha256() {
    assert_eq!(
        hash_api_key("abc"),
        "ba7816bf8f01cfea414140de5dae2223b00361a396177a9cb410ff61f20015ad"
    );
    assert_eq!(
        hash_api_key(""),
        "e3b0c44298fc1c149afbf4c8996fb92427ae41e4649b934ca495991b7852b855"
    );
    assert_eq!(hash_api_key("airi_x").len(), 64);
}

#[test]
fn hex_encoding_is_lowercase_high_nibble_first() {
    assert_eq!(to_hex_lower(&[0x00, 0x0f, 0xa0, 0xff]), "000fa0ff");
    assert_eq!(to_hex_lower(&[]), "");
}

#[test]
fn generated_api_keys_have_prefix_and_base32_body() {
    let k = generate_api_key();
    assert_eq!(k.len(), 57);
    assert!(k.starts_with("airi_"));
    assert!(k[5..].chars().all(|c| c.is_ascii_uppercase() || ('2'..='7').contains(&c)));
    assert_ne!(generate_api_key(), k);
}

#[test]
fn created_key_is_found_by_its_hash() {
    let (plaintext, new_row) = plan_api_key(CreateApiKey {
        user_id: AccountId(9),
        remark: "portal".to_string(),
        valid_until: None,
        scopes: vec![],
    });
    let lookup = FindApiKeyByHash::for_key(&ApiKey(plaintext.clone()));
    assert_eq!(lookup.key_hash, new_row.key_hash);
    assert_eq!(new_row.key_hash, hash_api_key(&plaintext));
    assert_eq!(new_row.user_id, AccountId(9));
    assert_eq!(new_row.remark, "portal");
}

#[test]
fn api_key_header_must_be_non_empty() {
    assert!(api_key_from_header(None).is_none());
    assert!(api_key_from_header(Some("")).is_none());
    assert_eq!(api_key_from_header(Some("k")).map(|k| k.0), Some("k".to_string()));
}

#[test]
fn api_key_check_outcomes() {
    assert!(check_api_key(None, Timestamp(0)).is_none());
    let ok = check_api_key(Some(row(None)), Timestamp(5)).expect("valid key");
    assert_eq!(ok.user, AccountId(42));
    assert_eq!(ok.scopes, vec!["read".to_string()]);
    assert!(check_api_key(Some(row(Some(Timestamp(10)))), Timestamp(9)).is_some());
    assert!(check_api_key(Some(row(Some(Timestamp(10)))), Timestamp(10)).is_none());
}
