use krypton::crypto::{cipher_from_password, Argon2IdDeriver, ChaCha20Cipher, Cipher, KeyDeriver};
use krypton::error::VaultError;
use krypton::models::{EntryId, EntrySummary};
use krypton::vault::{
    create_vault_keys, fts_query, hide_metadata, open_vault, summaries_from_rows, summary_from_row, tags_json,
    verify_plaintext_bytes,
};

#[test]
fn encrypt_then_decrypt_gives_plaintext() {
    let c = ChaCha20Cipher::new(&[7u8; 32]);
    let msg = b"the quick brown fox";
    let sealed = c.encrypt(msg).unwrap();
    assert_eq!(sealed.len(), 12 + msg.len() + 16);
    assert_eq!(c.decrypt(&sealed).unwrap(), msg.to_vec());
    assert_eq!(ChaCha20Cipher::new(&[7u8; 32]).decrypt(&sealed).unwrap(), msg.to_vec());
}

#[test]
fn empty_plaintext_round_trips() {
    let c = ChaCha20Cipher::new(&[1u8; 32]);
    let sealed = c.encrypt(b"").unwrap();
    assert_eq!(sealed.len(), 28);
    assert_eq!(c.decrypt(&sealed).unwrap(), Vec::<u8>::new());
}

#[test]
fn nonces_differ_between_encryptions() {
    let c = ChaCha20Cipher::new(&[2u8; 32]);
    let a = c.encrypt(b"same").unwrap();
    let b = c.encrypt(b"same").unwrap();
    assert_ne!(a[..12], b[..12]);
}

#[test]
fn short_ciphertext_is_rejected() {
    let c = ChaCha20Cipher::new(&[3u8; 32]);
    match c.decrypt(&[0u8; 11]) {
        Err(VaultError::Crypto(m)) => assert_eq!(m, "ciphertext too short"),
        other => panic!("unexpected {other:?}"),
    }
}

#[test]
fn tampered_ciphertext_is_rejected() {
    let c = ChaCha20Cipher::new(&[4u8; 32]);
    let mut sealed = c.encrypt(b"secret").unwrap();
    let last = sealed.len() - 1;
    sealed[last] ^= 1;
    match c.decrypt(&sealed) {
        Err(VaultError::Crypto(m)) => assert_eq!(m, "decryption failed"),
        other => panic!("unexpected {other:?}"),
    }
}

#[test]
fn other_key_cannot_decrypt() {
    let a = ChaCha20Cipher::new(&[5u8; 32]);
    let b = ChaCha20Cipher::new(&[6u8; 32]);
    let sealed = a.encrypt(b"secret").unwrap();
    assert!(b.decrypt(&sealed).is_err());
}

#[test]
fn derivation_is_deterministic_and_salted() {
    let d = Argon2IdDeriver::new();
    let salt = [9u8; 32];
    let k1 = d.derive_key(b"pw", &salt).unwrap();
    let k2 = d.derive_key(b"pw", &salt).unwrap();
    assert_eq!(k1, k2);
    let k3 = d.derive_key(b"pw", &[8u8; 32]).unwrap();
    assert_ne!(k1, k3);
    let k4 = d.derive_key(b"other", &salt).unwrap();
    assert_ne!(k1, k4);
}

#[test]
fn derivation_rejects_short_salt() {
    let d = Argon2IdDeriver::new();
    match d.derive_key(b"pw", &[0u8; 7]) {
        Err(VaultError::Crypto(m)) => assert!(m.starts_with("key derivation failed: ")),
        other => panic!("unexpected {other:?}"),
    }
    assert!(d.derive_key(b"pw", &[0u8; 8]).is_ok());
}

#[test]
fn salts_are_random() {
    let d = Argon2IdDeriver::new();
    assert_ne!(d.generate_salt(), d.generate_salt());
}

#[test]
fn cipher_from_same_password_decrypts() {
    let d = Argon2IdDeriver::new();
    let salt = [1u8; 32];
    let c1 = cipher_from_password(&d, b"master", &salt).unwrap();
    let c2 = cipher_from_password(&d, b"master", &salt).unwrap();
    let sealed = c1.encrypt(b"data").unwrap();
    assert_eq!(c2.decrypt(&sealed).unwrap(), b"data".to_vec());
}

#[test]
fn created_vault_opens_with_its_password() {
    let d = Argon2IdDeriver::new();
    let keys = create_vault_keys(&d, "correct horse").unwrap();
    assert_eq!(keys.cipher.decrypt(&keys.verify_blob).unwrap(), verify_plaintext_bytes());
    let c = open_vault(&d, "correct horse", &keys.salt, Some(&keys.verify_blob)).unwrap();
    let sealed = keys.cipher.encrypt(b"entry").unwrap();
    assert_eq!(c.decrypt(&sealed).unwrap(), b"entry".to_vec());
}

#[test]
fn wrong_password_is_refused() {
    let d = Argon2IdDeriver::new();
    let keys = create_vault_keys(&d, "correct horse").unwrap();
    assert!(matches!(
        open_vault(&d, "battery staple", &keys.salt, Some(&keys.verify_blob)),
        Err(VaultError::WrongPassword)
    ));
}

#[test]
fn unlock_checks_salt_and_verify_blob() {
    let d = Argon2IdDeriver::new();
    match open_vault(&d, "pw", &[0u8; 16], None) {
        Err(VaultError::Storage(m)) => assert_eq!(m, "salt is wrong length"),
        other => panic!("unexpected {:?}", other.err()),
    }
    match open_vault(&d, "pw", &[0u8; 32], None) {
        Err(VaultError::Storage(m)) => assert_eq!(m, "no verify blob in vault_meta"),
        other => panic!("unexpected {:?}", other.err()),
    }
    assert!(matches!(open_vault(&d, "pw", &[0u8; 32], Some(&[1u8; 40])), Err(VaultError::WrongPassword)));
}

#[test]
fn fts_queries() {
    assert_eq!(fts_query(""), None);
    assert_eq!(fts_query("   "), None);
    assert_eq!(fts_query("git"), Some("git*".to_string()));
    assert_eq!(fts_query("  git  hub "), Some("git* hub*".to_string()));
    assert_eq!(fts_query("say \"hi\""), Some("say* \"\"hi\"\"*".to_string()));
    assert_eq!(fts_query("a\tb\nc"), Some("a* b* c*".to_string()));
}

#[test]
fn tags_round_trip_through_json() {
    let tags = vec!["work".to_string(), "a \"quoted\" tag".to_string()];
    let json = tags_json(&tags);
    let s = summary_from_row("67e55044-10b1-426f-9247-bb680e5fe0c8", "t".into(), None, None, &json, 5).unwrap();
    assert_eq!(s.tags, tags);
    assert_eq!(s.id.to_text(), "67e55044-10b1-426f-9247-bb680e5fe0c8");
    assert_eq!(tags_json(&vec![]), "[]");
}

#[test]
fn bad_rows_are_storage_errors() {
    match summary_from_row("not-a-uuid", "t".into(), None, None, "[]", 0) {
        Err(VaultError::Storage(m)) => assert_eq!(m, "invalid uuid: not-a-uuid"),
        other => panic!("unexpected {:?}", other.err()),
    }
    match summary_from_row("not-a-uuid", "t".into(), None, None, "{", 0) {
        Err(VaultError::Storage(m)) => assert!(m.starts_with("tags deserialize: ")),
        other => panic!("unexpected {:?}", other.err()),
    }
}

#[test]
fn rows_read_back_in_order() {
    let good = |id: &str, t: &str| {
        (id.to_string(), t.to_string(), Some("u".to_string()), None, "[\"a\"]".to_string(), 4i64)
    };
    let rows = vec![
        good("00000000-0000-0000-0000-000000000001", "one"),
        good("00000000-0000-0000-0000-000000000002", "two"),
    ];
    let v = summaries_from_rows(&rows).unwrap();
    assert_eq!(v.len(), 2);
    assert_eq!(v[0].id, EntryId(1));
    assert_eq!(v[1].title, "two");
    assert_eq!(v[1].username.as_deref(), Some("u"));
    assert_eq!(v[1].tags, vec!["a".to_string()]);
    assert_eq!(v[1].updated_at, 4);
    let mut bad = rows.clone();
    bad.push(good("x", "three"));
    assert!(matches!(summaries_from_rows(&bad), Err(VaultError::Storage(_))));
    assert!(summaries_from_rows(&vec![]).unwrap().is_empty());
}

#[test]
fn hidden_metadata() {
    let s = EntrySummary {
        id: EntryId(3),
        title: "Bank".into(),
        username: Some("me".into()),
        url: Some("https://bank".into()),
        tags: vec!["money".into()],
        updated_at: 9,
    };
    let shown = hide_metadata(vec![s.clone()], false);
    assert_eq!(shown[0].title, "Bank");
    let hidden = hide_metadata(vec![s], true);
    assert_eq!(hidden[0].title, "[hidden]");
    assert_eq!(hidden[0].username, None);
    assert_eq!(hidden[0].url, None);
    assert_eq!(hidden[0].tags, vec!["money".to_string()]);
    assert_eq!(hidden[0].id, EntryId(3));
    assert_eq!(hidden[0].updated_at, 9);
}
