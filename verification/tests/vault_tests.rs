use safe_surf_core::config::CryptoConfig;
use safe_surf_core::crypto::CryptoError;
use safe_surf_core::vault::{SecureVault, Vault, VaultError, VaultSecret};
use serde_json::Value;

fn vault_to_json(v: &Vault) -> Vec<u8> {
    let mut secrets = serde_json::Map::new();
    for k in v.keys() {
        let s = v.get_secret(k).unwrap();
        let mut o = serde_json::Map::new();
        o.insert("label".to_string(), Value::String(s.label.clone()));
        o.insert("username".to_string(), Value::String(s.username.clone()));
        o.insert("secret".to_string(), Value::String(s.secret.clone()));
        secrets.insert(k.clone(), Value::Object(o));
    }
    let mut root = serde_json::Map::new();
    root.insert("secrets".to_string(), Value::Object(secrets));
    root.insert(
        "local_salt".to_string(),
        Value::Array(v.local_salt().iter().map(|b| Value::from(*b)).collect()),
    );
    serde_json::to_vec(&Value::Object(root)).unwrap()
}

fn vault_from_json(bytes: &[u8]) -> Vault {
    let root: Value = serde_json::from_slice(bytes).unwrap();
    let mut v = Vault::new();
    let mut salt = [0u8; 16];
    for (i, b) in root["local_salt"].as_array().unwrap().iter().enumerate() {
        salt[i] = b.as_u64().unwrap() as u8;
    }
    v.set_local_salt(salt);
    for (k, s) in root["secrets"].as_object().unwrap() {
        v.insert_secret(
            k.clone(),
            VaultSecret {
                label: s["label"].as_str().unwrap().to_string(),
                username: s["username"].as_str().unwrap().to_string(),
                secret: s["secret"].as_str().unwrap().to_string(),
            },
        );
    }
    v
}

fn small_config() -> CryptoConfig {
    CryptoConfig {
        argon2_m_cost: 64,
        argon2_t_cost: 1,
        argon2_p_cost: 1,
        session_rotation_bytes: 0,
        session_rotation_seconds: 0,
    }
}

#[test]
fn test_vault_seal_unseal() {
    let passphrase = b"correct horse battery staple";
    let salt = b"stable-salt-1234";
    let config = CryptoConfig::default();
    let sv = SecureVault::derive_from_passphrase(passphrase, salt, config).unwrap();

    let mut v = Vault::default();
    v.set_local_salt([1u8; 16]);
    v.insert_secret(
        "test".to_string(),
        VaultSecret { label: "Test".to_string(), username: "admin".to_string(), secret: "password123".to_string() },
    );

    let (ct, nonce) = sv.seal(&vault_to_json(&v)).unwrap();
    let unsealed = vault_from_json(&sv.unseal(&ct, &nonce).unwrap());

    assert_eq!(unsealed.get_secret("test").unwrap().secret, "password123");

    let indicator = sv.generate_indicator(&unsealed, "test").unwrap();
    assert!(indicator.len() == 32);
}

#[test]
fn indicator_is_sha256_of_salt_username_secret() {
    let sv = SecureVault::derive_from_passphrase(b"pw", b"salt-salt-salt-1", small_config()).unwrap();
    let mut v = Vault::new();
    v.set_local_salt([1u8; 16]);
    v.insert_secret(
        "test".to_string(),
        VaultSecret { label: "Test".to_string(), username: "admin".to_string(), secret: "password123".to_string() },
    );
    assert_eq!(
        sv.generate_indicator(&v, "test").unwrap(),
        [
            202, 230, 71, 119, 103, 174, 54, 77, 56, 113, 196, 56, 24, 163, 18, 231, 28, 252, 55, 226, 158, 217, 4,
            59, 171, 36, 119, 196, 53, 224, 210, 82
        ]
    );
    assert_eq!(sv.generate_indicator(&v, "missing"), None);
}

#[test]
fn salt_is_truncated_or_zero_padded_to_16_bytes() {
    let k = |salt: &[u8]| {
        let sv = SecureVault::derive_from_passphrase(b"pw", salt, small_config()).unwrap();
        let (c, n) = sv.seal(b"probe").unwrap();
        (sv, c, n)
    };
    let (short, c, n) = k(b"short-salt");
    let (padded, _, _) = k(b"short-salt\0\0\0\0\0\0");
    assert_eq!(padded.unseal(&c, &n).unwrap(), b"probe");
    let (long, c2, n2) = k(b"0123456789abcdefEXTRA");
    let (cut, _, _) = k(b"0123456789abcdef");
    assert_eq!(cut.unseal(&c2, &n2).unwrap(), b"probe");
    assert_eq!(short.unseal(&c2, &n2), Err(VaultError::Crypto(CryptoError::DecryptionFailed)));
    let _ = long;
}

#[test]
fn wrong_passphrase_cannot_unseal() {
    let a = SecureVault::derive_from_passphrase(b"right", b"salt-salt-salt-1", small_config()).unwrap();
    let b = SecureVault::derive_from_passphrase(b"wrong", b"salt-salt-salt-1", small_config()).unwrap();
    let (c, n) = a.seal(b"{}").unwrap();
    assert_eq!(a.unseal(&c, &n).unwrap(), b"{}");
    assert_eq!(b.unseal(&c, &n), Err(VaultError::Crypto(CryptoError::DecryptionFailed)));
    assert_eq!(a.config().argon2_m_cost, 64);
}

#[test]
fn sealing_with_a_given_nonce_is_deterministic() {
    let sv = SecureVault::derive_from_passphrase(b"pw", b"salt-salt-salt-1", small_config()).unwrap();
    let c1 = sv.seal_with_nonce(b"data", &[3u8; 24]).unwrap();
    let c2 = sv.seal_with_nonce(b"data", &[3u8; 24]).unwrap();
    assert_eq!(c1, c2);
    assert_ne!(&c1[..4], b"data");
    assert_eq!(c1.len(), 4 + 16);
    assert_eq!(sv.unseal(&c1, &[3u8; 24]).unwrap(), b"data");
}

#[test]
fn vault_keys_follow_first_insertion() {
    let mut v = Vault::new();
    let sec = |s: &str| VaultSecret { label: s.to_string(), username: s.to_string(), secret: s.to_string() };
    v.insert_secret("b".to_string(), sec("1"));
    v.insert_secret("a".to_string(), sec("2"));
    v.insert_secret("b".to_string(), sec("3"));
    assert_eq!(v.keys(), &vec!["b".to_string(), "a".to_string()]);
    assert_eq!(v.get_secret("b").unwrap().secret, "3");
    assert!(v.get_secret("c").is_none());
}

#[test]
fn vault_key_is_argon2id_of_passphrase_and_salt() {
    // Argon2id v0x13, m = 64 KiB, t = 1, p = 1, 32-byte output.
    let expected_key: [u8; 32] = [
        191, 42, 182, 182, 175, 55, 69, 231, 57, 109, 202, 207, 182, 141, 156, 124, 118, 93, 179, 13, 251, 104, 19,
        138, 156, 45, 31, 55, 233, 150, 39, 98,
    ];
    let sv = SecureVault::derive_from_passphrase(b"pw", b"salt-salt-salt-1", small_config()).unwrap();
    let sealed = sv.seal_with_nonce(b"vault bytes", &[8u8; 24]).unwrap();
    assert_eq!(sealed, safe_surf_core::crypto::encrypt(&expected_key, &[8u8; 24], b"vault bytes").unwrap());

    // m = 64 KiB, t = 2, p = 2.
    let expected_key: [u8; 32] = [
        89, 251, 44, 57, 209, 137, 161, 133, 28, 56, 104, 236, 240, 241, 107, 13, 149, 223, 217, 195, 229, 130, 44,
        56, 150, 3, 159, 74, 252, 94, 214, 7,
    ];
    let config = CryptoConfig { argon2_m_cost: 64, argon2_t_cost: 2, argon2_p_cost: 2, ..small_config() };
    let sv = SecureVault::derive_from_passphrase(b"correct horse battery staple", b"stable-salt-1234", config).unwrap();
    let sealed = sv.seal_with_nonce(b"x", &[0u8; 24]).unwrap();
    assert_eq!(sealed, safe_surf_core::crypto::encrypt(&expected_key, &[0u8; 24], b"x").unwrap());
}

#[test]
fn argon2_costs_that_argon2_refuses_give_kdf_failed() {
    let base = CryptoConfig::default();
    let bad = [
        CryptoConfig { argon2_t_cost: 0, ..base.clone() },
        CryptoConfig { argon2_p_cost: 0, ..base.clone() },
        CryptoConfig { argon2_m_cost: 7, argon2_p_cost: 1, ..base.clone() },
        CryptoConfig { argon2_m_cost: 31, argon2_p_cost: 4, ..base.clone() },
        CryptoConfig { argon2_m_cost: u32::MAX, argon2_p_cost: 0x1000000, ..base.clone() },
        CryptoConfig { argon2_m_cost: 64, argon2_p_cost: u32::MAX, ..base.clone() },
    ];
    for config in bad {
        assert!(matches!(
            SecureVault::derive_from_passphrase(b"pw", b"salt", config),
            Err(VaultError::KdfFailed)
        ));
    }
    let edge = CryptoConfig { argon2_m_cost: 32, argon2_t_cost: 1, argon2_p_cost: 4, ..base.clone() };
    assert!(SecureVault::derive_from_passphrase(b"pw", b"salt", edge).is_ok());
}
