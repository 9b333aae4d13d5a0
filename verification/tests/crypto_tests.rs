use safe_surf_core::crypto::{decrypt, derive_session_key, encrypt, CryptoError, KeyPair};

#[test]
fn test_handshake_and_aead() {
    // Alice generates keypair
    let alice_kp = KeyPair::generate();
    // Bob generates keypair
    let bob_kp = KeyPair::generate();

    // Perform Diffie-Hellman
    let alice_shared = alice_kp.secret.diffie_hellman(&bob_kp.public);
    let bob_shared = bob_kp.secret.diffie_hellman(&alice_kp.public);

    assert_eq!(alice_shared.as_bytes(), bob_shared.as_bytes());

    // Derive keys
    let salt = b"test-salt";
    let alice_key = derive_session_key(alice_shared.as_bytes(), Some(salt));
    let bob_key = derive_session_key(bob_shared.as_bytes(), Some(salt));

    assert_eq!(alice_key, bob_key);

    // Encrypt/Decrypt
    let plaintext = b"Top secret message";
    let nonce = [0u8; 24];
    let ciphertext = encrypt(&alice_key, &nonce, plaintext).unwrap();
    let decrypted = decrypt(&bob_key, &nonce, &ciphertext).unwrap();

    assert_eq!(plaintext, &decrypted[..]);
}

#[test]
fn session_key_matches_hkdf_sha256_vector() {
    let shared: Vec<u8> = (0u8..32).collect();
    let key = derive_session_key(&shared, Some(b"test-salt"));
    assert_eq!(
        key,
        [
            15, 254, 166, 64, 50, 65, 144, 152, 164, 165, 147, 210, 31, 215, 106, 131, 10, 48, 21, 249,
            169, 94, 11, 205, 219, 45, 246, 171, 26, 93, 102, 113
        ]
    );
}

#[test]
fn session_key_without_salt_uses_zero_salt() {
    let expected = [
        167u8, 47, 70, 233, 248, 40, 97, 4, 193, 44, 248, 227, 156, 131, 224, 86, 1, 159, 7, 60, 103,
        208, 175, 215, 171, 179, 242, 115, 162, 96, 162, 57,
    ];
    assert_eq!(derive_session_key(&[0u8; 32], None), expected);
    assert_eq!(derive_session_key(&[0u8; 32], Some(&[0u8; 16])), expected);
    assert_eq!(derive_session_key(&[0u8; 32], Some(&[0u8; 32])), expected);
    assert_eq!(derive_session_key(b"secret", None), derive_session_key(b"secret", Some(&[0u8; 32])));
}

#[test]
fn encrypt_matches_xchacha20poly1305_vector() {
    let key: [u8; 32] = core::array::from_fn(|i| i as u8);
    let nonce: [u8; 24] = core::array::from_fn(|i| i as u8);
    let c = encrypt(&key, &nonce, b"hello").unwrap();
    assert_eq!(c, vec![246, 167, 99, 19, 255, 179, 45, 248, 208, 67, 232, 48, 39, 116, 63, 234, 166, 175, 70, 76, 226]);
    let c2 = encrypt(&[0u8; 32], &[0u8; 24], b"Top secret message").unwrap();
    assert_eq!(
        c2,
        vec![
            44, 241, 230, 169, 150, 69, 238, 13, 188, 149, 211, 168, 208, 71, 108, 41, 136, 125, 176, 137,
            79, 116, 202, 228, 58, 77, 251, 163, 221, 42, 110, 143, 136, 219
        ]
    );
}

#[test]
fn ciphertext_is_plaintext_plus_tag_and_round_trips() {
    let key = [7u8; 32];
    let nonce = [9u8; 24];
    for len in [0usize, 1, 15, 16, 64, 1000] {
        let p: Vec<u8> = (0..len).map(|i| (i * 31 % 251) as u8).collect();
        let c = encrypt(&key, &nonce, &p).unwrap();
        assert_eq!(c.len(), p.len() + 16);
        assert_eq!(decrypt(&key, &nonce, &c).unwrap(), p);
    }
}

#[test]
fn tampered_or_short_ciphertext_is_refused() {
    let key = [1u8; 32];
    let nonce = [2u8; 24];
    let mut c = encrypt(&key, &nonce, b"payload").unwrap();
    c[0] ^= 1;
    assert_eq!(decrypt(&key, &nonce, &c), Err(CryptoError::DecryptionFailed));
    assert_eq!(decrypt(&key, &nonce, &[0u8; 15]), Err(CryptoError::DecryptionFailed));
    let c = encrypt(&key, &nonce, b"payload").unwrap();
    assert_eq!(decrypt(&[3u8; 32], &nonce, &c), Err(CryptoError::DecryptionFailed));
    assert_eq!(decrypt(&key, &[4u8; 24], &c), Err(CryptoError::DecryptionFailed));
}

#[test]
fn generated_public_key_is_that_of_the_secret() {
    let kp = KeyPair::generate();
    assert_eq!(kp.public, x25519_dalek::PublicKey::from(&kp.secret));
    let other = KeyPair::generate();
    assert_ne!(kp.public, other.public);
}
