use vstd::prelude::*;
use vstd::hash_map::StringHashMap;
use vstd::utf8::{decode_utf8, encode_utf8};
use crate::config::{CryptoConfig, DEFAULT_ARGON2_M_COST, DEFAULT_ARGON2_P_COST, DEFAULT_ARGON2_T_COST};
use crate::crypto::{decrypt, encrypt, decrypt_outcome, result_bytes, xchacha20poly1305_seal, CryptoError, AEAD_MAX_PLAINTEXT_LEN, AEAD_TAG_LEN, zeroize_key};
use sha2::{Digest, Sha256};
use zeroize::Zeroize;

verus! {

/// `<String as zeroize::Zeroize>::zeroize`: overwrites the bytes with 0 and
/// leaves the string empty.
#[verifier::external_body]
fn zeroize_string(s: &mut String)
    ensures
        final(s)@ == Seq::<char>::empty(),
    opens_invariants none
    no_unwind
{
    s.zeroize();
}

/// The SHA-256 digest (FIPS 180-4) of `data`.
pub uninterp spec fn sha256(data: Seq<u8>) -> Seq<u8>;

/// `sha2::Sha256::digest`: the named digest of its input.
#[verifier::external_body]
fn sha256_digest(data: &[u8]) -> (d: [u8; 32])
    ensures
        d@ == sha256(data@),
{
    Sha256::digest(data).into()
}

/// The 32-byte Argon2id (version 0x13) hash of `password` under `salt`
/// with memory cost `m_cost` KiB, `t_cost` passes and `p_cost` lanes.
pub uninterp spec fn argon2id_hash32(password: Seq<u8>, salt: Seq<u8>, m_cost: u32, t_cost: u32, p_cost: u32) -> Seq<u8>;

/// The parameters `argon2::Params::new` accepts: at least 8 KiB per lane,
/// at least one pass, between 1 and 2^24 - 1 lanes.
pub open spec fn argon2_params_valid(m_cost: u32, t_cost: u32, p_cost: u32) -> bool {
    &&& 8 <= m_cost
    &&& 1 <= t_cost
    &&& 1 <= p_cost <= 0xFFFFFF
    &&& 8 * p_cost <= m_cost
}

/// Whether `argon2::Params::new` accepts these costs.
fn argon2_costs_valid(m_cost: u32, t_cost: u32, p_cost: u32) -> (b: bool)
    ensures
        b == argon2_params_valid(m_cost, t_cost, p_cost),
{
    8 <= m_cost && 1 <= t_cost && 1 <= p_cost && p_cost <= 0xFFFFFF && 8 * (p_cost as u64) <= m_cost as u64
}

/// Passphrases longer than this are refused by Argon2.
pub const ARGON2_MAX_PASSWORD_LEN: u64 = 0xFFFFFFFF;

/// `argon2::Params::new(m, t, p, None)` and `Argon2::new(Argon2id, V0x13,
/// params).hash_password_into(password, salt, &mut [0u8; 32])`. With valid
/// parameters, a 16-byte salt and a 32-byte output, the crate's source
/// fails only for passwords longer than 2^32 - 1 bytes; otherwise the key
/// is the named hash.
#[verifier::external_body]
fn argon2id_hash_into32(password: &[u8], salt: &[u8; 16], m_cost: u32, t_cost: u32, p_cost: u32) -> (r: Option<[u8; 32]>)
    requires
        argon2_params_valid(m_cost, t_cost, p_cost),
    ensures
        r is Some <==> password@.len() <= ARGON2_MAX_PASSWORD_LEN,
        r matches Some(k) ==> k@ == argon2id_hash32(password@, salt@, m_cost, t_cost, p_cost),
{
    let params = argon2::Params::new(m_cost, t_cost, p_cost, None).ok()?;
    let mut key = [0u8; 32];
    argon2::Argon2::new(argon2::Algorithm::Argon2id, argon2::Version::V0x13, params).hash_password_into(password, salt, &mut key).ok()?;
    Some(key)
}

/// 24 bytes from the operating system's random generator
/// (`rand_core::OsRng::fill_bytes`); nothing is claimed of them.
#[verifier::external_body]
fn os_random_nonce() -> (n: [u8; 24]) {
    let mut nonce = [0u8; 24];
    rand::RngCore::fill_bytes(&mut rand::rngs::OsRng, &mut nonce);
    nonce
}

proof fn lemma_push_contains(s: Seq<Seq<char>>, x: Seq<char>, k: Seq<char>)
    ensures
        s.push(x).contains(k) <==> (s.contains(k) || k == x),
{
    if s.contains(k) {
        let i = choose|i: int| 0 <= i < s.len() && s[i] == k;
        assert(s.push(x)[i] == k);
    }
    if k == x {
        assert(s.push(x)[s.len() as int] == k);
    }
    if s.push(x).contains(k) {
        let i = choose|i: int| 0 <= i < s.push(x).len() && s.push(x)[i] == k;
        if i < s.len() {
            assert(s[i] == k);
        }
    }
}

/// One stored credential; its strings are wiped when it is dropped.
pub struct VaultSecret {
    pub label: String,
    pub username: String,
    pub secret: String,
}

impl Drop for VaultSecret {
    /// Wipes the label, username and secret.
    fn drop(&mut self)
        ensures
            final(self).label@ == Seq::<char>::empty(),
            final(self).username@ == Seq::<char>::empty(),
            final(self).secret@ == Seq::<char>::empty(),
        opens_invariants none
        no_unwind
    {
        zeroize_string(&mut self.label);
        zeroize_string(&mut self.username);
        zeroize_string(&mut self.secret);
    }
}

/// The plaintext vault: credentials by key, and the salt of their blinded
/// indicators.
pub struct Vault {
    secrets: StringHashMap<VaultSecret>,
    keys: Vec<String>,
    local_salt: [u8; 16],
}

impl Vault {
    /// The credentials, by key.
    pub closed spec fn secrets_map(&self) -> Map<Seq<char>, VaultSecret> {
        self.secrets@
    }

    /// The keys of the credentials, in the order they were first inserted.
    pub closed spec fn key_list(&self) -> Seq<Seq<char>> {
        self.keys@.map_values(|k: String| k@)
    }

    /// The salt of the blinded indicators.
    pub closed spec fn salt(&self) -> Seq<u8> {
        self.local_salt@
    }

    /// The key list names every stored credential exactly once.
    pub open spec fn keys_cover_secrets(&self) -> bool {
        &&& forall|i: int, j: int|
            0 <= i < j < self.key_list().len() ==> #[trigger] self.key_list()[i] != #[trigger] self.key_list()[j]
        &&& forall|k: Seq<char>| self.secrets_map().contains_key(k) <==> self.key_list().contains(k)
    }

    /// Every vault's key list names its credentials exactly once.
    #[verifier::type_invariant]
    spec fn wf(self) -> bool {
        self.keys_cover_secrets()
    }

    /// An empty vault with the all-zero salt.
    pub fn new() -> (v: Self)
        ensures
            v.secrets_map() == Map::<Seq<char>, VaultSecret>::empty(),
            v.key_list() == Seq::<Seq<char>>::empty(),
            v.salt() == Seq::new(16, |i: int| 0u8),
    {
        let v = Vault { secrets: StringHashMap::new(), keys: Vec::new(), local_salt: [0u8; 16] };
        assert(v.key_list() =~= Seq::<Seq<char>>::empty());
        assert(v.salt() =~= Seq::new(16, |i: int| 0u8));
        v
    }

    pub fn local_salt(&self) -> (s: [u8; 16])
        ensures
            s@ == self.salt(),
    {
        self.local_salt
    }

    pub fn set_local_salt(&mut self, salt: [u8; 16])
        ensures
            final(self).salt() == salt@,
            final(self).secrets_map() == old(self).secrets_map(),
            final(self).key_list() == old(self).key_list(),
    {
        proof {
            use_type_invariant(&*self);
        }
        let mut taken = Vault::new();
        std::mem::swap(self, &mut taken);
        let Vault { secrets, keys, local_salt: _ } = taken;
        assert(keys@.map_values(|k: String| k@) =~= old(self).key_list());
        *self = Vault { secrets, keys, local_salt: salt };
    }

    /// Stores `secret` under `key`, replacing what was stored there.
    pub fn insert_secret(&mut self, key: String, secret: VaultSecret)
        ensures
            final(self).secrets_map() == old(self).secrets_map().insert(key@, secret),
            final(self).salt() == old(self).salt(),
            old(self).secrets_map().contains_key(key@) ==> final(self).key_list() == old(self).key_list(),
            !old(self).secrets_map().contains_key(key@) ==> final(self).key_list() == old(self).key_list().push(key@),
    {
        proof {
            use_type_invariant(&*self);
        }
        let mut taken = Vault::new();
        std::mem::swap(self, &mut taken);
        let Vault { secrets: mut secrets, keys: mut keys, local_salt } = taken;
        if !secrets.contains_key(key.as_str()) {
            let k = key.clone();
            keys.push(k);
        }
        let ghost was_there = old(self).secrets_map().contains_key(key@);
        let ghost kv = key@;
        secrets.insert(key, secret);
        let ghost new_list = keys@.map_values(|k: String| k@);
        assert(!was_there ==> new_list =~= old(self).key_list().push(kv));
        assert(was_there ==> new_list =~= old(self).key_list());
        assert forall|k: Seq<char>| secrets@.contains_key(k) <==> new_list.contains(k) by {
            if was_there {
                assert(old(self).key_list().contains(kv));
            } else {
                lemma_push_contains(old(self).key_list(), kv, k);
            }
        }
        assert forall|i: int, j: int|
            0 <= i < j < new_list.len() implies #[trigger] new_list[i] != #[trigger] new_list[j] by {
            if !was_there && j == old(self).key_list().len() {
                assert(!old(self).key_list().contains(kv));
                assert(old(self).key_list()[i] == new_list[i]);
            } else {
                assert(old(self).key_list()[i] == new_list[i]);
                assert(old(self).key_list()[j] == new_list[j]);
            }
        }
        *self = Vault { secrets, keys, local_salt };
    }

    /// The credential stored under `key`, if any.
    pub fn get_secret(&self, key: &str) -> (r: Option<&VaultSecret>)
        ensures
            match r {
                Some(s) => self.secrets_map().contains_key(key@) && *s == self.secrets_map()[key@],
                None => !self.secrets_map().contains_key(key@),
            },
    {
        self.secrets.get(key)
    }

    /// The keys of the stored credentials, in first-insertion order: each
    /// stored credential's key, once.
    pub fn keys(&self) -> (ks: &Vec<String>)
        ensures
            ks@.map_values(|k: String| k@) == self.key_list(),
            self.keys_cover_secrets(),
    {
        proof {
            use_type_invariant(self);
        }
        &self.keys
    }
}

impl Default for Vault {
    fn default() -> (v: Self)
        ensures
            v.secrets_map() == Map::<Seq<char>, VaultSecret>::empty(),
            v.salt() == Seq::new(16, |i: int| 0u8),
    {
        Vault::new()
    }
}

/// The 16-byte Argon2 salt made from a caller's salt: its first 16 bytes,
/// padded with zeros when it is shorter.
pub open spec fn kdf_salt(salt: Seq<u8>) -> Seq<u8> {
    if salt.len() >= 16 {
        salt.take(16)
    } else {
        salt + Seq::new((16 - salt.len()) as nat, |i: int| 0u8)
    }
}

/// The KDF salt always has 16 bytes: the caller's first 16 bytes, then
/// zeros where the caller's salt is shorter; a 16-byte salt is used as it is.
pub proof fn law_kdf_salt_shape(salt: Seq<u8>)
    ensures
        kdf_salt(salt).len() == 16,
        salt.len() == 16 ==> kdf_salt(salt) == salt,
        forall|i: int| 0 <= i < 16 && i < salt.len() ==> #[trigger] kdf_salt(salt)[i] == salt[i],
        forall|i: int| salt.len() <= i < 16 ==> #[trigger] kdf_salt(salt)[i] == 0u8,
{
    if salt.len() == 16 {
        assert(salt.take(16) =~= salt);
    }
}

/// The bytes a blinded indicator hashes: the vault's salt, then the UTF-8
/// of the username, then the UTF-8 of the secret.
pub open spec fn indicator_input(salt: Seq<u8>, s: VaultSecret) -> Seq<u8> {
    salt + encode_utf8(s.username@) + encode_utf8(s.secret@)
}

/// What `unseal` returns for a sealed vault, over byte sequences.
pub open spec fn unseal_outcome(key: Seq<u8>, nonce: Seq<u8>, ciphertext: Seq<u8>) -> Result<Seq<u8>, VaultError> {
    match decrypt_outcome(key, nonce, ciphertext) {
        Ok(p) => Ok(p),
        Err(e) => Err(VaultError::Crypto(e)),
    }
}

/// Errors of the vault.
#[derive(Debug, Clone, Copy, PartialEq, Eq, Structural)]
pub enum VaultError {
    /// The key derivation refused its input.
    KdfFailed,
    /// Sealing or unsealing failed.
    Crypto(CryptoError),
}

/// A vault key derived from a passphrase; the key is wiped when dropped.
pub struct SecureVault {
    key: [u8; 32],
    config: CryptoConfig,
}

impl Drop for SecureVault {
    /// Wipes the vault key.
    fn drop(&mut self)
        ensures
            final(self).key_bytes() == Seq::new(32, |i: int| 0u8),
        opens_invariants none
        no_unwind
    {
        zeroize_key(&mut self.key);
    }
}

impl SecureVault {
    /// The sealing key.
    pub closed spec fn key_bytes(&self) -> Seq<u8> {
        self.key@
    }

    /// The configuration the key was derived with.
    pub closed spec fn settings(&self) -> CryptoConfig {
        self.config
    }

    /// Derives the vault key from `passphrase` with Argon2id under the
    /// configured costs and the first 16 bytes of `salt` (zero-padded).
    /// Costs that Argon2 refuses, and passphrases too long for it, give
    /// `KdfFailed`.
    pub fn derive_from_passphrase(passphrase: &[u8], salt: &[u8], config: CryptoConfig) -> (r: Result<Self, VaultError>)
        ensures
            r is Ok <==> argon2_params_valid(config.argon2_m_cost, config.argon2_t_cost, config.argon2_p_cost)
                && passphrase@.len() <= ARGON2_MAX_PASSWORD_LEN,
            r matches Err(e) ==> e == VaultError::KdfFailed,
            r matches Ok(v) ==> v.settings() == config && v.key_bytes() == argon2id_hash32(
                passphrase@,
                kdf_salt(salt@),
                config.argon2_m_cost,
                config.argon2_t_cost,
                config.argon2_p_cost,
            ),
    {
        if !argon2_costs_valid(config.argon2_m_cost, config.argon2_t_cost, config.argon2_p_cost) {
            return Err(VaultError::KdfFailed);
        }
        let mut actual_salt = [0u8; 16];
        let len = if salt.len() < 16 { salt.len() } else { 16 };
        let mut i: usize = 0;
        while i < len
            invariant
                len <= 16,
                len <= salt@.len(),
                len == (if salt@.len() < 16 { salt@.len() } else { 16 }),
                i <= len,
                actual_salt@.len() == 16,
                forall|k: int| 0 <= k < i ==> actual_salt@[k] == salt@[k],
                forall|k: int| len <= k < 16 ==> actual_salt@[k] == 0u8,
            decreases len - i,
        {
            actual_salt[i] = salt[i];
            i = i + 1;
        }
        assert(actual_salt@ =~= kdf_salt(salt@));
        match argon2id_hash_into32(passphrase, &actual_salt, config.argon2_m_cost, config.argon2_t_cost, config.argon2_p_cost) {
            Some(key) => Ok(SecureVault { key, config }),
            None => Err(VaultError::KdfFailed),
        }
    }

    pub fn config(&self) -> (c: &CryptoConfig)
        ensures
            *c == self.settings(),
    {
        &self.config
    }

    /// A blinded indicator of the credential stored under `label`: the
    /// SHA-256 of the vault's salt, the username and the secret. It lets a
    /// credential be matched against known leaks without exposing it.
    pub fn generate_indicator(&self, vault: &Vault, label: &str) -> (r: Option<[u8; 32]>)
        ensures
            r is Some <==> vault.secrets_map().contains_key(label@),
            r matches Some(h) ==> h@ == sha256(indicator_input(vault.salt(), vault.secrets_map()[label@])),
    {
        let secret = match vault.get_secret(label) {
            Some(s) => s,
            None => return None,
        };
        let mut data: Vec<u8> = Vec::new();
        let salt = vault.local_salt();
        data.extend_from_slice(salt.as_slice());
        data.extend_from_slice(secret.username.as_str().as_bytes());
        data.extend_from_slice(secret.secret.as_str().as_bytes());
        assert(data@ =~= indicator_input(vault.salt(), *secret));
        Some(sha256_digest(data.as_slice()))
    }

    /// Seals `plaintext` (the serialized vault) under a fresh random nonce,
    /// returning the ciphertext and the nonce.
    pub fn seal(&self, plaintext: &[u8]) -> (r: Result<(Vec<u8>, [u8; 24]), VaultError>)
        ensures
            r is Ok <==> plaintext@.len() < AEAD_MAX_PLAINTEXT_LEN,
            r matches Err(e) ==> e == VaultError::Crypto(CryptoError::EncryptionFailed),
            r matches Ok((c, n)) ==> c@ == xchacha20poly1305_seal(self.key_bytes(), n@, plaintext@),
            r matches Ok((c, n)) ==> c@.len() == plaintext@.len() + AEAD_TAG_LEN,
            r matches Ok((c, n)) ==> unseal_outcome(self.key_bytes(), n@, c@) == Ok::<Seq<u8>, VaultError>(plaintext@),
    {
        let nonce = os_random_nonce();
        match self.seal_with_nonce(plaintext, &nonce) {
            Ok(c) => Ok((c, nonce)),
            Err(e) => Err(e),
        }
    }

    /// Seals `plaintext` under `nonce`.
    pub fn seal_with_nonce(&self, plaintext: &[u8], nonce: &[u8; 24]) -> (r: Result<Vec<u8>, VaultError>)
        ensures
            r is Ok <==> plaintext@.len() < AEAD_MAX_PLAINTEXT_LEN,
            r matches Err(e) ==> e == VaultError::Crypto(CryptoError::EncryptionFailed),
            r matches Ok(c) ==> c@ == xchacha20poly1305_seal(self.key_bytes(), nonce@, plaintext@),
            r matches Ok(c) ==> c@.len() == plaintext@.len() + AEAD_TAG_LEN,
            r matches Ok(c) ==> unseal_outcome(self.key_bytes(), nonce@, c@) == Ok::<Seq<u8>, VaultError>(plaintext@),
    {
        match encrypt(&self.key, nonce, plaintext) {
            Ok(c) => Ok(c),
            Err(e) => Err(VaultError::Crypto(e)),
        }
    }

    /// Opens a sealed vault, returning the serialized vault.
    pub fn unseal(&self, ciphertext: &[u8], nonce: &[u8; 24]) -> (r: Result<Vec<u8>, VaultError>)
        ensures
            result_bytes(r) == unseal_outcome(self.key_bytes(), nonce@, ciphertext@),
    {
        match decrypt(&self.key, nonce, ciphertext) {
            Ok(p) => Ok(p),
            Err(e) => Err(VaultError::Crypto(e)),
        }
    }
}

/// Argon2 accepts exactly these costs: a memory cost of at least 8 KiB
/// and at least 8 KiB per lane, with no cap below `u32::MAX`; at least one
/// pass; between 1 and 2^24 - 1 lanes. So a key is derived, for a
/// passphrase Argon2 takes, exactly under such costs (for instance 262144
/// KiB, 3 passes and 4 lanes).
pub proof fn law_argon2_cost_limits(m_cost: u32, t_cost: u32, p_cost: u32)
    ensures
        argon2_params_valid(m_cost, t_cost, p_cost) <==> (m_cost >= 8 && m_cost as int >= 8 * (p_cost as int)
            && t_cost >= 1 && p_cost >= 1 && p_cost <= 16777215),
        argon2_params_valid(262144, 3, 4),
        argon2_params_valid(u32::MAX, u32::MAX, 16777215),
        argon2_params_valid(DEFAULT_ARGON2_M_COST, DEFAULT_ARGON2_T_COST, DEFAULT_ARGON2_P_COST),
{
}

/// A blinded indicator hashes the whole credential: the hashed bytes are
/// the vault's salt, then every UTF-8 byte of
/// the username, then every UTF-8 byte of the secret, and nothing else.
/// So two credentials with the same username but different secrets (or
/// different usernames of the same length in bytes) hash different bytes.
pub proof fn law_indicator_hashes_whole_credential(salt: Seq<u8>, s: VaultSecret, t: VaultSecret)
    ensures
        indicator_input(salt, s).len() == salt.len() + encode_utf8(s.username@).len() + encode_utf8(s.secret@).len(),
        indicator_input(salt, s).take(salt.len() as int) == salt,
        indicator_input(salt, s).subrange(salt.len() as int, salt.len() + encode_utf8(s.username@).len() as int) == encode_utf8(s.username@),
        decode_utf8(indicator_input(salt, s).subrange(salt.len() as int, salt.len() + encode_utf8(s.username@).len() as int)) == s.username@,
        indicator_input(salt, s).skip(salt.len() + encode_utf8(s.username@).len() as int) == encode_utf8(s.secret@),
        decode_utf8(indicator_input(salt, s).skip(salt.len() + encode_utf8(s.username@).len() as int)) == s.secret@,
        s.username@ == t.username@ && s.secret@ != t.secret@ ==> indicator_input(salt, s) != indicator_input(salt, t),
        encode_utf8(s.username@).len() == encode_utf8(t.username@).len() && (s.username@ != t.username@
            || s.secret@ != t.secret@) ==> indicator_input(salt, s) != indicator_input(salt, t),
{
    let us = encode_utf8(s.username@);
    let ss = encode_utf8(s.secret@);
    let ut = encode_utf8(t.username@);
    let st = encode_utf8(t.secret@);
    let a = indicator_input(salt, s);
    let b = indicator_input(salt, t);
    assert(a.take(salt.len() as int) =~= salt);
    assert(a.subrange(salt.len() as int, salt.len() + us.len() as int) =~= us);
    assert(a.skip(salt.len() + us.len() as int) =~= ss);
    vstd::utf8::encode_utf8_decode_utf8(s.username@);
    vstd::utf8::encode_utf8_decode_utf8(s.secret@);
    vstd::utf8::encode_utf8_decode_utf8(t.username@);
    vstd::utf8::encode_utf8_decode_utf8(t.secret@);
    if us.len() == ut.len() && a == b {
        assert(b.subrange(salt.len() as int, salt.len() + ut.len() as int) =~= ut);
        assert(b.skip(salt.len() + ut.len() as int) =~= st);
        assert(us == ut);
        assert(ss == st);
    }
}

} // verus!
