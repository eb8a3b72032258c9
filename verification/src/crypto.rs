//! Password-based key derivation (Argon2id) and authenticated encryption
//! (ChaCha20-Poly1305), and the traits through which the vault uses them.
use vstd::prelude::*;
use crate::error::{Result, VaultError};
use chacha20poly1305::aead::{Aead, KeyInit};

verus! {

// ── Traits ───────────────────────────────────────────────────────────────

/// Symmetric authenticated encryption.
pub trait Cipher {
    /// The plaintext that decrypting `ciphertext` yields, or `None` when
    /// decryption fails. Decryption is deterministic.
    spec fn opens(&self, ciphertext: Seq<u8>) -> Option<Seq<u8>>;

    /// Encrypts `plaintext`; what comes out decrypts back to `plaintext`.
    fn encrypt(&self, plaintext: &[u8]) -> (r: Result<Vec<u8>>)
        ensures
            r matches Ok(c) ==> self.opens(c@) == Some(plaintext@),
            r matches Err(e) ==> e is Crypto,
    ;

    /// Decrypts `ciphertext`, failing exactly when it does not open.
    fn decrypt(&self, ciphertext: &[u8]) -> (r: Result<Vec<u8>>)
        ensures
            match r {
                Ok(p) => self.opens(ciphertext@) == Some(p@),
                Err(e) => self.opens(ciphertext@) is None && e is Crypto,
            },
    ;
}

/// Password-based key derivation.
pub trait KeyDeriver {
    /// The key that `password` and `salt` derive, or `None` when derivation
    /// fails. Derivation is deterministic.
    spec fn derived(&self, password: Seq<u8>, salt: Seq<u8>) -> Option<Seq<u8>>;

    /// Derives a 256-bit key from `password` and `salt`.
    fn derive_key(&self, password: &[u8], salt: &[u8]) -> (r: Result<[u8; 32]>)
        ensures
            match r {
                Ok(k) => self.derived(password@, salt@) == Some(k@),
                Err(e) => self.derived(password@, salt@) is None && e is Crypto,
            },
    ;

    /// A fresh random salt.
    fn generate_salt(&self) -> [u8; 32];
}

// ── Randomness ───────────────────────────────────────────────────────────

/// Trusted: `rand::rngs::OsRng::fill_bytes`, which overwrites every byte of
/// `buf` with operating-system randomness (and panics if the operating
/// system cannot supply it). Only the length is stated.
#[verifier::external_body]
pub(crate) fn fill_random(buf: &mut [u8])
    ensures
        final(buf)@.len() == old(buf)@.len(),
{
    rand::RngCore::fill_bytes(&mut rand::rngs::OsRng, buf);
}

// ── Argon2id ─────────────────────────────────────────────────────────────

/// A 256-bit key.
pub type Key256 = [u8; 32];

/// The 32-byte Argon2id (version 0x13) digest of `password` and `salt` with
/// memory cost `m` KiB, `t` passes and `p` lanes.
pub uninterp spec fn argon2id_digest(m: u32, t: u32, p: u32, password: Seq<u8>, salt: Seq<u8>) -> Seq<u8>;

/// Whether `argon2::Params::new(m, t, p, Some(32))` accepts the costs.
pub open spec fn argon2_params_valid(m: u32, t: u32, p: u32) -> bool {
    &&& m >= 8
    &&& m >= p * 8
    &&& t >= 1
    &&& 1 <= p <= 0xFF_FFFF
}

/// Whether Argon2 accepts a password and salt of these lengths.
pub open spec fn argon2_inputs_valid(password_len: nat, salt_len: nat) -> bool {
    &&& password_len <= 0xFFFF_FFFF
    &&& 8 <= salt_len <= 0xFFFF_FFFF
}

/// Trusted: `argon2::Params::new(m, t, p, Some(32))`, `Argon2::new` with
/// `Algorithm::Argon2id` and `Version::V0x13`, and `hash_password_into` a
/// 32-byte buffer. `Params::new` computes `p * 8` in `u32` before it checks
/// `p`, which overflows for large `p`, and `hash_password_into` allocates
/// `m` KiB; so `p` is held to the documented maximum and `m` to 64 MiB.
/// Within those, per the crate's source it fails exactly on invalid costs,
/// a password over `u32::MAX` bytes, or a salt outside 8..=`u32::MAX`
/// bytes; otherwise the buffer holds the digest. The error's text is not
/// stated.
#[verifier::external_body]
fn argon2id_hash(m: u32, t: u32, p: u32, password: &[u8], salt: &[u8]) -> (r: std::result::Result<Key256, String>)
    requires
        p <= 0xFF_FFFF,
        m <= 65536,
    ensures
        (r is Ok) == (argon2_params_valid(m, t, p) && argon2_inputs_valid(password@.len(), salt@.len())),
        r matches Ok(k) ==> k@ == argon2id_digest(m, t, p, password@, salt@),
{
    let params = match argon2::Params::new(m, t, p, Some(32)) {
        Ok(params) => params,
        Err(e) => return Err(e.to_string()),
    };
    let hasher = argon2::Argon2::new(argon2::Algorithm::Argon2id, argon2::Version::V0x13, params);
    let mut key = [0u8; 32];
    match hasher.hash_password_into(password, salt, &mut key) {
        Ok(()) => Ok(key),
        Err(e) => Err(e.to_string()),
    }
}

/// Argon2id with parameters tuned for a balance of security and interactive
/// performance: 64 MiB memory, 3 iterations, 4 lanes of parallelism.
pub struct Argon2IdDeriver {
    m_cost: u32,
    t_cost: u32,
    p_cost: u32,
}

impl Argon2IdDeriver {
    /// The costs stay within what `argon2id_hash` accepts.
    #[verifier::type_invariant]
    spec fn costs_in_range(self) -> bool {
        self.p_cost <= 0xFF_FFFF && self.m_cost <= 65536
    }

    /// The costs this deriver runs Argon2id with: (memory KiB, passes, lanes).
    pub closed spec fn costs(&self) -> (u32, u32, u32) {
        (self.m_cost, self.t_cost, self.p_cost)
    }

    /// The deriver with 64 MiB memory, 3 passes and 4 lanes.
    pub fn new() -> (r: Self)
        ensures
            r.costs() == (65536u32, 3u32, 4u32),
    {
        Argon2IdDeriver { m_cost: 65536, t_cost: 3, p_cost: 4 }
    }
}

/// The deriver with the default costs derives a key for every password of
/// at most `u32::MAX` bytes and every salt of the length it generates.
pub proof fn lemma_default_costs_derive(d: Argon2IdDeriver, password: Seq<u8>, salt: Seq<u8>)
    requires
        d.costs() == (65536u32, 3u32, 4u32),
        password.len() <= 0xFFFF_FFFF,
        salt.len() == 32,
    ensures
        d.derived(password, salt) == Some(argon2id_digest(65536, 3, 4, password, salt)),
{
}

impl KeyDeriver for Argon2IdDeriver {
    open spec fn derived(&self, password: Seq<u8>, salt: Seq<u8>) -> Option<Seq<u8>> {
        let (m, t, p) = self.costs();
        if argon2_params_valid(m, t, p) && argon2_inputs_valid(password.len(), salt.len()) {
            Some(argon2id_digest(m, t, p, password, salt))
        } else {
            None
        }
    }

    fn derive_key(&self, password: &[u8], salt: &[u8]) -> (r: Result<[u8; 32]>) {
        proof {
            use_type_invariant(self);
        }
        match argon2id_hash(self.m_cost, self.t_cost, self.p_cost, password, salt) {
            Ok(k) => Ok(k),
            Err(e) => Err(VaultError::Crypto(String::from_str("key derivation failed: ").concat(e.as_str()))),
        }
    }

    fn generate_salt(&self) -> [u8; 32] {
        let mut salt = [0u8; 32];
        fill_random(&mut salt);
        salt
    }
}

// ── ChaCha20-Poly1305 ────────────────────────────────────────────────────

/// The ciphertext-with-tag that ChaCha20-Poly1305 produces for `plaintext`
/// under `key` and `nonce` (no associated data).
pub uninterp spec fn aead_seal(key: Seq<u8>, nonce: Seq<u8>, plaintext: Seq<u8>) -> Seq<u8>;

/// What ChaCha20-Poly1305 decryption of `body` under `key` and `nonce`
/// returns: the plaintext, or `None` when it rejects the input.
pub uninterp spec fn aead_open(key: Seq<u8>, nonce: Seq<u8>, body: Seq<u8>) -> Option<Seq<u8>>;

/// Whether ChaCha20-Poly1305 accepts a plaintext of this length (fewer than
/// `u32::MAX` 64-byte blocks).
pub open spec fn seal_length_ok(len: nat) -> bool {
    len / 64 < 0xFFFF_FFFF
}

/// Trusted: `ChaCha20Poly1305::new(key)` then `Aead::encrypt(nonce,
/// plaintext)`. Per the source, it fails exactly when the plaintext has
/// `u32::MAX` or more 64-byte blocks; the output is the ciphertext followed
/// by a 16-byte tag, and decryption under the same key and nonce gives the
/// plaintext back.
#[verifier::external_body]
fn chacha_seal(key: &[u8; 32], nonce: &[u8; 12], plaintext: &[u8]) -> (r: std::result::Result<Vec<u8>, String>)
    ensures
        (r is Ok) == seal_length_ok(plaintext@.len()),
        r matches Ok(c) ==> c@ == aead_seal(key@, nonce@, plaintext@),
        r matches Ok(c) ==> c@.len() == plaintext@.len() + 16,
        r matches Ok(c) ==> aead_open(key@, nonce@, c@) == Some(plaintext@),
{
    let aead = chacha20poly1305::ChaCha20Poly1305::new(chacha20poly1305::Key::from_slice(key));
    match aead.encrypt(chacha20poly1305::Nonce::from_slice(nonce), plaintext) {
        Ok(c) => Ok(c),
        Err(e) => Err(e.to_string()),
    }
}

/// Trusted: `ChaCha20Poly1305::new(key)` then `Aead::decrypt(nonce, body)`,
/// which returns the plaintext when the tag authenticates and fails
/// otherwise.
#[verifier::external_body]
fn chacha_open(key: &[u8; 32], nonce: &[u8; 12], body: &[u8]) -> (r: Option<Vec<u8>>)
    ensures
        match r {
            Some(p) => aead_open(key@, nonce@, body@) == Some(p@),
            None => aead_open(key@, nonce@, body@) is None,
        },
{
    let aead = chacha20poly1305::ChaCha20Poly1305::new(chacha20poly1305::Key::from_slice(key));
    match aead.decrypt(chacha20poly1305::Nonce::from_slice(nonce), body) {
        Ok(p) => Some(p),
        Err(_) => None,
    }
}

/// Authenticated encryption with ChaCha20-Poly1305.
///
/// Ciphertext format: `[12-byte nonce][encrypted data + 16-byte tag]`
pub struct ChaCha20Cipher {
    key: [u8; 32],
}

/// What a ChaCha20Cipher with `key` decrypts `c` to: the first 12 bytes
/// are the nonce, the rest the sealed body.
pub open spec fn framed_open(key: Seq<u8>, c: Seq<u8>) -> Option<Seq<u8>> {
    if c.len() < 12 {
        None
    } else {
        aead_open(key, c.subrange(0, 12), c.subrange(12, c.len() as int))
    }
}

impl ChaCha20Cipher {
    /// The 256-bit key of this cipher.
    pub closed spec fn key(&self) -> Seq<u8> {
        self.key@
    }

    /// A cipher with the given key.
    pub fn new(key: &[u8; 32]) -> (r: Self)
        ensures
            r.key() == key@,
    {
        ChaCha20Cipher { key: *key }
    }

    /// Encrypts with a fresh random nonce; the result is the nonce followed
    /// by the sealed plaintext.
    pub fn seal(&self, plaintext: &[u8]) -> (r: Result<Vec<u8>>)
        ensures
            (r is Ok) == seal_length_ok(plaintext@.len()),
            r matches Ok(c) ==> c@.len() == 12 + plaintext@.len() + 16
                && c@.subrange(12, c@.len() as int) == aead_seal(self.key(), c@.subrange(0, 12), plaintext@)
                && framed_open(self.key(), c@) == Some(plaintext@),
            r matches Err(e) ==> e is Crypto,
    {
        let mut nonce = [0u8; 12];
        fill_random(&mut nonce);
        match chacha_seal(&self.key, &nonce, plaintext) {
            Ok(body) => {
                let mut out: Vec<u8> = Vec::new();
                let mut i: usize = 0;
                while i < 12
                    invariant
                        i <= 12,
                        out@ == nonce@.subrange(0, i as int),
                    decreases 12 - i,
                {
                    out.push(nonce[i]);
                    i = i + 1;
                }
                let mut j: usize = 0;
                while j < body.len()
                    invariant
                        j <= body@.len(),
                        out@ == nonce@ + body@.subrange(0, j as int),
                    decreases body@.len() - j,
                {
                    out.push(body[j]);
                    j = j + 1;
                }
                assert(out@.subrange(0, 12) =~= nonce@);
                assert(out@.subrange(12, out@.len() as int) =~= body@);
                Ok(out)
            },
            Err(e) => Err(VaultError::Crypto(String::from_str("encryption failed: ").concat(e.as_str()))),
        }
    }

    /// Splits off the nonce and opens the rest.
    pub fn open(&self, ciphertext: &[u8]) -> (r: Result<Vec<u8>>)
        ensures
            match r {
                Ok(p) => framed_open(self.key(), ciphertext@) == Some(p@),
                Err(e) => framed_open(self.key(), ciphertext@) is None && e is Crypto,
            },
            ciphertext@.len() < 12 ==> (r matches Err(VaultError::Crypto(m)) && m@ == "ciphertext too short"@),
            ciphertext@.len() >= 12 && r is Err ==> (r matches Err(VaultError::Crypto(m)) && m@ == "decryption failed"@),
    {
        if ciphertext.len() < 12 {
            return Err(VaultError::Crypto(String::from_str("ciphertext too short")));
        }
        let mut nonce = [0u8; 12];
        let mut i: usize = 0;
        while i < 12
            invariant
                i <= 12,
                12 <= ciphertext@.len(),
                forall|k: int| 0 <= k < i ==> nonce@[k] == ciphertext@[k],
            decreases 12 - i,
        {
            nonce[i] = ciphertext[i];
            i = i + 1;
        }
        let mut body: Vec<u8> = Vec::new();
        let mut j: usize = 12;
        while j < ciphertext.len()
            invariant
                12 <= j <= ciphertext@.len(),
                body@ == ciphertext@.subrange(12, j as int),
            decreases ciphertext@.len() - j,
        {
            body.push(ciphertext[j]);
            j = j + 1;
        }
        assert(nonce@ =~= ciphertext@.subrange(0, 12));
        match chacha_open(&self.key, &nonce, body.as_slice()) {
            Some(p) => Ok(p),
            None => Err(VaultError::Crypto(String::from_str("decryption failed"))),
        }
    }
}

impl Cipher for ChaCha20Cipher {
    open spec fn opens(&self, ciphertext: Seq<u8>) -> Option<Seq<u8>> {
        framed_open(self.key(), ciphertext)
    }

    /// The nonce, then the sealed plaintext; fails only on a plaintext of
    /// `u32::MAX` or more 64-byte blocks.
    fn encrypt(&self, plaintext: &[u8]) -> (r: Result<Vec<u8>>)
        ensures
            (r is Ok) == seal_length_ok(plaintext@.len()),
            r matches Ok(c) ==> c@.len() == 12 + plaintext@.len() + 16
                && c@.subrange(12, c@.len() as int) == aead_seal(self.key(), c@.subrange(0, 12), plaintext@),
    {
        self.seal(plaintext)
    }

    /// Fails with "ciphertext too short" under 12 bytes and with
    /// "decryption failed" when the rest does not authenticate.
    fn decrypt(&self, ciphertext: &[u8]) -> (r: Result<Vec<u8>>)
        ensures
            ciphertext@.len() < 12 ==> (r matches Err(VaultError::Crypto(m)) && m@ == "ciphertext too short"@),
            ciphertext@.len() >= 12 && r is Err ==> (r matches Err(VaultError::Crypto(m)) && m@ == "decryption failed"@),
    {
        self.open(ciphertext)
    }
}

/// Derives a 256-bit key from a password and salt and wraps it in a
/// [`ChaCha20Cipher`].
pub fn cipher_from_password<D: KeyDeriver>(deriver: &D, pw: &[u8], salt: &[u8]) -> (r: Result<ChaCha20Cipher>)
    ensures
        match r {
            Ok(c) => deriver.derived(pw@, salt@) == Some(c.key()),
            Err(e) => deriver.derived(pw@, salt@) is None && e is Crypto,
        },
{
    let key = deriver.derive_key(pw, salt)?;
    Ok(ChaCha20Cipher::new(&key))
}

} // verus!
