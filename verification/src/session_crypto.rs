//! Encrypted session files: `salt (16) + nonce (12) + AES-256-GCM ciphertext`,
//! the key derived with PBKDF2-HMAC-SHA256 from machine-bound material.
//!
//! Gathering that material (host name, user name, configuration directory,
//! machine id) and reading or writing files are the application's part.
use aes_gcm::aead::{Aead, KeyInit};
use aes_gcm::{Aes256Gcm, Nonce};
use sha2::Sha256;
use vstd::prelude::*;
use vstd::string::StringSliceAdditionalSpecFns;
use crate::text::{has_prefix, owned, str_eq};

verus! {

pub const NONCE_LEN: usize = 12;
pub const SALT_LEN: usize = 16;
pub const KEY_LEN: usize = 32;
/// PBKDF2 iterations (600,000 rounds of SHA-256).
pub const PBKDF2_ROUNDS: u32 = 600000;

/// What a configuration holds instead of an API key kept in the keychain.
pub const API_KEY_KEYCHAIN_PLACEHOLDER: &'static str = "keychain:onemini";

/// Whether a stored value stands for a key in the system keychain.
pub fn is_keychain_placeholder(value: &str) -> (r: bool)
    ensures
        r == (value@ == "keychain:onemini"@),
{
    str_eq(value, "keychain:onemini")
}

/// The 32-byte key that PBKDF2-HMAC-SHA256 derives in 600,000 rounds.
pub uninterp spec fn pbkdf2_key(password: Seq<u8>, salt: Seq<u8>) -> Seq<u8>;

/// The AES-256-GCM ciphertext (with its tag) of a plaintext.
pub uninterp spec fn aes_seal(key: Seq<u8>, nonce: Seq<u8>, plaintext: Seq<u8>) -> Seq<u8>;

/// The AES-256-GCM plaintext of a ciphertext, if its tag checks.
pub uninterp spec fn aes_open(key: Seq<u8>, nonce: Seq<u8>, ciphertext: Seq<u8>) -> Option<Seq<u8>>;

/// `pbkdf2::pbkdf2_hmac::<Sha256>` into a 32-byte key.
#[verifier::external_body]
fn derive_key(password: &[u8], salt: &[u8]) -> (r: Vec<u8>)
    ensures
        r@ == pbkdf2_key(password@, salt@),
        r@.len() == 32,
{
    let mut key = vec![0u8; KEY_LEN];
    pbkdf2::pbkdf2_hmac::<Sha256>(password, salt, PBKDF2_ROUNDS, &mut key);
    key
}

/// Longest plaintext AES-GCM encrypts (`aes_gcm::P_MAX`, 2^36 bytes).
pub const AES_P_MAX: u64 = 68719476736;

/// `Aes256Gcm::encrypt`; decrypting its output with the same key and nonce
/// gives the plaintext back. With a 32-byte key it fails only for a
/// plaintext longer than `P_MAX` (the crate's one check).
#[verifier::external_body]
fn aes_encrypt(key: &[u8], nonce: &[u8], plaintext: &[u8]) -> (r: Option<Vec<u8>>)
    requires
        key@.len() == 32,
        nonce@.len() == 12,
    ensures
        (r is Some) == (plaintext@.len() <= AES_P_MAX),
        r matches Some(c) ==> c@ == aes_seal(key@, nonce@, plaintext@) && aes_open(key@, nonce@, c@) == Some(
            plaintext@,
        ),
{
    let cipher = Aes256Gcm::new_from_slice(key).ok()?;
    cipher.encrypt(Nonce::from_slice(nonce), plaintext).ok()
}

/// `Aes256Gcm::decrypt`.
#[verifier::external_body]
fn aes_decrypt(key: &[u8], nonce: &[u8], ciphertext: &[u8]) -> (r: Option<Vec<u8>>)
    requires
        key@.len() == 32,
        nonce@.len() == 12,
    ensures
        match aes_open(key@, nonce@, ciphertext@) {
            Some(p) => r is Some && r->0@ == p,
            None => r is None,
        },
{
    let cipher = Aes256Gcm::new_from_slice(key).ok()?;
    cipher.decrypt(Nonce::from_slice(nonce), ciphertext).ok()
}

/// `getrandom::getrandom` into `n` bytes (its error as text).
#[verifier::external_body]
fn random_bytes(n: usize) -> (r: Result<Vec<u8>, String>)
    ensures
        r matches Ok(v) ==> v@.len() == n,
{
    let mut v = vec![0u8; n];
    match getrandom::getrandom(&mut v) {
        Ok(()) => Ok(v),
        Err(e) => Err(e.to_string()),
    }
}

/// The key material: host name, user name, configuration directory and
/// machine id, as UTF-8, one after the other.
pub fn password_material(hostname: &str, username: &str, config_dir: &str, machine_id: &str) -> (r: Vec<u8>)
    ensures
        r@ == hostname.spec_bytes() + username.spec_bytes() + config_dir.spec_bytes() + machine_id.spec_bytes(),
{
    let mut r: Vec<u8> = Vec::new();
    r.extend_from_slice(hostname.as_bytes());
    r.extend_from_slice(username.as_bytes());
    r.extend_from_slice(config_dir.as_bytes());
    r.extend_from_slice(machine_id.as_bytes());
    r
}

/// What decrypting a stored file gives.
pub open spec fn decrypt_spec(password: Seq<u8>, data: Seq<u8>) -> Result<Seq<u8>, Seq<char>> {
    if data.len() < 28 {
        Err("加密数据过短"@)
    } else {
        match aes_open(pbkdf2_key(password, data.take(16)), data.subrange(16, 28), data.skip(28)) {
            Some(p) => Ok(p),
            None => Err("解密失败（密钥或数据损坏）: aead::Error"@),
        }
    }
}

/// Decrypts a stored file: salt, nonce, ciphertext.
pub fn decrypt_bytes(password: &[u8], data: &[u8]) -> (r: Result<Vec<u8>, String>)
    ensures
        match decrypt_spec(password@, data@) {
            Ok(p) => r is Ok && r->Ok_0@ == p,
            Err(m) => r is Err && r->Err_0@ == m,
        },
{
    if data.len() < SALT_LEN + NONCE_LEN {
        return Err(owned("加密数据过短"));
    }
    let salt = slice_part(data, 0, SALT_LEN);
    let nonce = slice_part(data, SALT_LEN, SALT_LEN + NONCE_LEN);
    let ct = slice_part(data, SALT_LEN + NONCE_LEN, data.len());
    let key = derive_key(password, salt.as_slice());
    proof {
        assert(salt@ =~= data@.take(16));
        assert(nonce@ =~= data@.subrange(16, 28));
        assert(ct@ =~= data@.skip(28));
    }
    match aes_decrypt(key.as_slice(), nonce.as_slice(), ct.as_slice()) {
        Some(p) => Ok(p),
        None => Err(owned("解密失败（密钥或数据损坏）: aead::Error")),
    }
}

fn slice_part(data: &[u8], from: usize, to: usize) -> (r: Vec<u8>)
    requires
        from <= to <= data@.len(),
    ensures
        r@ == data@.subrange(from as int, to as int),
{
    let mut r: Vec<u8> = Vec::new();
    let mut i: usize = from;
    while i < to
        invariant
            from <= i <= to,
            to <= data@.len(),
            r@ == data@.subrange(from as int, i as int),
        decreases to - i,
    {
        r.push(data[i]);
        proof {
            assert(r@ =~= data@.subrange(from as int, i + 1));
        }
        i += 1;
    }
    r
}

/// The stored form under a given salt and nonce: salt, nonce, then the
/// AES-256-GCM ciphertext under the PBKDF2 key of the password and salt.
pub open spec fn sealed_spec(password: Seq<u8>, salt: Seq<u8>, nonce: Seq<u8>, plaintext: Seq<u8>) -> Result<Seq<u8>, Seq<char>> {
    if plaintext.len() <= AES_P_MAX {
        Ok(salt + nonce + aes_seal(pbkdf2_key(password, salt), nonce, plaintext))
    } else {
        Err("加密失败: aead::Error"@)
    }
}

/// Encrypts under the given salt (16 bytes) and nonce (12 bytes); what it
/// gives decrypts to the plaintext with the same key material.
pub fn seal(password: &[u8], plaintext: &[u8], salt: &[u8], nonce: &[u8]) -> (r: Result<Vec<u8>, String>)
    requires
        salt@.len() == 16,
        nonce@.len() == 12,
    ensures
        match sealed_spec(password@, salt@, nonce@, plaintext@) {
            Ok(d) => r matches Ok(data) && data@ == d,
            Err(m) => r matches Err(e) && e@ == m,
        },
        r matches Ok(data) ==> decrypt_spec(password@, data@) == Ok::<Seq<u8>, Seq<char>>(plaintext@),
{
    let key = derive_key(password, salt);
    let ct = match aes_encrypt(key.as_slice(), nonce, plaintext) {
        Some(c) => c,
        None => {
            return Err(owned("加密失败: aead::Error"));
        },
    };
    let mut out: Vec<u8> = Vec::new();
    out.extend_from_slice(salt);
    out.extend_from_slice(nonce);
    out.extend_from_slice(ct.as_slice());
    proof {
        assert(out@ =~= salt@ + nonce@ + ct@);
        assert(out@.take(16) =~= salt@);
        assert(out@.subrange(16, 28) =~= nonce@);
        assert(out@.skip(28) =~= ct@);
    }
    Ok(out)
}

/// Encrypts with a fresh random salt and nonce (see `seal`). It fails where
/// the system gives no random bytes, and where the plaintext is too long.
pub fn encrypt_bytes(password: &[u8], plaintext: &[u8]) -> (r: Result<Vec<u8>, String>)
    ensures
        r matches Ok(data) ==> data@.len() >= 28 && sealed_spec(password@, data@.take(16), data@.subrange(16, 28), plaintext@)
            == Ok::<Seq<u8>, Seq<char>>(data@),
        r matches Ok(data) ==> decrypt_spec(password@, data@) == Ok::<Seq<u8>, Seq<char>>(plaintext@),
        r matches Err(e) ==> has_prefix(e@, "生成盐失败: "@) || has_prefix(e@, "生成 nonce 失败: "@) || (e@
            == "加密失败: aead::Error"@ && plaintext@.len() > AES_P_MAX),
        plaintext@.len() > AES_P_MAX ==> r is Err,
{
    let salt = match random_bytes(SALT_LEN) {
        Ok(s) => s,
        Err(e) => {
            let m = crate::text::concat2("生成盐失败: ", e.as_str());
            proof {
                assert(m@.subrange(0, "生成盐失败: "@.len() as int) =~= "生成盐失败: "@);
            }
            return Err(m);
        },
    };
    let nonce = match random_bytes(NONCE_LEN) {
        Ok(n) => n,
        Err(e) => {
            let m = crate::text::concat2("生成 nonce 失败: ", e.as_str());
            proof {
                assert(m@.subrange(0, "生成 nonce 失败: "@.len() as int) =~= "生成 nonce 失败: "@);
            }
            return Err(m);
        },
    };
    let r = seal(password, plaintext, salt.as_slice(), nonce.as_slice());
    proof {
        if r is Ok {
            let data = r->Ok_0;
            assert(data@.take(16) =~= salt@);
            assert(data@.subrange(16, 28) =~= nonce@);
        }
    }
    r
}

} // verus!
