//! Encryption of stored secrets (access tokens, webhook secrets) with AES-256-GCM.
//! A sealed value is the 12-byte nonce followed by the ciphertext and its tag.
use vstd::prelude::*;
use vstd::string::StringSliceAdditionalSpecFns;
use vstd::utf8::{decode_utf8, encode_utf8, valid_utf8};
use aes_gcm::aead::Aead;
use aes_gcm::{Aes256Gcm, KeyInit, Nonce};
use rand::RngCore;

verus! {

broadcast use vstd::utf8::encode_utf8_valid_utf8, vstd::utf8::encode_utf8_decode_utf8;

/// The length of the nonce that starts a sealed value.
pub const NONCE_LEN: usize = 12;

/// The ciphertext (with its tag) of `plaintext` under `key` and `nonce`.
pub uninterp spec fn aes256gcm_seal(key: Seq<u8>, nonce: Seq<u8>, plaintext: Seq<u8>) -> Seq<u8>;

/// The plaintext that AES-256-GCM authenticates and recovers from `ciphertext`,
/// `None` when the tag does not check out.
pub uninterp spec fn aes256gcm_open(key: Seq<u8>, nonce: Seq<u8>, ciphertext: Seq<u8>) -> Option<Seq<u8>>;

/// Calls `rand::thread_rng().fill_bytes` for a fresh nonce; nothing is claimed of
/// its bytes.
#[verifier::external_body]
fn random_nonce() -> (r: [u8; 12]) {
    let mut nonce = [0u8; 12];
    rand::thread_rng().fill_bytes(&mut nonce);
    nonce
}

/// Calls `aes_gcm::Aes256Gcm::encrypt` (which fails only for plaintexts longer than
/// 2^36 bytes). The contract names the ciphertext `aes256gcm_seal(..)` and claims what
/// an AEAD is for: decrypting it under the same key and nonce gives the plaintext.
#[verifier::external_body]
fn aes_seal(key: &[u8; 32], nonce: &[u8], plaintext: &[u8]) -> (r: Vec<u8>)
    requires
        nonce@.len() == NONCE_LEN,
        plaintext@.len() <= 0x10_0000_0000,
    ensures
        r@ == aes256gcm_seal(key@, nonce@, plaintext@),
        aes256gcm_open(key@, nonce@, r@) == Some(plaintext@),
{
    let cipher = Aes256Gcm::new(key.into());
    cipher.encrypt(Nonce::from_slice(nonce), plaintext).expect("AES-GCM encryption failed")
}

/// Calls `aes_gcm::Aes256Gcm::decrypt`; the contract names its answer
/// `aes256gcm_open(..)`.
#[verifier::external_body]
fn aes_open(key: &[u8; 32], nonce: &[u8], ciphertext: &[u8]) -> (r: Option<Vec<u8>>)
    requires
        nonce@.len() == NONCE_LEN,
    ensures
        match r {
            Some(p) => aes256gcm_open(key@, nonce@, ciphertext@) == Some(p@),
            None => aes256gcm_open(key@, nonce@, ciphertext@) is None,
        },
{
    let cipher = Aes256Gcm::new(key.into());
    cipher.decrypt(Nonce::from_slice(nonce), ciphertext).ok()
}

/// Calls `String::from_utf8`: the text that the bytes encode, when they are UTF-8.
#[verifier::external_body]
fn utf8_text(bytes: Vec<u8>) -> (r: Option<String>)
    ensures
        match r {
            Some(s) => valid_utf8(bytes@) && s@ == decode_utf8(bytes@),
            None => !valid_utf8(bytes@),
        },
{
    String::from_utf8(bytes).ok()
}

/// What decrypting a sealed value gives: the text, when the value holds a nonce, its
/// tag checks out under the key, and the plaintext is UTF-8.
pub open spec fn decrypt_spec(key: Seq<u8>, data: Seq<u8>) -> Option<Seq<char>> {
    if data.len() < NONCE_LEN {
        None
    } else {
        match aes256gcm_open(key, data.subrange(0, 12), data.subrange(12, data.len() as int)) {
            None => None,
            Some(p) => if valid_utf8(p) {
                Some(decode_utf8(p))
            } else {
                None
            },
        }
    }
}

/// Seals a text under the key with a fresh random nonce. Decrypting the result with
/// the same key gives the text back.
pub fn encrypt(key: &[u8; 32], plaintext: &str) -> (r: Vec<u8>)
    requires
        plaintext.spec_bytes().len() <= 0x10_0000_0000,
    ensures
        r@.len() >= NONCE_LEN,
        r@.subrange(12, r@.len() as int) == aes256gcm_seal(
            key@,
            r@.subrange(0, 12),
            encode_utf8(plaintext@),
        ),
        decrypt_spec(key@, r@) == Some(plaintext@),
{
    let nonce = random_nonce();
    let nonce_slice = vstd::array::array_as_slice(&nonce);
    let bytes = plaintext.as_bytes();
    let sealed = aes_seal(key, nonce_slice, bytes);
    let mut out: Vec<u8> = Vec::new();
    let mut i: usize = 0;
    while i < NONCE_LEN
        invariant
            i <= NONCE_LEN,
            nonce_slice@.len() == NONCE_LEN,
            out@ == nonce_slice@.subrange(0, i as int),
        decreases NONCE_LEN - i,
    {
        out.push(nonce_slice[i]);
        proof {
            assert(out@ =~= nonce_slice@.subrange(0, i + 1));
        }
        i = i + 1;
    }
    let mut j: usize = 0;
    while j < sealed.len()
        invariant
            j <= sealed@.len(),
            nonce_slice@.len() == NONCE_LEN,
            out@ == nonce_slice@ + sealed@.subrange(0, j as int),
        decreases sealed@.len() - j,
    {
        out.push(sealed[j]);
        proof {
            assert(out@ =~= nonce_slice@ + sealed@.subrange(0, j + 1));
        }
        j = j + 1;
    }
    proof {
        assert(sealed@.subrange(0, j as int) =~= sealed@);
        assert(out@.subrange(0, 12) =~= nonce_slice@);
        assert(out@.subrange(12, out@.len() as int) =~= sealed@);
        assert(bytes@ == encode_utf8(plaintext@));
    }
    out
}

/// Opens a sealed value; `None` when it is too short to hold a nonce, fails its tag
/// under the key, or does not hold UTF-8 text.
pub fn decrypt(key: &[u8; 32], data: &[u8]) -> (r: Option<String>)
    ensures
        match r {
            Some(s) => decrypt_spec(key@, data@) == Some(s@),
            None => decrypt_spec(key@, data@) is None,
        },
{
    if data.len() < NONCE_LEN {
        return None;
    }
    let nonce = vstd::slice::slice_subrange(data, 0, 12);
    let ciphertext = vstd::slice::slice_subrange(data, 12, data.len());
    match aes_open(key, nonce, ciphertext) {
        None => None,
        Some(p) => utf8_text(p),
    }
}

} // verus!
