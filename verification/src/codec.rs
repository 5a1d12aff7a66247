//! The symmetric certificate codec: authenticated encryption of
//! certificate payloads with a process-wide key and a fresh random nonce
//! per payload.

use vstd::prelude::*;

use chacha20poly1305::aead::{Aead, OsRng};
use chacha20poly1305::{AeadCore, KeyInit, XChaCha20Poly1305, XNonce};

verus! {

pub const KEY_LEN: usize = 32;

pub const NONCE_LEN: usize = 24;

/// The cipher seals any payload shorter than this bound (its keystream
/// is limited to `u32::MAX` blocks of 64 bytes).
pub const SEAL_MAX_PLAINTEXT_LEN: u64 = 64 * 0xffff_ffff;

/// The ciphertext (tag included) that the cipher produces for a key,
/// nonce and plaintext. Sealing is deterministic in these three alone.
pub uninterp spec fn sealed_of(key: Seq<u8>, nonce: Seq<u8>, plaintext: Seq<u8>) -> Seq<u8>;

/// Errors of the codec.
#[derive(Clone, Copy, PartialEq, Eq, Structural, Debug)]
pub enum CodecError {
    /// The key has the wrong length.
    BadKey,
    /// Authentication failed: the ciphertext is not an intact sealing of
    /// any payload under this key and nonce.
    Integrity,
    /// The cipher itself failed.
    Unexpected,
}

/// Relies on chacha20poly1305's `XChaCha20Poly1305` through `Aead::encrypt`:
/// the ciphertext is a function of key, nonce and plaintext alone, and
/// encryption fails only on a payload of `u32::MAX` or more keystream
/// blocks of 64 bytes.
#[verifier::external_body]
fn aead_seal(key: &Vec<u8>, nonce: &Vec<u8>, plaintext: &Vec<u8>) -> (r: Result<
    Vec<u8>,
    CodecError,
>)
    requires
        key@.len() == KEY_LEN,
        nonce@.len() == NONCE_LEN,
    ensures
        r is Ok ==> r->Ok_0@ == sealed_of(key@, nonce@, plaintext@),
        plaintext@.len() < SEAL_MAX_PLAINTEXT_LEN ==> r is Ok,
        r is Err ==> r->Err_0 == CodecError::Unexpected,
{
    let cipher = XChaCha20Poly1305::new_from_slice(key.as_slice()).map_err(
        |_| CodecError::Unexpected,
    )?;
    cipher.encrypt(XNonce::from_slice(nonce.as_slice()), plaintext.as_slice()).map_err(
        |_| CodecError::Unexpected,
    )
}

/// Relies on chacha20poly1305's `XChaCha20Poly1305` through `Aead::decrypt`:
/// decryption inverts encryption, so a ciphertext sealed under this key
/// and nonce opens to exactly the sealed plaintext; what opens
/// successfully is what was sealed.
#[verifier::external_body]
fn aead_open(key: &Vec<u8>, nonce: &Vec<u8>, ciphertext: &Vec<u8>) -> (r: Result<
    Vec<u8>,
    CodecError,
>)
    requires
        key@.len() == KEY_LEN,
        nonce@.len() == NONCE_LEN,
    ensures
        r is Ok ==> ciphertext@ == sealed_of(key@, nonce@, r->Ok_0@),
        forall|p: Seq<u8>| ciphertext@ == sealed_of(key@, nonce@, p) ==> r is Ok && r->Ok_0@ == p,
{
    let cipher = XChaCha20Poly1305::new_from_slice(key.as_slice()).map_err(
        |_| CodecError::BadKey,
    )?;
    cipher.decrypt(XNonce::from_slice(nonce.as_slice()), ciphertext.as_slice()).map_err(
        |_| CodecError::Integrity,
    )
}

/// Relies on chacha20poly1305's `AeadCore::generate_nonce` with the OS
/// RNG: 24 bytes, random per call; nothing more is assumed of them.
#[verifier::external_body]
fn generate_nonce() -> (r: Vec<u8>)
    ensures
        r@.len() == NONCE_LEN,
{
    XChaCha20Poly1305::generate_nonce(&mut OsRng).to_vec()
}

/// A certificate payload sealed for the orchestrator: the fresh nonce
/// and the authenticated ciphertext.
pub struct EncryptedPayload {
    pub nonce: Vec<u8>,
    pub ciphertext: Vec<u8>,
}

/// The process-wide symmetric codec, created once from the key file's
/// contents at startup.
pub struct Codec {
    key: Vec<u8>,
}

impl Codec {
    /// The key is exactly the cipher's key length.
    pub closed spec fn wf(&self) -> bool {
        self.key@.len() == KEY_LEN
    }

    pub closed spec fn key(&self) -> Seq<u8> {
        self.key@
    }

    /// Accepts exactly the keys of the cipher's key length.
    pub fn new(key: Vec<u8>) -> (r: Result<Codec, CodecError>)
        ensures
            r is Ok <==> key@.len() == KEY_LEN,
            r is Ok ==> r->Ok_0.wf() && r->Ok_0.key() == key@,
            r is Err ==> r->Err_0 == CodecError::BadKey,
    {
        if key.len() == KEY_LEN {
            Ok(Codec { key })
        } else {
            Err(CodecError::BadKey)
        }
    }

    /// Seals a payload under a fresh random nonce. On success the
    /// returned ciphertext is exactly the sealing of the payload under
    /// the codec's key and the returned nonce; success is owed on every
    /// payload below the cipher's length bound.
    pub fn encrypt(&self, plaintext: &Vec<u8>) -> (r: Result<EncryptedPayload, CodecError>)
        requires
            self.wf(),
        ensures
            r is Ok ==> r->Ok_0.nonce@.len() == NONCE_LEN && r->Ok_0.ciphertext@ == sealed_of(
                self.key(),
                r->Ok_0.nonce@,
                plaintext@,
            ),
            plaintext@.len() < SEAL_MAX_PLAINTEXT_LEN ==> r is Ok,
            r is Err ==> r->Err_0 == CodecError::Unexpected,
    {
        let nonce = generate_nonce();
        let ciphertext = aead_seal(&self.key, &nonce, plaintext)?;
        Ok(EncryptedPayload { nonce, ciphertext })
    }

    /// Opens a sealed payload. The second clause is the codec round
    /// trip: whatever was sealed under this key and nonce is returned
    /// unchanged, so `decrypt` inverts `encrypt`. Every failure is an
    /// integrity failure: the ciphertext was not an intact sealing.
    pub fn decrypt(&self, nonce: &Vec<u8>, ciphertext: &Vec<u8>) -> (r: Result<
        Vec<u8>,
        CodecError,
    >)
        requires
            self.wf(),
            nonce@.len() == NONCE_LEN,
        ensures
            r is Ok ==> ciphertext@ == sealed_of(self.key(), nonce@, r->Ok_0@),
            forall|p: Seq<u8>| ciphertext@ == sealed_of(self.key(), nonce@, p) ==> r is Ok
                && r->Ok_0@ == p,
            r is Err ==> r->Err_0 == CodecError::Integrity,
    {
        match aead_open(&self.key, nonce, ciphertext) {
            Ok(p) => Ok(p),
            Err(_) => Err(CodecError::Integrity),
        }
    }
}

} // verus!
