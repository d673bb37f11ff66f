//! AES-256-GCM encryption of a connection, and the derivation of its key.
use crate::crypto::{Cipher, CipherError};
use crate::primitives::{
    aes256gcm_decrypt, aes256gcm_encrypt, aes256gcm_open, aes256gcm_random_nonce, aes256gcm_seal,
    aes_gcm_max_plaintext, hkdf_sha256_32, hkdf_sha256_expand32,
};
use vstd::prelude::*;

verus! {

/// The HKDF info string of the AES key: `b"aes-256-gcm key"`.
pub open spec fn aes_key_info() -> Seq<u8> {
    seq![97u8, 101, 115, 45, 50, 53, 54, 45, 103, 99, 109, 32, 107, 101, 121]
}

/// The HKDF info string of the AES key, as bytes.
pub fn aes_key_info_bytes() -> (r: [u8; 15])
    ensures
        r@ == aes_key_info(),
{
    let r: [u8; 15] = [97u8, 101, 115, 45, 50, 53, 54, 45, 103, 99, 109, 32, 107, 101, 121];
    assert(r@ =~= aes_key_info());
    r
}

/// The AES key derived from a shared secret and the exchange's transcript:
/// HKDF-SHA256 with the transcript as salt and `aes_key_info()` as info.
pub open spec fn derived_aes_key(secret: Seq<u8>, transcript: Seq<u8>) -> Seq<u8> {
    hkdf_sha256_32(transcript, secret, aes_key_info())
}

/// What decrypting `data` under `nonce` gives with the AES key `key`, if any.
pub open spec fn decrypt_result(key: Option<Seq<u8>>, data: Seq<u8>, nonce: Seq<u8>) -> Result<Seq<u8>, CipherError> {
    match key {
        None => Err(CipherError::EarlyCallError),
        Some(k) => match aes256gcm_open(k, nonce, data) {
            Some(p) => Ok(p),
            None => Err(CipherError::AesDecryptError),
        },
    }
}

/// Symmetric encryption with the key a connection agreed on.
pub trait Aes {
    /// Encrypts `data` under a fresh nonce; returns the nonce and the ciphertext.
    fn encrypt(&self, data: &[u8]) -> Result<([u8; 12], Vec<u8>), CipherError>;

    /// Decrypts `data` under `nonce`.
    fn decrypt(&self, data: &[u8], nonce: [u8; 12]) -> Result<Vec<u8>, CipherError>;

    /// Derives the AES key from a shared secret and the exchange's transcript.
    fn derive_key(&mut self, secret: &[u8; 32], transcript: &[u8]) -> Result<(), CipherError>;
}

impl Aes for Cipher {
    fn encrypt(&self, data: &[u8]) -> (r: Result<([u8; 12], Vec<u8>), CipherError>)
        ensures
            self.aes_key() is None ==> r == Err::<([u8; 12], Vec<u8>), CipherError>(CipherError::EarlyCallError),
            self.aes_key() is Some ==> {
                &&& (data@.len() <= aes_gcm_max_plaintext()) == (r is Ok)
                &&& r is Err ==> r == Err::<([u8; 12], Vec<u8>), CipherError>(CipherError::AesEncryptError)
            },
            r matches Ok((n, c)) ==> {
                &&& c@ == aes256gcm_seal(self.aes_key()->0, n@, data@)
                &&& c@.len() == data@.len() + 16
                &&& decrypt_result(self.aes_key(), c@, n@) == Ok::<Seq<u8>, CipherError>(data@)
            },
    {
        let Some(ref key) = self.aes_cipher else {
            return Err(CipherError::EarlyCallError);
        };
        let nonce = aes256gcm_random_nonce();
        match aes256gcm_encrypt(key, &nonce, data) {
            Ok(encrypted) => Ok((nonce, encrypted)),
            Err(_) => Err(CipherError::AesEncryptError),
        }
    }

    fn decrypt(&self, data: &[u8], nonce: [u8; 12]) -> (r: Result<Vec<u8>, CipherError>)
        ensures
            match decrypt_result(self.aes_key(), data@, nonce@) {
                Ok(p) => r matches Ok(q) && q@ == p,
                Err(e) => r == Err::<Vec<u8>, CipherError>(e),
            },
    {
        let Some(ref key) = self.aes_cipher else {
            return Err(CipherError::EarlyCallError);
        };
        match aes256gcm_decrypt(key, &nonce, data) {
            Ok(p) => Ok(p),
            Err(_) => Err(CipherError::AesDecryptError),
        }
    }

    fn derive_key(&mut self, secret: &[u8; 32], transcript: &[u8]) -> (r: Result<(), CipherError>)
        ensures
            r is Ok,
            final(self).aes_key() == Some(derived_aes_key(secret@, transcript@)),
            final(self).x25_secret == old(self).x25_secret,
            final(self).x25_public == old(self).x25_public,
            final(self).pgp_private@ == old(self).pgp_private@,
            final(self).pgp_pass@ == old(self).pgp_pass@,
    {
        let info = aes_key_info_bytes();
        let key = match hkdf_sha256_expand32(transcript, secret, &info) {
            Ok(k) => k,
            Err(_) => return Err(CipherError::KeyDeriveError),
        };
        self.aes_cipher = Some(key);
        Ok(())
    }
}

} // verus!
