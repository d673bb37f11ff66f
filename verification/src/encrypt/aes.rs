//! AES-256-GCM encryption once the exchange has produced a key.
use crate::encrypt::{EncryptError, EncryptionHandler};
use crate::primitives::{
    aes256gcm_decrypt, aes256gcm_encrypt, aes256gcm_open, aes256gcm_random_nonce, aes256gcm_seal,
    aes_gcm_max_plaintext,
};
use vstd::prelude::*;

verus! {

/// Symmetric encryption with the key a connection agreed on. Both operations
/// are only to be called once the key exists.
pub trait Aes {
    /// Whether the key exists.
    spec fn has_key(&self) -> bool;

    /// Encrypts `data` under a fresh nonce; returns the nonce and the ciphertext.
    fn encrypt(&self, data: &[u8]) -> Result<([u8; 12], Vec<u8>), EncryptError>
        requires
            self.has_key(),
    ;

    /// Decrypts `data` under `nonce`.
    fn decrypt(&self, data: &[u8], nonce: [u8; 12]) -> Result<Vec<u8>, EncryptError>
        requires
            self.has_key(),
    ;
}

impl Aes for EncryptionHandler {
    open spec fn has_key(&self) -> bool {
        self.cipher is Some
    }

    fn encrypt(&self, data: &[u8]) -> (r: Result<([u8; 12], Vec<u8>), EncryptError>)
        ensures
            (data@.len() <= aes_gcm_max_plaintext()) == (r is Ok),
            r is Err ==> r == Err::<([u8; 12], Vec<u8>), EncryptError>(EncryptError::AesEncryptError),
            r matches Ok((n, c)) ==> {
                &&& c@ == aes256gcm_seal(self.aes_key()->0, n@, data@)
                &&& c@.len() == data@.len() + 16
                &&& aes256gcm_open(self.aes_key()->0, n@, c@) == Some(data@)
            },
    {
        let key = self.cipher.as_ref().unwrap();
        let nonce = aes256gcm_random_nonce();
        match aes256gcm_encrypt(key, &nonce, data) {
            Ok(encrypted) => Ok((nonce, encrypted)),
            Err(_) => Err(EncryptError::AesEncryptError),
        }
    }

    fn decrypt(&self, data: &[u8], nonce: [u8; 12]) -> (r: Result<Vec<u8>, EncryptError>)
        ensures
            match aes256gcm_open(self.aes_key()->0, nonce@, data@) {
                Some(p) => r matches Ok(q) && q@ == p,
                None => r == Err::<Vec<u8>, EncryptError>(EncryptError::AesDecryptError),
            },
    {
        let key = self.cipher.as_ref().unwrap();
        match aes256gcm_decrypt(key, &nonce, data) {
            Ok(p) => Ok(p),
            Err(_) => Err(EncryptError::AesDecryptError),
        }
    }
}

} // verus!
