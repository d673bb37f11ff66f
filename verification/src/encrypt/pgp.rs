//! Decryption of OpenPGP messages with the node's private key.
use crate::encrypt::{EncryptError, EncryptionHandler};
use crate::primitives::{pgp_check_message, pgp_decrypt, pgp_decrypted, pgp_message_parses};
use vstd::prelude::*;

verus! {

/// Whether `r` is what decrypting `data` with the armored key `key` and the
/// passphrase `pass` gives: a decode error when `data` is no OpenPGP message,
/// a decryption error when the key cannot open it, and the plaintext
/// otherwise.
pub open spec fn pgp_outcome(key: Seq<char>, pass: Seq<char>, data: Seq<u8>, r: Result<Vec<u8>, EncryptError>) -> bool {
    if !pgp_message_parses(data) {
        r == Err::<Vec<u8>, EncryptError>(EncryptError::MessageDecodeError)
    } else {
        match pgp_decrypted(key, pass, data) {
            Some(p) => r matches Ok(q) && q@ == p,
            None => r == Err::<Vec<u8>, EncryptError>(EncryptError::PgpDecryptError),
        }
    }
}

/// The result of a decryption, from whether the bytes parsed as a message and
/// what decrypting them gave: a decode error for bytes that are no message, a
/// decryption error when the key could not open it, the plaintext otherwise.
pub fn decryption_result(parsed: bool, decrypted: Result<Vec<u8>, ()>) -> (r: Result<Vec<u8>, EncryptError>)
    ensures
        !parsed ==> r == Err::<Vec<u8>, EncryptError>(EncryptError::MessageDecodeError),
        parsed ==> match decrypted {
            Ok(p) => r matches Ok(q) && q@ == p@,
            Err(_) => r == Err::<Vec<u8>, EncryptError>(EncryptError::PgpDecryptError),
        },
{
    if !parsed {
        Err(EncryptError::MessageDecodeError)
    } else {
        match decrypted {
            Ok(p) => Ok(p),
            Err(_) => Err(EncryptError::PgpDecryptError),
        }
    }
}

/// Decryption of OpenPGP messages addressed to the node.
pub trait Pgp {
    /// The armored private key messages are decrypted with.
    spec fn pgp_key(&self) -> Seq<char>;

    /// The passphrase that unlocks the private key.
    spec fn pgp_passphrase(&self) -> Seq<char>;

    /// Decrypts the OpenPGP message `data`.
    fn decrypt(&self, data: &[u8]) -> (r: Result<Vec<u8>, EncryptError>)
        ensures
            pgp_outcome(self.pgp_key(), self.pgp_passphrase(), data@, r),
    ;
}

impl Pgp for EncryptionHandler {
    open spec fn pgp_key(&self) -> Seq<char> {
        self.pgp_private@
    }

    open spec fn pgp_passphrase(&self) -> Seq<char> {
        self.pgp_pass@
    }

    fn decrypt(&self, data: &[u8]) -> (r: Result<Vec<u8>, EncryptError>) {
        let parsed = pgp_check_message(data);
        if !parsed {
            return decryption_result(false, Err(()));
        }
        let decrypted = pgp_decrypt(self.pgp_private.as_str(), self.pgp_pass.as_str(), data);
        decryption_result(true, decrypted)
    }
}

/// Decryption tells its failures apart: bytes that are no OpenPGP message
/// fail to decode; a message the key cannot open fails to decrypt; a message
/// it opens gives exactly its plaintext.
pub proof fn lemma_decryption_outcomes(key: Seq<char>, pass: Seq<char>, data: Seq<u8>, r: Result<Vec<u8>, EncryptError>)
    requires
        pgp_outcome(key, pass, data, r),
    ensures
        !pgp_message_parses(data) ==> r == Err::<Vec<u8>, EncryptError>(EncryptError::MessageDecodeError),
        pgp_message_parses(data) && pgp_decrypted(key, pass, data) is None
            ==> r == Err::<Vec<u8>, EncryptError>(EncryptError::PgpDecryptError),
        pgp_message_parses(data) && pgp_decrypted(key, pass, data) is Some
            ==> (r matches Ok(q) && Some(q@) == pgp_decrypted(key, pass, data)),
        r is Ok ==> pgp_message_parses(data),
{
}

} // verus!
