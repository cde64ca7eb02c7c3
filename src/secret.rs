//! The login handshake's RSA step: the shared secret and the verify token,
//! encrypted with PKCS#1 v1.5 under the server's public key.
use vstd::prelude::*;

use rsa::pkcs8::{DecodePublicKey, EncodePublicKey};
use rsa::{PublicKey, PublicKeyParts};

use crate::error::{DeserializeError, SerializeError};
use crate::login::{EncryptedVerifyToken, EncryptionRequest, SharedSecret};
use crate::types::Serialize;

verus! {

#[verifier::external_type_specification]
#[verifier::external_body]
pub struct ExRsaPublicKey(rsa::RsaPublicKey);

#[verifier::external_type_specification]
#[verifier::external_body]
pub struct ExRsaPrivateKey(rsa::RsaPrivateKey);

/// Relies on `PublicKeyParts::size` of `rsa::RsaPublicKey`: the modulus's
/// length in bytes.
#[verifier::external_body]
fn rsa_modulus_len(key: &rsa::RsaPublicKey) -> usize {
    key.size()
}

/// An RSA public key with the length of its modulus in bytes. The fields are
/// private and only `new` sets them, from the key itself.
pub struct RsaKey {
    key: rsa::RsaPublicKey,
    modulus_len: usize,
}

impl RsaKey {
    /// The length of the key's modulus in bytes.
    pub closed spec fn spec_modulus_len(&self) -> usize {
        self.modulus_len
    }

    /// `key` with the length of its modulus.
    pub fn new(key: rsa::RsaPublicKey) -> (r: RsaKey) {
        let modulus_len = rsa_modulus_len(&key);
        RsaKey { key, modulus_len }
    }

    /// The length of the key's modulus in bytes.
    pub fn modulus_len(&self) -> (r: usize)
        ensures
            r == self.spec_modulus_len(),
    {
        self.modulus_len
    }
}

/// Relies on `PublicKey::encrypt` of `rsa::RsaPublicKey` with PKCS#1 v1.5
/// padding and the thread's random generator; the padding is random, so
/// nothing is promised of the bytes. rsa subtracts 11 from the modulus length,
/// so the key's modulus must be at least 11 bytes long.
#[verifier::external_body]
fn rsa_encrypt(key: &RsaKey, msg: &[u8]) -> Result<Vec<u8>, rsa::errors::Error>
    requires
        key.spec_modulus_len() >= 11,
{
    key.key.encrypt(&mut rand::thread_rng(), rsa::PaddingScheme::PKCS1v15Encrypt, msg)
}

/// Relies on `RsaPrivateKey::decrypt` with PKCS#1 v1.5 padding.
#[verifier::external_body]
fn rsa_decrypt(key: &rsa::RsaPrivateKey, ciphertext: &[u8]) -> Result<Vec<u8>, rsa::errors::Error> {
    key.decrypt(rsa::PaddingScheme::PKCS1v15Encrypt, ciphertext)
}

/// Whether `der` is the DER encoding of an RSA key's SubjectPublicKeyInfo.
pub uninterp spec fn rsa_spki_valid(der: Seq<u8>) -> bool;

/// Relies on `DecodePublicKey::from_public_key_der` of `rsa::RsaPublicKey`,
/// which reads DER-encoded SubjectPublicKeyInfo and succeeds exactly on such
/// encodings of an RSA key.
#[verifier::external_body]
fn rsa_public_key_from_der(der: &[u8]) -> (r: Result<rsa::RsaPublicKey, rsa::pkcs8::spki::Error>)
    ensures
        r is Ok == rsa_spki_valid(der@),
{
    rsa::RsaPublicKey::from_public_key_der(der)
}

/// Relies on `EncodePublicKey::to_public_key_der` of `rsa::RsaPublicKey`,
/// which writes DER-encoded SubjectPublicKeyInfo.
#[verifier::external_body]
fn rsa_public_key_to_der(key: &rsa::RsaPublicKey) -> Result<Vec<u8>, rsa::pkcs8::spki::Error> {
    match key.to_public_key_der() {
        Ok(document) => Ok(document.as_ref().to_vec()),
        Err(e) => Err(e),
    }
}

/// The sixteen-byte secret in a decrypted plaintext: the plaintext itself, if
/// it is sixteen bytes long.
pub fn secret_from_plaintext(plain: Vec<u8>) -> (r: Result<[u8; 16], DeserializeError>)
    ensures
        match r {
            Ok(s) => plain@.len() == 16 && s@ == plain@,
            Err(e) => plain@.len() != 16 && e is InvalidSharedSecretLength,
        },
{
    if plain.len() != 16 {
        return Err(DeserializeError::InvalidSharedSecretLength);
    }
    let mut secret = [0u8; 16];
    let mut i: usize = 0;
    while i < 16
        invariant
            plain@.len() == 16,
            i <= 16,
            forall|j: int| 0 <= j < i ==> secret@[j] == plain@[j],
        decreases 16 - i,
    {
        secret[i] = plain[i];
        i = i + 1;
    }
    assert(secret@ =~= plain@);
    Ok(secret)
}

/// An RSA public key as DER-encoded SubjectPublicKeyInfo, written with a
/// `VarInt` length; reading refuses bytes that are not such a key.
#[derive(Debug, Clone)]
pub struct PublicKeyDer(pub Vec<u8>);

impl Serialize for PublicKeyDer {
    type Model = Seq<u8>;

    open spec fn self_delimited() -> bool {
        true
    }

    open spec fn model(&self) -> Seq<u8> {
        self.0@
    }

    open spec fn valid(m: Seq<u8>) -> bool {
        <Vec<u8> as Serialize>::valid(m) && rsa_spki_valid(m)
    }

    open spec fn encode(m: Seq<u8>) -> Seq<u8> {
        <Vec<u8> as Serialize>::encode(m)
    }

    open spec fn parse(s: Seq<u8>) -> Result<(Seq<u8>, nat), DeserializeError> {
        match <Vec<u8> as Serialize>::parse(s) {
            Ok((der, n)) => if rsa_spki_valid(der) {
                Ok((der, n))
            } else {
                Err(DeserializeError::SpkiError)
            },
            Err(e) => Err(e),
        }
    }

    fn serialize(&self, buf: &mut Vec<u8>) {
        assert(self.0.model() =~= self.0@);
        self.0.serialize(buf);
    }

    fn deserialize(buf: &[u8], pos: usize) -> (r: Result<(PublicKeyDer, usize), DeserializeError>) {
        match <Vec<u8> as Serialize>::deserialize(buf, pos) {
            Ok((der, p)) => {
                assert(der.model() =~= der@);
                if rsa_public_key_from_der(der.as_slice()).is_ok() {
                    Ok((PublicKeyDer(der), p))
                } else {
                    Err(DeserializeError::SpkiError)
                }
            },
            Err(e) => Err(e),
        }
    }

    proof fn lemma_round_trip(m: Seq<u8>, rest: Seq<u8>) {
        <Vec<u8> as Serialize>::lemma_round_trip(m, rest);
    }

    proof fn lemma_parse_len(s: Seq<u8>) {
        <Vec<u8> as Serialize>::lemma_parse_len(s);
    }
}

impl SharedSecret {
    /// Encrypts `secret` with PKCS#1 v1.5 under `public_key`.
    pub fn encrypt(secret: &[u8; 16], public_key: rsa::RsaPublicKey) -> (r: Result<SharedSecret, SerializeError>)
        ensures
            r matches Err(e) ==> e is RsaError || e is KeyTooSmall,
    {
        Self::encrypt_with(secret, &RsaKey::new(public_key))
    }

    /// Encrypts `secret` with PKCS#1 v1.5 under `key`: refused exactly when the
    /// key's modulus is shorter than the padding needs.
    pub fn encrypt_with(secret: &[u8; 16], key: &RsaKey) -> (r: Result<SharedSecret, SerializeError>)
        ensures
            (r matches Err(e) && e is KeyTooSmall) <==> key.spec_modulus_len() < 11,
            r matches Err(e) ==> e is RsaError || e is KeyTooSmall,
    {
        if key.modulus_len() < 11 {
            return Err(SerializeError::KeyTooSmall);
        }
        match rsa_encrypt(key, secret.as_slice()) {
            Ok(encrypted_secret) => Ok(SharedSecret { encrypted_secret }),
            Err(e) => Err(SerializeError::RsaError(e)),
        }
    }

    /// Decrypts the secret with `private_key`; a plaintext that is not sixteen
    /// bytes long is refused.
    pub fn decrypt(&self, private_key: rsa::RsaPrivateKey) -> (r: Result<[u8; 16], DeserializeError>)
        ensures
            r matches Err(e) ==> e is RsaError || e is InvalidSharedSecretLength,
    {
        Self::secret_from_decryption(rsa_decrypt(&private_key, self.encrypted_secret.as_slice()))
    }

    /// The secret that an RSA decryption's outcome gives: the plaintext if it
    /// is sixteen bytes long, else a length error; a failed decryption stays
    /// an RSA error.
    pub fn secret_from_decryption(outcome: Result<Vec<u8>, rsa::errors::Error>) -> (r: Result<
        [u8; 16],
        DeserializeError,
    >)
        ensures
            match outcome {
                Ok(plain) => match r {
                    Ok(s) => plain@.len() == 16 && s@ == plain@,
                    Err(e) => plain@.len() != 16 && e is InvalidSharedSecretLength,
                },
                Err(_) => r matches Err(e) && e is RsaError,
            },
    {
        match outcome {
            Ok(plain) => secret_from_plaintext(plain),
            Err(e) => Err(DeserializeError::RsaError(e)),
        }
    }
}

impl EncryptedVerifyToken {
    /// Encrypts `verify_token` with PKCS#1 v1.5 under `public_key`.
    pub fn encrypt(verify_token: &[u8], public_key: rsa::RsaPublicKey) -> (r: Result<EncryptedVerifyToken, SerializeError>)
        ensures
            r matches Err(e) ==> e is RsaError || e is KeyTooSmall,
    {
        Self::encrypt_with(verify_token, &RsaKey::new(public_key))
    }

    /// Encrypts `verify_token` with PKCS#1 v1.5 under `key`: refused exactly
    /// when the key's modulus is shorter than the padding needs.
    pub fn encrypt_with(verify_token: &[u8], key: &RsaKey) -> (r: Result<EncryptedVerifyToken, SerializeError>)
        ensures
            (r matches Err(e) && e is KeyTooSmall) <==> key.spec_modulus_len() < 11,
            r matches Err(e) ==> e is RsaError || e is KeyTooSmall,
    {
        if key.modulus_len() < 11 {
            return Err(SerializeError::KeyTooSmall);
        }
        match rsa_encrypt(key, verify_token) {
            Ok(encrypted_token) => Ok(EncryptedVerifyToken { encrypted_token }),
            Err(e) => Err(SerializeError::RsaError(e)),
        }
    }

    /// Decrypts the token with `private_key`.
    pub fn decrypt(&self, private_key: rsa::RsaPrivateKey) -> (r: Result<Vec<u8>, DeserializeError>)
        ensures
            r matches Err(e) ==> e is RsaError,
    {
        Self::token_from_decryption(rsa_decrypt(&private_key, self.encrypted_token.as_slice()))
    }

    /// The token that an RSA decryption's outcome gives: the plaintext itself,
    /// or an RSA error.
    pub fn token_from_decryption(outcome: Result<Vec<u8>, rsa::errors::Error>) -> (r: Result<
        Vec<u8>,
        DeserializeError,
    >)
        ensures
            match outcome {
                Ok(plain) => r matches Ok(t) && t@ == plain@,
                Err(_) => r matches Err(e) && e is RsaError,
            },
    {
        match outcome {
            Ok(token) => Ok(token),
            Err(e) => Err(DeserializeError::RsaError(e)),
        }
    }
}

impl EncryptionRequest {
    /// An encryption request carrying `public_key` as DER-encoded
    /// SubjectPublicKeyInfo; the DER written is checked to read back as a key.
    pub fn with_public_key(server_id: String, public_key: &rsa::RsaPublicKey, verify_token: crate::login::VerifyToken) -> (r: Result<
        EncryptionRequest,
        SerializeError,
    >)
        ensures
            r matches Ok(req) ==> req.server_id == server_id && req.verify_token == verify_token
                && rsa_spki_valid(req.public_key.0@),
            r matches Err(e) ==> e is SpkiError,
    {
        match rsa_public_key_to_der(public_key) {
            Ok(der) => {
                if rsa_public_key_from_der(der.as_slice()).is_ok() {
                    Ok(EncryptionRequest { server_id, public_key: PublicKeyDer(der), verify_token })
                } else {
                    Err(SerializeError::SpkiError)
                }
            },
            Err(_) => Err(SerializeError::SpkiError),
        }
    }

    /// The server's public key, read from its DER encoding; malformed DER is refused.
    pub fn public_key(&self) -> (r: Result<rsa::RsaPublicKey, DeserializeError>)
        ensures
            r is Ok == rsa_spki_valid(self.public_key.0@),
            r matches Err(e) ==> e is SpkiError,
    {
        match rsa_public_key_from_der(self.public_key.0.as_slice()) {
            Ok(key) => Ok(key),
            Err(_) => Err(DeserializeError::SpkiError),
        }
    }
}

} // verus!
