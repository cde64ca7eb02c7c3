use vstd::prelude::*;

use crate::state::{Bound, State};

verus! {

#[verifier::external_type_specification]
#[verifier::external_body]
pub struct ExRsaError(rsa::errors::Error);

#[verifier::external_type_specification]
#[verifier::external_body]
pub struct ExSpkiError(rsa::pkcs8::spki::Error);

/// Why bytes could not be decoded.
#[derive(Debug)]
pub enum DeserializeError {
    /// More bytes are needed; nothing was consumed.
    UnexpectedEof,
    /// A variable-length integer kept its continuation bit past its last byte.
    VarIntTooLong,
    /// An enum tag that names no variant: the enum's name and the tag.
    InvalidEnumVariant(&'static str, i64),
    /// A string's bytes are not UTF-8.
    InvalidUtf8,
    /// A legacy reply's code units are not UTF-16.
    InvalidUtf16,
    /// No packet has this id in this direction and state.
    UnknownPacketId(Bound, State, i32),
    /// A frame whose contents do not match its packet.
    BrokenPacket,
    /// A decrypted shared secret that is not sixteen bytes long.
    InvalidSharedSecretLength,
    /// The compressed part of a frame could not be inflated.
    ZlibError,
    /// RSA decryption failed.
    RsaError(rsa::errors::Error),
    /// A public key that is not a DER-encoded SubjectPublicKeyInfo of an RSA key.
    SpkiError,
}

/// Why a value could not be encoded.
#[derive(Debug)]
pub enum SerializeError {
    /// A frame longer than a `VarInt` length prefix can state.
    FrameTooLong,
    /// RSA encryption failed.
    RsaError(rsa::errors::Error),
    /// A public key whose modulus is too short for PKCS#1 v1.5 padding.
    KeyTooSmall,
    /// A public key could not be DER-encoded, or its encoding does not read back.
    SpkiError,
}

} // verus!
