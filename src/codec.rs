//! One connection's framing state: its direction, its protocol state, its
//! compression policy and its ciphers, which change only when the host says so.
use vstd::prelude::*;

use crate::compound::put_bytes;
use crate::crypto::{StreamDecryptor, StreamEncryptor};
use crate::error::{DeserializeError, SerializeError};
use crate::protocol::{
    dec_advanced, decode_frame, decoded, decrypted, enc_advanced, encrypted, frame_bytes,
    frame_consumed, frame_fits, inner_bytes, PacketCompression, Protocol,
};
use crate::state::{Bound, State};

verus! {

/// The framing state of one connection.
pub struct Codec {
    bound: Bound,
    state: State,
    compression: PacketCompression,
    encryptor: Option<StreamEncryptor>,
    decryptor: Option<StreamDecryptor>,
}

impl Codec {
    /// The direction of the packets this codec decodes.
    pub closed spec fn spec_bound(&self) -> Bound {
        self.bound
    }

    /// The protocol state.
    pub closed spec fn spec_state(&self) -> State {
        self.state
    }

    /// The compression policy.
    pub closed spec fn spec_compression(&self) -> PacketCompression {
        self.compression
    }

    /// The cipher for outgoing bytes, once encryption is on.
    pub closed spec fn spec_encryptor(&self) -> Option<StreamEncryptor> {
        self.encryptor
    }

    /// The cipher for incoming bytes, once encryption is on.
    pub closed spec fn spec_decryptor(&self) -> Option<StreamDecryptor> {
        self.decryptor
    }

    /// A codec for packets travelling in direction `bound`, starting in `state`,
    /// without compression or encryption.
    pub fn new(bound: Bound, state: State) -> (r: Codec)
        ensures
            r.spec_bound() == bound,
            r.spec_state() == state,
            r.spec_compression() == (PacketCompression { enabled: false, threshold: 0 }),
            r.spec_encryptor() is None,
            r.spec_decryptor() is None,
    {
        Codec {
            bound,
            state,
            compression: PacketCompression { enabled: false, threshold: 0 },
            encryptor: None,
            decryptor: None,
        }
    }

    /// Turns compression on from the next frame, with `threshold`.
    pub fn enable_compression(&mut self, threshold: usize)
        ensures
            final(self).spec_compression() == (PacketCompression { enabled: true, threshold }),
            final(self).spec_bound() == old(self).spec_bound(),
            final(self).spec_state() == old(self).spec_state(),
            final(self).spec_encryptor() == old(self).spec_encryptor(),
            final(self).spec_decryptor() == old(self).spec_decryptor(),
    {
        self.compression = PacketCompression { enabled: true, threshold };
    }

    /// Turns encryption on in both directions from the next byte, with `key` as
    /// key and vector.
    pub fn enable_encyption(&mut self, key: [u8; 16])
        ensures
            final(self).spec_encryptor() matches Some(e) && e.key() == key@ && e.history()
                == Seq::<u8>::empty(),
            final(self).spec_decryptor() matches Some(d) && d.key() == key@ && d.history()
                == Seq::<u8>::empty(),
            final(self).spec_bound() == old(self).spec_bound(),
            final(self).spec_state() == old(self).spec_state(),
            final(self).spec_compression() == old(self).spec_compression(),
    {
        self.encryptor = Some(StreamEncryptor::new(key));
        self.decryptor = Some(StreamDecryptor::new(key));
    }

    /// Moves the connection to `state`.
    pub fn set_state(&mut self, state: State)
        ensures
            final(self).spec_state() == state,
            final(self).spec_bound() == old(self).spec_bound(),
            final(self).spec_compression() == old(self).spec_compression(),
            final(self).spec_encryptor() == old(self).spec_encryptor(),
            final(self).spec_decryptor() == old(self).spec_decryptor(),
    {
        self.state = state;
    }

    /// Decodes the frame at the front of `src`: `None` while it is not all
    /// there, with `src` and the cipher unchanged; otherwise the frame leaves
    /// `src` and the packet in it, or why it is not one, comes back.
    pub fn decode(&mut self, src: &mut Vec<u8>) -> (r: Result<Option<Protocol>, DeserializeError>)
        ensures
            ({
                let plain = decrypted(old(self).spec_decryptor(), old(src)@);
                let d = decode_frame(
                    old(self).spec_bound(),
                    old(self).spec_state(),
                    old(self).spec_compression(),
                    plain,
                );
                &&& match r {
                    Ok(None) => d == Err::<crate::protocol::ProtocolModel, DeserializeError>(
                        DeserializeError::UnexpectedEof,
                    ),
                    Ok(Some(p)) => decoded(Ok(p), d),
                    Err(e) => !(e is UnexpectedEof) && decoded(Err(e), d),
                }
                &&& final(src)@ == old(src)@.subrange(frame_consumed(plain) as int, old(src)@.len() as int)
                &&& dec_advanced(
                    old(self).spec_decryptor(),
                    final(self).spec_decryptor(),
                    old(src)@.subrange(0, frame_consumed(plain) as int),
                )
            }),
            final(self).spec_bound() == old(self).spec_bound(),
            final(self).spec_state() == old(self).spec_state(),
            final(self).spec_compression() == old(self).spec_compression(),
            final(self).spec_encryptor() == old(self).spec_encryptor(),
    {
        match Protocol::deserialize(self.bound, self.state, self.compression, &mut self.decryptor, src) {
            Ok(packet) => Ok(Some(packet)),
            Err(DeserializeError::UnexpectedEof) => Ok(None),
            Err(e) => Err(e),
        }
    }

    /// Appends the frame of `item` to `dst`, through the encryptor once
    /// encryption is on.
    pub fn encode(&mut self, item: Protocol, dst: &mut Vec<u8>) -> (r: Result<(), SerializeError>)
        requires
            Protocol::spec_valid(item.model()),
        ensures
            match r {
                Ok(()) => {
                    let out = encrypted(
                        old(self).spec_encryptor(),
                        frame_bytes(old(self).spec_compression(), item.model()),
                    );
                    &&& final(dst)@ == old(dst)@ + out
                    &&& enc_advanced(old(self).spec_encryptor(), final(self).spec_encryptor(), out)
                },
                Err(_) => {
                    &&& !frame_fits(old(self).spec_compression(), inner_bytes(item.model()))
                    &&& final(dst)@ == old(dst)@
                },
            },
            final(self).spec_bound() == old(self).spec_bound(),
            final(self).spec_state() == old(self).spec_state(),
            final(self).spec_compression() == old(self).spec_compression(),
            final(self).spec_decryptor() == old(self).spec_decryptor(),
    {
        match item.serialize(self.compression, &mut self.encryptor) {
            Ok(bytes) => {
                put_bytes(dst, bytes.as_slice());
                Ok(())
            },
            Err(e) => Err(e),
        }
    }
}

} // verus!
