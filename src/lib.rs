//! Wire protocol of a block-game client and server: variable-length integers,
//! the value codec, packet framing with compression and encryption, and the
//! connection states that decide which packets a frame may hold.

pub mod chat;
pub mod codec;
pub mod compound;
pub mod crypto;
pub mod error;
pub mod handshake;
pub mod legacy;
pub mod login;
pub mod play;
pub mod position;
pub mod protocol;
pub mod secret;
pub mod state;
pub mod status;
pub mod types;
pub mod varint;
pub mod versioned;

pub use state::{Bound, State};

pub use codec::Codec;
pub use crypto::{StreamDecryptor, StreamEncryptor};
pub use protocol::{PacketCompression, Protocol};
