//! AES-128 in CFB8 mode, one byte at a time, with the shared secret as both key
//! and initialisation vector.
//!
//! In CFB8 each output byte is the input byte xor the first byte of AES applied
//! to a sixteen-byte shift register; the register starts as the vector and
//! shifts in every ciphertext byte. So the byte that a stream xors in depends
//! on the key and the ciphertext that went before, and encryption and
//! decryption over the same ciphertext stay in lockstep.
use vstd::prelude::*;

use aes::cipher::{BlockDecryptMut, BlockEncryptMut, KeyIvInit};

verus! {

/// The `cfb8` crate's encryptor over AES-128. Verus refuses a declaration of
/// `cfb8::Encryptor` itself, whose parameter is bounded by outside traits, so
/// the value is held here, opaque.
#[verifier::external_body]
struct Cfb8Aes128Encryptor {
    inner: cfb8::Encryptor<aes::Aes128>,
}

/// The `cfb8` crate's decryptor over AES-128, held opaque for the same reason.
#[verifier::external_body]
struct Cfb8Aes128Decryptor {
    inner: cfb8::Decryptor<aes::Aes128>,
}

/// The byte that AES-128/CFB8 under `key` (also the vector) xors into the next
/// byte after the ciphertext `history`: the first byte of AES-128 applied to
/// the last sixteen bytes of the vector followed by `history`.
pub uninterp spec fn cfb8_keystream(key: Seq<u8>, history: Seq<u8>) -> u8;

/// The ciphertext of `plain` after the ciphertext `history`.
pub open spec fn cfb8_encrypt(key: Seq<u8>, history: Seq<u8>, plain: Seq<u8>) -> Seq<u8>
    decreases plain.len(),
{
    if plain.len() == 0 {
        seq![]
    } else {
        let prev = cfb8_encrypt(key, history, plain.drop_last());
        prev.push(plain.last() ^ cfb8_keystream(key, history + prev))
    }
}

/// The plaintext of `cipher` after the ciphertext `history`.
pub open spec fn cfb8_decrypt(key: Seq<u8>, history: Seq<u8>, cipher: Seq<u8>) -> Seq<u8>
    decreases cipher.len(),
{
    if cipher.len() == 0 {
        seq![]
    } else {
        cfb8_decrypt(key, history, cipher.drop_last()).push(
            cipher.last() ^ cfb8_keystream(key, history + cipher.drop_last()),
        )
    }
}

proof fn lemma_xor_cancel(a: u8, b: u8)
    by (bit_vector)
    ensures
        (a ^ b) ^ b == a,
{
}

/// Ciphertext has the plaintext's length.
pub proof fn lemma_encrypt_len(key: Seq<u8>, history: Seq<u8>, plain: Seq<u8>)
    ensures
        cfb8_encrypt(key, history, plain).len() == plain.len(),
    decreases plain.len(),
{
    if plain.len() > 0 {
        lemma_encrypt_len(key, history, plain.drop_last());
    }
}

/// Plaintext has the ciphertext's length.
pub proof fn lemma_decrypt_len(key: Seq<u8>, history: Seq<u8>, cipher: Seq<u8>)
    ensures
        cfb8_decrypt(key, history, cipher).len() == cipher.len(),
    decreases cipher.len(),
{
    if cipher.len() > 0 {
        lemma_decrypt_len(key, history, cipher.drop_last());
    }
}

/// Decrypting with the same key after the same history undoes encryption.
pub proof fn lemma_decrypt_encrypt(key: Seq<u8>, history: Seq<u8>, plain: Seq<u8>)
    ensures
        cfb8_decrypt(key, history, cfb8_encrypt(key, history, plain)) == plain,
    decreases plain.len(),
{
    if plain.len() > 0 {
        let c = cfb8_encrypt(key, history, plain);
        let prev = cfb8_encrypt(key, history, plain.drop_last());
        assert(c.drop_last() =~= prev);
        lemma_decrypt_encrypt(key, history, plain.drop_last());
        lemma_xor_cancel(plain.last(), cfb8_keystream(key, history + prev));
        assert(cfb8_decrypt(key, history, c) =~= plain);
    }
}

/// Decryption byte by byte: a prefix of the ciphertext decrypts to the same
/// prefix of the plaintext.
pub proof fn lemma_decrypt_prefix(key: Seq<u8>, history: Seq<u8>, cipher: Seq<u8>, k: nat)
    requires
        k <= cipher.len(),
    ensures
        cfb8_decrypt(key, history, cipher.subrange(0, k as int)) == cfb8_decrypt(
            key,
            history,
            cipher,
        ).subrange(0, k as int),
    decreases cipher.len(),
{
    lemma_decrypt_len(key, history, cipher);
    if k < cipher.len() {
        lemma_decrypt_prefix(key, history, cipher.drop_last(), k);
        assert(cipher.drop_last().subrange(0, k as int) =~= cipher.subrange(0, k as int));
        assert(cfb8_decrypt(key, history, cipher).drop_last() =~= cfb8_decrypt(
            key,
            history,
            cipher.drop_last(),
        ));
        assert(cfb8_decrypt(key, history, cipher.drop_last()).subrange(0, k as int)
            =~= cfb8_decrypt(key, history, cipher).subrange(0, k as int));
    } else {
        assert(cipher.subrange(0, k as int) =~= cipher);
        assert(cfb8_decrypt(key, history, cipher).subrange(0, k as int) =~= cfb8_decrypt(
            key,
            history,
            cipher,
        ));
    }
}

/// Encryption in two pieces is encryption of the whole.
pub proof fn lemma_encrypt_concat(key: Seq<u8>, history: Seq<u8>, a: Seq<u8>, b: Seq<u8>)
    ensures
        cfb8_encrypt(key, history, a + b) == cfb8_encrypt(key, history, a) + cfb8_encrypt(
            key,
            history + cfb8_encrypt(key, history, a),
            b,
        ),
    decreases b.len(),
{
    let ca = cfb8_encrypt(key, history, a);
    if b.len() == 0 {
        assert(a + b =~= a);
        assert(ca + cfb8_encrypt(key, history + ca, b) =~= ca);
    } else {
        assert((a + b).drop_last() =~= a + b.drop_last());
        lemma_encrypt_concat(key, history, a, b.drop_last());
        assert(history + (ca + cfb8_encrypt(key, history + ca, b.drop_last())) =~= (history + ca)
            + cfb8_encrypt(key, history + ca, b.drop_last()));
        assert(cfb8_encrypt(key, history, a + b) =~= ca + cfb8_encrypt(key, history + ca, b));
    }
}

/// Decryption in two pieces is decryption of the whole.
pub proof fn lemma_decrypt_concat(key: Seq<u8>, history: Seq<u8>, a: Seq<u8>, b: Seq<u8>)
    ensures
        cfb8_decrypt(key, history, a + b) == cfb8_decrypt(key, history, a) + cfb8_decrypt(
            key,
            history + a,
            b,
        ),
    decreases b.len(),
{
    if b.len() == 0 {
        assert(a + b =~= a);
        assert(cfb8_decrypt(key, history, a) + cfb8_decrypt(key, history + a, b) =~= cfb8_decrypt(
            key,
            history,
            a,
        ));
    } else {
        assert((a + b).drop_last() =~= a + b.drop_last());
        lemma_decrypt_concat(key, history, a, b.drop_last());
        assert(history + (a + b.drop_last()) =~= (history + a) + b.drop_last());
        assert(cfb8_decrypt(key, history, a + b) =~= cfb8_decrypt(key, history, a) + cfb8_decrypt(
            key,
            history + a,
            b,
        ));
    }
}

/// The encrypting half of a connection's cipher.
pub struct StreamEncryptor {
    cipher: Cfb8Aes128Encryptor,
    key: Ghost<Seq<u8>>,
    history: Ghost<Seq<u8>>,
}

/// The decrypting half of a connection's cipher.
pub struct StreamDecryptor {
    cipher: Cfb8Aes128Decryptor,
    key: Ghost<Seq<u8>>,
    history: Ghost<Seq<u8>>,
}

impl StreamEncryptor {
    /// The shared secret, used as key and as vector.
    pub closed spec fn key(&self) -> Seq<u8> {
        self.key@
    }

    /// The ciphertext produced so far.
    pub closed spec fn history(&self) -> Seq<u8> {
        self.history@
    }

    /// A fresh encryptor with `key` as key and as vector.
    pub fn new(key: [u8; 16]) -> (r: StreamEncryptor)
        ensures
            r.key() == key@,
            r.history() == Seq::<u8>::empty(),
    {
        Self::from_cfb8(&key)
    }

    /// Relies on `cfb8::Encryptor::new` over `aes::Aes128` with `key` as key
    /// and vector: the cipher it makes has taken in no bytes yet.
    #[verifier::external_body]
    fn from_cfb8(key: &[u8; 16]) -> (r: StreamEncryptor)
        ensures
            r.key() == key@,
            r.history() == Seq::<u8>::empty(),
    {
        let inner = cfb8::Encryptor::<aes::Aes128>::new(key.into(), key.into());
        StreamEncryptor { cipher: Cfb8Aes128Encryptor { inner }, key: Ghost(key@), history: Ghost(Seq::empty()) }
    }

    /// Relies on `BlockEncryptMut::encrypt_block_mut` of `cfb8::Encryptor`, whose
    /// blocks are one byte: it xors the byte with the first byte of AES-128 of
    /// its register, then shifts the ciphertext byte into the register. The
    /// cipher held here was made from `key()` and has taken in exactly
    /// `history()`, as `from_cfb8` and this function keep it.
    #[verifier::external_body]
    fn encrypt_byte(&mut self, b: u8) -> (r: u8)
        ensures
            r == b ^ cfb8_keystream(old(self).key(), old(self).history()),
            final(self).key() == old(self).key(),
            final(self).history() == old(self).history().push(r),
    {
        let mut block = [b].into();
        self.cipher.inner.encrypt_block_mut(&mut block);
        block[0]
    }

    /// Encrypts `data`, advancing the cipher by its length.
    pub fn encrypt(&mut self, data: &[u8]) -> (r: Vec<u8>)
        ensures
            r@ == cfb8_encrypt(old(self).key(), old(self).history(), data@),
            final(self).key() == old(self).key(),
            final(self).history() == old(self).history() + r@,
    {
        let mut out: Vec<u8> = Vec::new();
        let mut i: usize = 0;
        while i < data.len()
            invariant
                i <= data@.len(),
                self.key() == old(self).key(),
                out@ == cfb8_encrypt(self.key(), old(self).history(), data@.subrange(0, i as int)),
                self.history() == old(self).history() + out@,
            decreases data@.len() - i,
        {
            let c = self.encrypt_byte(data[i]);
            proof {
                let p = data@.subrange(0, i + 1);
                assert(p.drop_last() =~= data@.subrange(0, i as int));
            }
            out.push(c);
            i = i + 1;
        }
        assert(data@.subrange(0, i as int) =~= data@);
        out
    }
}

impl StreamDecryptor {
    /// The shared secret, used as key and as vector.
    pub closed spec fn key(&self) -> Seq<u8> {
        self.key@
    }

    /// The ciphertext consumed so far.
    pub closed spec fn history(&self) -> Seq<u8> {
        self.history@
    }

    /// A fresh decryptor with `key` as key and as vector.
    pub fn new(key: [u8; 16]) -> (r: StreamDecryptor)
        ensures
            r.key() == key@,
            r.history() == Seq::<u8>::empty(),
    {
        Self::from_cfb8(&key)
    }

    /// Relies on `cfb8::Decryptor::new` over `aes::Aes128` with `key` as key
    /// and vector: the cipher it makes has taken in no bytes yet.
    #[verifier::external_body]
    fn from_cfb8(key: &[u8; 16]) -> (r: StreamDecryptor)
        ensures
            r.key() == key@,
            r.history() == Seq::<u8>::empty(),
    {
        let inner = cfb8::Decryptor::<aes::Aes128>::new(key.into(), key.into());
        StreamDecryptor { cipher: Cfb8Aes128Decryptor { inner }, key: Ghost(key@), history: Ghost(Seq::empty()) }
    }

    /// Relies on `Clone` of `cfb8::Decryptor`, which copies the key schedule
    /// and the register.
    #[verifier::external_body]
    fn duplicate(&self) -> (r: StreamDecryptor)
        ensures
            r.key() == self.key(),
            r.history() == self.history(),
    {
        let cipher = Cfb8Aes128Decryptor { inner: self.cipher.inner.clone() };
        StreamDecryptor { cipher, key: self.key, history: self.history }
    }

    /// Relies on `BlockDecryptMut::decrypt_block_mut` of `cfb8::Decryptor`, whose
    /// blocks are one byte: it xors the byte with the first byte of AES-128 of
    /// its register, then shifts the ciphertext byte into the register. The
    /// cipher held here was made from `key()` and has taken in exactly
    /// `history()`, as `from_cfb8`, `duplicate` and this function keep it.
    #[verifier::external_body]
    fn decrypt_byte(&mut self, c: u8) -> (r: u8)
        ensures
            r == c ^ cfb8_keystream(old(self).key(), old(self).history()),
            final(self).key() == old(self).key(),
            final(self).history() == old(self).history().push(c),
    {
        let mut block = [c].into();
        self.cipher.inner.decrypt_block_mut(&mut block);
        block[0]
    }

    /// Decrypts `data[from..to]`, advancing the cipher by its length.
    pub fn decrypt(&mut self, data: &[u8], from: usize, to: usize) -> (r: Vec<u8>)
        requires
            from <= to <= data@.len(),
        ensures
            r@ == cfb8_decrypt(old(self).key(), old(self).history(), data@.subrange(from as int, to as int)),
            final(self).key() == old(self).key(),
            final(self).history() == old(self).history() + data@.subrange(from as int, to as int),
    {
        let mut out: Vec<u8> = Vec::new();
        let mut i: usize = from;
        while i < to
            invariant
                from <= i <= to <= data@.len(),
                self.key() == old(self).key(),
                out@ == cfb8_decrypt(
                    self.key(),
                    old(self).history(),
                    data@.subrange(from as int, i as int),
                ),
                self.history() == old(self).history() + data@.subrange(from as int, i as int),
            decreases to - i,
        {
            let p = self.decrypt_byte(data[i]);
            proof {
                let c = data@.subrange(from as int, i + 1);
                assert(c.drop_last() =~= data@.subrange(from as int, i as int));
                assert(old(self).history() + c =~= (old(self).history() + c.drop_last()).push(
                    data@[i as int],
                ));
            }
            out.push(p);
            i = i + 1;
        }
        out
    }

    /// The plaintext of `data[from..to]` as this decryptor would give it,
    /// without advancing it.
    pub fn peek(&self, data: &[u8], from: usize, to: usize) -> (r: Vec<u8>)
        requires
            from <= to <= data@.len(),
        ensures
            r@ == cfb8_decrypt(self.key(), self.history(), data@.subrange(from as int, to as int)),
    {
        let mut shadow = self.duplicate();
        shadow.decrypt(data, from, to)
    }
}

} // verus!
