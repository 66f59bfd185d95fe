//! Packet encryption with xsalsa20poly1305, under three nonce disciplines.

use vstd::prelude::*;
use crate::voice::rtp::{be32, zeros, Packet, HEADER_LEN, TAG_SIZE};
use rand::rngs::{OsRng, StdRng};
use rand::{Rng, RngCore, SeedableRng};
use xsalsa20poly1305::aead::{AeadInPlace, Error as AeadError, KeyInit};
use xsalsa20poly1305::{Key, Nonce, Tag, XSalsa20Poly1305};

verus! {

/// Size of a secret key.
pub const KEY_SIZE: usize = 32;

/// Size of an xsalsa20 nonce.
pub const NONCE_SIZE: usize = 24;

#[verifier::external_type_specification]
#[verifier::external_body]
pub struct ExStdRng(StdRng);

#[verifier::external_type_specification]
#[verifier::external_body]
pub struct ExAeadError(AeadError);

/// What xsalsa20poly1305 makes of `plain` under `key` and `nonce`: the
/// 16-byte Poly1305 tag followed by the ciphertext.
pub uninterp spec fn xsalsa20poly1305_seal(key: Seq<u8>, nonce: Seq<u8>, plain: Seq<u8>) -> Seq<
    u8,
>;

/// Relies on `AeadInPlace::encrypt_in_place_detached` of `XSalsa20Poly1305`
/// (made from the key by `KeyInit::new`), called with no associated data:
/// the buffer is turned into the ciphertext, of the same length, and the
/// Poly1305 tag is returned. With no associated data the call does not
/// fail.
#[verifier::external_body]
fn seal_in_place(key: &Vec<u8>, nonce: &Vec<u8>, buf: &mut Vec<u8>) -> (r: Result<
    Vec<u8>,
    AeadError,
>)
    requires
        key@.len() == KEY_SIZE,
        nonce@.len() == NONCE_SIZE,
    ensures
        r is Ok,
        r matches Ok(tag) ==> tag@.len() == TAG_SIZE && final(buf)@.len() == old(buf)@.len()
            && tag@ + final(buf)@ == xsalsa20poly1305_seal(key@, nonce@, old(buf)@),
{
    let cipher = XSalsa20Poly1305::new(Key::from_slice(key));
    let tag = cipher.encrypt_in_place_detached(Nonce::from_slice(nonce), b"", buf)?;
    Ok(tag.to_vec())
}

/// Relies on `AeadInPlace::decrypt_in_place_detached` of `XSalsa20Poly1305`
/// (made from the key by `KeyInit::new`), called with no associated data:
/// when the tag matches the ciphertext, the buffer is turned back into the
/// plaintext that was sealed under the same key and nonce.
#[verifier::external_body]
fn open_in_place(key: &Vec<u8>, nonce: &Vec<u8>, tag: &Vec<u8>, buf: &mut Vec<u8>) -> (r: bool)
    requires
        key@.len() == KEY_SIZE,
        nonce@.len() == NONCE_SIZE,
        tag@.len() == TAG_SIZE,
    ensures
        final(buf)@.len() == old(buf)@.len(),
        forall|p: Seq<u8>|
            #[trigger] xsalsa20poly1305_seal(key@, nonce@, p) == tag@ + old(buf)@ ==> r
                && final(buf)@ == p,
{
    let cipher = XSalsa20Poly1305::new(Key::from_slice(key));
    cipher.decrypt_in_place_detached(Nonce::from_slice(nonce), b"", buf, Tag::from_slice(tag)).is_ok()
}

/// Relies on `SeedableRng::from_entropy` of `StdRng`: a generator seeded
/// from the operating system.
#[verifier::external_body]
fn seeded_rng() -> StdRng {
    StdRng::from_entropy()
}

/// Relies on `RngCore::fill_bytes` of `StdRng`: 24 random bytes.
#[verifier::external_body]
fn random_nonce(rng: &mut StdRng) -> (r: Vec<u8>)
    ensures
        r@.len() == NONCE_SIZE,
{
    let mut nonce = vec![0u8; NONCE_SIZE];
    rng.fill_bytes(&mut nonce);
    nonce
}

/// Relies on `Rng::gen` of `OsRng`: a random 32-bit integer from the
/// operating system.
#[verifier::external_body]
fn random_u32() -> u32 {
    OsRng.gen()
}

/// Crypto mode for [`Encryptor`].
#[derive(Clone, Copy, Debug, PartialEq, Eq, Structural)]
pub enum EncryptionMode {
    /// The nonce is the RTP header followed by 12 zero bytes.
    Normal,
    /// The nonce is 24 random bytes placed at the end of the packet.
    Suffix,
    /// The nonce is a 4-byte counter, incremented for each packet and placed
    /// at the end of the packet; the rest of the nonce is 20 zero bytes.
    Lite,
}

/// Number of bytes a mode appends to the payload.
pub open spec fn suffix_len(mode: EncryptionMode) -> nat {
    match mode {
        EncryptionMode::Normal => 0,
        EncryptionMode::Suffix => 24,
        EncryptionMode::Lite => 4,
    }
}

/// No mode appends more than a whole nonce.
pub proof fn lemma_suffix_len_bound(mode: EncryptionMode)
    ensures
        suffix_len(mode) <= NONCE_SIZE,
{
}

/// The nonce a receiver reads off the wire bytes of a sealed packet.
pub open spec fn packet_nonce(mode: EncryptionMode, wire: Seq<u8>) -> Seq<u8> {
    match mode {
        EncryptionMode::Normal => wire.subrange(0, 12) + zeros(12),
        EncryptionMode::Suffix => wire.subrange(wire.len() - 24, wire.len() as int),
        EncryptionMode::Lite => wire.subrange(wire.len() - 4, wire.len() as int) + zeros(20),
    }
}

/// `wire` is a packet whose payload `plain` was sealed under `key` in `mode`,
/// with the nonce that the mode's convention places in the packet.
pub open spec fn is_sealed(key: Seq<u8>, mode: EncryptionMode, wire: Seq<u8>, plain: Seq<u8>) -> bool {
    &&& wire.len() == HEADER_LEN + plain.len() + suffix_len(mode)
    &&& wire.subrange(12, HEADER_LEN + plain.len()) == xsalsa20poly1305_seal(
        key,
        packet_nonce(mode, wire),
        plain,
    )
}

/// The nonce discipline and its state.
enum EncryptorState {
    Normal,
    Suffix(StdRng),
    Lite(u32),
}

/// What an encryptor holds: its key, its mode, and in `Lite` mode the next
/// nonce counter.
pub ghost struct EncryptorView {
    pub key: Seq<u8>,
    pub mode: EncryptionMode,
    pub counter: u32,
}

/// Encrypts outgoing packets using xsalsa20poly1305.
pub struct Encryptor {
    key: Vec<u8>,
    state: EncryptorState,
}

impl View for Encryptor {
    type V = EncryptorView;

    closed spec fn view(&self) -> EncryptorView {
        EncryptorView {
            key: self.key@,
            mode: match self.state {
                EncryptorState::Normal => EncryptionMode::Normal,
                EncryptorState::Suffix(_) => EncryptionMode::Suffix,
                EncryptorState::Lite(_) => EncryptionMode::Lite,
            },
            counter: match self.state {
                EncryptorState::Lite(c) => c,
                _ => 0,
            },
        }
    }
}

/// Copies `b[from..to]` into a new vector.
pub fn copy_range(b: &[u8], from: usize, to: usize) -> (r: Vec<u8>)
    requires
        from <= to <= b@.len(),
    ensures
        r@ == b@.subrange(from as int, to as int),
{
    let mut r: Vec<u8> = Vec::new();
    r.extend_from_slice(vstd::slice::slice_subrange(b, from, to));
    assert(r@ =~= b@.subrange(from as int, to as int));
    r
}

impl Encryptor {
    /// Creates a new encryptor from a secret key and an encryption mode.
    ///
    /// In `Lite` mode the first nonce counter is drawn from the operating
    /// system's random source; in `Suffix` mode a generator is seeded from it.
    pub fn new(mode: EncryptionMode, secret_key: Vec<u8>) -> (r: Encryptor)
        requires
            secret_key@.len() == KEY_SIZE,
        ensures
            r@.key == secret_key@,
            r@.mode == mode,
    {
        let state = match mode {
            EncryptionMode::Normal => EncryptorState::Normal,
            EncryptionMode::Suffix => EncryptorState::Suffix(seeded_rng()),
            EncryptionMode::Lite => EncryptorState::Lite(random_u32()),
        };
        Encryptor { key: secret_key, state }
    }

    /// The encryption mode.
    pub fn mode(&self) -> (r: EncryptionMode)
        ensures
            r == self@.mode,
    {
        match self.state {
            EncryptorState::Normal => EncryptionMode::Normal,
            EncryptorState::Suffix(_) => EncryptionMode::Suffix,
            EncryptorState::Lite(_) => EncryptionMode::Lite,
        }
    }

    /// The number of bytes this encryptor appends to a payload.
    pub fn suffix_len(&self) -> (r: usize)
        ensures
            r == suffix_len(self@.mode),
    {
        match self.state {
            EncryptorState::Normal => 0,
            EncryptorState::Suffix(_) => 24,
            EncryptorState::Lite(_) => 4,
        }
    }

    /// Encrypts a packet in place: the payload becomes ciphertext, the tag
    /// goes to bytes 12..28, and the mode's nonce, if any, is appended.
    ///
    /// The RTP header (bytes 0..12) is left as it is. In `Lite` mode the
    /// nonce is the counter, which then moves on by one (wrapping).
    pub fn encrypt(&mut self, pkt: &mut Packet) -> (r: Result<(), AeadError>)
        requires
            old(pkt)@.wf(),
            key_ok(old(self)@),
            HEADER_LEN + old(pkt)@.payload_len + suffix_len(old(self)@.mode) <= old(pkt)@.buf.len(),
        ensures
            r is Ok,
            final(self)@.key == old(self)@.key,
            final(self)@.mode == old(self)@.mode,
            final(pkt)@.wf(),
            final(pkt)@.buf.len() == old(pkt)@.buf.len(),
            final(pkt)@.buf.subrange(0, 12) == old(pkt)@.buf.subrange(0, 12),
            final(pkt)@.payload_len == old(pkt)@.payload_len + suffix_len(old(self)@.mode),
            is_sealed(old(self)@.key, old(self)@.mode, final(pkt)@.wire(), old(pkt)@.payload()),
            old(self)@.mode == EncryptionMode::Lite ==> packet_nonce(
                EncryptionMode::Lite,
                final(pkt)@.wire(),
            ) == be32(old(self)@.counter) + zeros(20) && final(self)@.counter
                == (old(self)@.counter + 1) % 0x1_0000_0000,
    {
        let len = pkt.payload_len();
        let cap = pkt.capacity();
        let ghost old_pkt = pkt@;
        let nonce: Vec<u8>;
        let suffix: Vec<u8>;
        match &mut self.state {
            EncryptorState::Normal => {
                let header = pkt.header();
                let mut n = copy_range(header, 0, 12);
                n.extend_from_slice(&[0u8; 12]);
                proof {
                    assert(n@ =~= old_pkt.buf.subrange(0, 12) + zeros(12));
                }
                nonce = n;
                suffix = Vec::new();
            },
            EncryptorState::Suffix(rng) => {
                let n = random_nonce(rng);
                suffix = copy_range(n.as_slice(), 0, NONCE_SIZE);
                nonce = n;
            },
            EncryptorState::Lite(counter) => {
                let c = *counter;
                let mut n = crate::voice::rtp::u32_to_be(c);
                suffix = crate::voice::rtp::u32_to_be(c);
                n.extend_from_slice(&[0u8; 20]);
                proof {
                    assert(n@ =~= be32(c) + zeros(20));
                }
                nonce = n;
                *counter = c.wrapping_add(1);
            },
        }
        let mut buf = copy_range(pkt.as_bytes(), HEADER_LEN, HEADER_LEN + len);
        let tag = seal_in_place(&self.key, &nonce, &mut buf)?;
        pkt.write_bytes(12, tag.as_slice());
        pkt.write_bytes(HEADER_LEN, buf.as_slice());
        pkt.write_bytes(HEADER_LEN + len, suffix.as_slice());
        pkt.set_payload_len(len + suffix.len());
        proof {
            let w = pkt@.wire();
            assert(w.subrange(0, 12) =~= old_pkt.buf.subrange(0, 12));
            assert(pkt@.buf.subrange(0, 12) =~= old_pkt.buf.subrange(0, 12));
            assert(w.subrange(12, HEADER_LEN + len) =~= tag@ + buf@);
            assert(w.subrange(w.len() - suffix@.len(), w.len() as int) =~= suffix@);
            assert(old_pkt.payload() =~= old_pkt.wire().subrange(HEADER_LEN as int, HEADER_LEN + len));
            assert(packet_nonce(old(self)@.mode, w) =~= nonce@);
        }
        Ok(())
    }
}

/// The key has the size the cipher takes.
pub open spec fn key_ok(e: EncryptorView) -> bool {
    e.key.len() == KEY_SIZE
}

/// Opens a packet sealed under `key` in `mode`, returning its plaintext
/// payload, or `None` when the packet is too short or its tag does not match.
pub fn open_packet(key: &Vec<u8>, mode: EncryptionMode, wire: &[u8]) -> (r: Option<Vec<u8>>)
    requires
        key@.len() == KEY_SIZE,
    ensures
        forall|p: Seq<u8>| is_sealed(key@, mode, wire@, p) ==> (r matches Some(v) && v@ == p),
{
    let sfx: usize = match mode {
        EncryptionMode::Normal => 0,
        EncryptionMode::Suffix => 24,
        EncryptionMode::Lite => 4,
    };
    if wire.len() < HEADER_LEN + sfx {
        return None;
    }
    let end = wire.len() - sfx;
    let nonce = match mode {
        EncryptionMode::Normal => {
            let mut n = copy_range(wire, 0, 12);
            n.extend_from_slice(&[0u8; 12]);
            n
        },
        EncryptionMode::Suffix => copy_range(wire, end, wire.len()),
        EncryptionMode::Lite => {
            let mut n = copy_range(wire, end, wire.len());
            n.extend_from_slice(&[0u8; 20]);
            n
        },
    };
    proof {
        assert(nonce@ =~= packet_nonce(mode, wire@));
    }
    let tag = copy_range(wire, 12, HEADER_LEN);
    let mut buf = copy_range(wire, HEADER_LEN, end);
    proof {
        assert forall|p: Seq<u8>| is_sealed(key@, mode, wire@, p) implies xsalsa20poly1305_seal(
            key@,
            nonce@,
            p,
        ) == tag@ + buf@ by {
            assert(wire@.subrange(12, HEADER_LEN + p.len()) =~= tag@ + buf@);
        }
    }
    if open_in_place(key, &nonce, &tag, &mut buf) {
        Some(buf)
    } else {
        None
    }
}

} // verus!
