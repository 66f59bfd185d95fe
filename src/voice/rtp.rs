//! RTP packets and the RTP socket's counters.

use vstd::prelude::*;
use crate::constants::{VOICE_PACKET_MAX, MONO_FRAME_SIZE};
use crate::voice::crypto::{is_sealed, key_ok, suffix_len, Encryptor, EncryptorView};
use vstd::utf8::{decode_utf8, valid_utf8};
use xsalsa20poly1305::aead::Error as AeadError;

verus! {

/// Size of the Poly1305 tag that follows the RTP header.
pub const TAG_SIZE: usize = 16;

/// The size of the RTP packet header, including space for the Poly1305 tag.
pub const HEADER_LEN: usize = 28;

/// Big-endian bytes of a 16-bit integer.
pub open spec fn be16(x: u16) -> Seq<u8> {
    seq![(x / 256) as u8, (x % 256) as u8]
}

/// Big-endian bytes of a 32-bit integer.
pub open spec fn be32(x: u32) -> Seq<u8> {
    seq![
        (x / 0x1000000) as u8,
        ((x / 0x10000) % 256) as u8,
        ((x / 256) % 256) as u8,
        (x % 256) as u8,
    ]
}

/// `buf` with the bytes at `at..at + bytes.len()` replaced by `bytes`.
pub open spec fn splice(buf: Seq<u8>, at: int, bytes: Seq<u8>) -> Seq<u8> {
    buf.subrange(0, at) + bytes + buf.subrange(at + bytes.len(), buf.len() as int)
}

/// A sequence of `n` zero bytes.
pub open spec fn zeros(n: nat) -> Seq<u8> {
    Seq::new(n, |i: int| 0u8)
}

/// The big-endian bytes of `x`.
pub fn u16_to_be(x: u16) -> (r: Vec<u8>)
    ensures
        r@ == be16(x),
{
    let hi = (x / 256) as u8;
    let lo = (x % 256) as u8;
    let r = vec![hi, lo];
    assert(r@ =~= be16(x));
    r
}

/// The big-endian bytes of `x`.
pub fn u32_to_be(x: u32) -> (r: Vec<u8>)
    ensures
        r@ == be32(x),
{
    let b0 = (x / 0x1000000) as u8;
    let b1 = ((x / 0x10000) % 256) as u8;
    let b2 = ((x / 256) % 256) as u8;
    let b3 = (x % 256) as u8;
    let r = vec![b0, b1, b2, b3];
    assert(r@ =~= be32(x));
    r
}

/// Reads a big-endian 32-bit integer at `at`.
pub fn u32_from_be(b: &[u8], at: usize) -> (r: u32)
    requires
        at + 4 <= b@.len(),
    ensures
        be32(r) == b@.subrange(at as int, at + 4),
{
    let b0 = b[at];
    let b1 = b[at + 1];
    let b2 = b[at + 2];
    let b3 = b[at + 3];
    let r: u32 = ((b0 as u32) << 24u32) | ((b1 as u32) << 16u32) | ((b2 as u32) << 8u32) | (b3 as u32);
    assert(((r / 0x1000000) as u8) == b0 && (((r / 0x10000) % 256) as u8) == b1 && (((r / 256)
        % 256) as u8) == b2 && ((r % 256) as u8) == b3) by (bit_vector)
        requires
            r == ((b0 as u32) << 24u32) | ((b1 as u32) << 16u32) | ((b2 as u32) << 8u32) | (
            b3 as u32),
    ;
    assert(be32(r) =~= b@.subrange(at as int, at + 4));
    r
}

/// Reads a big-endian 16-bit integer at `at`.
pub fn u16_from_be(b: &[u8], at: usize) -> (r: u16)
    requires
        at + 2 <= b@.len(),
    ensures
        be16(r) == b@.subrange(at as int, at + 2),
{
    let b0 = b[at];
    let b1 = b[at + 1];
    let r: u16 = ((b0 as u16) << 8u16) | (b1 as u16);
    assert(((r / 256) as u8) == b0 && ((r % 256) as u8) == b1) by (bit_vector)
        requires
            r == ((b0 as u16) << 8u16) | (b1 as u16),
    ;
    assert(be16(r) =~= b@.subrange(at as int, at + 2));
    r
}

/// Copies `bytes` into `buf` at `at`.
pub fn write_at(buf: &mut Vec<u8>, at: usize, bytes: &[u8])
    requires
        at + bytes@.len() <= old(buf)@.len(),
    ensures
        final(buf)@ == splice(old(buf)@, at as int, bytes@),
{
    let n = buf.len();
    let mut i: usize = 0;
    while i < bytes.len()
        invariant
            n == buf@.len(),
            at + bytes@.len() <= buf@.len(),
            buf@.len() == old(buf)@.len(),
            i <= bytes@.len(),
            forall|k: int| 0 <= k < at ==> buf@[k] == old(buf)@[k],
            forall|k: int| at + bytes@.len() <= k < buf@.len() ==> buf@[k] == old(buf)@[k],
            forall|k: int| 0 <= k < i ==> buf@[at + k] == bytes@[k],
            forall|k: int| at + i <= k < at + bytes@.len() ==> buf@[k] == old(buf)@[k],
        decreases bytes@.len() - i,
    {
        buf.set(at + i, bytes[i]);
        i += 1;
    }
    assert(buf@ =~= splice(old(buf)@, at as int, bytes@));
}

/// What a packet holds: its buffer and the length of its payload.
pub ghost struct PacketView {
    pub buf: Seq<u8>,
    pub payload_len: nat,
}

/// RTP packet.
///
/// Acts as a buffer where packets are made before they are sent. Its
/// capacity is fixed at creation; the payload's length is tracked apart from
/// it.
pub struct Packet {
    pkt: Vec<u8>,
    payload_len: usize,
}

impl View for Packet {
    type V = PacketView;

    closed spec fn view(&self) -> PacketView {
        PacketView { buf: self.pkt@, payload_len: self.payload_len as nat }
    }
}

impl PacketView {
    /// The header is in place and the payload fits in the buffer.
    pub open spec fn wf(self) -> bool {
        &&& self.buf.len() >= HEADER_LEN
        &&& self.buf[0] == 0x80u8
        &&& self.buf[1] == 0x78u8
        &&& HEADER_LEN + self.payload_len <= self.buf.len()
    }

    /// The payload's bytes.
    pub open spec fn payload(self) -> Seq<u8> {
        self.buf.subrange(HEADER_LEN as int, HEADER_LEN + self.payload_len)
    }

    /// The bytes that go on the wire: header, tag and payload.
    pub open spec fn wire(self) -> Seq<u8> {
        self.buf.subrange(0, HEADER_LEN + self.payload_len)
    }
}

impl Packet {
    /// Creates a new RTP packet over a buffer and writes the fixed header
    /// bytes.
    pub fn new(pkt: Vec<u8>) -> (r: Packet)
        requires
            pkt@.len() >= HEADER_LEN,
        ensures
            r@.buf == pkt@.update(0, 0x80u8).update(1, 0x78u8),
            r@.payload_len == 0,
            r@.wf(),
    {
        let mut pkt = pkt;
        pkt.set(0, 0x80u8);
        pkt.set(1, 0x78u8);
        Packet { pkt, payload_len: 0 }
    }

    /// The payload length of the packet.
    pub fn payload_len(&self) -> (r: usize)
        ensures
            r == self@.payload_len,
    {
        self.payload_len
    }

    /// The capacity of the packet's buffer.
    pub fn capacity(&self) -> (r: usize)
        ensures
            r == self@.buf.len(),
    {
        self.pkt.len()
    }

    /// Sets the payload length of the packet.
    pub fn set_payload_len(&mut self, payload_len: usize)
        requires
            HEADER_LEN + payload_len <= old(self)@.buf.len(),
        ensures
            final(self)@.buf == old(self)@.buf,
            final(self)@.payload_len == payload_len,
    {
        self.payload_len = payload_len;
    }

    /// Returns the buffer past the header.
    pub fn payload(&self) -> (r: &[u8])
        requires
            self@.wf(),
        ensures
            r@ == self@.buf.subrange(HEADER_LEN as int, self@.buf.len() as int),
    {
        vstd::slice::slice_subrange(self.pkt.as_slice(), HEADER_LEN, self.pkt.len())
    }

    /// Returns the header, tag slot included.
    pub fn header(&self) -> (r: &[u8])
        requires
            self@.wf(),
        ensures
            r@ == self@.buf.subrange(0, HEADER_LEN as int),
    {
        vstd::slice::slice_subrange(self.pkt.as_slice(), 0, HEADER_LEN)
    }

    /// The bytes that go on the wire.
    pub fn as_bytes(&self) -> (r: &[u8])
        requires
            self@.wf(),
        ensures
            r@ == self@.wire(),
    {
        let n = self.pkt.len();
        assert(HEADER_LEN + self.payload_len <= n);
        vstd::slice::slice_subrange(self.pkt.as_slice(), 0, HEADER_LEN + self.payload_len)
    }

    /// Sets the sequence number of the RTP packet.
    pub fn set_sequence(&mut self, sequence: u16)
        requires
            old(self)@.wf(),
        ensures
            final(self)@.buf == splice(old(self)@.buf, 2, be16(sequence)),
            final(self)@.payload_len == old(self)@.payload_len,
            final(self)@.wf(),
    {
        let b = u16_to_be(sequence);
        write_at(&mut self.pkt, 2, b.as_slice());
    }

    /// Sets the timestamp of the RTP packet.
    pub fn set_timestamp(&mut self, timestamp: u32)
        requires
            old(self)@.wf(),
        ensures
            final(self)@.buf == splice(old(self)@.buf, 4, be32(timestamp)),
            final(self)@.payload_len == old(self)@.payload_len,
            final(self)@.wf(),
    {
        let b = u32_to_be(timestamp);
        write_at(&mut self.pkt, 4, b.as_slice());
    }

    /// Sets the SSRC of the RTP packet.
    pub fn set_ssrc(&mut self, ssrc: u32)
        requires
            old(self)@.wf(),
        ensures
            final(self)@.buf == splice(old(self)@.buf, 8, be32(ssrc)),
            final(self)@.payload_len == old(self)@.payload_len,
            final(self)@.wf(),
    {
        let b = u32_to_be(ssrc);
        write_at(&mut self.pkt, 8, b.as_slice());
    }

    /// Copies `data` into the buffer at `at`, an offset past the header's
    /// first twelve bytes.
    pub fn write_bytes(&mut self, at: usize, data: &[u8])
        requires
            old(self)@.wf(),
            12 <= at,
            at + data@.len() <= old(self)@.buf.len(),
        ensures
            final(self)@.buf == splice(old(self)@.buf, at as int, data@),
            final(self)@.payload_len == old(self)@.payload_len,
            final(self)@.wf(),
    {
        write_at(&mut self.pkt, at, data);
    }

    /// Replaces the payload with `data`.
    pub fn set_payload(&mut self, data: &[u8])
        requires
            old(self)@.wf(),
            HEADER_LEN + data@.len() <= old(self)@.buf.len(),
        ensures
            final(self)@.buf == splice(old(self)@.buf, HEADER_LEN as int, data@),
            final(self)@.payload_len == data@.len(),
            final(self)@.payload() == data@,
            final(self)@.wf(),
    {
        write_at(&mut self.pkt, HEADER_LEN, data);
        self.payload_len = data.len();
        assert(self@.payload() =~= data@);
    }
}

impl Default for Packet {
    /// A packet over a zeroed buffer of `VOICE_PACKET_MAX` bytes.
    fn default() -> (r: Packet)
        ensures
            r@.buf == seq![0x80u8, 0x78u8] + zeros((VOICE_PACKET_MAX - 2) as nat),
            r@.payload_len == 0,
            r@.wf(),
    {
        let buf = vec![0u8; VOICE_PACKET_MAX];
        let r = Packet::new(buf);
        assert(r@.buf =~= seq![0x80u8, 0x78u8] + zeros((VOICE_PACKET_MAX - 2) as nat));
        r
    }
}

/// What a socket holds: its counters, its SSRC and its encryptor.
pub ghost struct SocketView {
    pub sequence: u16,
    pub timestamp: u32,
    pub ssrc: u32,
    pub encryptor: EncryptorView,
}

/// The first twelve bytes of an RTP packet with these counters.
pub open spec fn rtp_header(sequence: u16, timestamp: u32, ssrc: u32) -> Seq<u8> {
    seq![0x80u8, 0x78u8] + be16(sequence) + be32(timestamp) + be32(ssrc)
}

/// One packet went out: `wire` carries the counters `before` held, sealed
/// with its encryptor, and the counters moved on by one packet.
pub open spec fn sent(before: SocketView, after: SocketView, plain: Seq<u8>, wire: Seq<u8>) -> bool {
    &&& after.sequence == (before.sequence + 1) % 0x10000
    &&& after.timestamp == (before.timestamp + MONO_FRAME_SIZE) % 0x1_0000_0000
    &&& after.ssrc == before.ssrc
    &&& after.encryptor.key == before.encryptor.key
    &&& after.encryptor.mode == before.encryptor.mode
    &&& wire.len() >= 12
    &&& wire.subrange(0, 12) == rtp_header(before.sequence, before.timestamp, before.ssrc)
    &&& is_sealed(before.encryptor.key, before.encryptor.mode, wire, plain)
}

/// Two packets sent one after the other carry consecutive counters: the
/// second has the sequence one higher and the timestamp one frame of samples
/// later, both wrapping, and the same SSRC.
pub proof fn lemma_consecutive_sends(
    s0: SocketView,
    s1: SocketView,
    s2: SocketView,
    p1: Seq<u8>,
    p2: Seq<u8>,
    w1: Seq<u8>,
    w2: Seq<u8>,
)
    requires
        sent(s0, s1, p1, w1),
        sent(s1, s2, p2, w2),
    ensures
        w1.subrange(0, 12) == rtp_header(s0.sequence, s0.timestamp, s0.ssrc),
        w2.subrange(0, 12) == rtp_header(
            ((s0.sequence + 1) % 0x10000) as u16,
            ((s0.timestamp + MONO_FRAME_SIZE) % 0x1_0000_0000) as u32,
            s0.ssrc,
        ),
{
}

/// Every packet that goes out starts with the bytes `0x80 0x78`, whatever
/// was written into its payload before.
pub proof fn lemma_sent_header_bytes(before: SocketView, after: SocketView, plain: Seq<u8>, wire: Seq<u8>)
    requires
        sent(before, after, plain, wire),
    ensures
        wire[0] == 0x80u8,
        wire[1] == 0x78u8,
{
    assert(wire[0] == wire.subrange(0, 12)[0]);
    assert(wire[1] == wire.subrange(0, 12)[1]);
}

/// The RTP side of a voice connection: the counters and the encryptor that
/// every outgoing packet goes through.
///
/// A packet that `send` has prepared is ready to go out as one UDP datagram,
/// made of `Packet::as_bytes`.
pub struct Socket {
    encryptor: Encryptor,
    sequence: u16,
    timestamp: u32,
    ssrc: u32,
}

impl View for Socket {
    type V = SocketView;

    closed spec fn view(&self) -> SocketView {
        SocketView {
            sequence: self.sequence,
            timestamp: self.timestamp,
            ssrc: self.ssrc,
            encryptor: self.encryptor@,
        }
    }
}

impl Socket {
    /// Creates a new `Socket`, with its counters at zero.
    pub fn new(ssrc: u32, encryptor: Encryptor) -> (r: Socket)
        ensures
            r@ == (SocketView { sequence: 0, timestamp: 0, ssrc, encryptor: encryptor@ }),
    {
        Socket { encryptor, sequence: 0, timestamp: 0, ssrc }
    }

    /// Fills in the packet's sequence, timestamp and SSRC, then encrypts it.
    ///
    /// The sequence then moves on by one and the timestamp by one frame of
    /// samples, both wrapping.
    pub fn send(&mut self, packet: &mut Packet) -> (r: Result<(), Error>)
        requires
            old(packet)@.wf(),
            key_ok(old(self)@.encryptor),
            HEADER_LEN + old(packet)@.payload_len + suffix_len(old(self)@.encryptor.mode)
                <= old(packet)@.buf.len(),
        ensures
            r is Ok,
            sent(old(self)@, final(self)@, old(packet)@.payload(), final(packet)@.wire()),
            final(packet)@.wf(),
            final(packet)@.buf.len() == old(packet)@.buf.len(),
    {
        let ghost plain = packet@.payload();
        packet.set_sequence(self.sequence);
        packet.set_timestamp(self.timestamp);
        packet.set_ssrc(self.ssrc);
        proof {
            assert(packet@.payload() =~= plain);
            assert(packet@.buf.subrange(0, 12) =~= rtp_header(
                old(self)@.sequence,
                old(self)@.timestamp,
                old(self)@.ssrc,
            ));
        }
        self.sequence = self.sequence.wrapping_add(1);
        self.timestamp = self.timestamp.wrapping_add(MONO_FRAME_SIZE as u32);
        let res = self.encryptor.encrypt(packet);
        proof {
            assert(packet@.wire().subrange(0, 12) =~= packet@.buf.subrange(0, 12));
            assert(packet@.buf.subrange(0, 12) =~= rtp_header(
                old(self)@.sequence,
                old(self)@.timestamp,
                old(self)@.ssrc,
            ));
        }
        match res {
            Ok(()) => Ok(()),
            Err(e) => Err(Error::Encrypt(e)),
        }
    }

    /// The SSRC of the socket.
    pub fn ssrc(&self) -> (r: u32)
        ensures
            r == self@.ssrc,
    {
        self.ssrc
    }

    /// The sequence number the next packet gets.
    pub fn sequence(&self) -> (r: u16)
        ensures
            r == self@.sequence,
    {
        self.sequence
    }

    /// The timestamp the next packet gets.
    pub fn timestamp(&self) -> (r: u32)
        ensures
            r == self@.timestamp,
    {
        self.timestamp
    }

    /// The socket's encryption mode.
    pub fn mode(&self) -> (r: crate::voice::crypto::EncryptionMode)
        ensures
            r == self@.encryptor.mode,
    {
        self.encryptor.mode()
    }

    /// The number of bytes encryption appends to a payload.
    pub fn suffix_len(&self) -> (r: usize)
        ensures
            r == suffix_len(self@.encryptor.mode),
    {
        self.encryptor.suffix_len()
    }
}

#[verifier::external_type_specification]
#[verifier::external_body]
pub struct ExIoError(std::io::Error);

#[verifier::external_type_specification]
#[verifier::external_body]
pub struct ExUtf8Error(std::str::Utf8Error);

/// An error type for RTP/UDP interactions.
pub enum Error {
    /// IO error.
    Io(std::io::Error),
    /// Failed to encrypt a packet.
    Encrypt(AeadError),
    /// IP discovery failed.
    IpDiscovery(IpDiscoveryError),
}

/// Size of an IP discovery packet.
pub const IP_DISCOVERY_LEN: usize = 74;

/// The IP discovery request for `ssrc`.
pub open spec fn discovery_request(ssrc: u32) -> Seq<u8> {
    seq![0x00u8, 0x01u8, 0x00u8, 0x46u8] + be32(ssrc) + zeros(66)
}

/// The header an IP discovery response starts with.
pub open spec fn discovery_response_header() -> Seq<u8> {
    seq![0x00u8, 0x02u8, 0x00u8, 0x46u8]
}

/// Position of the first zero byte of `s`, or its length when there is none.
pub open spec fn nul_position(s: Seq<u8>) -> nat
    decreases s.len(),
{
    if s.len() == 0 {
        0
    } else if s[0] == 0 {
        0
    } else {
        1 + nul_position(s.subrange(1, s.len() as int))
    }
}

/// The first zero byte lies within the sequence, or at its end.
proof fn lemma_nul_position_bound(s: Seq<u8>)
    ensures
        nul_position(s) <= s.len(),
    decreases s.len(),
{
    if s.len() > 0 && s[0] != 0 {
        lemma_nul_position_bound(s.subrange(1, s.len() as int));
    }
}

/// The address text of an IP discovery response: the bytes from offset 8
/// up to the first zero byte before offset 72.
pub open spec fn discovery_address(buf: Seq<u8>) -> Seq<u8> {
    let field = buf.subrange(8, 72);
    field.subrange(0, nul_position(field) as int)
}

/// Builds the IP discovery request for `ssrc`.
pub fn ip_discovery_request(ssrc: u32) -> (r: Vec<u8>)
    ensures
        r@ == discovery_request(ssrc),
        r@.len() == IP_DISCOVERY_LEN,
{
    let mut r = vec![0u8; IP_DISCOVERY_LEN];
    r.set(1, 0x01u8);
    r.set(3, 0x46u8);
    let b = u32_to_be(ssrc);
    write_at(&mut r, 4, b.as_slice());
    assert(r@ =~= discovery_request(ssrc));
    r
}

/// Relies on `std::str::from_utf8`: it succeeds exactly on valid UTF-8,
/// and the string holds the characters the bytes encode.
#[verifier::external_body]
fn utf8_to_string(b: &[u8]) -> (r: Result<String, std::str::Utf8Error>)
    ensures
        r is Ok <==> valid_utf8(b@),
        r matches Ok(s) ==> s@ == decode_utf8(b@),
{
    std::str::from_utf8(b).map(|s| s.to_owned())
}

/// Finds the first zero byte of `b[from..to]`, as an offset from `from`.
fn find_nul(b: &[u8], from: usize, to: usize) -> (r: usize)
    requires
        from <= to <= b@.len(),
    ensures
        r == nul_position(b@.subrange(from as int, to as int)),
{
    let mut i = from;
    while i < to
        invariant
            from <= i <= to <= b@.len(),
            nul_position(b@.subrange(from as int, to as int)) == (i - from) + nul_position(
                b@.subrange(i as int, to as int),
            ),
        decreases to - i,
    {
        if b[i] == 0 {
            return i - from;
        }
        assert(b@.subrange(i + 1, to as int) =~= b@.subrange(i as int, to as int).subrange(
            1,
            (to - i) as int,
        ));
        i += 1;
    }
    i - from
}

/// Reads the reply to an IP discovery request made for `ssrc`: the address
/// and port the server sees.
pub fn ip_discovery_response(buf: &[u8], ssrc: u32) -> (r: Result<(String, u16), IpDiscoveryError>)
    ensures
        buf@.len() != IP_DISCOVERY_LEN <==> r == Err::<(String, u16), IpDiscoveryError>(
            IpDiscoveryError::InvalidSize(buf@.len() as usize),
        ),
        buf@.len() == IP_DISCOVERY_LEN && buf@.subrange(0, 4) != discovery_response_header()
            <==> r matches Err(IpDiscoveryError::InvalidHeader(h)),
        r matches Err(IpDiscoveryError::InvalidHeader(h)) ==> h@ == buf@.subrange(0, 4),
        buf@.len() == IP_DISCOVERY_LEN && buf@.subrange(0, 4) == discovery_response_header()
            && buf@.subrange(4, 8) != be32(ssrc) <==> r matches Err(
            IpDiscoveryError::InvalidSsrc(_, _),
        ),
        r matches Err(IpDiscoveryError::InvalidSsrc(expected, got)) ==> expected == ssrc && be32(
            got,
        ) == buf@.subrange(4, 8),
        r matches Err(IpDiscoveryError::InvalidAddrUtf8(_)) <==> buf@.len() == IP_DISCOVERY_LEN
            && buf@.subrange(0, 4) == discovery_response_header() && buf@.subrange(4, 8) == be32(
            ssrc,
        ) && !valid_utf8(discovery_address(buf@)),
        r is Ok <==> buf@.len() == IP_DISCOVERY_LEN && buf@.subrange(0, 4)
            == discovery_response_header() && buf@.subrange(4, 8) == be32(ssrc) && valid_utf8(
            discovery_address(buf@),
        ),
        r matches Ok((addr, port)) ==> addr@ == decode_utf8(discovery_address(buf@)) && be16(port)
            == buf@.subrange(72, 74),
        !(r matches Err(IpDiscoveryError::InvalidAddr(_))) && !(r matches Err(
            IpDiscoveryError::Io(_),
        )),
{
    if buf.len() != IP_DISCOVERY_LEN {
        return Err(IpDiscoveryError::InvalidSize(buf.len()));
    }
    if !(buf[0] == 0x00u8 && buf[1] == 0x02u8 && buf[2] == 0x00u8 && buf[3] == 0x46u8) {
        proof {
            if buf@.subrange(0, 4) == discovery_response_header() {
                assert(buf@.subrange(0, 4)[1] == 0x02u8);
            }
        }
        let header = copy_array4(buf);
        return Err(IpDiscoveryError::InvalidHeader(header));
    }
    assert(buf@.subrange(0, 4) =~= discovery_response_header());
    let got = u32_from_be(buf, 4);
    if got != ssrc {
        proof {
            if buf@.subrange(4, 8) == be32(ssrc) {
                lemma_be32_injective(got, ssrc);
            }
        }
        return Err(IpDiscoveryError::InvalidSsrc(ssrc, got));
    }
    let port = u16_from_be(buf, 72);
    let len = find_nul(buf, 8, 72);
    proof {
        lemma_nul_position_bound(buf@.subrange(8, 72));
    }
    let addr = crate::voice::crypto::copy_range(buf, 8, 8 + len);
    assert(addr@ =~= discovery_address(buf@));
    match utf8_to_string(addr.as_slice()) {
        Ok(s) => Ok((s, port)),
        Err(e) => Err(IpDiscoveryError::InvalidAddrUtf8(e)),
    }
}

/// The first four bytes of `b`.
fn copy_array4(b: &[u8]) -> (r: [u8; 4])
    requires
        b@.len() >= 4,
    ensures
        r@ == b@.subrange(0, 4),
{
    let r = [b[0], b[1], b[2], b[3]];
    assert(r@ =~= b@.subrange(0, 4));
    r
}

/// Two integers with the same big-endian bytes are equal.
pub proof fn lemma_be32_injective(a: u32, b: u32)
    requires
        be32(a) == be32(b),
    ensures
        a == b,
{
    assert(be32(a)[0] == be32(b)[0]);
    assert(be32(a)[1] == be32(b)[1]);
    assert(be32(a)[2] == be32(b)[2]);
    assert(be32(a)[3] == be32(b)[3]);
}

/// An error that is returned from IP discovery.
pub enum IpDiscoveryError {
    /// The header is badly formed.
    InvalidHeader([u8; 4]),
    /// The SSRC does not match: the one expected, then the one received.
    InvalidSsrc(u32, u32),
    /// The address is not made of valid UTF-8.
    InvalidAddrUtf8(std::str::Utf8Error),
    /// The address is badly formed; holds the address text.
    InvalidAddr(String),
    /// The packet has the wrong size.
    InvalidSize(usize),
    /// IO error.
    Io(std::io::Error),
}

} // verus!
