use vstd::prelude::*;
use crate::checksum::{compute_udp_checksum, header_bytes, udp_checksum};
use crate::ip::IpAddress;
use crate::layer::{Layer, LayerError, LayerType};
use crate::wire::{be16, be16_at, decimal, push_decimal, read_be16, write_be16};

verus! {

/// The size in bytes of a UDP header on the wire.
pub const UDP_HEADER_SIZE: usize = 8;

/// The fields of a UDP header, with the payload that follows it.
#[derive(Clone, Debug, PartialEq, Eq)]
pub struct UdpFields {
    pub source: u16,
    pub destination: u16,
    pub length: u16,
    pub checksum: u16,
    pub payload: Vec<u8>,
}

/// A UDP layer: its header fields and the addresses of the enclosing
/// network layer, which its checksum covers.
#[derive(Clone, Debug)]
pub struct Udp {
    pub layer: UdpFields,
    pub src: IpAddress,
    pub dst: IpAddress,
}

/// The mathematical model of a `Udp`.
pub struct UdpView {
    pub source: u16,
    pub destination: u16,
    pub length: u16,
    pub checksum: u16,
    pub payload: Seq<u8>,
    pub src: IpAddress,
    pub dst: IpAddress,
}

impl View for Udp {
    type V = UdpView;

    open spec fn view(&self) -> UdpView {
        UdpView {
            source: self.layer.source,
            destination: self.layer.destination,
            length: self.layer.length,
            checksum: self.layer.checksum,
            payload: self.layer.payload@,
            src: self.src,
            dst: self.dst,
        }
    }
}

/// The layer read from the header at the start of `packet`; any bytes
/// after the header are dropped.
pub open spec fn parsed(packet: Seq<u8>, src: IpAddress, dst: IpAddress) -> UdpView {
    UdpView {
        source: be16_at(packet, 0),
        destination: be16_at(packet, 2),
        length: be16_at(packet, 4),
        checksum: be16_at(packet, 6),
        payload: Seq::empty(),
        src,
        dst,
    }
}

/// The length field written when `n` bytes follow the header; it is cut
/// to 16 bits.
pub open spec fn trailer_length(n: nat) -> u16 {
    ((UDP_HEADER_SIZE + n) % 65536) as u16
}

impl UdpView {
    /// How serializing into a buffer of `buffer_len` bytes ends.
    pub open spec fn outcome(self, buffer_len: int) -> Result<(), LayerError> {
        if buffer_len < UDP_HEADER_SIZE {
            Err(LayerError::BufferTooSmall)
        } else if !self.src.same_family(self.dst) {
            Err(LayerError::AddressFamilyMismatch)
        } else {
            Ok(())
        }
    }

    /// The buffer after serializing with `length` in the length field: too
    /// short a buffer is left alone; with addresses of different families
    /// the header is written with the model's checksum; otherwise with the
    /// computed one. Bytes past the header are kept.
    pub open spec fn written(self, length: u16, buffer: Seq<u8>) -> Seq<u8> {
        if buffer.len() < UDP_HEADER_SIZE {
            buffer
        } else if !self.src.same_family(self.dst) {
            header_bytes(self.source, self.destination, length, self.checksum) + buffer.subrange(
                UDP_HEADER_SIZE as int,
                buffer.len() as int,
            )
        } else {
            header_bytes(
                self.source,
                self.destination,
                length,
                udp_checksum(self.src, self.dst, self.source, self.destination, length),
            ) + buffer.subrange(UDP_HEADER_SIZE as int, buffer.len() as int)
        }
    }

    /// The one-line summary of the layer.
    pub open spec fn description(self) -> Seq<char> {
        LayerType::Udp.name_spec() + ": "@ + decimal(self.source as nat) + " -> "@ + decimal(
            self.destination as nat,
        ) + ", Length = "@ + decimal(self.length as nat)
    }
}

impl Udp {
    /// Creates a `Udp` from its fields and addresses, as given.
    pub fn new(udp: UdpFields, src: IpAddress, dst: IpAddress) -> (r: Udp)
        ensures
            r.layer == udp,
            r.src == src,
            r.dst == dst,
    {
        Udp { layer: udp, src, dst }
    }

    /// Creates a `Udp` from the header at the start of `packet`; the payload
    /// is left empty.
    pub fn parse(packet: &[u8], src: IpAddress, dst: IpAddress) -> (r: Udp)
        requires
            packet@.len() >= UDP_HEADER_SIZE,
        ensures
            r@ == parsed(packet@, src, dst),
    {
        let layer = UdpFields {
            source: read_be16(packet, 0),
            destination: read_be16(packet, 2),
            length: read_be16(packet, 4),
            checksum: read_be16(packet, 6),
            payload: Vec::new(),
        };
        let r = Udp { layer, src, dst };
        assert(r@.payload =~= Seq::empty());
        r
    }

    /// A summary such as `UDP: 53 -> 80, Length = 8`.
    pub fn describe(&self) -> (r: String)
        ensures
            r@ == self@.description(),
    {
        let mut s = String::from_str(LayerType::Udp.name());
        s.append(": ");
        push_decimal(&mut s, self.layer.source);
        s.append(" -> ");
        push_decimal(&mut s, self.layer.destination);
        s.append(", Length = ");
        push_decimal(&mut s, self.layer.length);
        s
    }

    /// Writes the header with `length` in its length field, then its
    /// checksum.
    fn write_header(&self, length: u16, buffer: &mut [u8]) -> (r: Result<(), LayerError>)
        ensures
            r == self@.outcome(old(buffer)@.len() as int),
            final(buffer)@ == self@.written(length, old(buffer)@),
    {
        if buffer.len() < UDP_HEADER_SIZE {
            return Err(LayerError::BufferTooSmall);
        }
        let ghost rest = old(buffer)@.subrange(UDP_HEADER_SIZE as int, old(buffer)@.len() as int);
        write_be16(buffer, 0, self.layer.source);
        write_be16(buffer, 2, self.layer.destination);
        write_be16(buffer, 4, length);
        write_be16(buffer, 6, self.layer.checksum);
        if !self.src.same_family_as(&self.dst) {
            assert(buffer@ =~= header_bytes(
                self.layer.source,
                self.layer.destination,
                length,
                self.layer.checksum,
            ) + rest);
            return Err(LayerError::AddressFamilyMismatch);
        }
        let checksum = compute_udp_checksum(
            &self.src,
            &self.dst,
            self.layer.source,
            self.layer.destination,
            length,
        );
        write_be16(buffer, 6, checksum);
        assert(buffer@ =~= header_bytes(
            self.layer.source,
            self.layer.destination,
            length,
            checksum,
        ) + rest);
        Ok(())
    }
}

impl Layer for Udp {
    open spec fn header_size(&self) -> nat {
        UDP_HEADER_SIZE as nat
    }

    /// The kind of this layer.
    fn get_type(&self) -> (r: LayerType)
        ensures
            r == LayerType::Udp,
    {
        LayerType::Udp
    }

    /// The size of the header on the wire, whatever the payload.
    fn get_size(&self) -> (r: usize)
        ensures
            r == UDP_HEADER_SIZE,
    {
        UDP_HEADER_SIZE
    }

    /// Writes the header into the start of `buffer`, with the length field
    /// as held and a freshly computed checksum. No payload is written.
    fn serialize(&self, buffer: &mut [u8]) -> (r: Result<(), LayerError>)
        ensures
            r == self@.outcome(old(buffer)@.len() as int),
            final(buffer)@ == self@.written(self.layer.length, old(buffer)@),
            old(buffer)@.len() < UDP_HEADER_SIZE ==> r == Err::<(), LayerError>(
                LayerError::BufferTooSmall,
            ),
            old(buffer)@.len() >= UDP_HEADER_SIZE && !self.src.same_family(self.dst) ==> r
                == Err::<(), LayerError>(LayerError::AddressFamilyMismatch),
    {
        self.write_header(self.layer.length, buffer)
    }

    /// Writes the header as `serialize` does, but for `n` bytes that the
    /// caller puts right after it: the length field becomes `8 + n` (cut to
    /// 16 bits) before the checksum is computed. Returns `8 + n`.
    fn serialize_n(&self, n: usize, buffer: &mut [u8]) -> (r: Result<usize, LayerError>)
        ensures
            final(buffer)@ == self@.written(trailer_length(n as nat), old(buffer)@),
            match r {
                Ok(total) => self@.outcome(old(buffer)@.len() as int) == Ok::<(), LayerError>(())
                    && total == UDP_HEADER_SIZE + n,
                Err(e) => self@.outcome(old(buffer)@.len() as int) == Err::<(), LayerError>(e),
            },
            old(buffer)@.len() < UDP_HEADER_SIZE ==> r == Err::<usize, LayerError>(
                LayerError::BufferTooSmall,
            ),
            old(buffer)@.len() >= UDP_HEADER_SIZE && !self.src.same_family(self.dst) ==> r
                == Err::<usize, LayerError>(LayerError::AddressFamilyMismatch),
    {
        let total = self.get_size() + n;
        let length = (total % 65536) as u16;
        match self.write_header(length, buffer) {
            Ok(()) => Ok(total),
            Err(e) => Err(e),
        }
    }
}

proof fn lemma_be16_round_trip(v: u16)
    ensures
        be16_at(be16(v), 0) == v,
{
}

proof fn lemma_be16_of_stored(s: Seq<u8>, at: int)
    requires
        0 <= at,
        at + 2 <= s.len(),
    ensures
        be16(be16_at(s, at)) == s.subrange(at, at + 2),
{
    let v = be16_at(s, at);
    assert(v == s[at] as int * 256 + s[at + 1] as int);
    assert(be16(v) =~= s.subrange(at, at + 2));
}

/// The header that serialization writes depends on the ports, the length
/// field and the addresses alone: not on the checksum held in the model,
/// its payload, or what the buffer held before. Its checksum field is the
/// pseudo-header checksum of those values.
pub proof fn lemma_checksum_deterministic(
    a: UdpView,
    b: UdpView,
    length: u16,
    buffer_a: Seq<u8>,
    buffer_b: Seq<u8>,
)
    requires
        a.source == b.source,
        a.destination == b.destination,
        a.src == b.src,
        a.dst == b.dst,
        a.src.same_family(a.dst),
        buffer_a.len() >= UDP_HEADER_SIZE,
        buffer_b.len() >= UDP_HEADER_SIZE,
    ensures
        a.written(length, buffer_a).subrange(0, 8) == b.written(length, buffer_b).subrange(0, 8),
        a.written(length, buffer_a).subrange(6, 8) == be16(
            udp_checksum(a.src, a.dst, a.source, a.destination, length),
        ),
{
    assert(a.written(length, buffer_a).subrange(0, 8) =~= b.written(length, buffer_b).subrange(
        0,
        8,
    ));
    assert(a.written(length, buffer_a).subrange(6, 8) =~= be16(
        udp_checksum(a.src, a.dst, a.source, a.destination, length),
    ));
}

/// Serializing with `n` trailing bytes writes `8 + n` into the length
/// field, whenever that fits in 16 bits.
pub proof fn lemma_trailer_length_written(v: UdpView, n: nat, buffer: Seq<u8>)
    requires
        n <= 65535 - UDP_HEADER_SIZE,
        buffer.len() >= UDP_HEADER_SIZE,
    ensures
        be16_at(v.written(trailer_length(n), buffer), 4) == UDP_HEADER_SIZE + n,
{
    let w = v.written(trailer_length(n), buffer);
    let len = trailer_length(n);
    assert(w.subrange(4, 6) =~= be16(len));
    lemma_be16_round_trip(len);
    assert(be16_at(w, 4) == be16_at(be16(len), 0));
}

/// Parsing a header and serializing the result again succeeds on a large
/// enough buffer, keeps the ports and the length as they were, writes the
/// recomputed checksum, and carries no payload over.
pub proof fn lemma_parse_then_serialize(
    packet: Seq<u8>,
    src: IpAddress,
    dst: IpAddress,
    buffer: Seq<u8>,
)
    requires
        packet.len() >= UDP_HEADER_SIZE,
        src.same_family(dst),
        buffer.len() >= UDP_HEADER_SIZE,
    ensures
        parsed(packet, src, dst).payload.len() == 0,
        parsed(packet, src, dst).outcome(buffer.len() as int) == Ok::<(), LayerError>(()),
        parsed(packet, src, dst).written(parsed(packet, src, dst).length, buffer).subrange(0, 6)
            == packet.subrange(0, 6),
        parsed(packet, src, dst).written(parsed(packet, src, dst).length, buffer).subrange(6, 8)
            == be16(
            udp_checksum(src, dst, be16_at(packet, 0), be16_at(packet, 2), be16_at(packet, 4)),
        ),
{
    let v = parsed(packet, src, dst);
    let w = v.written(v.length, buffer);
    lemma_be16_of_stored(packet, 0);
    lemma_be16_of_stored(packet, 2);
    lemma_be16_of_stored(packet, 4);
    assert(w.subrange(0, 6) =~= packet.subrange(0, 6));
    assert(w.subrange(6, 8) =~= be16(udp_checksum(src, dst, v.source, v.destination, v.length)));
}

} // verus!
