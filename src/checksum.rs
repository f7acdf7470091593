use vstd::prelude::*;
use crate::ip::IpAddress;
use crate::wire::{be16, push_be16};

verus! {

/// The protocol number of UDP, as carried in the pseudo-header.
pub const UDP_PROTOCOL: u8 = 17;

/// The 16-bit one's-complement checksum of `data`, read as big-endian
/// words, with the word at index `skipword` left out.
pub uninterp spec fn internet_checksum(data: Seq<u8>, skipword: int) -> u16;

/// Relies on `pnet::util::checksum`: the one's-complement checksum over the
/// big-endian words of `data`, skipping the word at `skipword`; its value
/// depends on its arguments alone. Its 32-bit accumulator cannot overflow
/// on at most 65536 bytes.
#[verifier::external_body]
fn checksum_of(data: &[u8], skipword: usize) -> (r: u16)
    requires
        data@.len() <= 65536,
    ensures
        r == internet_checksum(data@, skipword as int),
{
    pnet::util::checksum(data, skipword)
}

/// The pseudo-header that precedes a datagram in its checksum; its layout
/// follows the address family of `src`.
pub open spec fn pseudo_header(src: IpAddress, dst: IpAddress, length: u16) -> Seq<u8> {
    if src.is_v4() {
        src.octets() + dst.octets() + seq![0u8, UDP_PROTOCOL] + be16(length)
    } else {
        src.octets() + dst.octets() + seq![0u8, 0u8] + be16(length) + seq![
            0u8,
            0u8,
            0u8,
            UDP_PROTOCOL,
        ]
    }
}

/// The eight header bytes: ports, length and checksum, each big-endian.
pub open spec fn header_bytes(source: u16, destination: u16, length: u16, checksum: u16) -> Seq<
    u8,
> {
    be16(source) + be16(destination) + be16(length) + be16(checksum)
}

/// The bytes summed for the checksum: the pseudo-header, then the header
/// with a zero checksum field.
pub open spec fn checksum_input(
    src: IpAddress,
    dst: IpAddress,
    source: u16,
    destination: u16,
    length: u16,
) -> Seq<u8> {
    pseudo_header(src, dst, length) + header_bytes(source, destination, length, 0)
}

/// Index of the header's checksum word within `checksum_input`.
pub open spec fn checksum_word(src: IpAddress) -> int {
    if src.is_v4() {
        9
    } else {
        23
    }
}

/// The checksum of a datagram header with no payload of its own.
pub open spec fn udp_checksum(
    src: IpAddress,
    dst: IpAddress,
    source: u16,
    destination: u16,
    length: u16,
) -> u16 {
    internet_checksum(checksum_input(src, dst, source, destination, length), checksum_word(src))
}

fn push_octets(out: &mut Vec<u8>, a: &IpAddress)
    ensures
        final(out)@ == old(out)@ + a.octets(),
{
    let octets: &[u8] = match a {
        IpAddress::V4(o) => o.as_slice(),
        IpAddress::V6(o) => o.as_slice(),
    };
    let mut i: usize = 0;
    while i < octets.len()
        invariant
            octets@ == a.octets(),
            i <= octets@.len(),
            out@ == old(out)@ + octets@.subrange(0, i as int),
        decreases octets@.len() - i,
    {
        out.push(octets[i]);
        i = i + 1;
        assert(out@ =~= old(out)@ + octets@.subrange(0, i as int));
    }
    assert(octets@.subrange(0, octets@.len() as int) =~= octets@);
}

/// Computes the checksum of a header with the given ports and length,
/// sent between two addresses of one family.
pub fn compute_udp_checksum(
    src: &IpAddress,
    dst: &IpAddress,
    source: u16,
    destination: u16,
    length: u16,
) -> (r: u16)
    requires
        src.same_family(*dst),
    ensures
        r == udp_checksum(*src, *dst, source, destination, length),
{
    let mut data: Vec<u8> = Vec::new();
    push_octets(&mut data, src);
    push_octets(&mut data, dst);
    let word: usize = match src {
        IpAddress::V4(_) => {
            data.push(0u8);
            data.push(UDP_PROTOCOL);
            push_be16(&mut data, length);
            9
        },
        IpAddress::V6(_) => {
            data.push(0u8);
            data.push(0u8);
            push_be16(&mut data, length);
            data.push(0u8);
            data.push(0u8);
            data.push(0u8);
            data.push(UDP_PROTOCOL);
            23
        },
    };
    assert(data@ =~= pseudo_header(*src, *dst, length));
    push_be16(&mut data, source);
    push_be16(&mut data, destination);
    push_be16(&mut data, length);
    push_be16(&mut data, 0);
    assert(data@ =~= checksum_input(*src, *dst, source, destination, length));
    checksum_of(data.as_slice(), word)
}

} // verus!
