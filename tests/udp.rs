use udp_layer::checksum::compute_udp_checksum;
use udp_layer::ip::IpAddress;
use udp_layer::layer::{Layer, LayerError, LayerType};
use udp_layer::udp::{Udp, UdpFields, UDP_HEADER_SIZE};
use udp_layer::wire::{push_decimal, read_be16, write_be16};

fn v4(a: u8, b: u8, c: u8, d: u8) -> IpAddress {
    IpAddress::V4([a, b, c, d])
}

fn v6(last: u8) -> IpAddress {
    let mut o = [0u8; 16];
    o[0] = 0xfe;
    o[1] = 0x80;
    o[15] = last;
    IpAddress::V6(o)
}

fn fields(source: u16, destination: u16, length: u16, checksum: u16, payload: Vec<u8>) -> UdpFields {
    UdpFields { source, destination, length, checksum, payload }
}

/// A straightforward one's-complement checksum over a pseudo-header and
/// the header, written independently of the library.
fn reference_checksum(src: &[u8], dst: &[u8], sp: u16, dp: u16, len: u16) -> u16 {
    let mut words: Vec<u32> = Vec::new();
    for pair in src.chunks(2).chain(dst.chunks(2)) {
        words.push(((pair[0] as u32) << 8) | pair[1] as u32);
    }
    words.push(17);
    words.push(len as u32);
    words.push(sp as u32);
    words.push(dp as u32);
    words.push(len as u32);
    let mut sum: u32 = words.iter().sum();
    while sum > 0xffff {
        sum = (sum >> 16) + (sum & 0xffff);
    }
    !(sum as u16)
}

#[test]
fn wire_size_is_eight_whatever_the_payload() {
    for n in [0usize, 1, 7, 1000] {
        let u = Udp::new(fields(1, 2, 3, 4, vec![9; n]), v4(1, 1, 1, 1), v4(2, 2, 2, 2));
        assert_eq!(u.get_size(), 8);
    }
    assert_eq!(UDP_HEADER_SIZE, 8);
}

#[test]
fn layer_type_is_udp() {
    let u = Udp::new(fields(1, 2, 8, 0, vec![]), v4(1, 1, 1, 1), v4(2, 2, 2, 2));
    assert_eq!(u.get_type(), LayerType::Udp);
    assert_eq!(LayerType::Udp.name(), "UDP");
}

#[test]
fn new_keeps_fields_as_given() {
    let u = Udp::new(fields(0, 0, 3, 77, vec![1, 2]), v4(1, 2, 3, 4), v6(1));
    assert_eq!(u.layer, fields(0, 0, 3, 77, vec![1, 2]));
    assert_eq!(u.src, v4(1, 2, 3, 4));
    assert_eq!(u.dst, v6(1));
}

#[test]
fn serialize_rejects_short_buffers() {
    let u = Udp::new(fields(53, 80, 8, 0, vec![]), v4(1, 1, 1, 1), v4(2, 2, 2, 2));
    for len in 0..8 {
        let mut buf = vec![0xeeu8; len];
        assert_eq!(u.serialize(&mut buf), Err(LayerError::BufferTooSmall));
        assert_eq!(buf, vec![0xeeu8; len]);
        assert_eq!(u.serialize_n(4, &mut buf), Err(LayerError::BufferTooSmall));
        assert_eq!(buf, vec![0xeeu8; len]);
    }
}

#[test]
fn serialize_rejects_mixed_address_families() {
    let pairs = [(v4(10, 0, 0, 1), v6(2)), (v6(1), v4(10, 0, 0, 2))];
    for (src, dst) in pairs {
        let u = Udp::new(fields(53, 80, 8, 0x1234, vec![]), src, dst);
        let mut buf = [0u8; 10];
        assert_eq!(u.serialize(&mut buf), Err(LayerError::AddressFamilyMismatch));
        assert_eq!(buf, [0x00, 0x35, 0x00, 0x50, 0x00, 0x08, 0x12, 0x34, 0, 0]);
        let mut buf = [0u8; 8];
        assert_eq!(u.serialize_n(2, &mut buf), Err(LayerError::AddressFamilyMismatch));
        assert_eq!(buf, [0x00, 0x35, 0x00, 0x50, 0x00, 0x0a, 0x12, 0x34]);
    }
}

#[test]
fn checksum_of_a_known_ipv4_header() {
    let u = Udp::new(fields(53, 80, 8, 0, vec![]), v4(192, 168, 0, 1), v4(192, 168, 0, 2));
    let mut buf = [0u8; 8];
    assert_eq!(u.serialize(&mut buf), Ok(()));
    assert_eq!(buf, [0x00, 0x35, 0x00, 0x50, 0x00, 0x08, 0x7e, 0x05]);
}

#[test]
fn checksum_matches_reference_ipv4() {
    let src = [10u8, 1, 2, 3];
    let dst = [172u8, 16, 254, 9];
    for (sp, dp, len) in [(1u16, 2u16, 8u16), (65535, 65535, 65535), (0, 0, 0), (4000, 53, 300)] {
        let u = Udp::new(fields(sp, dp, len, 0xffff, vec![]), IpAddress::V4(src), IpAddress::V4(dst));
        let mut buf = [0u8; 8];
        assert_eq!(u.serialize(&mut buf), Ok(()));
        let written = u16::from_be_bytes([buf[6], buf[7]]);
        assert_eq!(written, reference_checksum(&src, &dst, sp, dp, len));
    }
}

#[test]
fn checksum_matches_reference_ipv6() {
    let mut src = [0u8; 16];
    let mut dst = [0u8; 16];
    for i in 0..16 {
        src[i] = (i as u8) * 7 + 1;
        dst[i] = 255 - (i as u8) * 3;
    }
    for (sp, dp, len) in [(546u16, 547u16, 8u16), (65535, 1, 40)] {
        let u = Udp::new(fields(sp, dp, len, 0, vec![]), IpAddress::V6(src), IpAddress::V6(dst));
        let mut buf = [0u8; 8];
        assert_eq!(u.serialize(&mut buf), Ok(()));
        let written = u16::from_be_bytes([buf[6], buf[7]]);
        assert_eq!(written, reference_checksum(&src, &dst, sp, dp, len));
        assert_eq!(written, compute_udp_checksum(&IpAddress::V6(src), &IpAddress::V6(dst), sp, dp, len));
    }
}

#[test]
fn checksum_ignores_model_checksum_payload_and_old_buffer() {
    let a = Udp::new(fields(7, 9, 8, 0, vec![]), v4(1, 2, 3, 4), v4(5, 6, 7, 8));
    let b = Udp::new(fields(7, 9, 8, 0xbeef, vec![1, 2, 3]), v4(1, 2, 3, 4), v4(5, 6, 7, 8));
    let mut buf_a = [0u8; 8];
    let mut buf_b = [0xffu8; 12];
    assert_eq!(a.serialize(&mut buf_a), Ok(()));
    assert_eq!(b.serialize(&mut buf_b), Ok(()));
    assert_eq!(buf_a[..], buf_b[..8]);
    assert_eq!(buf_b[8..], [0xff; 4]);
    let mut again = [0u8; 8];
    assert_eq!(a.serialize(&mut again), Ok(()));
    assert_eq!(again, buf_a);
}

#[test]
fn serialize_keeps_length_field_as_held() {
    let u = Udp::new(fields(1, 2, 3, 0, vec![1, 2, 3, 4, 5]), v4(1, 1, 1, 1), v4(2, 2, 2, 2));
    let mut buf = [0u8; 8];
    assert_eq!(u.serialize(&mut buf), Ok(()));
    assert_eq!(&buf[4..6], &[0, 3]);
}

#[test]
fn serialize_n_writes_header_plus_trailer_length() {
    let src = [192u8, 168, 0, 1];
    let dst = [192u8, 168, 0, 2];
    for n in [0usize, 1, 100, 65527] {
        let u = Udp::new(fields(53, 80, 8, 0, vec![]), IpAddress::V4(src), IpAddress::V4(dst));
        let mut buf = [0u8; 8];
        assert_eq!(u.serialize_n(n, &mut buf), Ok(8 + n));
        let len = u16::from_be_bytes([buf[4], buf[5]]);
        assert_eq!(len as usize, 8 + n);
        let written = u16::from_be_bytes([buf[6], buf[7]]);
        assert_eq!(written, reference_checksum(&src, &dst, 53, 80, len));
    }
}

#[test]
fn serialize_n_cuts_length_to_sixteen_bits() {
    let u = Udp::new(fields(1, 2, 0, 0, vec![]), v4(1, 1, 1, 1), v4(2, 2, 2, 2));
    let mut buf = [0u8; 8];
    assert_eq!(u.serialize_n(65530, &mut buf), Ok(65538));
    assert_eq!(&buf[4..6], &[0, 2]);
}

#[test]
fn parse_then_describe() {
    let raw = [0x00u8, 0x35, 0x00, 0x50, 0x00, 0x08, 0xAB, 0xCD];
    let u = Udp::parse(&raw, v4(1, 2, 3, 4), v4(5, 6, 7, 8));
    assert_eq!(u.describe(), "UDP: 53 -> 80, Length = 8");
    let other = [0x00u8, 0x35, 0x00, 0x50, 0x00, 0x08, 0x00, 0x00];
    let w = Udp::parse(&other, v4(1, 2, 3, 4), v4(5, 6, 7, 8));
    assert_eq!(w.describe(), "UDP: 53 -> 80, Length = 8");
}

#[test]
fn describe_extreme_values() {
    let u = Udp::new(fields(0, 65535, 10, 0, vec![]), v6(1), v6(2));
    assert_eq!(u.describe(), "UDP: 0 -> 65535, Length = 10");
}

#[test]
fn parse_reads_fields_and_drops_payload() {
    let raw = [0x12u8, 0x34, 0xab, 0xcd, 0x00, 0x0c, 0x55, 0x66, 1, 2, 3, 4];
    let u = Udp::parse(&raw, v4(1, 2, 3, 4), v4(5, 6, 7, 8));
    assert_eq!(u.layer, fields(0x1234, 0xabcd, 12, 0x5566, vec![]));
    assert!(u.layer.payload.is_empty());
}

#[test]
fn parse_then_serialize_round_trip() {
    let src = [10u8, 0, 0, 1];
    let dst = [10u8, 0, 0, 2];
    let raw = [0x00u8, 0x35, 0x00, 0x50, 0x00, 0x0c, 0xAB, 0xCD, 9, 9, 9, 9];
    let u = Udp::parse(&raw, IpAddress::V4(src), IpAddress::V4(dst));
    assert!(u.layer.payload.is_empty());
    let mut buf = [0u8; 12];
    assert_eq!(u.serialize(&mut buf), Ok(()));
    assert_eq!(buf[..6], raw[..6]);
    let written = u16::from_be_bytes([buf[6], buf[7]]);
    assert_eq!(written, reference_checksum(&src, &dst, 53, 80, 12));
    assert_ne!(&buf[6..8], &raw[6..8]);
    assert_eq!(buf[8..], [0, 0, 0, 0]);
}

#[test]
fn big_endian_helpers() {
    let mut b = [0u8; 4];
    write_be16(&mut b, 1, 0xa1b2);
    assert_eq!(b, [0, 0xa1, 0xb2, 0]);
    assert_eq!(read_be16(&b, 1), 0xa1b2);
    let mut s = String::from("n=");
    push_decimal(&mut s, 1090);
    assert_eq!(s, "n=1090");
}
