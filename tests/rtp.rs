use swc::voice::crypto::{open_packet, EncryptionMode, Encryptor};
use swc::voice::rtp::{ip_discovery_request, ip_discovery_response, IpDiscoveryError, Packet, Socket};

fn key() -> Vec<u8> {
    (0u8..32).collect()
}

#[test]
fn new_packet_writes_header_bytes() {
    let p = Packet::new(vec![0xAAu8; 40]);
    assert_eq!(&p.header()[..2], &[0x80, 0x78]);
    assert_eq!(p.payload_len(), 0);
    assert_eq!(p.as_bytes().len(), 28);
    assert_eq!(p.payload().len(), 12);
    let d = Packet::default();
    assert_eq!(d.capacity(), 1460);
}

#[test]
fn counters_go_into_header_big_endian() {
    let mut p = Packet::default();
    p.set_sequence(0x0102);
    p.set_timestamp(0x03040506);
    p.set_ssrc(0x0708090A);
    assert_eq!(&p.header()[..12], &[0x80, 0x78, 1, 2, 3, 4, 5, 6, 7, 8, 9, 10]);
}

#[test]
fn payload_writes_keep_header() {
    let mut p = Packet::default();
    p.set_payload(&[0xFF; 100]);
    assert_eq!(p.payload_len(), 100);
    assert_eq!(&p.as_bytes()[..2], &[0x80, 0x78]);
    assert_eq!(&p.as_bytes()[28..], &[0xFF; 100][..]);
}

#[test]
fn consecutive_sends_carry_consecutive_counters() {
    let mut socket = Socket::new(0xDEADBEEF, Encryptor::new(EncryptionMode::Normal, key()));
    let mut first = Packet::default();
    first.set_payload(&[1, 2, 3]);
    socket.send(&mut first).ok().unwrap();
    let mut second = Packet::default();
    second.set_payload(&[4, 5, 6]);
    socket.send(&mut second).ok().unwrap();
    assert_eq!(&first.as_bytes()[..12], &[0x80, 0x78, 0, 0, 0, 0, 0, 0, 0xDE, 0xAD, 0xBE, 0xEF]);
    assert_eq!(&second.as_bytes()[..12], &[0x80, 0x78, 0, 1, 0, 0, 0x03, 0xC0, 0xDE, 0xAD, 0xBE, 0xEF]);
    assert_eq!(socket.sequence(), 2);
    assert_eq!(socket.timestamp(), 1920);
    assert_eq!(socket.ssrc(), 0xDEADBEEF);
}

#[test]
fn sequence_wraps_after_u16_max() {
    let mut socket = Socket::new(7, Encryptor::new(EncryptionMode::Lite, key()));
    for _ in 0..65535u32 {
        let mut p = Packet::default();
        p.set_payload(&[0]);
        socket.send(&mut p).ok().unwrap();
    }
    assert_eq!(socket.sequence(), 65535);
    assert_eq!(socket.timestamp(), 65535u32.wrapping_mul(960));
    let mut p = Packet::default();
    p.set_payload(&[0]);
    socket.send(&mut p).ok().unwrap();
    assert_eq!(&p.as_bytes()[2..4], &[0xFF, 0xFF]);
    assert_eq!(socket.sequence(), 0);
    assert_eq!(socket.timestamp(), 65536u32.wrapping_mul(960));
}

fn round_trip(mode: EncryptionMode, suffix: usize) {
    let plain: Vec<u8> = (0u8..50).collect();
    let mut socket = Socket::new(99, Encryptor::new(mode, key()));
    let mut p = Packet::default();
    p.set_payload(&plain);
    socket.send(&mut p).ok().unwrap();
    let wire = p.as_bytes().to_vec();
    assert_eq!(wire.len(), 28 + plain.len() + suffix);
    assert_ne!(&wire[28..28 + plain.len()], &plain[..]);
    assert_eq!(open_packet(&key(), mode, &wire), Some(plain.clone()));
    let mut tampered = wire.clone();
    tampered[30] ^= 1;
    assert_eq!(open_packet(&key(), mode, &tampered), None);
    let mut other_key = key();
    other_key[0] ^= 1;
    assert_eq!(open_packet(&other_key, mode, &wire), None);
}

#[test]
fn normal_mode_round_trip() {
    round_trip(EncryptionMode::Normal, 0);
}

#[test]
fn suffix_mode_round_trip() {
    round_trip(EncryptionMode::Suffix, 24);
}

#[test]
fn lite_mode_round_trip() {
    round_trip(EncryptionMode::Lite, 4);
}

#[test]
fn lite_nonce_counts_up() {
    let mut enc = Encryptor::new(EncryptionMode::Lite, key());
    let mut a = Packet::default();
    a.set_payload(&[9]);
    enc.encrypt(&mut a).ok().unwrap();
    let mut b = Packet::default();
    b.set_payload(&[9]);
    enc.encrypt(&mut b).ok().unwrap();
    let na = u32::from_be_bytes(a.as_bytes()[29..33].try_into().unwrap());
    let nb = u32::from_be_bytes(b.as_bytes()[29..33].try_into().unwrap());
    assert_eq!(nb, na.wrapping_add(1));
    assert_eq!(enc.suffix_len(), 4);
}

#[test]
fn short_packet_does_not_open() {
    assert_eq!(open_packet(&key(), EncryptionMode::Suffix, &[0x80; 40]), None);
}

#[test]
fn ip_discovery_request_layout() {
    let req = ip_discovery_request(0xDEADBEEF);
    assert_eq!(req.len(), 74);
    assert_eq!(&req[..8], &[0x00, 0x01, 0x00, 0x46, 0xDE, 0xAD, 0xBE, 0xEF]);
    assert!(req[8..].iter().all(|&b| b == 0));
}

fn response(ssrc: u32, addr: &str, port: u16) -> Vec<u8> {
    let mut buf = vec![0u8; 74];
    buf[..4].copy_from_slice(&[0x00, 0x02, 0x00, 0x46]);
    buf[4..8].copy_from_slice(&ssrc.to_be_bytes());
    buf[8..8 + addr.len()].copy_from_slice(addr.as_bytes());
    buf[72..74].copy_from_slice(&port.to_be_bytes());
    buf
}

#[test]
fn ip_discovery_response_gives_address_and_port() {
    let (addr, port) = ip_discovery_response(&response(0xDEADBEEF, "127.0.0.1", 50000), 0xDEADBEEF)
        .ok()
        .unwrap();
    assert_eq!(addr, "127.0.0.1");
    assert_eq!(port, 50000);
}

#[test]
fn ip_discovery_ssrc_mismatch() {
    match ip_discovery_response(&response(0xCAFEBABE, "127.0.0.1", 50000), 0xDEADBEEF) {
        Err(IpDiscoveryError::InvalidSsrc(expected, got)) => {
            assert_eq!(expected, 0xDEADBEEF);
            assert_eq!(got, 0xCAFEBABE);
        }
        _ => panic!("expected an ssrc mismatch"),
    }
}

#[test]
fn ip_discovery_bad_header_and_size() {
    let mut buf = response(1, "10.0.0.1", 1);
    buf[1] = 0x01;
    assert!(matches!(
        ip_discovery_response(&buf, 1),
        Err(IpDiscoveryError::InvalidHeader([0x00, 0x01, 0x00, 0x46]))
    ));
    assert!(matches!(ip_discovery_response(&[0u8; 70], 1), Err(IpDiscoveryError::InvalidSize(70))));
    let mut bad = response(1, "", 1);
    bad[8] = 0xFF;
    assert!(matches!(ip_discovery_response(&bad, 1), Err(IpDiscoveryError::InvalidAddrUtf8(_))));
}

#[test]
fn ip_discovery_address_fills_whole_field() {
    let long = "a".repeat(64);
    let (addr, _) = ip_discovery_response(&response(5, &long, 9), 5).ok().unwrap();
    assert_eq!(addr.len(), 64);
}
