use wolrus::build_magic_packet;
use wolrus::MAGIC_PACKET_LENGTH;

// A WoL packet is 6 bytes of 0xff, followed by 16 repetitions of the
// 48-bit (6 byte) MAC address. This is 6 + 6 * 16 = 102 bytes.
const EXPECTED_LEN: usize = 102;

#[test]
fn build_packet_bc() {
    let mac = [0xff; 6]; // broadcast
    let expected = [0xffu8; EXPECTED_LEN];

    let packet = build_magic_packet(mac);

    assert_eq!(packet.len(), EXPECTED_LEN);
    assert_eq!(packet.as_slice(), expected.as_slice());
}

#[test]
fn build_packet_real() {
    let mac = [0, 1, 2, 3, 4, 5];
    let mut expected: Vec<u8> = Vec::new();
    expected.extend_from_slice(&[0xff; 6]);
    expected.extend_from_slice(mac.repeat(16).as_slice());

    let packet = build_magic_packet(mac);

    assert_eq!(packet.len(), EXPECTED_LEN);
    assert_eq!(packet.as_slice(), expected.as_slice());
}

#[test]
fn build_packet_length_constant() {
    assert_eq!(MAGIC_PACKET_LENGTH, 102);
    let packet = build_magic_packet([0x12, 0x34, 0x56, 0x78, 0x9a, 0xbc]);
    assert_eq!(packet.len(), MAGIC_PACKET_LENGTH);
}

#[test]
fn build_packet_sync_bytes() {
    let packet = build_magic_packet([0, 1, 2, 3, 4, 5]);
    assert_eq!(&packet[0..6], &[0xff, 0xff, 0xff, 0xff, 0xff, 0xff]);
}

#[test]
fn build_packet_every_repetition() {
    let mac = [0x00, 0x11, 0x22, 0x33, 0x44, 0x55];
    let packet = build_magic_packet(mac);
    for k in 0..16 {
        assert_eq!(&packet[6 + k * 6..6 + k * 6 + 6], mac.as_slice());
    }
}

#[test]
fn build_packet_first_and_last_repetition() {
    let mac = [0, 1, 2, 3, 4, 5];
    let packet = build_magic_packet(mac);
    assert_eq!(&packet[6..12], mac.as_slice());
    assert_eq!(&packet[96..102], mac.as_slice());
}

#[test]
fn build_packet_deterministic() {
    let mac = [0xde, 0xad, 0xbe, 0xef, 0x00, 0x01];
    let first = build_magic_packet(mac);
    let second = build_magic_packet(mac);
    assert_eq!(first, second);
}

#[test]
fn build_packet_all_zero_address() {
    let packet = build_magic_packet([0; 6]);
    assert_eq!(packet.len(), 102);
    assert_eq!(&packet[0..6], &[0xff; 6]);
    assert!(packet[6..].iter().all(|&b| b == 0));
}
