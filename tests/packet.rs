use wold::packet::magic_packet;

fn expected_packet(mac: [u8; 6]) -> Vec<u8> {
    let mut v = vec![0xffu8; 6];
    for _ in 0..16 {
        v.extend_from_slice(&mac);
    }
    v
}

#[test]
fn magic_packet_layout() {
    let mac = [0x01, 0x23, 0x45, 0x67, 0x89, 0xab];
    let p = magic_packet(&mac);
    assert_eq!(p.len(), 102);
    assert_eq!(&p[0..6], &[0xff; 6]);
    for i in 0..16 {
        assert_eq!(&p[6 + 6 * i..12 + 6 * i], &mac);
    }
    assert_eq!(p.to_vec(), expected_packet(mac));
}

#[test]
fn magic_packet_is_deterministic() {
    let mac = [0x10, 0x20, 0x30, 0x40, 0x50, 0x60];
    assert_eq!(magic_packet(&mac), magic_packet(&mac));
}

#[test]
fn magic_packet_of_zero_address() {
    let p = magic_packet(&[0; 6]);
    assert_eq!(&p[0..6], &[0xff; 6]);
    assert!(p[6..].iter().all(|b| *b == 0));
}
