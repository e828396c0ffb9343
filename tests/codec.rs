use wold::codec;

#[test]
fn eui48() {
    assert_eq!(
        codec::eui48(b"01:23:45:67:89:ab"),
        Some([0x01, 0x23, 0x45, 0x67, 0x89, 0xab])
    );
    assert_eq!(
        codec::eui48(b"01-23-45-67-89-ab"),
        Some([0x01, 0x23, 0x45, 0x67, 0x89, 0xab])
    );
    assert_eq!(
        codec::eui48(b"01:23-45:67-89:ab"),
        Some([0x01, 0x23, 0x45, 0x67, 0x89, 0xab])
    );
    assert_eq!(codec::eui48(b"01:23:45:67:89"), None);
    assert_eq!(codec::eui48(b"001:23:45:67:89:ab"), None);
}

#[test]
fn eui48_accepts_either_case() {
    assert_eq!(
        codec::eui48(b"AA:bb:Cc:dD:EE:ff"),
        Some([0xaa, 0xbb, 0xcc, 0xdd, 0xee, 0xff])
    );
}

#[test]
fn eui48_accepts_reserved_values() {
    assert_eq!(codec::eui48(b"00:00:00:00:00:00"), Some([0; 6]));
    assert_eq!(codec::eui48(b"ff-ff-ff-ff-ff-ff"), Some([0xff; 6]));
}

#[test]
fn eui48_rejects_invalid_hex_digit() {
    assert_eq!(codec::eui48(b"01:23:45:67:89:ag"), None);
    assert_eq!(codec::eui48(b"g1:23:45:67:89:ab"), None);
    assert_eq!(codec::eui48(b"01:23: 5:67:89:ab"), None);
}

#[test]
fn eui48_rejects_bad_separator() {
    assert_eq!(codec::eui48(b"01.23:45:67:89:ab"), None);
    assert_eq!(codec::eui48(b"01:23:45:67:89_ab"), None);
    assert_eq!(codec::eui48(b"0123:45:67:89:ab:"), None);
}

#[test]
fn eui48_rejects_missing_separator() {
    assert_eq!(codec::eui48(b"01:23:4567:89:ab"), None);
    assert_eq!(codec::eui48(b"0123456789ab"), None);
}

#[test]
fn eui48_rejects_wrong_length() {
    assert_eq!(codec::eui48(b""), None);
    assert_eq!(codec::eui48(b"01:23:45:67:89:ab:"), None);
    assert_eq!(codec::eui48(b"not-a-mac"), None);
}
