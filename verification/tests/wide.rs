use auid::{Error, Uid128};

fn message_of(error: Error) -> String {
    match error {
        Error::Decoding(message) => message,
        _ => panic!("unexpected kind of error"),
    }
}

const RANDOM: [u8; 12] = [1, 2, 3, 4, 5, 6, 7, 8, 9, 10, 11, 12];

#[test]
fn wide_timestamp_is_placed_first() {
    let timestamp: i64 = 1_700_000_000;
    let bytes = Uid128::from_parts(timestamp, [0; 12]).to_bytes();
    assert_eq!(bytes[..4], [0x65, 0x53, 0xf1, 0x00]);
    assert_eq!(bytes[..4], timestamp.to_be_bytes()[4..]);
    assert_eq!(bytes[4..], [0; 12]);
}

#[test]
fn wide_random_bytes_follow_the_timestamp() {
    let bytes = Uid128::from_parts(1_700_000_000, RANDOM).to_bytes();
    assert_eq!(bytes, [0x65, 0x53, 0xf1, 0x00, 1, 2, 3, 4, 5, 6, 7, 8, 9, 10, 11, 12]);
}

#[test]
fn wide_timestamp_wraps_at_32_bits() {
    let wrapped = Uid128::from_parts((1 << 32) + 7, RANDOM);
    assert_eq!(wrapped, Uid128::from_parts(7, RANDOM));
    assert_eq!(wrapped.to_bytes()[..4], [0, 0, 0, 7]);
}

#[test]
fn wide_bytes_round_trip() {
    let uid = Uid128::from_parts(1_700_000_000, RANDOM);
    assert_eq!(Uid128::try_from(&uid.to_bytes()[..]), Ok(uid));
    for _ in 0..100 {
        let uid = Uid128::new();
        assert_eq!(Uid128::try_from(&uid.to_bytes()[..]), Ok(uid));
    }
}

#[test]
fn wide_try_from_rejects_wrong_length() {
    assert_eq!(
        message_of(Uid128::try_from(&[0u8; 8][..]).unwrap_err()),
        "expected len to be 16, but was 8"
    );
    assert_eq!(
        message_of(Uid128::try_from(&[0u8; 17][..]).unwrap_err()),
        "expected len to be 16, but was 17"
    );
    assert_eq!(
        message_of(Uid128::try_from(&[][..]).unwrap_err()),
        "expected len to be 16, but was 0"
    );
}

#[test]
fn wide_base58_of_known_values() {
    assert_eq!(Uid128::from_parts(1_700_000_000, RANDOM).to_base58(), "DWiiWJaVCsafYe85XJgxbu");
    assert_eq!(Uid128::from_parts(0, [0; 12]).to_base58(), "1111111111111111");
    assert_eq!(Uid128::from_parts(1_700_000_000, RANDOM).to_string(), "DWiiWJaVCsafYe85XJgxbu");
}

#[test]
fn wide_base58_round_trip() {
    let uid = Uid128::from_parts(1_700_000_000, RANDOM);
    assert_eq!(Uid128::from_base58("DWiiWJaVCsafYe85XJgxbu"), Ok(uid));
    for _ in 0..100 {
        let uid = Uid128::new();
        assert_eq!(Uid128::from_base58(&uid.to_base58()), Ok(uid));
        assert_eq!(Uid128::from_base58(&uid.to_string()), Ok(uid));
    }
}

#[test]
fn wide_base58_rejects_wrong_length() {
    assert_eq!(
        message_of(Uid128::from_base58("he11owor1d").unwrap_err()),
        "expected len to be 16, but was 8"
    );
    assert_eq!(
        message_of(Uid128::from_base58("11111111111111111").unwrap_err()),
        "expected len to be 16, but was 17"
    );
    assert_eq!(
        message_of(Uid128::from_base58("").unwrap_err()),
        "expected len to be 16, but was 0"
    );
}

#[test]
fn wide_base58_rejects_malformed_text() {
    assert!(matches!(Uid128::from_base58("DWiiWJaVCsafYe85XJgxb0"), Err(Error::Decoding(_))));
    assert!(matches!(Uid128::from_base58("DWiiWJaVCsafYe85XJgx\u{e9}"), Err(Error::Decoding(_))));
}

#[test]
fn wide_from_decoded_checks_the_length() {
    assert_eq!(
        Uid128::from_decoded(Ok(vec![7; 16])).map(|uid| uid.to_bytes()),
        Ok([7; 16])
    );
    assert_eq!(
        message_of(Uid128::from_decoded(Ok(vec![7; 15])).unwrap_err()),
        "expected len to be 16, but was 15"
    );
    assert_eq!(
        message_of(Uid128::from_decoded(Err("bad input".to_string())).unwrap_err()),
        "bad input"
    );
}

#[test]
fn checksum_of_known_values() {
    assert_eq!(Uid128::from_parts(1_700_000_000, RANDOM).checksum(), "1cacd793");
    assert_eq!(Uid128::from_parts(0, [0; 12]).checksum(), "1c1b0886");
}

#[test]
fn checksum_is_stable() {
    for _ in 0..100 {
        let uid = Uid128::new();
        let copy = Uid128::try_from(&uid.to_bytes()[..]).unwrap();
        assert_eq!(uid.checksum(), uid.checksum());
        assert_eq!(uid.checksum(), copy.checksum());
    }
}

#[test]
fn checksum_is_over_the_text() {
    let uid = Uid128::from_parts(1_700_000_000, RANDOM);
    let expected = format!("{:08x}", auid::crc32::checksum(uid.to_base58().as_bytes()));
    assert_eq!(uid.checksum(), expected);
    let raw = format!("{:08x}", auid::crc32::checksum(&uid.to_bytes()));
    assert_ne!(uid.checksum(), raw);
}

#[test]
fn text_and_checksum_are_never_empty() {
    for _ in 0..100 {
        let uid = Uid128::new();
        assert!(!uid.to_string().is_empty());
        assert_eq!(uid.checksum().len(), 8);
    }
}

#[test]
fn crc32_of_known_values() {
    assert_eq!(auid::crc32::checksum(b"123456789"), 0xcbf4_3926);
    assert_eq!(auid::crc32::checksum(b""), 0);
    assert_eq!(auid::crc32::checksum(b"a"), 0xe8b7_be43);
}

#[test]
fn wide_new_carries_the_current_time() {
    let before = std::time::SystemTime::now()
        .duration_since(std::time::UNIX_EPOCH)
        .unwrap()
        .as_secs();
    let bytes = Uid128::new().to_bytes();
    let after = std::time::SystemTime::now()
        .duration_since(std::time::UNIX_EPOCH)
        .unwrap()
        .as_secs();
    let seconds = u32::from_be_bytes([bytes[0], bytes[1], bytes[2], bytes[3]]);
    assert!(before as u32 <= seconds && seconds <= after as u32);
}

#[test]
fn ten_thousand_identifiers_are_unique() {
    let mut seen = std::collections::HashSet::new();
    for _ in 0..10_000 {
        assert!(seen.insert(Uid128::new().to_bytes()));
    }
    assert_eq!(seen.len(), 10_000);
}
