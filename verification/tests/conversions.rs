use auid::{Error, Uid};

fn message_of(error: Error) -> String {
    match error {
        Error::Decoding(message) => message,
        _ => panic!("unexpected kind of error"),
    }
}

const SAMPLES: [i64; 8] = [
    0,
    1,
    -1,
    i64::MIN,
    i64::MAX,
    0x0123_4567_89ab_cdef,
    -0x0123_4567_89ab_cdef,
    28_521_267_211_259_375,
];

#[test]
fn integer_round_trip() {
    for value in SAMPLES {
        assert_eq!(i64::from(Uid::from(value)), value);
    }
}

#[test]
fn bytes_round_trip() {
    for value in SAMPLES {
        let uid = Uid::from(value);
        let bytes = <[u8; 8]>::from(uid);
        assert_eq!(Uid::try_from(&bytes[..]), Ok(uid));
    }
}

#[test]
fn bytes_round_trip_of_generated() {
    for _ in 0..100 {
        let uid = Uid::new();
        let bytes: [u8; 8] = uid.into();
        assert_eq!(Uid::try_from(&bytes[..]), Ok(uid));
    }
}

#[test]
fn bytes_are_big_endian() {
    let bytes = <[u8; 8]>::from(Uid::from(0x0123_4567_89ab_cdef));
    assert_eq!(bytes, [0x01, 0x23, 0x45, 0x67, 0x89, 0xab, 0xcd, 0xef]);
    assert_eq!(<[u8; 8]>::from(Uid::from(-1)), [0xff; 8]);
    assert_eq!(<[u8; 8]>::from(Uid::from(-2)), [0xff, 0xff, 0xff, 0xff, 0xff, 0xff, 0xff, 0xfe]);
    assert_eq!(<[u8; 8]>::from(Uid::from(i64::MIN)), [0x80, 0, 0, 0, 0, 0, 0, 0]);
}

#[test]
fn bytes_agree_with_std() {
    for value in SAMPLES {
        assert_eq!(<[u8; 8]>::from(Uid::from(value)), value.to_be_bytes());
        let bytes = value.to_be_bytes();
        assert_eq!(Uid::try_from(&bytes[..]).map(i64::from), Ok(value));
    }
}

#[test]
fn try_from_reads_big_endian() {
    let bytes = [0x80u8, 0, 0, 0, 0, 0, 0, 0x01];
    assert_eq!(Uid::try_from(&bytes[..]), Ok(Uid::from(i64::MIN + 1)));
    let bytes = [0u8, 0, 0, 0, 0, 0, 0x01, 0x00];
    assert_eq!(Uid::try_from(&bytes[..]), Ok(Uid::from(256)));
}

#[test]
fn try_from_rejects_short_input() {
    let error = Uid::try_from(&[1u8, 2, 3][..]).unwrap_err();
    assert_eq!(error, Error::Decoding("expected len to be 8, but was 3".to_string()));
}

#[test]
fn try_from_rejects_empty_input() {
    let error = Uid::try_from(&[][..]).unwrap_err();
    assert_eq!(message_of(error), "expected len to be 8, but was 0");
}

#[test]
fn try_from_rejects_long_input() {
    let error = Uid::try_from(&[0u8; 9][..]).unwrap_err();
    assert_eq!(message_of(error), "expected len to be 8, but was 9");
    let error = Uid::try_from(&[0u8; 1234][..]).unwrap_err();
    assert_eq!(message_of(error), "expected len to be 8, but was 1234");
}

#[test]
fn error_message_is_its_text() {
    let error = Error::Decoding("some text".to_string());
    assert_eq!(error.message(), "some text");
    assert_eq!(error.clone(), error);
    assert_eq!(Error::wrong_length(8, 100).message(), "expected len to be 8, but was 100");
    assert_eq!(Error::wrong_length(16, 0).message(), "expected len to be 16, but was 0");
    assert_eq!(Error::overlong().message(), "input is too long");
}

#[test]
fn default_is_zero() {
    assert_eq!(Uid::default(), Uid::from(0));
    assert_eq!(i64::from(Uid::default()), 0);
}

#[test]
fn equality_is_by_value() {
    assert_eq!(Uid::from(7), Uid::from(7));
    assert_ne!(Uid::from(7), Uid::from(8));
    assert_ne!(Uid::from(1), Uid::from(-1));
}

#[test]
fn text_form_is_decimal() {
    assert_eq!(Uid::from(0).to_string(), "0");
    assert_eq!(Uid::from(7).to_string(), "7");
    assert_eq!(Uid::from(10).to_string(), "10");
    assert_eq!(Uid::from(-1).to_string(), "-1");
    assert_eq!(Uid::from(1_000_000).to_string(), "1000000");
    assert_eq!(Uid::from(i64::MAX).to_string(), "9223372036854775807");
    assert_eq!(Uid::from(i64::MIN).to_string(), "-9223372036854775808");
    assert_eq!(Uid::from(28_521_267_211_259_375).to_string(), "28521267211259375");
}

#[test]
fn text_form_agrees_with_std() {
    for value in SAMPLES {
        assert_eq!(Uid::from(value).to_string(), format!("{}", value));
    }
}

#[test]
fn text_form_is_never_empty() {
    for value in SAMPLES {
        assert!(!Uid::from(value).to_string().is_empty());
    }
    for _ in 0..100 {
        assert!(!Uid::new().to_string().is_empty());
    }
}

#[test]
fn decimal_digits_are_appended() {
    let mut text = String::from("n=");
    auid::decimal::push_decimal(&mut text, 0);
    assert_eq!(text, "n=0");
    auid::decimal::push_decimal(&mut text, 18_446_744_073_709_551_615);
    assert_eq!(text, "n=018446744073709551615");
    assert_eq!(auid::decimal::signed_decimal_string(-42), "-42");
}

#[test]
fn timestamp_is_placed_above_the_random_bits() {
    let timestamp: i64 = 1_700_000_000;
    let uid = Uid::from_parts(timestamp, [0, 0, 0]);
    assert_eq!(i64::from(uid), 28_521_267_200_000_000);
    let bytes = <[u8; 8]>::from(uid);
    assert_eq!(bytes[..5], timestamp.to_be_bytes()[3..]);
    assert_eq!(bytes[..5], [0x00, 0x65, 0x53, 0xf1, 0x00]);
    assert_eq!(bytes[5..], [0, 0, 0]);
}

#[test]
fn random_bytes_fill_the_low_three_bytes() {
    let uid = Uid::from_parts(1_700_000_000, [0xab, 0xcd, 0xef]);
    assert_eq!(i64::from(uid), 28_521_267_211_259_375);
    assert_eq!(<[u8; 8]>::from(uid), [0x00, 0x65, 0x53, 0xf1, 0x00, 0xab, 0xcd, 0xef]);
    assert_eq!(i64::from(Uid::from_parts(0, [0xff, 0xff, 0xff])), 0x00ff_ffff);
}

#[test]
fn timestamp_bits_beyond_forty_are_dropped() {
    let uid = Uid::from_parts((1 << 40) + 5, [1, 2, 3]);
    assert_eq!(i64::from(uid), 0x0501_0203);
    assert_eq!(Uid::from_parts(5, [1, 2, 3]), uid);
}

#[test]
fn top_timestamp_bit_makes_a_negative_value() {
    let uid = Uid::from_parts(1 << 39, [0, 0, 1]);
    assert_eq!(i64::from(uid), i64::MIN + 1);
    let bytes = <[u8; 8]>::from(uid);
    assert_eq!(Uid::try_from(&bytes[..]), Ok(uid));
    assert_eq!(i64::from(Uid::from_parts(-1, [0xff, 0xff, 0xff])), -1);
}

#[test]
fn later_seconds_give_larger_values() {
    let earlier = Uid::from_parts(1_700_000_000, [0xff, 0xff, 0xff]);
    let later = Uid::from_parts(1_700_000_001, [0, 0, 0]);
    assert!(i64::from(earlier) < i64::from(later));
    assert!(<[u8; 8]>::from(earlier) < <[u8; 8]>::from(later));
}

#[test]
fn new_carries_the_current_time() {
    let before = std::time::SystemTime::now()
        .duration_since(std::time::UNIX_EPOCH)
        .unwrap()
        .as_secs() as i64;
    let uid = Uid::new();
    let after = std::time::SystemTime::now()
        .duration_since(std::time::UNIX_EPOCH)
        .unwrap()
        .as_secs() as i64;
    let seconds = i64::from(uid) >> 24;
    assert!(before <= seconds && seconds <= after);
}

#[test]
fn new_identifiers_differ() {
    let first = Uid::new();
    let mut others = 0;
    for _ in 0..16 {
        if Uid::new() != first {
            others += 1;
        }
    }
    assert!(others >= 15);
}
