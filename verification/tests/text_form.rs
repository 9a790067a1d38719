use uuidv6::{hex_format, uuid_timestamp, Node};

fn hex_val(d: u8) -> u8 {
    match d {
        b'0'..=b'9' => d - b'0',
        b'a'..=b'f' => d - b'a' + 10,
        _ => panic!("not a lowercase hex digit: {}", d),
    }
}

#[test]
fn hex_format_expands_bytes() {
    let mut out: Vec<u8> = Vec::new();
    hex_format(&mut out, &[0x0f, 0xa5, 0x00, 0xff]);
    assert_eq!(out, b"0fa500ff".to_vec());
}

#[test]
fn hex_format_appends() {
    let mut out: Vec<u8> = vec![b'x'];
    hex_format(&mut out, &[0x12]);
    assert_eq!(out, b"x12".to_vec());
}

#[test]
fn string_shape() {
    let node = Node::new().unwrap();
    let mut gen = node.uuidv6().unwrap();
    for _ in 0..50 {
        let s = gen.create().unwrap();
        assert_eq!(s.len(), 36);
        for (i, c) in s.bytes().enumerate() {
            if i == 8 || i == 13 || i == 18 || i == 23 {
                assert_eq!(c, b'-');
            } else {
                assert!(c.is_ascii_digit() || (b'a'..=b'f').contains(&c));
            }
        }
        // the version nibble is the first digit of the third group
        assert_eq!(s.as_bytes()[14], b'6');
    }
}

#[test]
fn node_bytes_end_the_string() {
    let node = Node::from_bytes(&[0x01, 0x02, 0x03, 0x04, 0x05, 0x06]);
    let mut gen = node.uuidv6().unwrap();
    for _ in 0..10 {
        let s = gen.create().unwrap();
        assert_eq!(&s[24..36], "010203040506");
    }
}

#[test]
fn string_decodes_to_raw_layout() {
    let node = Node::from_bytes(&[0xde, 0xad, 0xbe, 0xef, 0x00, 0x42]);
    let mut gen = node.uuidv6().unwrap();
    let s = gen.create().unwrap();

    // strip hyphens and decode the 32 hex digits back into 16 bytes
    let digits: Vec<u8> = s.bytes().filter(|&c| c != b'-').collect();
    assert_eq!(digits.len(), 32);
    let mut raw = [0u8; 16];
    for i in 0..16 {
        raw[i] = (hex_val(digits[2 * i]) << 4) | hex_val(digits[2 * i + 1]);
    }

    // the decoded bytes carry the raw wire layout of the same identifier
    assert_eq!(raw[6] >> 4, 0x6);
    assert_eq!(&raw[10..16], &[0xde, 0xad, 0xbe, 0xef, 0x00, 0x42]);

    // and re-encoding them reproduces the string's digits exactly
    let mut again: Vec<u8> = Vec::new();
    hex_format(&mut again, &raw);
    assert_eq!(again, digits);
}

#[test]
fn timestamp_at_unix_epoch() {
    assert_eq!(uuid_timestamp(0), Some(12219292800000));
}

#[test]
fn timestamp_examples() {
    // one nanosecond past the epoch still lands on the same 100 ns tick
    assert_eq!(uuid_timestamp(1), Some(12219292800000));
    // one full tick later
    assert_eq!(uuid_timestamp(100), Some(12219292800001));
}

#[test]
fn timestamp_overflow_is_refused() {
    assert_eq!(uuid_timestamp(u128::MAX), None);
    assert_eq!(uuid_timestamp(u128::MAX - 1221929280000000 + 1), None);
    assert!(uuid_timestamp(u128::MAX - 1221929280000000).is_some());
}
