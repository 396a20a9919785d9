use signing_proxy::payload::{decode_payload, payload_digest, reverse_digest};
use signing_proxy::SignError;

const KECCAK_DEADBEEF: [u8; 32] = [
    0xd4, 0xfd, 0x4e, 0x18, 0x91, 0x32, 0x27, 0x30, 0x36, 0x44, 0x9f, 0xc9, 0xe1, 0x11, 0x98, 0xc7,
    0x39, 0x16, 0x1b, 0x4c, 0x01, 0x16, 0xa9, 0xa2, 0xdc, 0xcd, 0xfa, 0x1c, 0x49, 0x20, 0x06, 0xf1,
];

const KECCAK_EMPTY: [u8; 32] = [
    0xc5, 0xd2, 0x46, 0x01, 0x86, 0xf7, 0x23, 0x3c, 0x92, 0x7e, 0x7d, 0xb2, 0xdc, 0xc7, 0x03, 0xc0,
    0xe5, 0x00, 0xb6, 0x53, 0xca, 0x82, 0x27, 0x3b, 0x7b, 0xfa, 0xd8, 0x04, 0x5d, 0x85, 0xa4, 0x70,
];

#[test]
fn decode_gives_the_bytes_of_the_digits() {
    assert_eq!(decode_payload("deadbeef"), Ok(vec![0xde, 0xad, 0xbe, 0xef]));
    assert_eq!(decode_payload("00ff10"), Ok(vec![0x00, 0xff, 0x10]));
    assert_eq!(decode_payload("0123456789abcdef"), Ok(vec![0x01, 0x23, 0x45, 0x67, 0x89, 0xab, 0xcd, 0xef]));
}

#[test]
fn decode_takes_upper_and_mixed_case() {
    assert_eq!(decode_payload("DEADBEEF"), Ok(vec![0xde, 0xad, 0xbe, 0xef]));
    assert_eq!(decode_payload("dEaDbEeF"), Ok(vec![0xde, 0xad, 0xbe, 0xef]));
    assert_eq!(decode_payload("0aF1"), Ok(vec![0x0a, 0xf1]));
}

#[test]
fn decode_of_text_gives_its_letters() {
    assert_eq!(
        decode_payload("48656c6c6f20776f726c6421"),
        Ok(b"Hello world!".to_vec())
    );
}

#[test]
fn decode_of_the_empty_text_is_empty() {
    assert_eq!(decode_payload(""), Ok(Vec::new()));
}

#[test]
fn decode_refuses_an_odd_number_of_digits() {
    assert_eq!(decode_payload("a"), Err(SignError::MalformedPayload));
    assert_eq!(decode_payload("123"), Err(SignError::MalformedPayload));
    assert_eq!(decode_payload("deadbee"), Err(SignError::MalformedPayload));
}

#[test]
fn decode_refuses_what_is_no_digit() {
    assert_eq!(decode_payload("zz"), Err(SignError::MalformedPayload));
    assert_eq!(decode_payload("foo"), Err(SignError::MalformedPayload));
    assert_eq!(decode_payload("0x12"), Err(SignError::MalformedPayload));
    assert_eq!(decode_payload("de ad"), Err(SignError::MalformedPayload));
    assert_eq!(decode_payload("12g4"), Err(SignError::MalformedPayload));
    assert_eq!(decode_payload("/0"), Err(SignError::MalformedPayload));
    assert_eq!(decode_payload(":0"), Err(SignError::MalformedPayload));
    assert_eq!(decode_payload("@A"), Err(SignError::MalformedPayload));
    assert_eq!(decode_payload("G0"), Err(SignError::MalformedPayload));
    assert_eq!(decode_payload("`a"), Err(SignError::MalformedPayload));
}

#[test]
fn decode_refuses_characters_outside_ascii() {
    assert_eq!(decode_payload("\u{e9}"), Err(SignError::MalformedPayload));
    assert_eq!(decode_payload("\u{e9}\u{e9}"), Err(SignError::MalformedPayload));
    assert_eq!(decode_payload("a\u{e9}b"), Err(SignError::MalformedPayload));
    assert_eq!(decode_payload("\u{ff11}\u{ff12}"), Err(SignError::MalformedPayload));
}

#[test]
fn decoding_twice_gives_the_same() {
    for text in ["deadbeef", "", "zz", "abc", "00"] {
        assert_eq!(decode_payload(text), decode_payload(text));
        assert_eq!(payload_digest(text), payload_digest(text));
    }
}

#[test]
fn reverse_digest_turns_the_order_round() {
    let mut digest = [0u8; 32];
    for i in 0..32 {
        digest[i] = i as u8;
    }
    let reversed = reverse_digest(digest);
    for i in 0..32 {
        assert_eq!(reversed[i], 31 - i as u8);
    }
}

#[test]
fn reverse_digest_twice_is_the_digest() {
    assert_eq!(reverse_digest(reverse_digest(KECCAK_DEADBEEF)), KECCAK_DEADBEEF);
    assert_eq!(reverse_digest(reverse_digest(KECCAK_EMPTY)), KECCAK_EMPTY);
    assert_eq!(reverse_digest(reverse_digest([7u8; 32])), [7u8; 32]);
}

#[test]
fn digest_of_deadbeef_is_the_reversed_keccak() {
    let digest = payload_digest("deadbeef").unwrap();
    assert_eq!(digest, reverse_digest(KECCAK_DEADBEEF));
    assert_eq!(
        digest,
        [
            0xf1, 0x06, 0x20, 0x49, 0x1c, 0xfa, 0xcd, 0xdc, 0xa2, 0xa9, 0x16, 0x01, 0x4c, 0x1b,
            0x16, 0x39, 0xc7, 0x98, 0x11, 0xe1, 0xc9, 0x9f, 0x44, 0x36, 0x30, 0x27, 0x32, 0x91,
            0x18, 0x4e, 0xfd, 0xd4,
        ]
    );
    assert_eq!(payload_digest("DEADBEEF"), Ok(digest));
}

#[test]
fn digest_of_the_empty_payload() {
    assert_eq!(payload_digest(""), Ok(reverse_digest(KECCAK_EMPTY)));
}

#[test]
fn digest_differs_from_payload_to_payload() {
    assert_ne!(payload_digest("deadbeef"), payload_digest("deadbeee"));
    assert_ne!(payload_digest("00"), payload_digest(""));
}

#[test]
fn digest_of_a_malformed_payload_fails() {
    assert_eq!(payload_digest("zz"), Err(SignError::MalformedPayload));
    assert_eq!(payload_digest("abc"), Err(SignError::MalformedPayload));
}

#[test]
fn digest_of_a_thousand_bytes() {
    let text = "ab".repeat(1_000);
    let expected: [u8; 32] = [
        0x66, 0x29, 0x47, 0xe8, 0x16, 0x43, 0xb5, 0x34, 0xef, 0x64, 0x08, 0x54, 0x3e, 0x4a, 0xad, 0x2e,
        0xf8, 0xd2, 0x89, 0x02, 0x02, 0xbb, 0x41, 0x3f, 0x3b, 0x03, 0x3a, 0xa0, 0x20, 0xbe, 0x1a, 0x07,
    ];
    assert_eq!(payload_digest(&text), Ok(expected));
}

#[test]
fn digest_of_a_payload_of_megabytes() {
    let text = "ab".repeat(9_000_000);
    let expected: [u8; 32] = [
        0x45, 0xbd, 0x12, 0x9b, 0xe5, 0x6f, 0xff, 0x6d, 0x55, 0xb1, 0xd4, 0x65, 0xf8, 0xff, 0x29, 0x2d,
        0xc1, 0xc0, 0x26, 0x72, 0xb9, 0xc8, 0x60, 0xc0, 0x76, 0x8e, 0x50, 0x29, 0x91, 0xb1, 0xb3, 0x0d,
    ];
    assert_eq!(decode_payload(&text).map(|bytes| bytes.len()), Ok(9_000_000));
    assert_eq!(payload_digest(&text), Ok(expected));
}

#[test]
fn many_digests_in_a_row_on_one_thread() {
    let expected = reverse_digest(KECCAK_DEADBEEF);
    for _ in 0..50_000 {
        assert_eq!(payload_digest("deadbeef"), Ok(expected));
    }
}
