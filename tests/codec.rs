use intercom::codec::{checksum, popcount, Message};

fn encode(code: u8, address: u8) -> [u8; 3] {
    let mut b = [0u8; 3];
    Message { code, address }.into_raw_bytes(&mut b);
    b
}

#[test]
fn concrete_vector_encodes() {
    assert_eq!(encode(21, 12), [0x40, 0xC5, 0x50]);
    assert_eq!(encode(21, 12), [64, 197, 80]);
}

#[test]
fn concrete_vector_decodes() {
    assert_eq!(
        Message::from_raw_bytes(&[64, 197, 80]),
        Some(Message { code: 21, address: 12 })
    );
}

#[test]
fn round_trip_every_message() {
    for code in 0u8..64 {
        for address in 0u8..=255 {
            let b = encode(code, address);
            assert_eq!(Message::from_raw_bytes(&b), Some(Message { code, address }));
        }
    }
}

#[test]
fn flipping_a_carried_bit_is_rejected() {
    let b = encode(21, 12);
    for i in 0..3 {
        for k in 0..8 {
            if i == 0 && k < 6 {
                continue;
            }
            let mut f = b;
            f[i] ^= 1 << k;
            assert_eq!(Message::from_raw_bytes(&f), None, "byte {} bit {}", i, k);
        }
    }
}

#[test]
fn flipping_an_unused_bit_changes_nothing() {
    let b = encode(21, 12);
    for k in 0..6 {
        let mut f = b;
        f[0] ^= 1 << k;
        assert_eq!(Message::from_raw_bytes(&f), Some(Message { code: 21, address: 12 }));
    }
}

#[test]
fn popcount_values() {
    assert_eq!(popcount(0), 0);
    assert_eq!(popcount(21), 3);
    assert_eq!(popcount(12), 2);
    assert_eq!(popcount(255), 8);
}

#[test]
fn checksum_wraps_at_sixteen() {
    assert_eq!(checksum(21, 12), 5);
    assert_eq!(checksum(63, 255), 14);
    assert_eq!(checksum(255, 255), 0);
}

#[test]
fn wide_code_is_truncated_and_fails_to_decode() {
    let b = encode(64 + 21, 12);
    assert_eq!(b[0], 0x40);
    assert_eq!(b[1], 0xC5);
    assert_eq!(Message::from_raw_bytes(&b), None);
}

#[test]
fn wrong_checksum_is_rejected() {
    assert_eq!(Message::from_raw_bytes(&[64, 197, 0x60]), None);
    assert_eq!(Message::from_raw_bytes(&[0, 0, 0]), Some(Message { code: 0, address: 0 }));
}

#[test]
fn decode_reads_code_bits_only() {
    // Address bits 0 and 1 set must not leak into the code.
    let b = encode(0, 3);
    assert_eq!(b, [0x00, 0x30, 0x20]);
    assert_eq!(Message::from_raw_bytes(&b), Some(Message { code: 0, address: 3 }));
}
