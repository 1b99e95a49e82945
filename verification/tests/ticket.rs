use factotum::ticket::{ticket_prefix, TicketFields, CHECKSUM_SALT, TICKET_LEN};

const FIRST: [u8; 32] = [
    0x07, 0x00, 0x00, 0x00, 0x00, 0x00, 0x00, 0x00, 0xfb, 0x00, 0x00, 0x00, 0x00, 0x00, 0x00, 0x00,
    0x01, 0x00, 0x00, 0x00, 0x00, 0x00, 0x00, 0x00, 0x8d, 0xf3, 0x08, 0xeb, 0xad, 0xba, 0x17, 0x5a,
];

fn fields(subject: u64, expire_tick: u64, nonce: u64) -> TicketFields {
    TicketFields { subject, expire_tick, nonce }
}

#[test]
fn checksum_values() {
    assert_eq!(fields(0, 0, 0).checksum(), CHECKSUM_SALT);
    assert_eq!(fields(7, 251, 1).checksum(), 0x5a17_baad_eb08_f38d);
    assert_eq!(fields(u64::MAX, u64::MAX, u64::MAX).checksum(), 0xa5e8_4552_3501_0ff2);
    let mixed = fields(0x0123_4567_89ab_cdef, 0xfedc_ba98_7654_3210, 0x8000_0000_0000_0001);
    assert_eq!(mixed.checksum(), 0xbe85_e5c1_4b39_fa34);
}

#[test]
fn checksum_rotates_the_words() {
    let (s, e, n) = (0x1122_3344_5566_7788u64, 0x99aa_bbcc_ddee_ff00u64, 0x0f1e_2d3c_4b5a_6978u64);
    let expected =
        s.rotate_left(7) ^ e.rotate_left(17) ^ n.rotate_left(29) ^ 0x5a17_baad_cafe_f00d;
    assert_eq!(fields(s, e, n).checksum(), expected);
}

#[test]
fn encoded_bytes() {
    assert_eq!(fields(7, 251, 1).encode(), FIRST);
}

#[test]
fn decoding_inverts_encoding() {
    let words = fields(u64::MAX - 3, 0x0102_0304_0506_0708, 42);
    let mut blob = words.encode().to_vec();
    assert_eq!(TicketFields::decode(&blob), Some(words));
    blob.extend_from_slice(&[9, 9, 9]);
    assert_eq!(TicketFields::decode(&blob), Some(words));
    assert_eq!(ticket_prefix(&blob), words.encode());
}

#[test]
fn encoding_inverts_decoding() {
    let words = TicketFields::decode(&FIRST).unwrap();
    assert_eq!(words, fields(7, 251, 1));
    assert_eq!(words.encode(), FIRST);
}

#[test]
fn short_blobs_do_not_decode() {
    assert_eq!(TicketFields::decode(&[]), None);
    assert_eq!(TicketFields::decode(&FIRST[..TICKET_LEN - 1]), None);
    assert!(TicketFields::decode(&FIRST).is_some());
}

#[test]
fn changed_word_changes_checksum() {
    let plain = fields(7, 251, 1).checksum();
    for word in [0, 1, 6, 8, 250, 252, u64::MAX] {
        assert!(word == 7 || fields(word, 251, 1).checksum() != plain);
        assert!(word == 251 || fields(7, word, 1).checksum() != plain);
        assert!(word == 1 || fields(7, 251, word).checksum() != plain);
    }
}

#[test]
fn changed_word_is_noticed() {
    for word in 0..4 {
        let mut blob = FIRST;
        for byte in &mut blob[8 * word..8 * word + 8] {
            *byte = !*byte;
        }
        assert_eq!(TicketFields::decode(&blob), None);
    }
}

#[test]
fn every_flipped_bit_is_noticed() {
    for bit in 0..TICKET_LEN * 8 {
        let mut blob = FIRST;
        blob[bit / 8] ^= 1 << (bit % 8);
        assert_eq!(TicketFields::decode(&blob), None);
    }
}
