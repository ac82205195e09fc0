use m3::layout::{
    read_key, read_le, signed_from_twos_complement, to_twos_complement, PADDING_LEN, USED_LEN,
};
use m3::states::{SellerTradeState, SELLER_TRADE_STATE_DISCRIMINATOR};

fn sample() -> SellerTradeState {
    SellerTradeState {
        seller: [1; 32],
        seller_referral: [2; 32],
        buyer_price: 0x0102030405060708,
        asset_id: [3; 32],
        payment_mint: [4; 32],
        bump: 254,
        merkle_tree: [5; 32],
        index: 0x0a0b0c0d,
        created_at: 1_700_000_000,
        updated_at: -2,
    }
}

#[test]
fn stored_form_has_the_fields_at_their_offsets() {
    let bytes = sample().to_bytes();
    assert_eq!(bytes.len(), 437);
    assert_eq!(bytes.len(), SellerTradeState::LEN);
    assert_eq!(USED_LEN, 197);
    assert_eq!(USED_LEN + PADDING_LEN, SellerTradeState::LEN);
    assert_eq!(&bytes[0..8], &SELLER_TRADE_STATE_DISCRIMINATOR);
    assert_eq!(&bytes[8..40], &[1u8; 32]);
    assert_eq!(&bytes[40..72], &[2u8; 32]);
    assert_eq!(&bytes[72..80], &[8u8, 7, 6, 5, 4, 3, 2, 1]);
    assert_eq!(&bytes[80..112], &[3u8; 32]);
    assert_eq!(&bytes[112..144], &[4u8; 32]);
    assert_eq!(bytes[144], 254);
    assert_eq!(&bytes[145..177], &[5u8; 32]);
    assert_eq!(&bytes[177..181], &[0x0du8, 0x0c, 0x0b, 0x0a]);
    assert_eq!(&bytes[181..189], &1_700_000_000i64.to_le_bytes());
    assert_eq!(&bytes[189..197], &(-2i64).to_le_bytes());
    assert_eq!(&bytes[197..], &[0u8; 240]);
}

#[test]
fn stored_form_reads_back() {
    let state = sample();
    assert_eq!(SellerTradeState::from_bytes(&state.to_bytes()), Some(state));
    let extreme = SellerTradeState {
        buyer_price: u64::MAX,
        index: u32::MAX,
        created_at: i64::MIN,
        updated_at: i64::MAX,
        ..sample()
    };
    assert_eq!(SellerTradeState::from_bytes(&extreme.to_bytes()), Some(extreme));
    let mut empty = SellerTradeState::default().to_bytes();
    assert_eq!(SellerTradeState::from_bytes(&empty), Some(SellerTradeState::default()));
    empty.truncate(197);
    assert_eq!(SellerTradeState::from_bytes(&empty), Some(SellerTradeState::default()));
}

#[test]
fn stored_form_needs_tag_and_length() {
    let mut bytes = sample().to_bytes();
    bytes.truncate(196);
    assert_eq!(SellerTradeState::from_bytes(&bytes), None);
    assert_eq!(SellerTradeState::from_bytes(&[]), None);
    assert_eq!(SellerTradeState::from_bytes(&[0u8; 437]), None);
    let mut wrong = sample().to_bytes();
    wrong[7] ^= 1;
    assert_eq!(SellerTradeState::from_bytes(&wrong), None);
}

#[test]
fn padding_is_not_read() {
    let mut bytes = sample().to_bytes();
    for b in bytes[197..].iter_mut() {
        *b = 0xee;
    }
    assert_eq!(SellerTradeState::from_bytes(&bytes), Some(sample()));
}

#[test]
fn numbers_are_read_least_significant_byte_first() {
    let data = [0u8, 0x0d, 0x0c, 0x0b, 0x0a, 9, 9, 9, 9, 9];
    assert_eq!(read_le(&data, 1, 4), 0x0a0b0c0d);
    assert_eq!(read_le(&data, 0, 0), 0);
    assert_eq!(read_le(&data, 1, 1), 0x0d);
    assert_eq!(read_le(&[0xff; 8], 0, 8), u64::MAX);
    assert_eq!(read_le(&data, 2, 8), u64::from_le_bytes([0x0c, 0x0b, 0x0a, 9, 9, 9, 9, 9]));
}

#[test]
fn keys_are_read_in_place() {
    let data: Vec<u8> = (0u8..64).collect();
    assert_eq!(read_key(&data, 0).to_vec(), (0u8..32).collect::<Vec<u8>>());
    assert_eq!(read_key(&data, 32).to_vec(), (32u8..64).collect::<Vec<u8>>());
    assert_eq!(read_key(&data, 5).to_vec(), (5u8..37).collect::<Vec<u8>>());
}

#[test]
fn signed_numbers_keep_their_bits() {
    for x in [0i64, 1, -1, -2, i64::MIN, i64::MAX, 1_700_000_000, -1_700_000_000] {
        assert_eq!(to_twos_complement(x), x as u64);
        assert_eq!(signed_from_twos_complement(x as u64), x);
    }
    assert_eq!(to_twos_complement(-1), u64::MAX);
    assert_eq!(signed_from_twos_complement(1 << 63), i64::MIN);
}
