use m3::accounts::AccountView;
use m3::errors::ErrorCode;
use m3::hashing::{
    build_creators, check_creator_hash, hash_metadata_data, key_bytes, u16_le_bytes,
    verify_creators, Creator,
};
use solana_program::keccak;
use solana_program::pubkey::Pubkey;

fn creator_account(tag: u8) -> AccountView {
    AccountView { key: [tag; 32], is_signer: false, lamports: 0 }
}

fn outside_hash(creators: &[(u8, bool, u8)]) -> [u8; 32] {
    let list: Vec<mpl_bubblegum::types::Creator> = creators
        .iter()
        .map(|(tag, verified, share)| mpl_bubblegum::types::Creator {
            address: Pubkey::new_from_array([*tag; 32]),
            verified: *verified,
            share: *share,
        })
        .collect();
    mpl_bubblegum::hash::hash_creators(&list)
}

#[test]
fn data_hash_binds_the_royalty_rate() {
    let metadata_hash = [7u8; 32];
    let expected = keccak::hashv(&[&metadata_hash, &500u16.to_le_bytes()]).to_bytes();
    assert_eq!(hash_metadata_data(metadata_hash, 500), Ok(expected));
    assert_ne!(hash_metadata_data(metadata_hash, 500), Ok(metadata_hash));
    assert_ne!(hash_metadata_data(metadata_hash, 500), hash_metadata_data(metadata_hash, 501));
    assert_ne!(hash_metadata_data(metadata_hash, 500), hash_metadata_data([8u8; 32], 500));
}

#[test]
fn data_hash_known_value() {
    let expected = keccak::hashv(&[&[0u8; 32], &[0u8, 0u8]]).to_bytes();
    assert_eq!(hash_metadata_data([0u8; 32], 0), Ok(expected));
    let wide = keccak::hashv(&[&[0u8; 32], &[0x34u8, 0x12u8]]).to_bytes();
    assert_eq!(hash_metadata_data([0u8; 32], 0x1234), Ok(wide));
}

#[test]
fn little_endian_bytes_of_a_rate() {
    assert_eq!(u16_le_bytes(500), vec![0xf4, 0x01]);
    assert_eq!(u16_le_bytes(0), vec![0, 0]);
    assert_eq!(u16_le_bytes(u16::MAX), vec![0xff, 0xff]);
    assert_eq!(u16_le_bytes(0x1234), 0x1234u16.to_le_bytes().to_vec());
}

#[test]
fn key_bytes_are_the_key() {
    let mut key = [0u8; 32];
    for (i, b) in key.iter_mut().enumerate() {
        *b = i as u8;
    }
    assert_eq!(key_bytes(&key), key.to_vec());
}

#[test]
fn genuine_creators_are_accepted() {
    let accounts = [creator_account(7), creator_account(8)];
    let hash = outside_hash(&[(7, true, 60), (8, false, 40)]);
    assert_eq!(verify_creators(&accounts, vec![60, 40], vec![true, false], hash), Ok(()));
}

#[test]
fn no_creators_hash_to_the_empty_hash() {
    let hash = outside_hash(&[]);
    assert_eq!(hash, keccak::hashv(&[]).to_bytes());
    assert_eq!(verify_creators(&[], vec![], vec![], hash), Ok(()));
    assert_eq!(verify_creators(&[], vec![], vec![], [0u8; 32]), Err(ErrorCode::InvalidCreators));
}

#[test]
fn tampered_creators_are_rejected() {
    let accounts = [creator_account(7), creator_account(8)];
    let hash = outside_hash(&[(7, true, 60), (8, false, 40)]);
    assert_eq!(
        verify_creators(&accounts, vec![60, 40], vec![false, false], hash),
        Err(ErrorCode::InvalidCreators)
    );
    assert_eq!(
        verify_creators(&accounts, vec![60, 40], vec![true, true], hash),
        Err(ErrorCode::InvalidCreators)
    );
    let swapped = [creator_account(8), creator_account(7)];
    assert_eq!(
        verify_creators(&swapped, vec![60, 40], vec![true, false], hash),
        Err(ErrorCode::InvalidCreators)
    );
    let other = [creator_account(7), creator_account(9)];
    assert_eq!(
        verify_creators(&other, vec![60, 40], vec![true, false], hash),
        Err(ErrorCode::InvalidCreators)
    );
    assert_eq!(
        verify_creators(&accounts, vec![59, 41], vec![true, false], hash),
        Err(ErrorCode::InvalidCreators)
    );
}

#[test]
fn creator_data_lengths_must_agree() {
    let accounts = [creator_account(7), creator_account(8)];
    let hash = outside_hash(&[(7, true, 60), (8, false, 40)]);
    assert_eq!(
        verify_creators(&accounts, vec![60], vec![true, false], hash),
        Err(ErrorCode::MismatchedCreatorDataLengths)
    );
    assert_eq!(
        verify_creators(&accounts, vec![60, 40], vec![true], hash),
        Err(ErrorCode::MismatchedCreatorDataLengths)
    );
    assert_eq!(
        verify_creators(&accounts[..1], vec![60, 40], vec![true, false], hash),
        Err(ErrorCode::MismatchedCreatorDataLengths)
    );
}

#[test]
fn shares_are_cut_to_eight_bits_before_hashing() {
    let accounts = [creator_account(7)];
    let hash = outside_hash(&[(7, true, 100)]);
    assert_eq!(verify_creators(&accounts, vec![100 + 256], vec![true], hash), Ok(()));
    let creators = build_creators(&accounts, &vec![0x1234], &vec![true]);
    assert_eq!(creators, vec![Creator { address: [7; 32], verified: true, share: 0x34 }]);
}

#[test]
fn creator_hash_check_compares_all_bytes() {
    let a = [3u8; 32];
    let mut b = a;
    assert_eq!(check_creator_hash(&a, &b), Ok(()));
    b[31] = 4;
    assert_eq!(check_creator_hash(&a, &b), Err(ErrorCode::InvalidCreators));
    b = a;
    b[0] = 4;
    assert_eq!(check_creator_hash(&a, &b), Err(ErrorCode::InvalidCreators));
}
