use m3::accounts::{AccountMeta, AccountView};
use m3::constants::{PREFIX, SIGNER};
use m3::transfer::{
    program_signer_seeds, push_bytes, push_le_bytes, transfer_compressed_nft, FIXED_ACCOUNTS,
    TRANSFER_DISCRIMINATOR,
};

fn account(tag: u8) -> AccountView {
    AccountView { key: [tag; 32], is_signer: false, lamports: 0 }
}

fn readonly(tag: u8, is_signer: bool) -> AccountMeta {
    AccountMeta { pubkey: [tag; 32], is_signer, is_writable: false }
}

#[test]
fn transfer_names_the_fixed_accounts_then_the_proof_path() {
    let path = [account(20), account(21), account(22)];
    let call = transfer_compressed_nft(
        &account(1),
        &account(2),
        &account(3),
        &account(4),
        &account(5),
        &account(6),
        &account(7),
        &account(8),
        &path,
        [9; 32],
        [10; 32],
        [11; 32],
        [12; 32],
        13,
        14,
        None,
    );
    assert_eq!(call.program_id, [9; 32]);
    assert_eq!(
        call.accounts,
        vec![
            readonly(1, false),
            readonly(2, true),
            readonly(3, false),
            readonly(4, false),
            AccountMeta { pubkey: [5; 32], is_signer: false, is_writable: true },
            readonly(6, false),
            readonly(7, false),
            readonly(8, false),
            readonly(20, false),
            readonly(21, false),
            readonly(22, false),
        ]
    );
    assert_eq!(
        call.account_infos,
        vec![
            [1; 32], [2; 32], [3; 32], [4; 32], [5; 32], [6; 32], [7; 32], [8; 32], [20; 32],
            [21; 32], [22; 32],
        ]
    );
    assert_eq!(call.accounts.len(), FIXED_ACCOUNTS + path.len());
    assert_eq!(call.signer_seeds, None);
}

#[test]
fn transfer_payload_layout() {
    let call = transfer_compressed_nft(
        &account(1),
        &account(2),
        &account(3),
        &account(4),
        &account(5),
        &account(6),
        &account(7),
        &account(8),
        &[],
        [9; 32],
        [10; 32],
        [11; 32],
        [12; 32],
        0x0102030405060708,
        0x0a0b0c0d,
        None,
    );
    let mut expected: Vec<u8> = vec![163, 52, 200, 231, 140, 3, 69, 186];
    expected.extend([10u8; 32]);
    expected.extend([11u8; 32]);
    expected.extend([12u8; 32]);
    expected.extend([8u8, 7, 6, 5, 4, 3, 2, 1]);
    expected.extend([0x0du8, 0x0c, 0x0b, 0x0a]);
    assert_eq!(call.data, expected);
    assert_eq!(call.data.len(), 8 + 32 + 32 + 32 + 8 + 4);
    assert_eq!(&call.data[..8], &TRANSFER_DISCRIMINATOR);
    assert_eq!(&call.data[104..112], &0x0102030405060708u64.to_le_bytes());
    assert_eq!(&call.data[112..], &0x0a0b0c0du32.to_le_bytes());
    assert_eq!(call.accounts.len(), 8);
}

#[test]
fn transfer_carries_the_signer_seeds() {
    let seeds = program_signer_seeds(254);
    let call = transfer_compressed_nft(
        &account(1),
        &account(2),
        &account(2),
        &account(4),
        &account(5),
        &account(6),
        &account(7),
        &account(8),
        &[account(30)],
        [9; 32],
        [0; 32],
        [0; 32],
        [0; 32],
        u64::MAX,
        u32::MAX,
        Some(seeds.clone()),
    );
    assert_eq!(call.signer_seeds, Some(seeds));
    assert_eq!(&call.data[104..112], &[0xffu8; 8]);
    assert_eq!(&call.data[112..116], &[0xffu8; 4]);
    assert_eq!(call.accounts[1], readonly(2, true));
    assert_eq!(call.accounts[2], readonly(2, false));
}

#[test]
fn signer_seeds_are_prefix_signer_bump() {
    let seeds = program_signer_seeds(7);
    assert_eq!(seeds, vec![PREFIX.as_bytes().to_vec(), SIGNER.as_bytes().to_vec(), vec![7u8]]);
    assert_eq!(seeds, vec![b"m3".to_vec(), b"signer".to_vec(), vec![7u8]]);
}

#[test]
fn bytes_are_appended() {
    let mut out = vec![1u8, 2];
    push_bytes(&mut out, &[3, 4, 5]);
    assert_eq!(out, vec![1, 2, 3, 4, 5]);
    push_bytes(&mut out, &[]);
    assert_eq!(out, vec![1, 2, 3, 4, 5]);
    push_le_bytes(&mut out, 0x0102, 2);
    assert_eq!(out, vec![1, 2, 3, 4, 5, 2, 1]);
    push_le_bytes(&mut out, 0x0102, 0);
    assert_eq!(out.len(), 7);
    let mut wide = Vec::new();
    push_le_bytes(&mut wide, 0x1122334455667788, 8);
    assert_eq!(wide, 0x1122334455667788u64.to_le_bytes().to_vec());
    let mut cut = Vec::new();
    push_le_bytes(&mut cut, 0x1122334455667788, 4);
    assert_eq!(cut, vec![0x88, 0x77, 0x66, 0x55]);
}
