use m3::accounts::{bytes_equal, default_key, keys_equal};
use m3::constants::{
    CANCEL_AUTHORITY, DEFAULT_CREATOR_ROYALTY_BP, DEFAULT_MAKER_FEE_BP, DEFAULT_TAKER_FEE_BP,
    MAX_FEE_ABS_BP, MAX_PRICE, ME_NOTARY, ME_TREASURY,
};
use m3::errors::ErrorCode;
use m3::states::{
    BubblegumProgram, MarketConfig, SellerTradeState, BUBBLEGUM_PROGRAM_ID,
    SELLER_TRADE_STATE_DISCRIMINATOR,
};
use m3::utils::{create_or_allocate_account_raw, get_mint_from_token_account};
use m3::accounts::{AccountView, Transfer};
use solana_program::pubkey::Pubkey;
use std::str::FromStr;

fn key_of_text(text: &str) -> [u8; 32] {
    Pubkey::from_str(text).unwrap().to_bytes()
}

#[test]
fn fixed_identities_are_the_published_addresses() {
    assert_eq!(CANCEL_AUTHORITY, key_of_text("CNTuB1JiQD8Xh5SoRcEmF61yivN9F7uzdSaGnRex36wi"));
    assert_eq!(ME_TREASURY, key_of_text("rFqFJ9g7TGBD8Ed7TPDnvGKZ5pWLPDyxLcvcH2eRCtt"));
    assert_eq!(ME_NOTARY, key_of_text("NTYeYJ1wr4bpM5xo6zx5En44SvJFAd35zTxxNoERYqd"));
    let config = MarketConfig::deployed();
    assert_eq!(config.treasury, ME_TREASURY);
    assert_eq!(config.notary, ME_NOTARY);
    assert_eq!(config.cancel_authority, CANCEL_AUTHORITY);
}

#[test]
fn registry_address_is_the_registry_s_own() {
    assert_eq!(BubblegumProgram::id(), mpl_bubblegum::ID.to_bytes());
    assert_eq!(BubblegumProgram::id(), BUBBLEGUM_PROGRAM_ID);
    assert_eq!(BUBBLEGUM_PROGRAM_ID, key_of_text("BGUMAp9Gq7iTEuizy4pqaxsTyUCBK68MDfK752saRPUY"));
}

#[test]
fn numeric_parameters() {
    assert_eq!(MAX_PRICE, 8_000_000_000_000_000);
    assert_eq!(MAX_FEE_ABS_BP, 500);
    assert_eq!(DEFAULT_MAKER_FEE_BP, 0);
    assert_eq!(DEFAULT_TAKER_FEE_BP, 250);
    assert_eq!(DEFAULT_CREATOR_ROYALTY_BP, 10_000);
}

#[test]
fn listing_tag_is_the_hash_of_its_name() {
    let digest = solana_program::hash::hashv(&[b"account:SellerTradeState"]).to_bytes();
    assert_eq!(&SELLER_TRADE_STATE_DISCRIMINATOR[..], &digest[..8]);
    assert_eq!(SellerTradeState::discriminator(), SELLER_TRADE_STATE_DISCRIMINATOR);
}

#[test]
fn stored_listing_length() {
    assert_eq!(SellerTradeState::LEN, 437);
}

#[test]
fn default_listing_is_empty() {
    let state = SellerTradeState::default();
    assert_eq!(state.seller, [0u8; 32]);
    assert_eq!(state.seller_referral, [0u8; 32]);
    assert_eq!(state.buyer_price, 0);
    assert_eq!(state.asset_id, [0u8; 32]);
    assert_eq!(state.payment_mint, [0u8; 32]);
    assert_eq!(state.bump, 0);
    assert_eq!(state.merkle_tree, [0u8; 32]);
    assert_eq!(state.index, 0);
    assert_eq!(state.created_at, 0);
    assert_eq!(state.updated_at, 0);
}

#[test]
fn keys_compare_by_all_bytes() {
    let a = [9u8; 32];
    let mut b = a;
    assert!(keys_equal(&a, &b));
    b[17] = 0;
    assert!(!keys_equal(&a, &b));
    assert_eq!(default_key(), [0u8; 32]);
    assert!(bytes_equal(&[1, 2, 3], &[1, 2, 3]));
    assert!(!bytes_equal(&[1, 2, 3], &[1, 2]));
    assert!(!bytes_equal(&[1, 2, 3], &[1, 2, 4]));
    assert!(bytes_equal(&[], &[]));
}

#[test]
fn mint_is_the_first_32_bytes() {
    let mut data = vec![0u8; 165];
    for (i, b) in data.iter_mut().enumerate() {
        *b = i as u8;
    }
    let mint = get_mint_from_token_account(&data).unwrap();
    assert_eq!(&mint[..], &data[..32]);
    let exact: Vec<u8> = (100u8..132).collect();
    assert_eq!(get_mint_from_token_account(&exact).unwrap().to_vec(), exact);
}

#[test]
fn account_creation_funds_the_shortfall() {
    let new_account = AccountView { key: [4; 32], is_signer: false, lamports: 1_000 };
    let payer = AccountView { key: [5; 32], is_signer: true, lamports: 9_000_000 };
    let seeds = vec![b"m3".to_vec(), vec![255u8]];
    let plan = create_or_allocate_account_raw([6; 32], &new_account, &payer, 437, seeds.clone(), 3_932_400)
        .unwrap();
    assert_eq!(plan.funding, Some(Transfer { from: [5; 32], to: [4; 32], lamports: 3_931_400 }));
    assert_eq!(plan.account, [4; 32]);
    assert_eq!(plan.space, 437);
    assert_eq!(plan.owner, [6; 32]);
    assert_eq!(plan.signer_seeds, seeds);
}

#[test]
fn account_creation_without_shortfall_pays_nothing() {
    let payer = AccountView { key: [5; 32], is_signer: true, lamports: 9_000_000 };
    let funded = AccountView { key: [4; 32], is_signer: false, lamports: 3_932_400 };
    let plan = create_or_allocate_account_raw([6; 32], &funded, &payer, 437, vec![], 3_932_400).unwrap();
    assert_eq!(plan.funding, None);
    let empty = AccountView { key: [4; 32], is_signer: false, lamports: 0 };
    let least = create_or_allocate_account_raw([6; 32], &empty, &payer, 0, vec![], 0).unwrap();
    assert_eq!(least.funding, Some(Transfer { from: [5; 32], to: [4; 32], lamports: 1 }));
    let one = AccountView { key: [4; 32], is_signer: false, lamports: 1 };
    assert_eq!(create_or_allocate_account_raw([6; 32], &one, &payer, 0, vec![], 0).unwrap().funding, None);
}

#[test]
fn every_error_has_its_message() {
    assert_eq!(ErrorCode::IncorrectOwner.message(), "IncorrectOwner");
    assert_eq!(ErrorCode::AssetIDMismatch.message(), "Asset ID does not match expected ID");
    assert_eq!(ErrorCode::NoValidSignerPresent.message(), "No valid signer present");
    assert_eq!(ErrorCode::InvalidNotary.message(), "Invalid notary");
    assert_eq!(ErrorCode::EmptyTradeState.message(), "Empty trade state");
    assert_eq!(ErrorCode::InvalidPrice.message(), "Invalid price");
    assert_eq!(ErrorCode::InvalidDiscriminator.message(), "Invalid discriminator");
    assert_eq!(ErrorCode::InvalidPlatformFeeBp.message(), "Invalid platform fee bp");
    assert_eq!(ErrorCode::NumericalOverflow.message(), "NumericalOverflow");
    assert_eq!(ErrorCode::MismatchedCreatorDataLengths.message(), "MismatchedCreatorDataLengths");
    assert_eq!(ErrorCode::CreatorShareTotalMustBe100.message(), "CreatorShareTotalMustBe100");
    assert_eq!(ErrorCode::InvalidMakerTakerFee.message(), "InvalidMakerTakerFee");
    assert_eq!(ErrorCode::InvalidCreators.message(), "InvalidCreators");
    assert_eq!(ErrorCode::SellerMismatch.message(), "SellerMismatch");
}
