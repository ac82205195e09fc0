//! The listing record, the registry's identity and the fixed identities the
//! marketplace trusts.

use vstd::prelude::*;
use crate::accounts::{default_key, zero_key};
use crate::constants::{CANCEL_AUTHORITY, MAX_PRICE, ME_NOTARY, ME_TREASURY};

verus! {

/// The escrow record of one listed asset, addressed by its tree and leaf index.
#[derive(Clone, Copy, Debug, PartialEq, Eq)]
pub struct SellerTradeState {
    pub seller: [u8; 32],
    pub seller_referral: [u8; 32],
    /// Asking price, in the smallest currency unit.
    pub buyer_price: u64,
    /// Derived from tree and nonce; all zero while nothing is listed.
    pub asset_id: [u8; 32],
    pub payment_mint: [u8; 32],
    pub bump: u8,
    /// The tree that holds the asset.
    pub merkle_tree: [u8; 32],
    /// The asset's leaf in the tree.
    pub index: u32,
    pub created_at: i64,
    pub updated_at: i64,
}

/// Tag that opens the stored form of a listing record.
pub const SELLER_TRADE_STATE_DISCRIMINATOR: [u8; 8] = [1, 238, 72, 137, 138, 21, 254, 249];

impl SellerTradeState {
    /// Bytes reserved for a stored record: tag, fields, and padding for later
    /// versions.
    pub const LEN: usize = 8 + 32 + 32 + 8 + 32 + 32 + 1 + 32 + 4 + 8 + 8 + 240;

    /// The record of an entry that was never listed.
    pub open spec fn empty() -> SellerTradeState {
        SellerTradeState {
            seller: zero_key(),
            seller_referral: zero_key(),
            buyer_price: 0,
            asset_id: zero_key(),
            payment_mint: zero_key(),
            bump: 0,
            merkle_tree: zero_key(),
            index: 0,
            created_at: 0,
            updated_at: 0,
        }
    }

    /// Whether nothing was ever listed under this record.
    pub open spec fn is_fresh(&self) -> bool {
        self.asset_id == zero_key()
    }

    /// What holds of every record: while something is listed under it, its
    /// price is above zero and at most the maximum.
    pub open spec fn well_formed(&self) -> bool {
        self.is_fresh() || 0 < self.buyer_price <= MAX_PRICE
    }

    /// The tag of a stored listing record.
    pub fn discriminator() -> (tag: [u8; 8])
        ensures
            tag == SELLER_TRADE_STATE_DISCRIMINATOR,
    {
        SELLER_TRADE_STATE_DISCRIMINATOR
    }
}

impl Default for SellerTradeState {
    fn default() -> (state: SellerTradeState)
        ensures
            state == SellerTradeState::empty(),
            state.well_formed(),
    {
        SellerTradeState {
            seller: default_key(),
            seller_referral: default_key(),
            buyer_price: 0,
            asset_id: default_key(),
            payment_mint: default_key(),
            bump: 0,
            merkle_tree: default_key(),
            index: 0,
            created_at: 0,
            updated_at: 0,
        }
    }
}

/// The fixed identities an operation checks signers and payees against.
#[derive(Clone, Copy, Debug, PartialEq, Eq)]
pub struct MarketConfig {
    /// Where platform fees are paid.
    pub treasury: [u8; 32],
    /// Whose signature unlocks requested fee rates and seller-side cancels.
    pub notary: [u8; 32],
    /// Who may cancel any listing alone.
    pub cancel_authority: [u8; 32],
}

impl MarketConfig {
    /// The identities of the deployed marketplace.
    pub fn deployed() -> (config: MarketConfig)
        ensures
            config.treasury == ME_TREASURY,
            config.notary == ME_NOTARY,
            config.cancel_authority == CANCEL_AUTHORITY,
    {
        MarketConfig {
            treasury: ME_TREASURY,
            notary: ME_NOTARY,
            cancel_authority: CANCEL_AUTHORITY,
        }
    }
}

/// Address of the asset registry.
pub const BUBBLEGUM_PROGRAM_ID: [u8; 32] = [
    152, 139, 128, 235, 121, 53, 40, 105, 178, 36, 116, 95, 89, 221, 191, 138,
    38, 88, 202, 19, 220, 104, 129, 33, 38, 53, 28, 174, 7, 193, 165, 165,
];

/// Reads `mpl_bubblegum::ID`. Believed: it is the address written out in
/// `BUBBLEGUM_PROGRAM_ID`.
#[verifier::external_body]
fn registry_id() -> (id: [u8; 32])
    ensures
        id == BUBBLEGUM_PROGRAM_ID,
{
    mpl_bubblegum::ID.to_bytes()
}

/// The asset registry, as a program.
pub struct BubblegumProgram;

impl BubblegumProgram {
    /// The registry's address.
    pub fn id() -> (id: [u8; 32])
        ensures
            id == BUBBLEGUM_PROGRAM_ID,
    {
        registry_id()
    }
}

} // verus!
