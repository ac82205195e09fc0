//! List: create a listing, or re-price the one already at the same address.

use vstd::prelude::*;
use crate::accounts::{bytes_equal, default_key, keys_equal, key_of, zero_key, AccountView};
use crate::accounts::lemma_key_by_bytes;
use crate::constants::MAX_PRICE;
use crate::errors::ErrorCode;
use crate::hashing::{asset_id_of, derive_asset_id};
use crate::states::{SellerTradeState, SELLER_TRADE_STATE_DISCRIMINATOR};
use crate::transfer::{transfer_call_spec, transfer_compressed_nft, RegistryCall, RegistryCallView};

verus! {

/// What the caller asks for when listing.
#[derive(Clone, Copy, Debug, PartialEq, Eq)]
pub struct SellArgs {
    /// Root of the tree the proof was made against.
    pub root: [u8; 32],
    /// Hash of the asset's metadata, as the registry holds it.
    pub data_hash: [u8; 32],
    /// Hash of the asset's creator list.
    pub creator_hash: [u8; 32],
    /// The asset's number in its tree; with the tree it determines the asset.
    pub nonce: u64,
    /// The asset's leaf in the tree.
    pub index: u32,
    /// Asking price.
    pub buyer_price: u64,
    /// The unit the price is in.
    pub payment_mint: [u8; 32],
}

/// The accounts of a listing, as read at entry.
#[derive(Clone, Debug, PartialEq, Eq)]
pub struct Sell {
    /// The lister.
    pub wallet: AccountView,
    /// The escrow identity that holds listed assets.
    pub program_as_signer: AccountView,
    pub tree_authority: AccountView,
    /// Who may move the asset besides its owner.
    pub leaf_delegate: AccountView,
    pub merkle_tree: AccountView,
    pub log_wrapper: AccountView,
    pub bubblegum_program: AccountView,
    pub system_program: AccountView,
    pub compression_program: AccountView,
    pub seller_referral: AccountView,
    /// The record stored at the listing's address.
    pub seller_trade_state: SellerTradeState,
    /// The first eight bytes stored at the listing's address.
    pub seller_trade_state_tag: [u8; 8],
    /// The bump under which the listing's address was derived.
    pub seller_trade_state_bump: u8,
    /// The proof path.
    pub remaining_accounts: Vec<AccountView>,
}

/// What a listing does: the record to store and, for a new listing, the call
/// that moves the asset into escrow.
#[derive(Clone, Debug, PartialEq, Eq)]
pub struct SellOutcome {
    pub seller_trade_state: SellerTradeState,
    pub transfer: Option<RegistryCall>,
}

/// The mathematical content of a `SellOutcome`.
pub struct SellOutcomeView {
    pub seller_trade_state: SellerTradeState,
    pub transfer: Option<RegistryCallView>,
}

impl View for SellOutcome {
    type V = SellOutcomeView;

    open spec fn view(&self) -> SellOutcomeView {
        SellOutcomeView {
            seller_trade_state: self.seller_trade_state,
            transfer: match self.transfer {
                Some(call) => Some(call@),
                None => None,
            },
        }
    }
}

/// A result with its outcome replaced by the outcome's content.
pub open spec fn sell_result_view(out: Result<SellOutcome, ErrorCode>) -> Result<
    SellOutcomeView,
    ErrorCode,
> {
    match out {
        Ok(outcome) => Ok(outcome@),
        Err(e) => Err(e),
    }
}

/// A stored tag under which a listing may be written: that of a listing
/// record, or the all-zero tag of storage not yet written.
pub open spec fn tag_allows_listing(tag: [u8; 8]) -> bool {
    tag@ == SELLER_TRADE_STATE_DISCRIMINATOR@ || tag@ == Seq::new(8, |i: int| 0u8)
}

/// A price a listing may carry.
pub open spec fn valid_price(price: u64) -> bool {
    0 < price <= MAX_PRICE
}

/// The record a listing leaves behind: everything but the payment unit and
/// the creation time is overwritten.
pub open spec fn listed_state(
    ctx: Sell,
    args: SellArgs,
    now: i64,
    asset_id: [u8; 32],
    created_at: i64,
) -> SellerTradeState {
    SellerTradeState {
        seller: ctx.wallet.key,
        seller_referral: ctx.seller_referral.key,
        buyer_price: args.buyer_price,
        asset_id,
        payment_mint: ctx.seller_trade_state.payment_mint,
        bump: ctx.seller_trade_state_bump,
        merkle_tree: ctx.merkle_tree.key,
        index: args.index,
        created_at,
        updated_at: now,
    }
}

/// The call that moves the asset from the lister into escrow, relying on the
/// lister's own signature.
pub open spec fn escrow_call(ctx: Sell, args: SellArgs) -> RegistryCallView {
    transfer_call_spec(
        ctx.tree_authority.key,
        ctx.wallet.key,
        ctx.leaf_delegate.key,
        ctx.program_as_signer.key,
        ctx.merkle_tree.key,
        ctx.log_wrapper.key,
        ctx.compression_program.key,
        ctx.system_program.key,
        ctx.remaining_accounts@,
        ctx.bubblegum_program.key,
        args.root,
        args.data_hash,
        args.creator_hash,
        args.nonce,
        args.index,
        None,
    )
}

/// What listing does, given the asset's identifier.
///
/// The stored tag and the price are checked first. A fresh record is filled
/// in and the asset moved into escrow. An existing record is re-priced, with
/// no asset movement, and only for its own seller, asset and tree.
pub open spec fn sell_spec(ctx: Sell, args: SellArgs, now: i64, asset_id: [u8; 32]) -> Result<
    SellOutcomeView,
    ErrorCode,
> {
    if !tag_allows_listing(ctx.seller_trade_state_tag) {
        Err(ErrorCode::InvalidDiscriminator)
    } else if !valid_price(args.buyer_price) {
        Err(ErrorCode::InvalidPrice)
    } else if ctx.seller_trade_state.is_fresh() {
        Ok(
            SellOutcomeView {
                seller_trade_state: listed_state(ctx, args, now, asset_id, now),
                transfer: Some(escrow_call(ctx, args)),
            },
        )
    } else if ctx.seller_trade_state.seller != ctx.wallet.key {
        Err(ErrorCode::SellerMismatch)
    } else if ctx.seller_trade_state.asset_id != asset_id || ctx.seller_trade_state.merkle_tree
        != ctx.merkle_tree.key {
        Err(ErrorCode::AssetIDMismatch)
    } else {
        Ok(
            SellOutcomeView {
                seller_trade_state: listed_state(
                    ctx,
                    args,
                    now,
                    asset_id,
                    ctx.seller_trade_state.created_at,
                ),
                transfer: None,
            },
        )
    }
}

/// Lists the asset whose identifier is `asset_id`, at time `now`.
pub fn list_asset(ctx: &Sell, args: SellArgs, now: i64, asset_id: [u8; 32]) -> (out: Result<
    SellOutcome,
    ErrorCode,
>)
    ensures
        sell_result_view(out) == sell_spec(*ctx, args, now, asset_id),
{
    let zero_tag: [u8; 8] = [0u8; 8];
    proof {
        assert(zero_tag@ =~= Seq::new(8, |i: int| 0u8));
    }
    let tag = &ctx.seller_trade_state_tag;
    if !bytes_equal(tag.as_slice(), SELLER_TRADE_STATE_DISCRIMINATOR.as_slice()) && !bytes_equal(
        tag.as_slice(),
        zero_tag.as_slice(),
    ) {
        return Err(ErrorCode::InvalidDiscriminator);
    }
    if args.buyer_price > MAX_PRICE || args.buyer_price == 0 {
        return Err(ErrorCode::InvalidPrice);
    }
    let state = &ctx.seller_trade_state;
    let is_new_listing = keys_equal(&state.asset_id, &default_key());
    let mut transfer: Option<RegistryCall> = None;
    let mut created_at = state.created_at;
    if is_new_listing {
        transfer =
        Some(
            transfer_compressed_nft(
                &ctx.tree_authority,
                &ctx.wallet,
                &ctx.leaf_delegate,
                &ctx.program_as_signer,
                &ctx.merkle_tree,
                &ctx.log_wrapper,
                &ctx.compression_program,
                &ctx.system_program,
                ctx.remaining_accounts.as_slice(),
                ctx.bubblegum_program.key,
                args.root,
                args.data_hash,
                args.creator_hash,
                args.nonce,
                args.index,
                None,
            ),
        );
        created_at = now;
    } else {
        if !keys_equal(&state.seller, &ctx.wallet.key) {
            return Err(ErrorCode::SellerMismatch);
        }
        if !keys_equal(&state.asset_id, &asset_id) || !keys_equal(
            &state.merkle_tree,
            &ctx.merkle_tree.key,
        ) {
            return Err(ErrorCode::AssetIDMismatch);
        }
    }
    Ok(
        SellOutcome {
            seller_trade_state: SellerTradeState {
                seller: ctx.wallet.key,
                seller_referral: ctx.seller_referral.key,
                buyer_price: args.buyer_price,
                asset_id,
                payment_mint: state.payment_mint,
                bump: ctx.seller_trade_state_bump,
                merkle_tree: ctx.merkle_tree.key,
                index: args.index,
                created_at,
                updated_at: now,
            },
            transfer,
        },
    )
}

/// Lists an asset: derives its identifier from tree and nonce, then creates
/// or re-prices the listing.
pub fn handle(ctx: &Sell, args: SellArgs, now: i64) -> (out: Result<SellOutcome, ErrorCode>)
    ensures
        sell_result_view(out) == sell_spec(
            *ctx,
            args,
            now,
            key_of(asset_id_of(ctx.merkle_tree.key@, args.nonce)),
        ),
{
    let asset_id = derive_asset_id(&ctx.merkle_tree.key, args.nonce);
    proof {
        lemma_key_by_bytes(asset_id, asset_id);
    }
    list_asset(ctx, args, now, asset_id)
}

/// Under an acceptable tag the price alone decides whether listing fails with
/// `InvalidPrice`: it does for zero and for anything above the maximum, and
/// for no other price. A fresh record with a valid price is always listed.
pub proof fn lemma_price_bound(ctx: Sell, args: SellArgs, now: i64, asset_id: [u8; 32])
    requires
        tag_allows_listing(ctx.seller_trade_state_tag),
    ensures
        (args.buyer_price == 0 || args.buyer_price > MAX_PRICE) <==> sell_spec(
            ctx,
            args,
            now,
            asset_id,
        ) == Err::<SellOutcomeView, ErrorCode>(ErrorCode::InvalidPrice),
        valid_price(args.buyer_price) && ctx.seller_trade_state.is_fresh() ==> sell_spec(
            ctx,
            args,
            now,
            asset_id,
        ) is Ok,
        valid_price(1),
        valid_price(MAX_PRICE),
        !valid_price(0),
{
}

/// Listing twice at the same address re-prices.
///
/// The first listing finds a fresh record and succeeds. The second is made by
/// the same seller for the same tree and nonce, on the record the first one
/// left, at a valid price. It then succeeds, and leaves a record with the new
/// price and the new update time, and with the seller, asset, tree and leaf
/// index it is made for. Whenever the record that the first listing left is
/// an existing one, the second moves no asset and keeps the creation time.
/// That record is an existing one unless the asset's identifier is the
/// all-zero key, which is what a fresh record holds.
pub proof fn lemma_reprice(
    first: Sell,
    first_args: SellArgs,
    first_now: i64,
    second: Sell,
    second_args: SellArgs,
    second_now: i64,
)
    requires
        first.seller_trade_state.is_fresh(),
        sell_spec(
            first,
            first_args,
            first_now,
            key_of(asset_id_of(first.merkle_tree.key@, first_args.nonce)),
        ) is Ok,
        second.seller_trade_state == sell_spec(
            first,
            first_args,
            first_now,
            key_of(asset_id_of(first.merkle_tree.key@, first_args.nonce)),
        )->Ok_0.seller_trade_state,
        tag_allows_listing(second.seller_trade_state_tag),
        second.wallet.key == first.wallet.key,
        second.merkle_tree.key == first.merkle_tree.key,
        second_args.nonce == first_args.nonce,
        valid_price(second_args.buyer_price),
    ensures
        ({
            let asset_id = key_of(asset_id_of(first.merkle_tree.key@, first_args.nonce));
            let listed = sell_spec(first, first_args, first_now, asset_id)->Ok_0;
            let repriced = sell_spec(second, second_args, second_now, asset_id);
            &&& listed.transfer == Some(escrow_call(first, first_args))
            &&& listed.seller_trade_state.created_at == first_now
            &&& repriced is Ok
            &&& repriced->Ok_0.seller_trade_state.buyer_price == second_args.buyer_price
            &&& repriced->Ok_0.seller_trade_state.updated_at == second_now
            &&& repriced->Ok_0.seller_trade_state.seller == first.wallet.key
            &&& repriced->Ok_0.seller_trade_state.asset_id == asset_id
            &&& repriced->Ok_0.seller_trade_state.merkle_tree == first.merkle_tree.key
            &&& repriced->Ok_0.seller_trade_state.index == second_args.index
            &&& listed.seller_trade_state.is_fresh() <==> asset_id == zero_key()
            &&& !listed.seller_trade_state.is_fresh() ==> {
                &&& repriced->Ok_0.transfer is None
                &&& repriced->Ok_0.seller_trade_state.created_at == first_now
            }
        }),
{
}

/// A record that listing leaves behind is well formed: it carries a valid
/// price, and the identifier of the asset named by the caller.
pub proof fn lemma_listed_state_is_valid(ctx: Sell, args: SellArgs, now: i64, asset_id: [u8; 32])
    requires
        sell_spec(ctx, args, now, asset_id) is Ok,
    ensures
        ({
            let state = sell_spec(ctx, args, now, asset_id)->Ok_0.seller_trade_state;
            &&& state.well_formed()
            &&& valid_price(state.buyer_price)
            &&& state.asset_id == asset_id
            &&& state.seller == ctx.wallet.key
            &&& state.merkle_tree == ctx.merkle_tree.key
            &&& state.index == args.index
            &&& state.updated_at == now
        }),
{
}

/// A new listing moves the asset from the lister to the escrow identity, on
/// the lister's own signature, and a re-pricing moves nothing.
pub proof fn lemma_listing_escrows_the_asset(
    ctx: Sell,
    args: SellArgs,
    now: i64,
    asset_id: [u8; 32],
)
    requires
        sell_spec(ctx, args, now, asset_id) is Ok,
    ensures
        ({
            let outcome = sell_spec(ctx, args, now, asset_id)->Ok_0;
            &&& outcome.transfer is Some <==> ctx.seller_trade_state.is_fresh()
            &&& outcome.transfer is Some ==> {
                let call = outcome.transfer->Some_0;
                &&& call.program_id == ctx.bubblegum_program.key
                &&& call.account_infos[1] == ctx.wallet.key
                &&& call.account_infos[2] == ctx.leaf_delegate.key
                &&& call.account_infos[3] == ctx.program_as_signer.key
                &&& call.account_infos[4] == ctx.merkle_tree.key
                &&& call.signer_seeds is None
            }
        }),
{
}

} // verus!
