//! Cancel: hand a listed asset back and close the listing.

use vstd::prelude::*;
use crate::accounts::{keys_equal, key_of, AccountView};
use crate::accounts::lemma_key_by_bytes;
use crate::errors::ErrorCode;
use crate::hashing::{asset_id_of, derive_asset_id};
use crate::states::{MarketConfig, SellerTradeState};
use crate::transfer::{program_signer_seeds, signer_seeds_spec, transfer_call_spec};
use crate::transfer::{transfer_compressed_nft, RegistryCall, RegistryCallView};

verus! {

/// What the caller supplies when cancelling.
#[derive(Clone, Copy, Debug, PartialEq, Eq)]
pub struct CancelSellArgs {
    /// Root of the tree the proof was made against.
    pub root: [u8; 32],
    /// Hash of the asset's metadata, as the registry holds it.
    pub data_hash: [u8; 32],
    /// Hash of the asset's creator list.
    pub creator_hash: [u8; 32],
    /// The asset's number in its tree.
    pub nonce: u64,
    /// The asset's leaf in the tree.
    pub index: u32,
}

/// The accounts of a cancellation, as read at entry.
#[derive(Clone, Debug, PartialEq, Eq)]
pub struct CancelSell {
    /// The seller, who gets the asset back.
    pub wallet: AccountView,
    /// The escrow identity that holds the asset.
    pub program_as_signer: AccountView,
    /// The bump under which the escrow identity was derived.
    pub program_as_signer_bump: u8,
    pub tree_authority: AccountView,
    pub merkle_tree: AccountView,
    pub log_wrapper: AccountView,
    pub bubblegum_program: AccountView,
    pub system_program: AccountView,
    pub compression_program: AccountView,
    /// The notary, or the cancel authority in its place.
    pub notary: AccountView,
    /// The listing being cancelled.
    pub seller_trade_state: SellerTradeState,
    /// Whether nothing is stored at the listing's address.
    pub seller_trade_state_is_empty: bool,
    /// The proof path.
    pub remaining_accounts: Vec<AccountView>,
}

/// What a cancellation does. Both take effect or neither.
#[derive(Clone, Debug, PartialEq, Eq)]
pub struct CancelOutcome {
    /// The call that moves the asset out of escrow, back to the seller.
    pub transfer: RegistryCall,
    /// Who receives the balance reserved for the listing, which is closed.
    pub rent_refund_to: [u8; 32],
}

/// The mathematical content of a `CancelOutcome`.
pub struct CancelOutcomeView {
    pub transfer: RegistryCallView,
    pub rent_refund_to: [u8; 32],
}

impl View for CancelOutcome {
    type V = CancelOutcomeView;

    open spec fn view(&self) -> CancelOutcomeView {
        CancelOutcomeView { transfer: self.transfer@, rent_refund_to: self.rent_refund_to }
    }
}

/// A result with its outcome replaced by the outcome's content.
pub open spec fn cancel_result_view(out: Result<CancelOutcome, ErrorCode>) -> Result<
    CancelOutcomeView,
    ErrorCode,
> {
    match out {
        Ok(outcome) => Ok(outcome@),
        Err(e) => Err(e),
    }
}

/// Who may cancel: the cancel authority by its signature alone, or the seller
/// together with the notary, both signing. The one account in the notary's
/// place stands for either identity.
pub open spec fn valid_cancel_signers(
    notary: AccountView,
    seller_signed: bool,
    config: MarketConfig,
) -> bool {
    let cancel_authority_signed = notary.is_signer && notary.key == config.cancel_authority;
    let notary_signed = notary.is_signer && notary.key == config.notary;
    cancel_authority_signed || (seller_signed && notary_signed)
}

/// The call that moves the asset out of escrow back to the seller, signed by
/// the program as its escrow identity.
pub open spec fn return_call(ctx: CancelSell, args: CancelSellArgs) -> RegistryCallView {
    transfer_call_spec(
        ctx.tree_authority.key,
        ctx.program_as_signer.key,
        ctx.program_as_signer.key,
        ctx.wallet.key,
        ctx.merkle_tree.key,
        ctx.log_wrapper.key,
        ctx.compression_program.key,
        ctx.system_program.key,
        ctx.remaining_accounts@,
        ctx.bubblegum_program.key,
        args.root,
        args.data_hash,
        args.creator_hash,
        args.nonce,
        args.index,
        Some(signer_seeds_spec(ctx.program_as_signer_bump)),
    )
}

/// What cancelling does, given the identifier of the asset named by the
/// caller. The checks are made in this order: the caller is the recorded
/// seller; the signers may cancel; something is stored; the asset is the
/// listed one.
pub open spec fn cancel_spec(
    ctx: CancelSell,
    args: CancelSellArgs,
    config: MarketConfig,
    asset_id: [u8; 32],
) -> Result<CancelOutcomeView, ErrorCode> {
    if ctx.seller_trade_state.seller != ctx.wallet.key {
        Err(ErrorCode::IncorrectOwner)
    } else if !valid_cancel_signers(ctx.notary, ctx.wallet.is_signer, config) {
        Err(ErrorCode::NoValidSignerPresent)
    } else if ctx.seller_trade_state_is_empty {
        Err(ErrorCode::EmptyTradeState)
    } else if asset_id != ctx.seller_trade_state.asset_id {
        Err(ErrorCode::AssetIDMismatch)
    } else {
        Ok(CancelOutcomeView { transfer: return_call(ctx, args), rent_refund_to: ctx.wallet.key })
    }
}

/// Decides whether the signers present may cancel.
pub fn signers_may_cancel(notary: &AccountView, seller_signed: bool, config: &MarketConfig) -> (ok:
    bool)
    ensures
        ok == valid_cancel_signers(*notary, seller_signed, *config),
{
    let cancel_authority_signed = notary.is_signer && keys_equal(
        &notary.key,
        &config.cancel_authority,
    );
    let notary_signed = notary.is_signer && keys_equal(&notary.key, &config.notary);
    cancel_authority_signed || (seller_signed && notary_signed)
}

/// Cancels the listing of the asset whose identifier is `asset_id`.
pub fn cancel_listing(
    ctx: &CancelSell,
    args: CancelSellArgs,
    config: &MarketConfig,
    asset_id: [u8; 32],
) -> (out: Result<CancelOutcome, ErrorCode>)
    ensures
        cancel_result_view(out) == cancel_spec(*ctx, args, *config, asset_id),
{
    let state = &ctx.seller_trade_state;
    if !keys_equal(&state.seller, &ctx.wallet.key) {
        return Err(ErrorCode::IncorrectOwner);
    }
    if !signers_may_cancel(&ctx.notary, ctx.wallet.is_signer, config) {
        return Err(ErrorCode::NoValidSignerPresent);
    }
    if ctx.seller_trade_state_is_empty {
        return Err(ErrorCode::EmptyTradeState);
    }
    if !keys_equal(&asset_id, &state.asset_id) {
        return Err(ErrorCode::AssetIDMismatch);
    }
    let transfer = transfer_compressed_nft(
        &ctx.tree_authority,
        &ctx.program_as_signer,
        &ctx.program_as_signer,
        &ctx.wallet,
        &ctx.merkle_tree,
        &ctx.log_wrapper,
        &ctx.compression_program,
        &ctx.system_program,
        ctx.remaining_accounts.as_slice(),
        ctx.bubblegum_program.key,
        args.root,
        args.data_hash,
        args.creator_hash,
        args.nonce,
        args.index,
        Some(program_signer_seeds(ctx.program_as_signer_bump)),
    );
    Ok(CancelOutcome { transfer, rent_refund_to: ctx.wallet.key })
}

/// Cancels a listing: derives the asset's identifier from tree and nonce,
/// then checks and builds the return of the asset.
pub fn handle(ctx: &CancelSell, args: CancelSellArgs, config: &MarketConfig) -> (out: Result<
    CancelOutcome,
    ErrorCode,
>)
    ensures
        cancel_result_view(out) == cancel_spec(
            *ctx,
            args,
            *config,
            key_of(asset_id_of(ctx.merkle_tree.key@, args.nonce)),
        ),
{
    let asset_id = derive_asset_id(&ctx.merkle_tree.key, args.nonce);
    proof {
        lemma_key_by_bytes(asset_id, asset_id);
    }
    cancel_listing(ctx, args, config, asset_id)
}

/// Who may cancel, case by case: the cancel authority's signature settles it,
/// whoever else signed; the notary's signature together with the seller's
/// does too; the seller alone may not; and a signer in the notary's place
/// who is neither the notary nor the cancel authority counts for nothing.
pub proof fn lemma_cancel_authorization(notary: AccountView, seller_signed: bool, config: MarketConfig)
    ensures
        notary.is_signer && notary.key == config.cancel_authority ==> valid_cancel_signers(
            notary,
            seller_signed,
            config,
        ),
        notary.is_signer && notary.key == config.notary && seller_signed ==> valid_cancel_signers(
            notary,
            seller_signed,
            config,
        ),
        !notary.is_signer ==> !valid_cancel_signers(notary, seller_signed, config),
        notary.key != config.notary && notary.key != config.cancel_authority
            ==> !valid_cancel_signers(notary, seller_signed, config),
        notary.key != config.cancel_authority && !seller_signed ==> !valid_cancel_signers(
            notary,
            seller_signed,
            config,
        ),
{
}

/// A cancellation by the recorded seller, of a stored listing of the asset
/// named, succeeds exactly when the signers may cancel, and fails with
/// `NoValidSignerPresent` otherwise. When it succeeds the asset goes back to
/// the seller, who also receives the listing's reserved balance.
pub proof fn lemma_cancel_by_signers(
    ctx: CancelSell,
    args: CancelSellArgs,
    config: MarketConfig,
    asset_id: [u8; 32],
)
    requires
        ctx.seller_trade_state.seller == ctx.wallet.key,
        !ctx.seller_trade_state_is_empty,
        ctx.seller_trade_state.asset_id == asset_id,
    ensures
        valid_cancel_signers(ctx.notary, ctx.wallet.is_signer, config) ==> cancel_spec(
            ctx,
            args,
            config,
            asset_id,
        ) == Ok::<CancelOutcomeView, ErrorCode>(
            CancelOutcomeView { transfer: return_call(ctx, args), rent_refund_to: ctx.wallet.key },
        ),
        !valid_cancel_signers(ctx.notary, ctx.wallet.is_signer, config) ==> cancel_spec(
            ctx,
            args,
            config,
            asset_id,
        ) == Err::<CancelOutcomeView, ErrorCode>(ErrorCode::NoValidSignerPresent),
        return_call(ctx, args).account_infos[3] == ctx.wallet.key,
        return_call(ctx, args).account_infos[1] == ctx.program_as_signer.key,
{
}

} // verus!
