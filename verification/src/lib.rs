//! Settlement core of a marketplace for compressed, Merkle-proof-backed assets.
//!
//! The crate decides; it performs no ledger access of its own. Every operation
//! takes the facts it needs as plain values (keys, balances, signer flags, the
//! recorded listing) and returns either an error or the complete set of
//! effects to apply: the new listing record, the currency transfers and the
//! call to the asset registry.

use vstd::prelude::*;

pub mod accounts;
pub mod constants;
pub mod errors;
pub mod fees;
pub mod hashing;
pub mod ins;
pub mod layout;
pub mod royalty;
pub mod states;
pub mod transfer;
pub mod utils;

use crate::accounts::key_of;
use crate::errors::ErrorCode;
use crate::hashing::asset_id_of;
use crate::ins::buy_now::{buy_now_spec, settlement_result_view, BuyNow, BuyNowArgs, Settlement};
use crate::ins::cancel_sell::{cancel_result_view, cancel_spec, CancelOutcome};
use crate::ins::cancel_sell::{CancelSell, CancelSellArgs};
use crate::ins::sell::{sell_result_view, sell_spec, Sell, SellArgs, SellOutcome};
use crate::states::MarketConfig;

verus! {

/// List: creates the listing at the address of (tree, leaf index), or
/// re-prices the one already there. `now` is the ledger's clock.
pub fn sell(ctx: &Sell, args: SellArgs, now: i64) -> (out: Result<SellOutcome, ErrorCode>)
    ensures
        sell_result_view(out) == sell_spec(
            *ctx,
            args,
            now,
            key_of(asset_id_of(ctx.merkle_tree.key@, args.nonce)),
        ),
{
    crate::ins::sell::handle(ctx, args, now)
}

/// Settle: sells the listed asset to the buyer at the listed price.
/// `rent_minimum` is the ledger's minimum balance for an account without data.
pub fn buy_now(ctx: &BuyNow, args: BuyNowArgs, rent_minimum: u64) -> (out: Result<
    Settlement,
    ErrorCode,
>)
    ensures
        settlement_result_view(out) == buy_now_spec(*ctx, args, rent_minimum),
{
    crate::ins::buy_now::handle(ctx, args, rent_minimum)
}

/// Cancel: returns the listed asset to its seller and closes the listing.
pub fn cancel_sell(ctx: &CancelSell, args: CancelSellArgs, config: &MarketConfig) -> (out: Result<
    CancelOutcome,
    ErrorCode,
>)
    ensures
        cancel_result_view(out) == cancel_spec(
            *ctx,
            args,
            *config,
            key_of(asset_id_of(ctx.merkle_tree.key@, args.nonce)),
        ),
{
    crate::ins::cancel_sell::handle(ctx, args, config)
}

} // verus!
