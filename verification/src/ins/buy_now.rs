//! Settle: execute a sale at the listed price.

use vstd::prelude::*;
use crate::accounts::{keys_equal, key_of, AccountView, Transfer};
use crate::accounts::lemma_key_by_bytes;
use crate::constants::DEFAULT_CREATOR_ROYALTY_BP;
use crate::errors::ErrorCode;
use crate::fees::{calculate_fees, fees_spec};
use crate::hashing::{data_hash_spec, hash_metadata_data, verify_creators, verify_creators_spec};
use crate::royalty::{pay_creator_fees, pay_creator_fees_spec, royalty_finish_spec, royalty_run};
use crate::royalty::{royalty_start, royalty_start_spec, total_royalty, total_royalty_spec};
use crate::royalty::RoyaltyProgress;
use crate::states::{MarketConfig, SellerTradeState};
use crate::transfer::{program_signer_seeds, signer_seeds_spec, transfer_call_spec};
use crate::transfer::{transfer_compressed_nft, RegistryCall, RegistryCallView};

verus! {

/// What the buyer asks for.
#[derive(Clone, Debug, PartialEq, Eq)]
pub struct BuyNowArgs {
    /// The price offered; it must be the listed one.
    pub buyer_price: u64,
    /// Requested maker rate; honoured only under the notary's signature.
    pub maker_fee_bp: i16,
    /// Requested taker rate; honoured only under the notary's signature.
    pub taker_fee_bp: u16,
    /// Not used: creators always receive the whole royalty.
    pub buyer_creator_royalty_bp: u16,
    /// Percentage of the royalty for each creator.
    pub creator_shares: Vec<u16>,
    /// Verified flag of each creator.
    pub creator_verified: Vec<bool>,
    /// The asset's royalty rate.
    pub seller_fee_basis_points: u16,
    /// Root of the tree the proof was made against.
    pub root: [u8; 32],
    /// Hash of the asset's metadata, before the royalty rate is bound in.
    pub metadata_hash: [u8; 32],
    /// Hash of the asset's creator list.
    pub creator_hash: [u8; 32],
    /// The asset's number in its tree.
    pub nonce: u64,
    /// The asset's leaf in the tree.
    pub index: u32,
}

/// The accounts of a sale, as read at entry.
#[derive(Clone, Debug, PartialEq, Eq)]
pub struct BuyNow {
    pub buyer: AccountView,
    pub seller: AccountView,
    pub notary: AccountView,
    pub platform_treasury: AccountView,
    pub tree_authority: AccountView,
    pub merkle_tree: AccountView,
    pub log_wrapper: AccountView,
    pub bubblegum_program: AccountView,
    pub system_program: AccountView,
    pub compression_program: AccountView,
    /// The listing being bought.
    pub seller_trade_state: SellerTradeState,
    /// The escrow identity that holds the asset.
    pub program_as_signer: AccountView,
    /// The bump under which the escrow identity was derived.
    pub program_as_signer_bump: u8,
    pub seller_referral: AccountView,
    /// Who receives the asset.
    pub receiver: AccountView,
    /// One account per creator, then the proof path. A creator's balance is
    /// the one it has when its payment is decided.
    pub remaining_accounts: Vec<AccountView>,
}

/// The figures of a sale, for the record.
#[derive(Clone, Copy, Debug, PartialEq, Eq)]
pub struct SaleRecord {
    pub price: u64,
    pub maker_fee: i64,
    pub taker_fee: u64,
    pub total_platform_fee: u64,
}

/// Everything a sale does, in the order it is done. All of it takes effect or
/// none of it.
#[derive(Clone, Debug, PartialEq, Eq)]
pub struct Settlement {
    /// Royalty payments, buyer to creator.
    pub creator_payments: Vec<Transfer>,
    /// The seller's proceeds, buyer to seller.
    pub seller_payment: Transfer,
    /// The platform's fee, buyer to treasury, where there is one.
    pub treasury_payment: Option<Transfer>,
    /// The call that moves the asset out of escrow.
    pub transfer: RegistryCall,
    pub record: SaleRecord,
    /// Who receives the balance reserved for the listing, which is closed.
    pub rent_refund_to: [u8; 32],
}

/// The mathematical content of a `Settlement`.
pub struct SettlementView {
    pub creator_payments: Seq<Transfer>,
    pub seller_payment: Transfer,
    pub treasury_payment: Option<Transfer>,
    pub transfer: RegistryCallView,
    pub record: SaleRecord,
    pub rent_refund_to: [u8; 32],
}

impl View for Settlement {
    type V = SettlementView;

    open spec fn view(&self) -> SettlementView {
        SettlementView {
            creator_payments: self.creator_payments@,
            seller_payment: self.seller_payment,
            treasury_payment: self.treasury_payment,
            transfer: self.transfer@,
            record: self.record,
            rent_refund_to: self.rent_refund_to,
        }
    }
}

/// A result with its settlement replaced by the settlement's content.
pub open spec fn settlement_result_view(out: Result<Settlement, ErrorCode>) -> Result<
    SettlementView,
    ErrorCode,
> {
    match out {
        Ok(settlement) => Ok(settlement@),
        Err(e) => Err(e),
    }
}

/// What must hold of a sale's accounts before it is looked at any further:
/// the buyer signed, notary and treasury are the fixed ones, and the listing
/// records this seller, this referral and this price.
pub open spec fn buy_now_constraints(ctx: BuyNow, args: BuyNowArgs, config: MarketConfig) -> bool {
    &&& ctx.buyer.is_signer
    &&& ctx.notary.key == config.notary
    &&& ctx.platform_treasury.key == config.treasury
    &&& ctx.seller_trade_state.seller_referral == ctx.seller_referral.key
    &&& ctx.seller_trade_state.buyer_price == args.buyer_price
    &&& ctx.seller_trade_state.seller == ctx.seller.key
}

impl BuyNow {
    /// Checks the accounts of a sale against the listing and the fixed
    /// identities.
    pub fn constraints_hold(&self, args: &BuyNowArgs, config: &MarketConfig) -> (ok: bool)
        ensures
            ok == buy_now_constraints(*self, *args, *config),
    {
        self.buyer.is_signer && keys_equal(&self.notary.key, &config.notary) && keys_equal(
            &self.platform_treasury.key,
            &config.treasury,
        ) && keys_equal(&self.seller_trade_state.seller_referral, &self.seller_referral.key)
            && self.seller_trade_state.buyer_price == args.buyer_price && keys_equal(
            &self.seller_trade_state.seller,
            &self.seller.key,
        )
    }
}

/// Whether a sale is made on the terms of the listing: the referral, the
/// price and the seller supplied must be the recorded ones. A wrong referral
/// or seller fails as `SellerMismatch`, a wrong price as `InvalidPrice`; the
/// referral is looked at first, then the price, then the seller.
pub open spec fn listing_check_spec(ctx: BuyNow, args: BuyNowArgs) -> Result<(), ErrorCode> {
    if ctx.seller_trade_state.seller_referral != ctx.seller_referral.key {
        Err(ErrorCode::SellerMismatch)
    } else if ctx.seller_trade_state.buyer_price != args.buyer_price {
        Err(ErrorCode::InvalidPrice)
    } else if ctx.seller_trade_state.seller != ctx.seller.key {
        Err(ErrorCode::SellerMismatch)
    } else {
        Ok(())
    }
}

/// Checks the terms of a sale against the listing.
pub fn check_listing(ctx: &BuyNow, args: &BuyNowArgs) -> (out: Result<(), ErrorCode>)
    ensures
        out == listing_check_spec(*ctx, *args),
{
    if !keys_equal(&ctx.seller_trade_state.seller_referral, &ctx.seller_referral.key) {
        Err(ErrorCode::SellerMismatch)
    } else if ctx.seller_trade_state.buyer_price != args.buyer_price {
        Err(ErrorCode::InvalidPrice)
    } else if !keys_equal(&ctx.seller_trade_state.seller, &ctx.seller.key) {
        Err(ErrorCode::SellerMismatch)
    } else {
        Ok(())
    }
}

/// The creators' accounts: the first of the remaining accounts, one per share.
pub open spec fn creator_accounts(ctx: BuyNow, args: BuyNowArgs) -> Seq<AccountView> {
    ctx.remaining_accounts@.subrange(0, args.creator_shares@.len() as int)
}

/// The proof path: the remaining accounts after the creators'.
pub open spec fn proof_path(ctx: BuyNow, args: BuyNowArgs) -> Seq<AccountView> {
    ctx.remaining_accounts@.subrange(
        args.creator_shares@.len() as int,
        ctx.remaining_accounts@.len() as int,
    )
}

/// The call that moves the asset out of escrow to the receiver, signed by the
/// program as its escrow identity.
pub open spec fn release_call(ctx: BuyNow, args: BuyNowArgs, data_hash: [u8; 32]) -> RegistryCallView {
    transfer_call_spec(
        ctx.tree_authority.key,
        ctx.program_as_signer.key,
        ctx.program_as_signer.key,
        ctx.receiver.key,
        ctx.merkle_tree.key,
        ctx.log_wrapper.key,
        ctx.compression_program.key,
        ctx.system_program.key,
        proof_path(ctx, args),
        ctx.bubblegum_program.key,
        args.root,
        data_hash,
        args.creator_hash,
        args.nonce,
        args.index,
        Some(signer_seeds_spec(ctx.program_as_signer_bump)),
    )
}

/// What a sale starts from, once its creator data is known to be genuine.
#[derive(Clone, Copy, Debug, PartialEq, Eq)]
pub struct SaleOpening {
    /// The hash the registry holds for the asset.
    pub data_hash: [u8; 32],
    /// The royalty distribution, before any creator's turn.
    pub royalties: RoyaltyProgress,
}

/// What a sale does after the royalties: payments to seller and treasury,
/// the release of the asset, and the record.
#[derive(Clone, Debug, PartialEq, Eq)]
pub struct SaleConclusion {
    pub seller_payment: Transfer,
    pub treasury_payment: Option<Transfer>,
    pub transfer: RegistryCall,
    pub record: SaleRecord,
    pub rent_refund_to: [u8; 32],
}

/// The mathematical content of a `SaleConclusion`.
pub struct SaleConclusionView {
    pub seller_payment: Transfer,
    pub treasury_payment: Option<Transfer>,
    pub transfer: RegistryCallView,
    pub record: SaleRecord,
    pub rent_refund_to: [u8; 32],
}

impl View for SaleConclusion {
    type V = SaleConclusionView;

    open spec fn view(&self) -> SaleConclusionView {
        SaleConclusionView {
            seller_payment: self.seller_payment,
            treasury_payment: self.treasury_payment,
            transfer: self.transfer@,
            record: self.record,
            rent_refund_to: self.rent_refund_to,
        }
    }
}

/// A result with its conclusion replaced by the conclusion's content.
pub open spec fn conclusion_result_view(out: Result<SaleConclusion, ErrorCode>) -> Result<
    SaleConclusionView,
    ErrorCode,
> {
    match out {
        Ok(conclusion) => Ok(conclusion@),
        Err(e) => Err(e),
    }
}

/// A settlement: the royalty payments, then what the conclusion holds.
pub open spec fn settlement_of(
    creator_payments: Seq<Transfer>,
    conclusion: SaleConclusionView,
) -> SettlementView {
    SettlementView {
        creator_payments,
        seller_payment: conclusion.seller_payment,
        treasury_payment: conclusion.treasury_payment,
        transfer: conclusion.transfer,
        record: conclusion.record,
        rent_refund_to: conclusion.rent_refund_to,
    }
}

/// The start of a sale: it must be on the terms of the listing; the creator
/// data must match the creator hash; the royalty rate is bound into the
/// metadata hash; and the royalty pool is worked out, on the whole royalty.
pub open spec fn open_sale_spec(ctx: BuyNow, args: BuyNowArgs) -> Result<SaleOpening, ErrorCode> {
    if listing_check_spec(ctx, args) is Err {
        Err(listing_check_spec(ctx, args)->Err_0)
    } else if ctx.remaining_accounts@.len() < args.creator_shares@.len() {
        Err(ErrorCode::MismatchedCreatorDataLengths)
    } else {
        match verify_creators_spec(
            creator_accounts(ctx, args),
            args.creator_shares@,
            args.creator_verified@,
            args.creator_hash,
        ) {
            Err(e) => Err(e),
            Ok(_) => {
                let data_hash = key_of(
                    data_hash_spec(args.metadata_hash@, args.seller_fee_basis_points),
                );
                match total_royalty_spec(
                    args.buyer_price,
                    DEFAULT_CREATOR_ROYALTY_BP,
                    args.seller_fee_basis_points,
                ) {
                    Err(e) => Err(e),
                    Ok(total_fee) => Ok(
                        SaleOpening { data_hash, royalties: royalty_start_spec(total_fee) },
                    ),
                }
            },
        }
    }
}

/// The end of a sale, which must be on the terms of the listing: the fees
/// are worked out, the seller is paid, the treasury if anything is due to
/// it, and the asset released.
pub open spec fn conclude_spec(ctx: BuyNow, args: BuyNowArgs, data_hash: [u8; 32]) -> Result<
    SaleConclusionView,
    ErrorCode,
> {
    if listing_check_spec(ctx, args) is Err {
        Err(listing_check_spec(ctx, args)->Err_0)
    } else if ctx.remaining_accounts@.len() < args.creator_shares@.len() {
        Err(ErrorCode::MismatchedCreatorDataLengths)
    } else {
        match fees_spec(
            ctx.notary.is_signer,
            args.buyer_price,
            args.maker_fee_bp,
            args.taker_fee_bp,
            ctx.buyer.key == ctx.seller.key,
        ) {
            Err(e) => Err(e),
            Ok(fees) => Ok(
                SaleConclusionView {
                    seller_payment: Transfer {
                        from: ctx.buyer.key,
                        to: ctx.seller.key,
                        lamports: fees.seller_will_get_from_buyer,
                    },
                    treasury_payment: if fees.total_platform_fee > 0 {
                        Some(
                            Transfer {
                                from: ctx.buyer.key,
                                to: ctx.platform_treasury.key,
                                lamports: fees.total_platform_fee,
                            },
                        )
                    } else {
                        None
                    },
                    transfer: release_call(ctx, args, data_hash),
                    record: SaleRecord {
                        price: args.buyer_price,
                        maker_fee: fees.maker_fee,
                        taker_fee: fees.taker_fee,
                        total_platform_fee: fees.total_platform_fee,
                    },
                    rent_refund_to: ctx.seller.key,
                },
            ),
        }
    }
}

/// What a sale does once its creator data is known to be genuine, given the
/// hash the registry holds for the asset.
///
/// The sale must be on the terms of the listing. Royalties are decided first, on the whole royalty whatever share of it
/// the buyer asked to pay; then the fees; then the seller is paid, the
/// treasury if anything is due to it, and the asset released.
pub open spec fn settle_spec(
    ctx: BuyNow,
    args: BuyNowArgs,
    rent_minimum: u64,
    data_hash: [u8; 32],
) -> Result<SettlementView, ErrorCode> {
    if listing_check_spec(ctx, args) is Err {
        Err(listing_check_spec(ctx, args)->Err_0)
    } else if ctx.remaining_accounts@.len() < args.creator_shares@.len() {
        Err(ErrorCode::MismatchedCreatorDataLengths)
    } else {
        match pay_creator_fees_spec(
            creator_accounts(ctx, args),
            args.creator_shares@,
            ctx.buyer.key,
            args.buyer_price,
            DEFAULT_CREATOR_ROYALTY_BP,
            args.seller_fee_basis_points,
            rent_minimum,
        ) {
            Err(e) => Err(e),
            Ok((creator_payments, paid)) => match conclude_spec(ctx, args, data_hash) {
                Err(e) => Err(e),
                Ok(conclusion) => Ok(settlement_of(creator_payments, conclusion)),
            },
        }
    }
}

/// What a sale does: it must be on the terms of the listing, the price, seller
/// and referral on record; the creator data must match the creator hash; and the
/// settlement is made against the metadata hash with the royalty rate bound
/// in.
pub open spec fn buy_now_spec(ctx: BuyNow, args: BuyNowArgs, rent_minimum: u64) -> Result<
    SettlementView,
    ErrorCode,
> {
    if listing_check_spec(ctx, args) is Err {
        Err(listing_check_spec(ctx, args)->Err_0)
    } else if ctx.remaining_accounts@.len() < args.creator_shares@.len() {
        Err(ErrorCode::MismatchedCreatorDataLengths)
    } else {
        match verify_creators_spec(
            creator_accounts(ctx, args),
            args.creator_shares@,
            args.creator_verified@,
            args.creator_hash,
        ) {
            Err(e) => Err(e),
            Ok(_) => settle_spec(
                ctx,
                args,
                rent_minimum,
                key_of(data_hash_spec(args.metadata_hash@, args.seller_fee_basis_points)),
            ),
        }
    }
}

/// Settles a sale whose creator data has been checked, against `data_hash`.
pub fn settle(ctx: &BuyNow, args: &BuyNowArgs, rent_minimum: u64, data_hash: [u8; 32]) -> (out:
    Result<Settlement, ErrorCode>)
    ensures
        settlement_result_view(out) == settle_spec(*ctx, *args, rent_minimum, data_hash),
{
    match check_listing(ctx, args) {
        Err(e) => {
            return Err(e);
        },
        Ok(_) => {},
    }
    let shares_len = args.creator_shares.len();
    if ctx.remaining_accounts.len() < shares_len {
        return Err(ErrorCode::MismatchedCreatorDataLengths);
    }
    let (creators, path) = ctx.remaining_accounts.as_slice().split_at(shares_len);
    let shares = args.creator_shares.clone();
    proof {
        assert(shares@ =~= args.creator_shares@);
    }
    let payments = match pay_creator_fees(
        creators,
        shares,
        &ctx.buyer,
        args.buyer_price,
        DEFAULT_CREATOR_ROYALTY_BP,
        args.seller_fee_basis_points,
        rent_minimum,
    ) {
        Ok(p) => p,
        Err(e) => {
            return Err(e);
        },
    };
    let conclusion = match conclude_sale(ctx, args, data_hash) {
        Ok(c) => c,
        Err(e) => {
            return Err(e);
        },
    };
    Ok(
        Settlement {
            creator_payments: payments.transfers,
            seller_payment: conclusion.seller_payment,
            treasury_payment: conclusion.treasury_payment,
            transfer: conclusion.transfer,
            record: conclusion.record,
            rent_refund_to: conclusion.rent_refund_to,
        },
    )
}

/// Concludes a sale whose royalties have been dealt with, against
/// `data_hash`.
pub fn conclude_sale(ctx: &BuyNow, args: &BuyNowArgs, data_hash: [u8; 32]) -> (out: Result<
    SaleConclusion,
    ErrorCode,
>)
    ensures
        conclusion_result_view(out) == conclude_spec(*ctx, *args, data_hash),
{
    match check_listing(ctx, args) {
        Err(e) => {
            return Err(e);
        },
        Ok(_) => {},
    }
    let shares_len = args.creator_shares.len();
    if ctx.remaining_accounts.len() < shares_len {
        return Err(ErrorCode::MismatchedCreatorDataLengths);
    }
    let (_creators, path) = ctx.remaining_accounts.as_slice().split_at(shares_len);
    let fees = match calculate_fees(
        &ctx.notary,
        args.buyer_price,
        args.maker_fee_bp,
        args.taker_fee_bp,
        &ctx.buyer,
        &ctx.seller,
    ) {
        Ok(f) => f,
        Err(e) => {
            return Err(e);
        },
    };
    let seller_payment = Transfer {
        from: ctx.buyer.key,
        to: ctx.seller.key,
        lamports: fees.seller_will_get_from_buyer,
    };
    let treasury_payment = if fees.total_platform_fee > 0 {
        Some(
            Transfer {
                from: ctx.buyer.key,
                to: ctx.platform_treasury.key,
                lamports: fees.total_platform_fee,
            },
        )
    } else {
        None
    };
    let transfer = transfer_compressed_nft(
        &ctx.tree_authority,
        &ctx.program_as_signer,
        &ctx.program_as_signer,
        &ctx.receiver,
        &ctx.merkle_tree,
        &ctx.log_wrapper,
        &ctx.compression_program,
        &ctx.system_program,
        path,
        ctx.bubblegum_program.key,
        args.root,
        data_hash,
        args.creator_hash,
        args.nonce,
        args.index,
        Some(program_signer_seeds(ctx.program_as_signer_bump)),
    );
    Ok(
        SaleConclusion {
            seller_payment,
            treasury_payment,
            transfer,
            record: SaleRecord {
                price: args.buyer_price,
                maker_fee: fees.maker_fee,
                taker_fee: fees.taker_fee,
                total_platform_fee: fees.total_platform_fee,
            },
            rent_refund_to: ctx.seller.key,
        },
    )
}

/// Opens a sale: checks the creator data against the creator hash, binds the
/// royalty rate into the metadata hash, and works out the royalty pool.
pub fn open_sale(ctx: &BuyNow, args: &BuyNowArgs) -> (out: Result<SaleOpening, ErrorCode>)
    ensures
        out == open_sale_spec(*ctx, *args),
{
    match check_listing(ctx, args) {
        Err(e) => {
            return Err(e);
        },
        Ok(_) => {},
    }
    let shares_len = args.creator_shares.len();
    if ctx.remaining_accounts.len() < shares_len {
        return Err(ErrorCode::MismatchedCreatorDataLengths);
    }
    let (creators, _path) = ctx.remaining_accounts.as_slice().split_at(shares_len);
    let data_hash = match hash_metadata_data(args.metadata_hash, args.seller_fee_basis_points) {
        Ok(h) => h,
        Err(e) => {
            return Err(e);
        },
    };
    let shares = args.creator_shares.clone();
    let verified = args.creator_verified.clone();
    proof {
        assert(shares@ =~= args.creator_shares@);
        assert(verified@ =~= args.creator_verified@);
        lemma_key_by_bytes(data_hash, data_hash);
    }
    match verify_creators(creators, shares, verified, args.creator_hash) {
        Err(e) => {
            return Err(e);
        },
        Ok(_) => {},
    }
    match total_royalty(
        args.buyer_price,
        DEFAULT_CREATOR_ROYALTY_BP,
        args.seller_fee_basis_points,
    ) {
        Err(e) => Err(e),
        Ok(total_fee) => Ok(SaleOpening { data_hash, royalties: royalty_start(total_fee) }),
    }
}

/// Executes a sale: checks the creator data against the creator hash, binds
/// the royalty rate into the metadata hash, and settles.
pub fn handle(ctx: &BuyNow, args: BuyNowArgs, rent_minimum: u64) -> (out: Result<
    Settlement,
    ErrorCode,
>)
    ensures
        settlement_result_view(out) == buy_now_spec(*ctx, args, rent_minimum),
{
    match check_listing(ctx, &args) {
        Err(e) => {
            return Err(e);
        },
        Ok(_) => {},
    }
    let shares_len = args.creator_shares.len();
    if ctx.remaining_accounts.len() < shares_len {
        return Err(ErrorCode::MismatchedCreatorDataLengths);
    }
    let (creators, _path) = ctx.remaining_accounts.as_slice().split_at(shares_len);
    let data_hash = match hash_metadata_data(args.metadata_hash, args.seller_fee_basis_points) {
        Ok(h) => h,
        Err(e) => {
            return Err(e);
        },
    };
    let shares = args.creator_shares.clone();
    let verified = args.creator_verified.clone();
    proof {
        assert(shares@ =~= args.creator_shares@);
        assert(verified@ =~= args.creator_verified@);
        lemma_key_by_bytes(data_hash, data_hash);
    }
    match verify_creators(creators, shares, verified, args.creator_hash) {
        Err(e) => {
            return Err(e);
        },
        Ok(_) => {},
    }
    settle(ctx, &args, rent_minimum, data_hash)
}

/// Without the notary's signature a sale does not depend on the rates the
/// buyer requested: two requests that differ in nothing else do the same.
pub proof fn lemma_settle_ignores_unsigned_rates(
    ctx: BuyNow,
    args: BuyNowArgs,
    other: BuyNowArgs,
    rent_minimum: u64,
)
    requires
        !ctx.notary.is_signer,
        other == (BuyNowArgs {
            maker_fee_bp: other.maker_fee_bp,
            taker_fee_bp: other.taker_fee_bp,
            ..args
        }),
    ensures
        buy_now_spec(ctx, args, rent_minimum) == buy_now_spec(ctx, other, rent_minimum),
        buy_now_spec(ctx, args, rent_minimum) is Ok ==> {
            let record = buy_now_spec(ctx, args, rent_minimum)->Ok_0.record;
            &&& record.maker_fee == 0
            &&& record.taker_fee == crate::fees::fee_amount(args.buyer_price as int, 250)
        },
{
    crate::fees::lemma_notary_fallback(
        args.buyer_price,
        args.maker_fee_bp,
        args.taker_fee_bp,
        ctx.buyer.key == ctx.seller.key,
    );
    crate::fees::lemma_notary_fallback(
        other.buyer_price,
        other.maker_fee_bp,
        other.taker_fee_bp,
        ctx.buyer.key == ctx.seller.key,
    );
}

/// A sale whose creator shares do not sum to 100 fails, with creators or
/// without. Where the sale is on the terms of the listing, the creator data
/// is genuine and every creator's turn succeeded, the error is
/// `CreatorShareTotalMustBe100`.
pub proof fn lemma_sale_needs_shares_of_100(ctx: BuyNow, args: BuyNowArgs, rent_minimum: u64)
    requires
        crate::royalty::shares_total(args.creator_shares@, args.creator_shares@.len()) != 100,
    ensures
        buy_now_spec(ctx, args, rent_minimum) is Err,
        ({
            let pool = crate::royalty::total_royalty_spec(
                args.buyer_price,
                DEFAULT_CREATOR_ROYALTY_BP,
                args.seller_fee_basis_points,
            );
            &&& listing_check_spec(ctx, args) is Ok
            &&& ctx.remaining_accounts@.len() >= args.creator_shares@.len()
            &&& verify_creators_spec(
                creator_accounts(ctx, args),
                args.creator_shares@,
                args.creator_verified@,
                args.creator_hash,
            ) is Ok
            &&& pool is Ok
            &&& crate::royalty::royalty_run(
                ctx.buyer.key,
                pool->Ok_0,
                rent_minimum,
                creator_accounts(ctx, args),
                args.creator_shares@,
                args.creator_shares@.len(),
            ) is Ok
        }) ==> buy_now_spec(ctx, args, rent_minimum) == Err::<SettlementView, ErrorCode>(
            ErrorCode::CreatorShareTotalMustBe100,
        ),
{
    if ctx.remaining_accounts@.len() >= args.creator_shares@.len() {
        crate::royalty::lemma_shares_must_total_100(
            creator_accounts(ctx, args),
            args.creator_shares@,
            ctx.buyer.key,
            args.buyer_price,
            DEFAULT_CREATOR_ROYALTY_BP,
            args.seller_fee_basis_points,
            rent_minimum,
        );
    }
}

/// What a sale moves out of the buyer's funds towards seller and treasury is
/// the price plus the taker fee when buyer and seller differ.
pub proof fn lemma_sale_amounts(ctx: BuyNow, args: BuyNowArgs, rent_minimum: u64)
    requires
        buy_now_spec(ctx, args, rent_minimum) is Ok,
        ctx.buyer.key != ctx.seller.key,
    ensures
        ({
            let sale = buy_now_spec(ctx, args, rent_minimum)->Ok_0;
            &&& sale.seller_payment.lamports + sale.record.total_platform_fee
                == args.buyer_price + sale.record.taker_fee
            &&& sale.treasury_payment is Some <==> sale.record.total_platform_fee > 0
            &&& sale.treasury_payment is Some ==> sale.treasury_payment->Some_0.lamports
                == sale.record.total_platform_fee
            &&& sale.record.price == args.buyer_price
            &&& sale.rent_refund_to == ctx.seller.key
        }),
{
    crate::fees::lemma_fees_add_up(
        ctx.notary.is_signer,
        args.buyer_price,
        args.maker_fee_bp,
        args.taker_fee_bp,
        false,
    );
}

/// A sale is its three phases in a row: the opening, one turn per creator in
/// order, each deciding on the balance that creator has at its turn, and the
/// conclusion. Whoever carries the phases out one by one does what the sale
/// as a whole does.
pub proof fn lemma_sale_in_phases(ctx: BuyNow, args: BuyNowArgs, rent_minimum: u64)
    ensures
        buy_now_spec(ctx, args, rent_minimum) == (match open_sale_spec(ctx, args) {
            Err(e) => Err(e),
            Ok(opening) => match royalty_run(
                ctx.buyer.key,
                opening.royalties.total_fee,
                rent_minimum,
                creator_accounts(ctx, args),
                args.creator_shares@,
                args.creator_shares@.len(),
            ) {
                Err(e) => Err(e),
                Ok((progress, creator_payments)) => match royalty_finish_spec(progress) {
                    Err(e) => Err(e),
                    Ok(_) => match conclude_spec(ctx, args, opening.data_hash) {
                        Err(e) => Err(e),
                        Ok(conclusion) => Ok(settlement_of(creator_payments, conclusion)),
                    },
                },
            },
        }),
{
    if ctx.remaining_accounts@.len() >= args.creator_shares@.len() {
        let pool = total_royalty_spec(
            args.buyer_price,
            DEFAULT_CREATOR_ROYALTY_BP,
            args.seller_fee_basis_points,
        );
        let total_fee = if pool is Err {
            0u64
        } else {
            pool->Ok_0
        };
        crate::royalty::lemma_run_totals(
            ctx.buyer.key,
            total_fee,
            rent_minimum,
            creator_accounts(ctx, args),
            args.creator_shares@,
            args.creator_shares@.len(),
        );
    }
}

/// A sale moves the asset from the escrow identity to the receiver, signed
/// by the program under the escrow seeds, and closes the listing in the
/// seller's favour.
pub proof fn lemma_sale_releases_the_asset(ctx: BuyNow, args: BuyNowArgs, rent_minimum: u64)
    requires
        buy_now_spec(ctx, args, rent_minimum) is Ok,
    ensures
        ({
            let sale = buy_now_spec(ctx, args, rent_minimum)->Ok_0;
            &&& sale.transfer.program_id == ctx.bubblegum_program.key
            &&& sale.transfer.account_infos[1] == ctx.program_as_signer.key
            &&& sale.transfer.account_infos[2] == ctx.program_as_signer.key
            &&& sale.transfer.account_infos[3] == ctx.receiver.key
            &&& sale.transfer.account_infos[4] == ctx.merkle_tree.key
            &&& sale.transfer.signer_seeds == Some(signer_seeds_spec(ctx.program_as_signer_bump))
            &&& sale.seller_payment.from == ctx.buyer.key
            &&& sale.seller_payment.to == ctx.seller.key
            &&& sale.rent_refund_to == ctx.seller.key
            &&& forall|i: int|
                0 <= i < sale.creator_payments.len() ==> (#[trigger] sale.creator_payments[i]).from
                    == ctx.buyer.key
        }),
{
    let pool = total_royalty_spec(
        args.buyer_price,
        DEFAULT_CREATOR_ROYALTY_BP,
        args.seller_fee_basis_points,
    );
    crate::royalty::lemma_run_payers(
        ctx.buyer.key,
        pool->Ok_0,
        rent_minimum,
        creator_accounts(ctx, args),
        args.creator_shares@,
        args.creator_shares@.len(),
    );
}

/// Nobody settles on other terms than the listing's. A sale, and each of its
/// parts taken alone, fails unless the referral, the price and the seller
/// supplied are the recorded ones; a sale that succeeds pays the recorded
/// seller, and its record carries the recorded price.
pub proof fn lemma_sale_is_on_the_listing_s_terms(
    ctx: BuyNow,
    args: BuyNowArgs,
    rent_minimum: u64,
    data_hash: [u8; 32],
)
    ensures
        listing_check_spec(ctx, args) is Ok <==> {
            &&& ctx.seller_trade_state.seller_referral == ctx.seller_referral.key
            &&& ctx.seller_trade_state.buyer_price == args.buyer_price
            &&& ctx.seller_trade_state.seller == ctx.seller.key
        },
        listing_check_spec(ctx, args) is Err ==> {
            &&& buy_now_spec(ctx, args, rent_minimum) == Err::<SettlementView, ErrorCode>(
                listing_check_spec(ctx, args)->Err_0,
            )
            &&& open_sale_spec(ctx, args) == Err::<SaleOpening, ErrorCode>(
                listing_check_spec(ctx, args)->Err_0,
            )
            &&& settle_spec(ctx, args, rent_minimum, data_hash) == Err::<
                SettlementView,
                ErrorCode,
            >(listing_check_spec(ctx, args)->Err_0)
            &&& conclude_spec(ctx, args, data_hash) == Err::<SaleConclusionView, ErrorCode>(
                listing_check_spec(ctx, args)->Err_0,
            )
        },
        buy_now_spec(ctx, args, rent_minimum) is Ok ==> {
            let sale = buy_now_spec(ctx, args, rent_minimum)->Ok_0;
            &&& listing_check_spec(ctx, args) is Ok
            &&& sale.seller_payment.to == ctx.seller_trade_state.seller
            &&& sale.record.price == ctx.seller_trade_state.buyer_price
            &&& sale.rent_refund_to == ctx.seller_trade_state.seller
        },
{
}

} // verus!
