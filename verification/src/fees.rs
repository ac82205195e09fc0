//! The fee engine: which rates apply to a sale and what they amount to.

use vstd::prelude::*;
use crate::accounts::{keys_equal, AccountView};
use crate::constants::{DEFAULT_MAKER_FEE_BP, DEFAULT_TAKER_FEE_BP, MAX_FEE_ABS_BP};
use crate::errors::ErrorCode;

verus! {

/// What a sale costs each side. Computed anew for every settlement.
#[derive(Clone, Copy, Debug, PartialEq, Eq, Structural)]
pub struct FeeResults {
    /// Charged to the seller side; negative when it is a rebate.
    pub maker_fee: i64,
    /// Charged to the buyer side.
    pub taker_fee: u64,
    /// What the buyer must hand to the seller.
    pub seller_will_get_from_buyer: u64,
    /// What the platform keeps: maker fee plus taker fee.
    pub total_platform_fee: u64,
}

/// `value * multiplier / divisor`, rounded down, where the product fits in 128
/// bits and the divisor is not zero.
pub open spec fn multiply_divide_spec(value: u128, multiplier: u128, divisor: u128) -> Result<
    u128,
    ErrorCode,
> {
    if value * multiplier > u128::MAX || divisor == 0 {
        Err(ErrorCode::NumericalOverflow)
    } else {
        Ok(((value * multiplier) / (divisor as int)) as u128)
    }
}

/// Multiplies, then divides, failing rather than wrapping.
pub fn multiply_divide(value: u128, multiplier: u128, divisor: u128) -> (out: Result<
    u128,
    ErrorCode,
>)
    ensures
        out == multiply_divide_spec(value, multiplier, divisor),
{
    match value.checked_mul(multiplier) {
        Some(product) => {
            if divisor == 0 {
                Err(ErrorCode::NumericalOverflow)
            } else {
                Ok(product / divisor)
            }
        },
        None => Err(ErrorCode::NumericalOverflow),
    }
}

/// The rates that apply: the requested ones under the notary's signature, the
/// fixed defaults without it.
pub open spec fn actual_fee_bp_spec(notary_signed: bool, maker_fee_bp: i16, taker_fee_bp: u16) -> (
    i16,
    u16,
) {
    if notary_signed {
        (maker_fee_bp, taker_fee_bp)
    } else {
        (DEFAULT_MAKER_FEE_BP, DEFAULT_TAKER_FEE_BP)
    }
}

/// Discards the requested rates unless the notary co-signed.
pub fn get_actual_maker_taker_fee_bp(notary: &AccountView, maker_fee_bp: i16, taker_fee_bp: u16) -> (out:
    (i16, u16))
    ensures
        out == actual_fee_bp_spec(notary.is_signer, maker_fee_bp, taker_fee_bp),
        !notary.is_signer ==> out == (0i16, 250u16),
        notary.is_signer ==> out == (maker_fee_bp, taker_fee_bp),
{
    if notary.is_signer {
        (maker_fee_bp, taker_fee_bp)
    } else {
        (DEFAULT_MAKER_FEE_BP, DEFAULT_TAKER_FEE_BP)
    }
}

/// The rates a sale may carry: each within the bound, and their sum neither
/// negative nor above it.
pub open spec fn valid_fees_bp(maker_fee_bp: int, taker_fee_bp: int) -> bool {
    &&& 0 <= taker_fee_bp <= MAX_FEE_ABS_BP
    &&& -MAX_FEE_ABS_BP <= maker_fee_bp <= MAX_FEE_ABS_BP
    &&& 0 <= maker_fee_bp + taker_fee_bp <= MAX_FEE_ABS_BP
}

/// Accepts exactly the rates of `valid_fees_bp`.
pub fn assert_valid_fees_bp(maker_fee_bp: i16, taker_fee_bp: i16) -> (out: Result<(), ErrorCode>)
    ensures
        valid_fees_bp(maker_fee_bp as int, taker_fee_bp as int) ==> out == Ok::<(), ErrorCode>(()),
        !valid_fees_bp(maker_fee_bp as int, taker_fee_bp as int) ==> out == Err::<(), ErrorCode>(
            ErrorCode::InvalidMakerTakerFee,
        ),
{
    let bound = MAX_FEE_ABS_BP;
    if taker_fee_bp < 0 || taker_fee_bp > bound {
        return Err(ErrorCode::InvalidMakerTakerFee);
    }
    if maker_fee_bp < -bound || maker_fee_bp > bound {
        return Err(ErrorCode::InvalidMakerTakerFee);
    }
    let sum = maker_fee_bp + taker_fee_bp;
    if sum < 0 || sum > bound {
        return Err(ErrorCode::InvalidMakerTakerFee);
    }
    Ok(())
}

/// `price * bp / 10000`, rounded down: towards minus infinity for a rebate.
pub open spec fn fee_amount(price: int, bp: int) -> int {
    (price * bp) / 10000
}

/// The fee breakdown of a sale at `buyer_price`.
///
/// The rates are first replaced by the defaults unless the notary signed, and
/// must then be valid. A buyer who is also the seller receives the price plus
/// the maker fee, any other seller the price less the maker fee. The amounts
/// must fit their fields and the platform's total must not be negative.
pub open spec fn fees_spec(
    notary_signed: bool,
    buyer_price: u64,
    maker_fee_bp: i16,
    taker_fee_bp: u16,
    payer_is_seller: bool,
) -> Result<FeeResults, ErrorCode> {
    let (maker_bp, taker_bp) = actual_fee_bp_spec(notary_signed, maker_fee_bp, taker_fee_bp);
    if !valid_fees_bp(maker_bp as int, taker_bp as int) {
        Err(ErrorCode::InvalidMakerTakerFee)
    } else {
        let maker_fee = fee_amount(buyer_price as int, maker_bp as int);
        let taker_fee = fee_amount(buyer_price as int, taker_bp as int);
        let seller_gets = if payer_is_seller {
            buyer_price + maker_fee
        } else {
            buyer_price - maker_fee
        };
        let total = maker_fee + taker_fee;
        if seller_gets < 0 || seller_gets > u64::MAX || total < 0 {
            Err(ErrorCode::NumericalOverflow)
        } else {
            Ok(
                FeeResults {
                    maker_fee: maker_fee as i64,
                    taker_fee: taker_fee as u64,
                    seller_will_get_from_buyer: seller_gets as u64,
                    total_platform_fee: total as u64,
                },
            )
        }
    }
}

/// A valid rate yields a fee of at most a twentieth of the price, in size.
pub proof fn lemma_fee_amount_bounds(price: int, bp: int)
    requires
        0 <= price <= u64::MAX,
        -500 <= bp <= 500,
    ensures
        -(price / 20) - 1 <= fee_amount(price, bp) <= price / 20,
        bp >= 0 ==> fee_amount(price, bp) >= 0,
        bp <= 0 ==> fee_amount(price, bp) <= 0,
{
    assert(-(price / 20) - 1 <= (price * bp) / 10000 <= price / 20 && (bp >= 0 ==> (price * bp)
        / 10000 >= 0) && (bp <= 0 ==> (price * bp) / 10000 <= 0)) by (nonlinear_arith)
        requires
            0 <= price <= u64::MAX,
            -500 <= bp <= 500,
    ;
}

/// Rounding a negative quotient down is rounding its magnitude up.
proof fn lemma_floor_of_negative(m: int)
    requires
        0 <= m,
    ensures
        (-m) / 10000 == -((m + 9999) / 10000),
{
    assert((-m) / 10000 == -((m + 9999) / 10000)) by (nonlinear_arith)
        requires
            0 <= m,
    ;
}

/// Computes the fee breakdown of a sale.
pub fn calculate_fees(
    notary: &AccountView,
    buyer_price: u64,
    maker_fee_bp: i16,
    taker_fee_bp: u16,
    payer: &AccountView,
    seller: &AccountView,
) -> (out: Result<FeeResults, ErrorCode>)
    ensures
        out == fees_spec(
            notary.is_signer,
            buyer_price,
            maker_fee_bp,
            taker_fee_bp,
            payer.key == seller.key,
        ),
{
    let (maker_bp, taker_bp) = get_actual_maker_taker_fee_bp(notary, maker_fee_bp, taker_fee_bp);
    if taker_bp > 500 {
        return Err(ErrorCode::InvalidMakerTakerFee);
    }
    let taker_bp_signed: i16 = taker_bp as i16;
    match assert_valid_fees_bp(maker_bp, taker_bp_signed) {
        Err(e) => {
            return Err(e);
        },
        Ok(_) => {},
    }
    let price: u128 = buyer_price as u128;
    proof {
        lemma_fee_amount_bounds(buyer_price as int, maker_bp as int);
        lemma_fee_amount_bounds(buyer_price as int, taker_bp as int);
    }
    let maker_fee: i64 = if maker_bp >= 0 {
        let rate: u128 = maker_bp as u128;
        assert(price * rate <= u64::MAX * 500) by (nonlinear_arith)
            requires
                0 <= price <= u64::MAX,
                0 <= rate <= 500,
        ;
        ((price * rate) / 10000) as i64
    } else {
        let rate: u128 = (-maker_bp) as u128;
        assert(price * rate <= u64::MAX * 500) by (nonlinear_arith)
            requires
                0 <= price <= u64::MAX,
                0 <= rate <= 500,
        ;
        let magnitude: u128 = price * rate;
        proof {
            lemma_floor_of_negative(magnitude as int);
            assert(price * (maker_bp as int) == -(magnitude as int)) by (nonlinear_arith)
                requires
                    magnitude == price * rate,
                    rate == -(maker_bp as int),
            ;
        }
        -(((magnitude + 9999) / 10000) as i64)
    };
    let taker_rate: u128 = taker_bp as u128;
    assert(price * taker_rate <= u64::MAX * 500) by (nonlinear_arith)
        requires
            0 <= price <= u64::MAX,
            0 <= taker_rate <= 500,
    ;
    let taker_fee: u64 = ((price * taker_rate) / 10000) as u64;
    let seller_gets: i128 = if keys_equal(&payer.key, &seller.key) {
        buyer_price as i128 + maker_fee as i128
    } else {
        buyer_price as i128 - maker_fee as i128
    };
    let total: i128 = maker_fee as i128 + taker_fee as i128;
    if seller_gets < 0 || seller_gets > u64::MAX as i128 || total < 0 {
        return Err(ErrorCode::NumericalOverflow);
    }
    Ok(
        FeeResults {
            maker_fee,
            taker_fee,
            seller_will_get_from_buyer: seller_gets as u64,
            total_platform_fee: total as u64,
        },
    )
}

/// Without the notary's signature the requested rates do not matter: the
/// breakdown is the one of the default rates, 0 and 250 basis points, and
/// these are always valid.
pub proof fn lemma_notary_fallback(
    buyer_price: u64,
    maker_fee_bp: i16,
    taker_fee_bp: u16,
    payer_is_seller: bool,
)
    ensures
        fees_spec(false, buyer_price, maker_fee_bp, taker_fee_bp, payer_is_seller) == fees_spec(
            true,
            buyer_price,
            0,
            250,
            payer_is_seller,
        ),
        fees_spec(false, buyer_price, maker_fee_bp, taker_fee_bp, payer_is_seller)
            != Err::<FeeResults, ErrorCode>(ErrorCode::InvalidMakerTakerFee),
{
}

/// Where the fees are computed, the amounts add up: the platform keeps maker
/// plus taker fee, and the seller receives the price less the maker fee, or
/// plus it when the buyer is the seller.
pub proof fn lemma_fees_add_up(
    notary_signed: bool,
    buyer_price: u64,
    maker_fee_bp: i16,
    taker_fee_bp: u16,
    payer_is_seller: bool,
)
    requires
        fees_spec(notary_signed, buyer_price, maker_fee_bp, taker_fee_bp, payer_is_seller) is Ok,
    ensures
        ({
            let fees = fees_spec(
                notary_signed,
                buyer_price,
                maker_fee_bp,
                taker_fee_bp,
                payer_is_seller,
            )->Ok_0;
            &&& fees.total_platform_fee == fees.maker_fee + fees.taker_fee
            &&& payer_is_seller ==> fees.seller_will_get_from_buyer == buyer_price
                + fees.maker_fee
            &&& !payer_is_seller ==> fees.seller_will_get_from_buyer == buyer_price
                - fees.maker_fee
            &&& fees.total_platform_fee <= buyer_price / 20
        }),
{
    let (maker_bp, taker_bp) = actual_fee_bp_spec(notary_signed, maker_fee_bp, taker_fee_bp);
    lemma_fee_amount_bounds(buyer_price as int, maker_bp as int);
    lemma_fee_amount_bounds(buyer_price as int, taker_bp as int);
    let p = buyer_price as int;
    let m = maker_bp as int;
    let t = taker_bp as int;
    assert((p * m) / 10000 + (p * t) / 10000 <= (p * (m + t)) / 10000) by (nonlinear_arith);
    assert((p * (m + t)) / 10000 <= p / 20) by (nonlinear_arith)
        requires
            0 <= p,
            0 <= m + t <= 500,
    ;
}

} // verus!
