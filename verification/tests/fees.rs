use m3::accounts::AccountView;
use m3::errors::ErrorCode;
use m3::fees::{assert_valid_fees_bp, calculate_fees, get_actual_maker_taker_fee_bp, multiply_divide};

fn account(tag: u8, is_signer: bool) -> AccountView {
    AccountView { key: [tag; 32], is_signer, lamports: 0 }
}

#[test]
fn fee_bounds_truth_table() {
    assert_eq!(assert_valid_fees_bp(500, 0), Ok(()));
    assert_eq!(assert_valid_fees_bp(501, 0), Err(ErrorCode::InvalidMakerTakerFee));
    assert_eq!(assert_valid_fees_bp(-500, 500), Ok(()));
    assert_eq!(assert_valid_fees_bp(-499, 500), Ok(()));
    assert_eq!(assert_valid_fees_bp(0, 501), Err(ErrorCode::InvalidMakerTakerFee));
}

#[test]
fn fee_bounds_edges() {
    assert_eq!(assert_valid_fees_bp(0, 0), Ok(()));
    assert_eq!(assert_valid_fees_bp(0, 500), Ok(()));
    assert_eq!(assert_valid_fees_bp(0, -1), Err(ErrorCode::InvalidMakerTakerFee));
    assert_eq!(assert_valid_fees_bp(-501, 500), Err(ErrorCode::InvalidMakerTakerFee));
    assert_eq!(assert_valid_fees_bp(-1, 0), Err(ErrorCode::InvalidMakerTakerFee));
    assert_eq!(assert_valid_fees_bp(1, 500), Err(ErrorCode::InvalidMakerTakerFee));
    assert_eq!(assert_valid_fees_bp(250, 250), Ok(()));
    assert_eq!(assert_valid_fees_bp(251, 250), Err(ErrorCode::InvalidMakerTakerFee));
    assert_eq!(assert_valid_fees_bp(i16::MIN, i16::MAX), Err(ErrorCode::InvalidMakerTakerFee));
}

#[test]
fn unsigned_notary_gets_default_rates() {
    assert_eq!(get_actual_maker_taker_fee_bp(&account(9, false), 123, 456), (0, 250));
    assert_eq!(get_actual_maker_taker_fee_bp(&account(9, true), 123, 456), (123, 456));
}

#[test]
fn fees_of_the_worked_example() {
    let fees =
        calculate_fees(&account(9, true), 1_000_000, 100, 250, &account(1, true), &account(2, false))
            .unwrap();
    assert_eq!(fees.maker_fee, 10_000);
    assert_eq!(fees.taker_fee, 25_000);
    assert_eq!(fees.seller_will_get_from_buyer, 990_000);
    assert_eq!(fees.total_platform_fee, 35_000);
}

#[test]
fn unsigned_notary_ignores_requested_rates() {
    let plain =
        calculate_fees(&account(9, false), 1_000_000, 0, 250, &account(1, true), &account(2, false))
            .unwrap();
    for (maker, taker) in [(100i16, 250u16), (-500, 500), (500, 0), (9000, 60000), (i16::MIN, u16::MAX)] {
        let fees = calculate_fees(
            &account(9, false),
            1_000_000,
            maker,
            taker,
            &account(1, true),
            &account(2, false),
        )
        .unwrap();
        assert_eq!(fees, plain);
    }
    assert_eq!(plain.maker_fee, 0);
    assert_eq!(plain.taker_fee, 25_000);
    assert_eq!(plain.seller_will_get_from_buyer, 1_000_000);
    assert_eq!(plain.total_platform_fee, 25_000);
}

#[test]
fn signed_notary_rejects_invalid_rates() {
    let notary = account(9, true);
    let buyer = account(1, true);
    let seller = account(2, false);
    for (maker, taker) in [(501i16, 0u16), (0, 501), (-501, 500), (-1, 0), (300, 300), (0, 40000), (0, u16::MAX)] {
        assert_eq!(
            calculate_fees(&notary, 1_000_000, maker, taker, &buyer, &seller),
            Err(ErrorCode::InvalidMakerTakerFee)
        );
    }
}

#[test]
fn maker_rebate_is_paid_from_the_platform_fee() {
    let fees =
        calculate_fees(&account(9, true), 1_000_000, -100, 250, &account(1, true), &account(2, false))
            .unwrap();
    assert_eq!(fees.maker_fee, -10_000);
    assert_eq!(fees.taker_fee, 25_000);
    assert_eq!(fees.seller_will_get_from_buyer, 1_010_000);
    assert_eq!(fees.total_platform_fee, 15_000);
}

#[test]
fn buyer_who_is_seller_receives_price_plus_maker_fee() {
    let same = account(1, true);
    let fees = calculate_fees(&account(9, true), 1_000_000, 100, 250, &same, &same).unwrap();
    assert_eq!(fees.maker_fee, 10_000);
    assert_eq!(fees.seller_will_get_from_buyer, 1_010_000);
    assert_eq!(fees.total_platform_fee, 35_000);
}

#[test]
fn fees_round_down() {
    let fees =
        calculate_fees(&account(9, true), 19_999, 100, 250, &account(1, true), &account(2, false))
            .unwrap();
    assert_eq!(fees.maker_fee, 199);
    assert_eq!(fees.taker_fee, 499);
    assert_eq!(fees.seller_will_get_from_buyer, 19_800);
    assert_eq!(fees.total_platform_fee, 698);
}

#[test]
fn rebate_rounds_towards_minus_infinity() {
    let fees =
        calculate_fees(&account(9, true), 19_999, -100, 250, &account(1, true), &account(2, false))
            .unwrap();
    assert_eq!(fees.maker_fee, -200);
    assert_eq!(fees.taker_fee, 499);
    assert_eq!(fees.seller_will_get_from_buyer, 20_199);
    assert_eq!(fees.total_platform_fee, 299);
}

#[test]
fn negative_platform_total_is_an_overflow() {
    assert_eq!(
        calculate_fees(&account(9, true), 1, -500, 500, &account(1, true), &account(2, false)),
        Err(ErrorCode::NumericalOverflow)
    );
    let exact =
        calculate_fees(&account(9, true), 20_000, -500, 500, &account(1, true), &account(2, false))
            .unwrap();
    assert_eq!(exact.maker_fee, -1_000);
    assert_eq!(exact.taker_fee, 1_000);
    assert_eq!(exact.total_platform_fee, 0);
    assert_eq!(exact.seller_will_get_from_buyer, 21_000);
}

#[test]
fn seller_amount_beyond_64_bits_is_an_overflow() {
    assert_eq!(
        calculate_fees(&account(9, true), u64::MAX, -500, 500, &account(1, true), &account(2, false)),
        Err(ErrorCode::NumericalOverflow)
    );
    let same = account(1, true);
    assert_eq!(
        calculate_fees(&account(9, true), u64::MAX, 500, 0, &same, &same),
        Err(ErrorCode::NumericalOverflow)
    );
    let top =
        calculate_fees(&account(9, true), u64::MAX, 500, 0, &account(1, true), &account(2, false))
            .unwrap();
    assert_eq!(top.maker_fee, 922_337_203_685_477_580);
    assert_eq!(top.seller_will_get_from_buyer, u64::MAX - 922_337_203_685_477_580);
}

#[test]
fn zero_price_costs_nothing() {
    let fees =
        calculate_fees(&account(9, false), 0, 0, 0, &account(1, true), &account(2, false)).unwrap();
    assert_eq!(fees.maker_fee, 0);
    assert_eq!(fees.taker_fee, 0);
    assert_eq!(fees.seller_will_get_from_buyer, 0);
    assert_eq!(fees.total_platform_fee, 0);
}

#[test]
fn multiply_divide_is_checked() {
    assert_eq!(multiply_divide(1_000_000, 500, 10_000), Ok(50_000));
    assert_eq!(multiply_divide(7, 3, 2), Ok(10));
    assert_eq!(multiply_divide(0, u128::MAX, 1), Ok(0));
    assert_eq!(multiply_divide(u128::MAX, 1, 1), Ok(u128::MAX));
    assert_eq!(multiply_divide(u128::MAX, 2, 2), Err(ErrorCode::NumericalOverflow));
    assert_eq!(multiply_divide(1, 1, 0), Err(ErrorCode::NumericalOverflow));
}
