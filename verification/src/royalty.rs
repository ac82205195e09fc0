//! Creator royalties: the pool a sale owes, and its distribution by share.

use vstd::prelude::*;
use crate::accounts::{AccountView, Transfer};
use crate::errors::ErrorCode;
use crate::fees::multiply_divide;

verus! {

/// Where the distribution stands after some of the creators had their turn.
#[derive(Clone, Copy, Debug, PartialEq, Eq, Structural)]
pub struct RoyaltyProgress {
    /// The pool being distributed.
    pub total_fee: u64,
    /// Sum of the shares seen so far.
    pub total_pct: u16,
    /// Sum of the payments decided so far.
    pub total_fee_paid: u64,
}

/// The payments a sale makes to the creators, in order, and their sum.
#[derive(Clone, Debug, PartialEq, Eq)]
pub struct CreatorPayments {
    pub transfers: Vec<Transfer>,
    pub total_fee_paid: u64,
}

/// The royalty pool of a sale: the royalty rate applied to the price, then the
/// buyer's part of it, each rounded down.
pub open spec fn royalty_pool(
    total_price: u64,
    buyer_creator_royalty_bp: u16,
    seller_fee_basis_points: u16,
) -> int {
    (((total_price * seller_fee_basis_points) / 10000) * buyer_creator_royalty_bp) / 10000
}

/// The pool where it fits in 64 bits.
pub open spec fn total_royalty_spec(
    total_price: u64,
    buyer_creator_royalty_bp: u16,
    seller_fee_basis_points: u16,
) -> Result<u64, ErrorCode> {
    let pool = royalty_pool(total_price, buyer_creator_royalty_bp, seller_fee_basis_points);
    if pool > u64::MAX {
        Err(ErrorCode::NumericalOverflow)
    } else {
        Ok(pool as u64)
    }
}

/// Computes the royalty pool of a sale.
pub fn total_royalty(
    total_price: u64,
    buyer_creator_royalty_bp: u16,
    seller_fee_basis_points: u16,
) -> (out: Result<u64, ErrorCode>)
    ensures
        out == total_royalty_spec(total_price, buyer_creator_royalty_bp, seller_fee_basis_points),
{
    let price: u128 = total_price as u128;
    let rate: u128 = seller_fee_basis_points as u128;
    let part: u128 = buyer_creator_royalty_bp as u128;
    assert(price * rate <= u64::MAX * 65535) by (nonlinear_arith)
        requires
            0 <= price <= u64::MAX,
            0 <= rate <= 65535,
    ;
    let by_rate = match multiply_divide(price, rate, 10000) {
        Ok(v) => v,
        Err(e) => {
            return Err(e);
        },
    };
    assert(by_rate * part <= u64::MAX * 65535 * 65535) by (nonlinear_arith)
        requires
            0 <= by_rate <= u64::MAX * 65535,
            0 <= part <= 65535,
    ;
    let pool = match multiply_divide(by_rate, part, 10000) {
        Ok(v) => v,
        Err(e) => {
            return Err(e);
        },
    };
    if pool > u64::MAX as u128 {
        Err(ErrorCode::NumericalOverflow)
    } else {
        Ok(pool as u64)
    }
}

/// The state before any creator had a turn.
pub open spec fn royalty_start_spec(total_fee: u64) -> RoyaltyProgress {
    RoyaltyProgress { total_fee, total_pct: 0, total_fee_paid: 0 }
}

/// What a creator with `share` percent is owed out of `total_fee`.
pub open spec fn creator_fee_spec(share: u16, total_fee: u64) -> int {
    (share * total_fee) / 100
}

/// One creator's turn.
///
/// The share is added to the running total, which must fit 16 bits. The
/// creator's fee is paid only if it lifts the creator's balance to the
/// ledger's minimum balance; a fee that is not paid goes to nobody.
pub open spec fn royalty_step_spec(
    progress: RoyaltyProgress,
    share: u16,
    lamports: u64,
    rent_minimum: u64,
) -> Result<(RoyaltyProgress, Option<u64>), ErrorCode> {
    let fee = creator_fee_spec(share, progress.total_fee);
    if progress.total_pct + share > u16::MAX {
        Err(ErrorCode::CreatorShareTotalMustBe100)
    } else if fee > u64::MAX || fee + lamports > u64::MAX {
        Err(ErrorCode::NumericalOverflow)
    } else if fee + lamports >= rent_minimum {
        if progress.total_fee_paid + fee > u64::MAX {
            Err(ErrorCode::NumericalOverflow)
        } else {
            Ok(
                (
                    RoyaltyProgress {
                        total_fee: progress.total_fee,
                        total_pct: (progress.total_pct + share) as u16,
                        total_fee_paid: (progress.total_fee_paid + fee) as u64,
                    },
                    Some(fee as u64),
                ),
            )
        }
    } else {
        Ok(
            (
                RoyaltyProgress {
                    total_fee: progress.total_fee,
                    total_pct: (progress.total_pct + share) as u16,
                    total_fee_paid: progress.total_fee_paid,
                },
                None,
            ),
        )
    }
}

/// The end of the distribution: the shares must have summed to exactly 100.
/// A distribution in which no creator had a turn has a sum of zero, and fails.
pub open spec fn royalty_finish_spec(progress: RoyaltyProgress) -> Result<u64, ErrorCode> {
    if progress.total_pct != 100 {
        Err(ErrorCode::CreatorShareTotalMustBe100)
    } else {
        Ok(progress.total_fee_paid)
    }
}

/// The turns of the first `n` creators, each seeing the balance recorded in
/// its account view: the state reached and the payments decided, in order.
pub open spec fn royalty_run(
    payer: [u8; 32],
    total_fee: u64,
    rent_minimum: u64,
    accounts: Seq<AccountView>,
    shares: Seq<u16>,
    n: nat,
) -> Result<(RoyaltyProgress, Seq<Transfer>), ErrorCode>
    decreases n,
{
    if n == 0 {
        Ok((royalty_start_spec(total_fee), Seq::empty()))
    } else {
        match royalty_run(payer, total_fee, rent_minimum, accounts, shares, (n - 1) as nat) {
            Err(e) => Err(e),
            Ok((progress, transfers)) => match royalty_step_spec(
                progress,
                shares[n - 1],
                accounts[n - 1].lamports,
                rent_minimum,
            ) {
                Err(e) => Err(e),
                Ok((next, None)) => Ok((next, transfers)),
                Ok((next, Some(fee))) => Ok(
                    (
                        next,
                        transfers.push(
                            Transfer { from: payer, to: accounts[n - 1].key, lamports: fee },
                        ),
                    ),
                ),
            },
        }
    }
}

/// The royalty payments of a sale and their sum.
///
/// There must be as many shares as accounts, the pool must fit, every turn
/// must succeed, and the shares must sum to 100. An empty creator list has
/// shares that sum to zero, so it fails like any other wrong total.
pub open spec fn pay_creator_fees_spec(
    accounts: Seq<AccountView>,
    shares: Seq<u16>,
    payer: [u8; 32],
    total_price: u64,
    buyer_creator_royalty_bp: u16,
    seller_fee_basis_points: u16,
    rent_minimum: u64,
) -> Result<(Seq<Transfer>, u64), ErrorCode> {
    if accounts.len() != shares.len() {
        Err(ErrorCode::MismatchedCreatorDataLengths)
    } else {
        match total_royalty_spec(total_price, buyer_creator_royalty_bp, seller_fee_basis_points) {
            Err(e) => Err(e),
            Ok(total_fee) => match royalty_run(
                payer,
                total_fee,
                rent_minimum,
                accounts,
                shares,
                accounts.len(),
            ) {
                Err(e) => Err(e),
                Ok((progress, transfers)) => match royalty_finish_spec(progress) {
                    Err(e) => Err(e),
                    Ok(paid) => Ok((transfers, paid)),
                },
            },
        }
    }
}

/// Opens a distribution of `total_fee`.
pub fn royalty_start(total_fee: u64) -> (progress: RoyaltyProgress)
    ensures
        progress == royalty_start_spec(total_fee),
{
    RoyaltyProgress { total_fee, total_pct: 0, total_fee_paid: 0 }
}

/// Decides one creator's turn from the balance the creator has at that moment:
/// the next state, and the amount to pay if any.
pub fn royalty_step(progress: RoyaltyProgress, share: u16, lamports: u64, rent_minimum: u64) -> (out:
    Result<(RoyaltyProgress, Option<u64>), ErrorCode>)
    ensures
        out == royalty_step_spec(progress, share, lamports, rent_minimum),
{
    let total_pct = match progress.total_pct.checked_add(share) {
        Some(v) => v,
        None => {
            return Err(ErrorCode::CreatorShareTotalMustBe100);
        },
    };
    let pct: u128 = share as u128;
    let pool: u128 = progress.total_fee as u128;
    assert(pct * pool <= 65535 * u64::MAX) by (nonlinear_arith)
        requires
            0 <= pct <= 65535,
            0 <= pool <= u64::MAX,
    ;
    let wide_fee: u128 = (pct * pool) / 100;
    if wide_fee > u64::MAX as u128 {
        return Err(ErrorCode::NumericalOverflow);
    }
    let creator_fee: u64 = wide_fee as u64;
    let balance_after = match creator_fee.checked_add(lamports) {
        Some(v) => v,
        None => {
            return Err(ErrorCode::NumericalOverflow);
        },
    };
    if balance_after >= rent_minimum {
        match progress.total_fee_paid.checked_add(creator_fee) {
            Some(total_fee_paid) => Ok(
                (
                    RoyaltyProgress { total_fee: progress.total_fee, total_pct, total_fee_paid },
                    Some(creator_fee),
                ),
            ),
            None => Err(ErrorCode::NumericalOverflow),
        }
    } else {
        Ok(
            (
                RoyaltyProgress {
                    total_fee: progress.total_fee,
                    total_pct,
                    total_fee_paid: progress.total_fee_paid,
                },
                None,
            ),
        )
    }
}

/// Closes a distribution: the sum paid, if the shares summed to 100.
pub fn royalty_finish(progress: RoyaltyProgress) -> (out: Result<u64, ErrorCode>)
    ensures
        out == royalty_finish_spec(progress),
{
    if progress.total_pct != 100 {
        Err(ErrorCode::CreatorShareTotalMustBe100)
    } else {
        Ok(progress.total_fee_paid)
    }
}

/// Decides the royalty payments of a sale. Each creator's account view holds
/// the balance that creator has when its turn comes.
pub fn pay_creator_fees(
    creator_accounts: &[AccountView],
    creator_shares: Vec<u16>,
    escrow_payment_account: &AccountView,
    total_price: u64,
    buyer_creator_royalty_bp: u16,
    seller_fee_basis_points: u16,
    rent_minimum: u64,
) -> (out: Result<CreatorPayments, ErrorCode>)
    ensures
        match out {
            Ok(payments) => pay_creator_fees_spec(
                creator_accounts@,
                creator_shares@,
                escrow_payment_account.key,
                total_price,
                buyer_creator_royalty_bp,
                seller_fee_basis_points,
                rent_minimum,
            ) == Ok::<(Seq<Transfer>, u64), ErrorCode>(
                (payments.transfers@, payments.total_fee_paid),
            ),
            Err(e) => pay_creator_fees_spec(
                creator_accounts@,
                creator_shares@,
                escrow_payment_account.key,
                total_price,
                buyer_creator_royalty_bp,
                seller_fee_basis_points,
                rent_minimum,
            ) == Err::<(Seq<Transfer>, u64), ErrorCode>(e),
        },
{
    let mut transfers: Vec<Transfer> = Vec::new();
    if creator_accounts.len() != creator_shares.len() {
        return Err(ErrorCode::MismatchedCreatorDataLengths);
    }
    let total_fee = match total_royalty(
        total_price,
        buyer_creator_royalty_bp,
        seller_fee_basis_points,
    ) {
        Ok(v) => v,
        Err(e) => {
            return Err(e);
        },
    };
    let payer = escrow_payment_account.key;
    let mut progress = royalty_start(total_fee);
    let mut i: usize = 0;
    while i < creator_accounts.len()
        invariant
            0 <= i <= creator_accounts@.len(),
            creator_accounts@.len() == creator_shares@.len(),
            payer == escrow_payment_account.key,
            total_royalty_spec(total_price, buyer_creator_royalty_bp, seller_fee_basis_points)
                == Ok::<u64, ErrorCode>(total_fee),
            royalty_run(
                payer,
                total_fee,
                rent_minimum,
                creator_accounts@,
                creator_shares@,
                i as nat,
            ) == Ok::<(RoyaltyProgress, Seq<Transfer>), ErrorCode>((progress, transfers@)),
        decreases creator_accounts@.len() - i,
    {
        let account = &creator_accounts[i];
        match royalty_step(progress, creator_shares[i], account.lamports, rent_minimum) {
            Err(e) => {
                proof {
                    assert(royalty_run(
                        payer,
                        total_fee,
                        rent_minimum,
                        creator_accounts@,
                        creator_shares@,
                        (i + 1) as nat,
                    ) == Err::<(RoyaltyProgress, Seq<Transfer>), ErrorCode>(e));
                    lemma_run_error_stays(
                        payer,
                        total_fee,
                        rent_minimum,
                        creator_accounts@,
                        creator_shares@,
                        (i + 1) as nat,
                        creator_accounts@.len(),
                    );
                }
                return Err(e);
            },
            Ok((next, payment)) => {
                progress = next;
                match payment {
                    Some(fee) => {
                        transfers.push(Transfer { from: payer, to: account.key, lamports: fee });
                    },
                    None => {},
                }
            },
        }
        i += 1;
    }
    match royalty_finish(progress) {
        Err(e) => Err(e),
        Ok(total_fee_paid) => Ok(CreatorPayments { transfers, total_fee_paid }),
    }
}

/// A run that has failed after `n` turns has failed, with the same error,
/// after any larger number of turns.
pub proof fn lemma_run_error_stays(
    payer: [u8; 32],
    total_fee: u64,
    rent_minimum: u64,
    accounts: Seq<AccountView>,
    shares: Seq<u16>,
    n: nat,
    m: nat,
)
    requires
        n <= m,
        royalty_run(payer, total_fee, rent_minimum, accounts, shares, n) is Err,
    ensures
        royalty_run(payer, total_fee, rent_minimum, accounts, shares, m) == royalty_run(
            payer,
            total_fee,
            rent_minimum,
            accounts,
            shares,
            n,
        ),
    decreases m,
{
    if n < m {
        lemma_run_error_stays(
            payer,
            total_fee,
            rent_minimum,
            accounts,
            shares,
            n,
            (m - 1) as nat,
        );
    }
}

/// The sum of the first `n` shares.
pub open spec fn shares_total(shares: Seq<u16>, n: nat) -> int
    decreases n,
{
    if n == 0 {
        0
    } else {
        shares_total(shares, (n - 1) as nat) + shares[n - 1]
    }
}

/// A run that succeeds has added up the shares and kept the pool; a run that
/// fails does so for an overflow or for shares that exceed 16 bits.
pub proof fn lemma_run_totals(
    payer: [u8; 32],
    total_fee: u64,
    rent_minimum: u64,
    accounts: Seq<AccountView>,
    shares: Seq<u16>,
    n: nat,
)
    ensures
        match royalty_run(payer, total_fee, rent_minimum, accounts, shares, n) {
            Ok((progress, transfers)) => {
                &&& progress.total_pct == shares_total(shares, n)
                &&& progress.total_fee == total_fee
                &&& n == 0 ==> progress.total_fee_paid == 0
                &&& transfers.len() <= n
            },
            Err(e) => e == ErrorCode::NumericalOverflow || e
                == ErrorCode::CreatorShareTotalMustBe100,
        },
    decreases n,
{
    if n > 0 {
        lemma_run_totals(payer, total_fee, rent_minimum, accounts, shares, (n - 1) as nat);
    }
}

/// Shares that do not sum to 100 fail the sale's royalties, however the
/// payments themselves went, and whether there is any creator or none: where
/// every creator's turn succeeded, the error is `CreatorShareTotalMustBe100`,
/// and otherwise it is that or an overflow.
pub proof fn lemma_shares_must_total_100(
    accounts: Seq<AccountView>,
    shares: Seq<u16>,
    payer: [u8; 32],
    total_price: u64,
    buyer_creator_royalty_bp: u16,
    seller_fee_basis_points: u16,
    rent_minimum: u64,
)
    requires
        accounts.len() == shares.len(),
        shares_total(shares, shares.len()) != 100,
    ensures
        ({
            let out = pay_creator_fees_spec(
                accounts,
                shares,
                payer,
                total_price,
                buyer_creator_royalty_bp,
                seller_fee_basis_points,
                rent_minimum,
            );
            let pool = total_royalty_spec(
                total_price,
                buyer_creator_royalty_bp,
                seller_fee_basis_points,
            );
            &&& out is Err
            &&& out->Err_0 == ErrorCode::CreatorShareTotalMustBe100 || out->Err_0
                == ErrorCode::NumericalOverflow
            &&& pool is Ok && royalty_run(
                payer,
                pool->Ok_0,
                rent_minimum,
                accounts,
                shares,
                accounts.len(),
            ) is Ok ==> out == Err::<(Seq<Transfer>, u64), ErrorCode>(
                ErrorCode::CreatorShareTotalMustBe100,
            )
        }),
{
    let pool = total_royalty_spec(total_price, buyer_creator_royalty_bp, seller_fee_basis_points);
    if pool is Ok {
        lemma_run_totals(payer, pool->Ok_0, rent_minimum, accounts, shares, accounts.len());
    }
}

/// Shares that sum to 100 and turns that all succeed make the royalties
/// succeed, with one payment at most per creator.
pub proof fn lemma_shares_totalling_100_pass(
    accounts: Seq<AccountView>,
    shares: Seq<u16>,
    payer: [u8; 32],
    total_price: u64,
    buyer_creator_royalty_bp: u16,
    seller_fee_basis_points: u16,
    rent_minimum: u64,
)
    requires
        accounts.len() == shares.len(),
        shares_total(shares, shares.len()) == 100,
        total_royalty_spec(total_price, buyer_creator_royalty_bp, seller_fee_basis_points) is Ok,
        royalty_run(
            payer,
            total_royalty_spec(
                total_price,
                buyer_creator_royalty_bp,
                seller_fee_basis_points,
            )->Ok_0,
            rent_minimum,
            accounts,
            shares,
            accounts.len(),
        ) is Ok,
    ensures
        ({
            let out = pay_creator_fees_spec(
                accounts,
                shares,
                payer,
                total_price,
                buyer_creator_royalty_bp,
                seller_fee_basis_points,
                rent_minimum,
            );
            out is Ok && out->Ok_0.0.len() <= accounts.len()
        }),
{
    let pool = total_royalty_spec(total_price, buyer_creator_royalty_bp, seller_fee_basis_points);
    lemma_run_totals(payer, pool->Ok_0, rent_minimum, accounts, shares, accounts.len());
}

/// Every payment of a run is made by the payer, to one of the creators.
pub proof fn lemma_run_payers(
    payer: [u8; 32],
    total_fee: u64,
    rent_minimum: u64,
    accounts: Seq<AccountView>,
    shares: Seq<u16>,
    n: nat,
)
    requires
        n <= accounts.len(),
    ensures
        match royalty_run(payer, total_fee, rent_minimum, accounts, shares, n) {
            Ok((progress, transfers)) => forall|i: int|
                0 <= i < transfers.len() ==> {
                    &&& (#[trigger] transfers[i]).from == payer
                    &&& exists|j: int| 0 <= j < n && accounts[j].key == transfers[i].to
                },
            Err(_) => true,
        },
    decreases n,
{
    if n > 0 {
        lemma_run_payers(payer, total_fee, rent_minimum, accounts, shares, (n - 1) as nat);
        match royalty_run(payer, total_fee, rent_minimum, accounts, shares, n) {
            Ok((progress, transfers)) => {
                let before = royalty_run(
                    payer,
                    total_fee,
                    rent_minimum,
                    accounts,
                    shares,
                    (n - 1) as nat,
                )->Ok_0.1;
                assert forall|i: int| 0 <= i < transfers.len() implies {
                    &&& (#[trigger] transfers[i]).from == payer
                    &&& exists|j: int| 0 <= j < n && accounts[j].key == transfers[i].to
                } by {
                    if i < before.len() {
                        assert(transfers[i] == before[i]);
                        let j = choose|j: int| 0 <= j < n - 1 && accounts[j].key == before[i].to;
                        assert(0 <= j < n && accounts[j].key == transfers[i].to);
                    } else {
                        assert(accounts[n - 1].key == transfers[i].to);
                    }
                }
            },
            Err(_) => {},
        }
    }
}

} // verus!
