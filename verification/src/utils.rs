//! Helpers on raw account data and on account creation.

use vstd::prelude::*;
use crate::accounts::{AccountView, Transfer};
use crate::errors::ErrorCode;
use crate::hashing::byte_strings;

verus! {

/// The mint of a token account: the first 32 bytes of its data.
pub fn get_mint_from_token_account(token_account_data: &[u8]) -> (out: Result<[u8; 32], ErrorCode>)
    requires
        token_account_data@.len() >= 32,
    ensures
        out is Ok,
        out->Ok_0@ == token_account_data@.subrange(0, 32),
{
    let mut mint: [u8; 32] = [0u8; 32];
    let mut i: usize = 0;
    while i < 32
        invariant
            0 <= i <= 32,
            token_account_data@.len() >= 32,
            forall|j: int| 0 <= j < i ==> mint@[j] == token_account_data@[j],
        decreases 32 - i,
    {
        mint[i] = token_account_data[i];
        i += 1;
    }
    proof {
        assert(mint@ =~= token_account_data@.subrange(0, 32));
    }
    Ok(mint)
}

/// The steps that turn an address into an account of `size` bytes owned by a
/// program: fund it up to the minimum balance, allocate its space, assign it.
#[derive(Clone, Debug, PartialEq, Eq)]
pub struct AccountCreation {
    /// The payment that brings the balance up to what is required, if any is
    /// needed.
    pub funding: Option<Transfer>,
    /// The account being created.
    pub account: [u8; 32],
    /// Bytes to allocate.
    pub space: u64,
    /// The program the account is assigned to.
    pub owner: [u8; 32],
    /// Seeds under which the account signs its allocation and assignment.
    pub signer_seeds: Vec<Vec<u8>>,
}

/// What is missing from `lamports` to reach the larger of `minimum_balance`
/// and one.
pub open spec fn required_lamports(minimum_balance: u64, lamports: u64) -> int {
    let target: int = if minimum_balance < 1 {
        1
    } else {
        minimum_balance as int
    };
    if target > lamports {
        target - lamports
    } else {
        0
    }
}

/// Plans the creation of an account of `size` bytes owned by `program_id`,
/// given the minimum balance the ledger asks for that size.
pub fn create_or_allocate_account_raw(
    program_id: [u8; 32],
    new_account_info: &AccountView,
    payer_info: &AccountView,
    size: usize,
    new_acct_seeds: Vec<Vec<u8>>,
    minimum_balance: u64,
) -> (out: Result<AccountCreation, ErrorCode>)
    ensures
        out is Ok,
        out->Ok_0.account == new_account_info.key,
        out->Ok_0.owner == program_id,
        out->Ok_0.space == size,
        byte_strings(out->Ok_0.signer_seeds@) == byte_strings(new_acct_seeds@),
        out->Ok_0.funding == (if required_lamports(minimum_balance, new_account_info.lamports)
            > 0 {
            Some(
                Transfer {
                    from: payer_info.key,
                    to: new_account_info.key,
                    lamports: required_lamports(
                        minimum_balance,
                        new_account_info.lamports,
                    ) as u64,
                },
            )
        } else {
            None
        }),
{
    let target: u64 = if minimum_balance < 1 {
        1
    } else {
        minimum_balance
    };
    let required: u64 = if target > new_account_info.lamports {
        target - new_account_info.lamports
    } else {
        0
    };
    let funding = if required > 0 {
        Some(Transfer { from: payer_info.key, to: new_account_info.key, lamports: required })
    } else {
        None
    };
    Ok(
        AccountCreation {
            funding,
            account: new_account_info.key,
            space: size as u64,
            owner: program_id,
            signer_seeds: new_acct_seeds,
        },
    )
}

} // verus!
