//! The crank: what it is given, what it decides, and what it asks of the
//! host.
//!
//! A crank runs in two steps around the one thing that only the host can do.
//! `crank_hog` guards the batch, computes the reward and says what is to be
//! minted, to whom and under which seeds; it changes nothing. Once the host has
//! minted, `HogVault::advance` records the time of the crank, which never
//! moves the record back.

use crate::batch::{respectful, targets, validate_batch, Instructions};
use crate::error::ErrorCode;
use crate::policy::benign_program;
use crate::pubkey::Pubkey;
use crate::reward::{accrued, reward, reward_amount};
use crate::seeds::SignerSeeds;
use crate::vault::{vault_seeds, HogVault};
use vstd::prelude::*;

verus! {

/// What a crank is given.
#[derive(Debug, PartialEq, Eq)]
pub struct CrankHog {
    /// The address of the vault, which is the authority over the reward mint.
    pub vault_address: Pubkey,
    /// The record of the vault.
    pub vault: HogVault,
    /// The mint of the reward token.
    pub hog_token_mint: Pubkey,
    /// The account that the reward is credited to.
    pub user_hog_token_account: Pubkey,
    /// The batch that the crank was submitted in.
    pub instructions: Instructions,
}

/// What the host is asked to carry out: to mint `amount` of `mint` to the
/// account `to`, under the authority `authority`, which signs by
/// `signer_seeds`.
#[derive(Debug, PartialEq, Eq)]
pub struct MintTo {
    pub mint: Pubkey,
    pub to: Pubkey,
    pub authority: Pubkey,
    pub signer_seeds: SignerSeeds,
    pub amount: u64,
}

/// The batch that the crank stands in is respectful of it.
pub open spec fn crank_respected(ctx: CrankHog) -> bool {
    respectful(
        ctx.instructions.operations@,
        ctx.instructions.current_index as int,
        benign_program(),
    )
}

/// Decides a crank at `now`. A batch that is not respectful of the crank is
/// refused. Otherwise the reward accrued since the last crank is to be minted
/// to the caller's account, and the vault signs for it with the seeds of its
/// own address. Either way the record of the vault stays as it is: a refused
/// crank leaves no trace, and an honoured one is committed by
/// `HogVault::advance` after the mint.
pub fn crank_hog(ctx: &CrankHog, now: i64) -> (order: Result<MintTo, ErrorCode>)
    ensures
        order is Ok <==> crank_respected(*ctx),
        order matches Err(refusal) ==> refusal == ErrorCode::DisrespectfulCrank,
        order matches Ok(mint_to) ==> {
            &&& mint_to.mint == ctx.hog_token_mint
            &&& mint_to.to == ctx.user_hog_token_account
            &&& mint_to.authority == ctx.vault_address
            &&& mint_to.signer_seeds@ == vault_seeds(ctx.vault)
            &&& mint_to.amount == reward(now as int, ctx.vault.since_last as int)
        },
        // An operation before the crank that is not benign has the crank refused.
        (exists|i: int|
            0 <= i < ctx.instructions.current_index && i < ctx.instructions.operations@.len()
                && !targets(ctx.instructions.operations@[i], benign_program())) ==> order is Err,
        // So has an operation after the crank.
        ctx.instructions.current_index + 1 < ctx.instructions.operations@.len() ==> order is Err,
        // A clock that is not ahead of the last crank earns nothing.
        order matches Ok(mint_to) ==> (ctx.vault.since_last >= now ==> mint_to.amount == 0),
        // What does not fit the amount type is the largest amount.
        order matches Ok(mint_to) ==> (accrued(now as int, ctx.vault.since_last as int) > u64::MAX
            ==> mint_to.amount == u64::MAX),
{
    match validate_batch(&ctx.instructions.operations, ctx.instructions.current_index) {
        Err(refusal) => {
            return Err(refusal);
        },
        Ok(_) => {},
    }
    let amount: u64 = match reward_amount(now, ctx.vault.since_last) {
        Ok(amount) => amount,
        Err(refusal) => {
            return Err(refusal);
        },
    };
    Ok(
        MintTo {
            mint: ctx.hog_token_mint,
            to: ctx.user_hog_token_account,
            authority: ctx.vault_address,
            signer_seeds: ctx.vault.signer_seeds(),
            amount,
        },
    )
}

} // verus!
