//! The vault record and the seeds of its address.

use crate::error::ErrorCode;
use crate::policy::VAULT_TAG;
use crate::pubkey::{lemma_pubkey_by_bytes, Pubkey};
use crate::seeds::{seeds_view, well_shaped, SignerSeeds};
use vstd::bytes::{lemma_auto_spec_u64_to_from_le_bytes, spec_u64_to_le_bytes, u64_to_le_bytes};
use vstd::prelude::*;

verus! {

/// The state of one reward vault.
#[derive(Clone, Copy, Debug, PartialEq, Eq)]
pub struct HogVault {
    /// When the vault was last cranked, in seconds.
    pub since_last: i64,
    /// The account that can either finalize the vault to make conditional tokens
    /// redeemable for underlying tokens or revert the vault to make deposit
    /// slips redeemable for underlying tokens.
    pub settlement_authority: Pubkey,
    /// A nonce to allow a single account to be the settlement authority of multiple
    /// vaults with the same underlying token mints.
    pub nonce: u64,
    /// The mint of the token that the vault holds.
    pub underlying_token_mint: Pubkey,
    /// The vault's storage account for deposited funds.
    pub underlying_token_account: Pubkey,
    /// The bump that completes the seeds of the vault's address.
    pub pda_bump: u8,
}

/// What the creation of a vault is given.
#[derive(Clone, Copy, Debug, PartialEq, Eq)]
pub struct Initialize {
    /// The record of the vault that is created.
    pub vault: HogVault,
    /// The mint of the token that the vault is to hold.
    pub underlying_token_mint: Pubkey,
    /// The account that is to store the vault's deposits.
    pub vault_underlying_token_account: Pubkey,
    /// The bump that the vault's address was derived with.
    pub vault_bump: u8,
}

/// The vault after a crank at `now`: the time of the last crank is the later
/// of `now` and what the record held, so that it never moves back.
pub open spec fn cranked(vault: HogVault, now: i64) -> HogVault {
    if now > vault.since_last {
        HogVault { since_last: now, ..vault }
    } else {
        vault
    }
}

/// The vault after a crank at each of `nows`, in that order.
pub open spec fn cranked_all(vault: HogVault, nows: Seq<i64>) -> HogVault
    decreases nows.len(),
{
    if nows.len() == 0 {
        vault
    } else {
        cranked(cranked_all(vault, nows.drop_last()), nows.last())
    }
}

/// The seeds of a vault's address: the tag, the settlement authority, the
/// underlying mint, the nonce in little-endian bytes, and the bump.
pub open spec fn vault_seeds(vault: HogVault) -> Seq<Seq<u8>> {
    seq![
        VAULT_TAG@,
        vault.settlement_authority@,
        vault.underlying_token_mint@,
        spec_u64_to_le_bytes(vault.nonce),
        seq![vault.pda_bump],
    ]
}

/// The bytes of the tag.
fn vault_tag() -> (tag: Vec<u8>)
    ensures
        tag@ == VAULT_TAG@,
{
    let mut tag: Vec<u8> = Vec::with_capacity(9);
    let mut i: usize = 0;
    while i < 9
        invariant
            i <= 9,
            tag@ == VAULT_TAG@.subrange(0, i as int),
        decreases 9 - i,
    {
        tag.push(VAULT_TAG[i]);
        assert(tag@ =~= VAULT_TAG@.subrange(0, i + 1));
        i += 1;
    }
    assert(tag@ =~= VAULT_TAG@);
    tag
}

impl HogVault {
    /// The seeds under which the vault signs: those of its own address.
    pub fn signer_seeds(&self) -> (seeds: SignerSeeds)
        ensures
            seeds@ == vault_seeds(*self),
    {
        let mut parts: Vec<Vec<u8>> = Vec::with_capacity(5);
        parts.push(vault_tag());
        parts.push(self.settlement_authority.to_vec());
        parts.push(self.underlying_token_mint.to_vec());
        parts.push(u64_to_le_bytes(self.nonce));
        let mut bump: Vec<u8> = Vec::with_capacity(1);
        bump.push(self.pda_bump);
        parts.push(bump);
        proof {
            lemma_vault_seeds_shape(*self);
            assert(bump@ =~= seq![self.pda_bump]);
            assert(seeds_view(parts@) =~= vault_seeds(*self));
        }
        SignerSeeds::of_shaped(parts)
    }

    /// Commits a crank: records that the vault was cranked at `now`. This is
    /// the last step of a crank, for when the host has minted what was
    /// ordered. A clock that is behind the record leaves the record as it is:
    /// the seconds up to the recorded time are paid for already.
    pub fn advance(&mut self, now: i64)
        ensures
            *final(self) == cranked(*old(self), now),
            final(self).since_last >= old(self).since_last,
            now >= old(self).since_last ==> final(self).since_last == now,
            now > old(self).since_last ==> final(self).since_last > old(self).since_last,
    {
        if now > self.since_last {
            self.since_last = now;
        }
    }
}

/// Fills in the record of a new vault: who settles it, its nonce, the mint and
/// the account of the underlying token, and the bump of its address. The time
/// of the last crank stays as the record had it.
pub fn initialize(ctx: &mut Initialize, settlement_authority: Pubkey, nonce: u64) -> (done: Result<
    (),
    ErrorCode,
>)
    ensures
        done is Ok,
        final(ctx).vault == (HogVault {
            since_last: old(ctx).vault.since_last,
            settlement_authority,
            nonce,
            underlying_token_mint: old(ctx).underlying_token_mint,
            underlying_token_account: old(ctx).vault_underlying_token_account,
            pda_bump: old(ctx).vault_bump,
        }),
        *final(ctx) == (Initialize { vault: final(ctx).vault, ..*old(ctx) }),
{
    ctx.vault.settlement_authority = settlement_authority;
    ctx.vault.underlying_token_mint = ctx.underlying_token_mint;
    ctx.vault.nonce = nonce;
    ctx.vault.underlying_token_account = ctx.vault_underlying_token_account;
    ctx.vault.pda_bump = ctx.vault_bump;
    Ok(())
}

/// Over any run of cranks, whatever the clock shows, each crank leaves the
/// record no earlier than it was, and later where the clock is ahead of it.
pub proof fn lemma_accrual_monotonic(vault: HogVault, nows: Seq<i64>, n: int)
    requires
        0 <= n < nows.len(),
    ensures
        cranked_all(vault, nows.take(n + 1)).since_last >= cranked_all(
            vault,
            nows.take(n),
        ).since_last,
        nows[n] > cranked_all(vault, nows.take(n)).since_last ==> cranked_all(
            vault,
            nows.take(n + 1),
        ).since_last > cranked_all(vault, nows.take(n)).since_last,
        cranked_all(vault, nows.take(n + 1)) == cranked(cranked_all(vault, nows.take(n)), nows[n]),
{
    assert(nows.take(n + 1).drop_last() =~= nows.take(n));
    assert(nows.take(n + 1).last() == nows[n]);
}

/// The record after a run of cranks is no earlier than before the run, and no
/// earlier than any clock of the run.
pub proof fn lemma_accrual_never_behind(vault: HogVault, nows: Seq<i64>)
    ensures
        cranked_all(vault, nows).since_last >= vault.since_last,
        forall|i: int| 0 <= i < nows.len() ==> cranked_all(vault, nows).since_last >= nows[i],
    decreases nows.len(),
{
    if nows.len() > 0 {
        lemma_accrual_never_behind(vault, nows.drop_last());
        assert forall|i: int| 0 <= i < nows.len() implies cranked_all(vault, nows).since_last
            >= nows[i] by {
            if i < nows.len() - 1 {
                assert(nows.drop_last()[i] == nows[i]);
            }
        }
    }
}

/// A crank touches nothing of the record but the time of the last crank.
pub proof fn lemma_cranks_keep_identity(vault: HogVault, nows: Seq<i64>)
    ensures
        cranked_all(vault, nows) == (HogVault {
            since_last: cranked_all(vault, nows).since_last,
            ..vault
        }),
        vault_seeds(cranked_all(vault, nows)) == vault_seeds(vault),
    decreases nows.len(),
{
    if nows.len() > 0 {
        lemma_cranks_keep_identity(vault, nows.drop_last());
    }
}

/// The seeds of every vault have the shape that an address can be derived
/// from: five seeds, the longest of 32 bytes.
pub proof fn lemma_vault_seeds_shape(vault: HogVault)
    ensures
        vault_seeds(vault).len() == 5,
        well_shaped(vault_seeds(vault)),
{
    lemma_auto_spec_u64_to_from_le_bytes();
    let seeds = vault_seeds(vault);
    assert(seeds[0].len() == 9);
    assert(seeds[1].len() == 32);
    assert(seeds[2].len() == 32);
    assert(seeds[3].len() == 8);
    assert(seeds[4].len() == 1);
}

/// Two vaults have the same seeds only where they agree on the settlement
/// authority, the underlying mint, the nonce and the bump.
pub proof fn lemma_vault_seeds_injective(a: HogVault, b: HogVault)
    requires
        vault_seeds(a) == vault_seeds(b),
    ensures
        a.settlement_authority == b.settlement_authority,
        a.underlying_token_mint == b.underlying_token_mint,
        a.nonce == b.nonce,
        a.pda_bump == b.pda_bump,
{
    lemma_auto_spec_u64_to_from_le_bytes();
    assert(vault_seeds(a)[1] == vault_seeds(b)[1]);
    assert(vault_seeds(a)[2] == vault_seeds(b)[2]);
    assert(vault_seeds(a)[3] == vault_seeds(b)[3]);
    assert(vault_seeds(a)[4] == vault_seeds(b)[4]);
    assert(seq![a.pda_bump][0] == a.pda_bump);
    assert(seq![b.pda_bump][0] == b.pda_bump);
    lemma_pubkey_by_bytes(a.settlement_authority, b.settlement_authority);
    lemma_pubkey_by_bytes(a.underlying_token_mint, b.underlying_token_mint);
}

} // verus!
