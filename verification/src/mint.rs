//! Registration of the reward token: the description that is attached to its
//! mint, and the seeds under which the mint signs for it.

use crate::error::ErrorCode;
use crate::policy::{admin, is_admin, REWARD_TAG};
use crate::pubkey::Pubkey;
use crate::seeds::{seeds_view, well_shaped, SignerSeeds};
use vstd::prelude::*;

verus! {

/// What the registration of the reward token is given.
#[derive(Clone, Copy, Debug, PartialEq, Eq)]
pub struct CreateMint {
    /// Who registers the token, and pays for it.
    pub admin: Pubkey,
    /// The mint of the reward token, which is its own authority.
    pub reward_token_mint: Pubkey,
    /// The account that is to hold the description.
    pub metadata_account: Pubkey,
    /// The bump that the mint's address was derived with.
    pub reward_token_mint_bump: u8,
}

/// The description of a token. The token has no creators, belongs to no
/// collection and has no uses.
#[derive(Debug, PartialEq, Eq)]
pub struct DataV2 {
    pub name: String,
    pub symbol: String,
    pub uri: String,
    /// The share of a resale that goes to the creators, in hundredths of a percent.
    pub seller_fee_basis_points: u16,
}

/// What the host is asked to carry out: to create the account `metadata` with
/// the description `data` for `mint`, paid by `payer`, under the authority
/// `mint_authority`, which signs by `signer_seeds`.
#[derive(Debug, PartialEq, Eq)]
pub struct CreateMetadata {
    pub metadata: Pubkey,
    pub mint: Pubkey,
    pub mint_authority: Pubkey,
    pub update_authority: Pubkey,
    pub payer: Pubkey,
    pub data: DataV2,
    pub is_mutable: bool,
    pub update_authority_is_signer: bool,
    pub signer_seeds: SignerSeeds,
}

/// The seeds of the reward mint's address: the tag and the bump.
pub open spec fn reward_mint_seeds(bump: u8) -> Seq<Seq<u8>> {
    seq![REWARD_TAG@, seq![bump]]
}

/// The bytes of the tag.
fn reward_tag() -> (tag: Vec<u8>)
    ensures
        tag@ == REWARD_TAG@,
{
    let mut tag: Vec<u8> = Vec::with_capacity(6);
    let mut i: usize = 0;
    while i < 6
        invariant
            i <= 6,
            tag@ == REWARD_TAG@.subrange(0, i as int),
        decreases 6 - i,
    {
        tag.push(REWARD_TAG[i]);
        assert(tag@ =~= REWARD_TAG@.subrange(0, i + 1));
        i += 1;
    }
    assert(tag@ =~= REWARD_TAG@);
    tag
}

impl CreateMint {
    /// The seeds under which the reward mint signs: those of its own address.
    pub fn signer_seeds(&self) -> (seeds: SignerSeeds)
        ensures
            seeds@ == reward_mint_seeds(self.reward_token_mint_bump),
    {
        let mut parts: Vec<Vec<u8>> = Vec::with_capacity(2);
        parts.push(reward_tag());
        let mut bump: Vec<u8> = Vec::with_capacity(1);
        bump.push(self.reward_token_mint_bump);
        parts.push(bump);
        proof {
            let seeds = reward_mint_seeds(self.reward_token_mint_bump);
            assert(seeds[0].len() == 6);
            assert(seeds[1].len() == 1);
            assert(well_shaped(seeds));
            assert(bump@ =~= seq![self.reward_token_mint_bump]);
            assert(seeds_view(parts@) =~= seeds);
        }
        SignerSeeds::of_shaped(parts)
    }
}

/// Says what is to be registered for the reward token, for the administrator
/// and for nobody else: a description with the given name, symbol and address
/// of further data, with no resale fee, that can be changed later. The mint is
/// its own mint authority and update authority, and signs with the seeds of
/// its own address.
pub fn create_mint(ctx: &CreateMint, uri: String, name: String, symbol: String) -> (order: Result<
    CreateMetadata,
    ErrorCode,
>)
    ensures
        order is Ok <==> admin() == Some(ctx.admin@),
        order matches Err(refusal) ==> refusal == ErrorCode::NotAdmin,
        order matches Ok(create) ==> {
            &&& create.metadata == ctx.metadata_account
            &&& create.mint == ctx.reward_token_mint
            &&& create.mint_authority == ctx.reward_token_mint
            &&& create.update_authority == ctx.reward_token_mint
            &&& create.payer == ctx.admin
            &&& create.data.name == name
            &&& create.data.symbol == symbol
            &&& create.data.uri == uri
            &&& create.data.seller_fee_basis_points == 0
            &&& create.is_mutable
            &&& create.update_authority_is_signer
            &&& create.signer_seeds@ == reward_mint_seeds(ctx.reward_token_mint_bump)
        },
{
    if !is_admin(&ctx.admin) {
        return Err(ErrorCode::NotAdmin);
    }
    let signer_seeds = ctx.signer_seeds();
    let data = DataV2 { name, symbol, uri, seller_fee_basis_points: 0 };
    Ok(
        CreateMetadata {
            metadata: ctx.metadata_account,
            mint: ctx.reward_token_mint,
            mint_authority: ctx.reward_token_mint,
            update_authority: ctx.reward_token_mint,
            payer: ctx.admin,
            data,
            is_mutable: true,
            update_authority_is_signer: true,
            signer_seeds,
        },
    )
}

} // verus!
