//! The fixed policy of the vault, in one place: the milestone of the reward
//! curve, the identities that the rules name, and the tags of the derived
//! addresses.

use crate::pubkey::{bytes_of, pubkey_of_base58, Pubkey};
use vstd::prelude::*;

verus! {

/// The date, in seconds, toward which the reward rate decays.
pub const MILESTONE_TS: i64 = 1724876400;

/// The program whose operations only tune fees and priority, in base58.
pub const COMPUTE_BUDGET_PROGRAM: &'static str = "ComputeBudget111111111111111111111111111111";

/// The one identity that may register the reward mint, in base58.
pub const ADMIN_PUBKEY: &'static str = "HfFi634cyurmVVDr9frwu4MjGLJzz9XbAJz981HdVaNz";

/// The account in which the host keeps the batch in flight, in base58.
pub const INSTRUCTIONS_SYSVAR: &'static str = "Sysvar1nstructions1111111111111111111111111";

/// The first seed of a vault's address: the text `hog_vault`.
pub const VAULT_TAG: [u8; 9] = [104, 111, 103, 95, 118, 97, 117, 108, 116];

/// The only seed of the reward mint's address besides its bump: the text `reward`.
pub const REWARD_TAG: [u8; 6] = [114, 101, 119, 97, 114, 100];

/// The benign program, where its text names an identity.
pub open spec fn benign_program() -> Option<Seq<u8>> {
    pubkey_of_base58(COMPUTE_BUDGET_PROGRAM@)
}

/// The administrator, where its text names an identity.
pub open spec fn admin() -> Option<Seq<u8>> {
    pubkey_of_base58(ADMIN_PUBKEY@)
}

/// The instructions account, where its text names an identity.
pub open spec fn instructions_sysvar() -> Option<Seq<u8>> {
    pubkey_of_base58(INSTRUCTIONS_SYSVAR@)
}

/// The id of the program whose operations may stand before a crank.
pub fn compute_budget_program() -> (program: Option<Pubkey>)
    ensures
        bytes_of(program) == benign_program(),
{
    Pubkey::from_base58(COMPUTE_BUDGET_PROGRAM)
}

/// Whether `key` is the administrator.
pub fn is_admin(key: &Pubkey) -> (yes: bool)
    ensures
        yes == (admin() == Some(key@)),
{
    match Pubkey::from_base58(ADMIN_PUBKEY) {
        Some(admin) => admin == *key,
        None => false,
    }
}

/// Whether `key` is the address of the instructions account.
pub fn is_instructions_sysvar(key: &Pubkey) -> (yes: bool)
    ensures
        yes == (instructions_sysvar() == Some(key@)),
{
    match Pubkey::from_base58(INSTRUCTIONS_SYSVAR) {
        Some(sysvar) => sysvar == *key,
        None => false,
    }
}

} // verus!
