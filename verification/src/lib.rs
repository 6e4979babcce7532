//! Controller of a reward vault.
//!
//! A vault accrues a reward over time. A crank turns what has accrued into
//! newly minted tokens for the caller, provided that the batch of operations
//! around the crank holds nothing but fee adjustments before it and nothing
//! after it.
//!
//! - `batch` guards the batch, and `sysvar` reads the batch out of the account
//!   in which the host keeps it;
//! - `reward` computes what has accrued, with the square roots of `roots`;
//! - `vault` holds the record of a vault and derives the seeds under which it
//!   signs, which `seeds` keeps in shape;
//! - `crank` puts these together into the decision on one crank;
//! - `mint` describes the reward token when it is registered;
//! - `policy` holds the constants of all of them, and `pubkey` and `error` the
//!   identities and the refusals.

pub mod batch;
pub mod crank;
pub mod error;
pub mod mint;
pub mod policy;
pub mod pubkey;
pub mod reward;
pub mod roots;
pub mod seeds;
pub mod sysvar;
pub mod vault;

pub use crank::{crank_hog, CrankHog};
pub use error::ErrorCode;
pub use mint::{create_mint, CreateMint};
pub use pubkey::Pubkey;
pub use reward::reward_amount;
pub use vault::{initialize, HogVault, Initialize};
