use crank_hog::policy::{REWARD_TAG, VAULT_TAG};
use crank_hog::seeds::{SignerSeeds, MAX_SEEDS, MAX_SEED_LEN};
use crank_hog::{initialize, ErrorCode, HogVault, Initialize, Pubkey};
use std::str::FromStr;

fn sample_vault() -> HogVault {
    HogVault {
        since_last: 1_700_000_000,
        settlement_authority: Pubkey::new([1; 32]),
        nonce: 0x0102030405060708,
        underlying_token_mint: Pubkey::new([2; 32]),
        underlying_token_account: Pubkey::new([3; 32]),
        pda_bump: 254,
    }
}

#[test]
fn tags_spell_their_names() {
    assert_eq!(&VAULT_TAG, b"hog_vault");
    assert_eq!(&REWARD_TAG, b"reward");
}

#[test]
fn seed_limits_are_those_of_the_host() {
    assert_eq!(MAX_SEEDS, solana_program::pubkey::MAX_SEEDS);
    assert_eq!(MAX_SEED_LEN, solana_program::pubkey::MAX_SEED_LEN);
}

#[test]
fn vault_seeds_are_tag_authority_mint_nonce_bump() {
    let seeds = sample_vault().signer_seeds();
    let expected: Vec<Vec<u8>> = vec![
        b"hog_vault".to_vec(),
        vec![1; 32],
        vec![2; 32],
        vec![8, 7, 6, 5, 4, 3, 2, 1],
        vec![254],
    ];
    assert_eq!(seeds.as_vec(), &expected);
}

#[test]
fn vault_seeds_do_not_depend_on_the_time_or_the_store() {
    let mut other = sample_vault();
    other.since_last = 5;
    other.underlying_token_account = Pubkey::new([9; 32]);
    assert_eq!(other.signer_seeds(), sample_vault().signer_seeds());
}

#[test]
fn vault_seeds_tell_vaults_apart() {
    let base = sample_vault().signer_seeds();
    let mut other = sample_vault();
    other.nonce += 1;
    assert_ne!(other.signer_seeds(), base);
    let mut other = sample_vault();
    other.settlement_authority = Pubkey::new([7; 32]);
    assert_ne!(other.signer_seeds(), base);
    let mut other = sample_vault();
    other.underlying_token_mint = Pubkey::new([7; 32]);
    assert_ne!(other.signer_seeds(), base);
    let mut other = sample_vault();
    other.pda_bump = 253;
    assert_ne!(other.signer_seeds(), base);
}

#[test]
fn vault_seeds_derive_the_address_that_the_host_finds() {
    let program = solana_program::pubkey::Pubkey::from_str(
        "Fg6PaFpoGXkYsidMpWTK6W2BeZ7FEfcYkg476zPFsLnS",
    )
    .unwrap();
    let authority = [1u8; 32];
    let mint = [2u8; 32];
    let nonce: u64 = 77;
    let (address, bump) = solana_program::pubkey::Pubkey::find_program_address(
        &[b"hog_vault", &authority, &mint, &nonce.to_le_bytes()],
        &program,
    );
    let vault = HogVault {
        since_last: 0,
        settlement_authority: Pubkey::new(authority),
        nonce,
        underlying_token_mint: Pubkey::new(mint),
        underlying_token_account: Pubkey::new([0; 32]),
        pda_bump: bump,
    };
    let seeds = vault.signer_seeds();
    let slices: Vec<&[u8]> = seeds.as_vec().iter().map(|seed| seed.as_slice()).collect();
    let derived = solana_program::pubkey::Pubkey::create_program_address(&slices, &program);
    assert_eq!(derived, Ok(address));
}

#[test]
fn seeds_of_good_shape_are_accepted() {
    let seeds = vec![vec![1u8, 2, 3], vec![], vec![9u8; 32]];
    let made = SignerSeeds::new(seeds.clone()).unwrap();
    assert_eq!(made.as_vec(), &seeds);
    let none: Vec<Vec<u8>> = vec![];
    assert_eq!(SignerSeeds::new(none.clone()).unwrap().as_vec(), &none);
    let most: Vec<Vec<u8>> = vec![vec![0u8; 32]; 16];
    assert_eq!(SignerSeeds::new(most.clone()).unwrap().as_vec(), &most);
}

#[test]
fn too_many_seeds_are_refused() {
    let seeds: Vec<Vec<u8>> = vec![vec![0u8; 1]; 17];
    assert_eq!(SignerSeeds::new(seeds), None);
}

#[test]
fn too_long_a_seed_is_refused() {
    assert_eq!(SignerSeeds::new(vec![vec![0u8; 33]]), None);
    assert_eq!(SignerSeeds::new(vec![vec![1u8], vec![0u8; 32], vec![0u8; 33]]), None);
    assert_eq!(SignerSeeds::new(vec![vec![0u8; 33], vec![1u8]]), None);
}

#[test]
fn advance_sets_the_time_of_the_last_crank() {
    let mut vault = sample_vault();
    vault.advance(1_700_000_050);
    let mut expected = sample_vault();
    expected.since_last = 1_700_000_050;
    assert_eq!(vault, expected);
}

#[test]
fn advance_with_the_clock_behind_keeps_the_record() {
    let mut vault = sample_vault();
    vault.advance(1_699_999_000);
    assert_eq!(vault, sample_vault());
    vault.advance(0);
    assert_eq!(vault, sample_vault());
    vault.advance(-5);
    assert_eq!(vault, sample_vault());
    vault.advance(i64::MIN);
    assert_eq!(vault, sample_vault());
    vault.advance(1_699_999_999);
    assert_eq!(vault, sample_vault());
}

#[test]
fn advance_with_the_clock_at_the_record_keeps_the_record() {
    let mut vault = sample_vault();
    vault.advance(1_700_000_000);
    assert_eq!(vault, sample_vault());
}

#[test]
fn advance_moves_by_one_second() {
    let mut vault = sample_vault();
    vault.advance(1_700_000_001);
    assert_eq!(vault.since_last, 1_700_000_001);
    vault.advance(i64::MAX);
    assert_eq!(vault.since_last, i64::MAX);
    vault.advance(i64::MAX - 1);
    assert_eq!(vault.since_last, i64::MAX);
}

#[test]
fn accrual_time_never_moves_back_under_any_clock() {
    let mut vault = sample_vault();
    let mut previous = vault.since_last;
    let nows = [
        1_700_000_010,
        1_600_000_000,
        1_700_000_005,
        1_700_000_010,
        1_700_000_011,
        i64::MIN,
        0,
        1_800_000_000,
        1_799_999_999,
    ];
    let after = [
        1_700_000_010,
        1_700_000_010,
        1_700_000_010,
        1_700_000_010,
        1_700_000_011,
        1_700_000_011,
        1_700_000_011,
        1_800_000_000,
        1_800_000_000,
    ];
    let mut step = 0;
    while step < nows.len() {
        vault.advance(nows[step]);
        assert!(vault.since_last >= previous);
        if nows[step] > previous {
            assert!(vault.since_last > previous);
        }
        assert_eq!(vault.since_last, after[step]);
        previous = vault.since_last;
        step += 1;
    }
    let mut expected = sample_vault();
    expected.since_last = 1_800_000_000;
    assert_eq!(vault, expected);
}

#[test]
fn accrual_time_never_moves_back_under_a_steady_clock() {
    let mut vault = sample_vault();
    let mut previous = vault.since_last;
    let nows = [1_700_000_000, 1_700_000_001, 1_700_000_001, 1_700_000_500, 1_800_000_000];
    for now in nows {
        vault.advance(now);
        assert!(vault.since_last >= previous);
        if now > previous {
            assert!(vault.since_last > previous);
        }
        previous = vault.since_last;
    }
    assert_eq!(vault.since_last, 1_800_000_000);
}

#[test]
fn initialize_fills_the_record() {
    let mut ctx = Initialize {
        vault: HogVault {
            since_last: 0,
            settlement_authority: Pubkey::new([0; 32]),
            nonce: 0,
            underlying_token_mint: Pubkey::new([0; 32]),
            underlying_token_account: Pubkey::new([0; 32]),
            pda_bump: 0,
        },
        underlying_token_mint: Pubkey::new([4; 32]),
        vault_underlying_token_account: Pubkey::new([5; 32]),
        vault_bump: 251,
    };
    let done: Result<(), ErrorCode> = initialize(&mut ctx, Pubkey::new([6; 32]), 42);
    assert_eq!(done, Ok(()));
    assert_eq!(
        ctx.vault,
        HogVault {
            since_last: 0,
            settlement_authority: Pubkey::new([6; 32]),
            nonce: 42,
            underlying_token_mint: Pubkey::new([4; 32]),
            underlying_token_account: Pubkey::new([5; 32]),
            pda_bump: 251,
        }
    );
    assert_eq!(ctx.underlying_token_mint, Pubkey::new([4; 32]));
    assert_eq!(ctx.vault_underlying_token_account, Pubkey::new([5; 32]));
    assert_eq!(ctx.vault_bump, 251);
}

#[test]
fn initialize_keeps_the_time_of_the_last_crank() {
    let mut ctx = Initialize {
        vault: sample_vault(),
        underlying_token_mint: Pubkey::new([4; 32]),
        vault_underlying_token_account: Pubkey::new([5; 32]),
        vault_bump: 1,
    };
    assert_eq!(initialize(&mut ctx, Pubkey::new([6; 32]), 1), Ok(()));
    assert_eq!(ctx.vault.since_last, 1_700_000_000);
}
